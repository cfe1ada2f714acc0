//! Services that answer requests with assets embedded into the binary: one
//! fixed file, or a whole directory tree looked up by request path.
use vstd::prelude::*;

pub mod bindings;
pub mod body;
pub mod request;
pub mod serve_dir;
pub mod serve_file;

pub use body::AsyncReadBody;
pub use request::{Method, RequestHead, Response};
pub use serve_dir::{Resolved, ResponseFuture as ServeDirResponseFuture, ServeDir};
pub use serve_file::{File, ResponseFuture as ServeFileResponseFuture, ServeFile};

verus! {

/// Chunk size used by both services unless configured otherwise: 64 KiB.
pub const DEFAULT_CAPACITY: usize = 65536;

} // verus!
