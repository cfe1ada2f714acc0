//! The service that answers every request with one embedded file.
use vstd::prelude::*;
use crate::body::AsyncReadBody;
use crate::request::Response;
use crate::serve_dir::{mime_for, mime_type};
use crate::DEFAULT_CAPACITY;

verus! {

/// A file: its bytes and the media type it is served with.
#[derive(Clone, Debug)]
pub struct File {
    bytes: &'static [u8],
    mime: String,
}

impl File {
    pub closed spec fn contents(&self) -> Seq<u8> {
        self.bytes@
    }

    pub closed spec fn mime(&self) -> Seq<char> {
        self.mime@
    }

    /// Create a new [`File`] with the given media type.
    pub fn new(bytes: &'static [u8], mime: String) -> (r: Self)
        ensures
            r.contents() == bytes@,
            r.mime() == mime@,
    {
        File { bytes, mime }
    }

    /// Create a new [`File`] whose media type is guessed from the extension of
    /// `path`, with `application/octet-stream` when none is known.
    pub fn from_path(bytes: &'static [u8], path: &str) -> (r: Self)
        ensures
            r.contents() == bytes@,
            r.mime() == mime_for(path@),
    {
        File { bytes, mime: mime_type(path) }
    }

    fn duplicate(&self) -> (r: Self)
        ensures
            r.contents() == self.contents(),
            r.mime() == self.mime(),
    {
        File { bytes: self.bytes, mime: self.mime.clone() }
    }
}

/// Service that serves a file.
#[derive(Clone, Debug)]
pub struct ServeFile {
    file: File,
    buf_chunk_size: usize,
}

impl ServeFile {
    pub closed spec fn contents(&self) -> Seq<u8> {
        self.file.contents()
    }

    pub closed spec fn mime(&self) -> Seq<char> {
        self.file.mime()
    }

    pub closed spec fn chunk_size(&self) -> usize {
        self.buf_chunk_size
    }

    /// Chunks are not empty.
    pub open spec fn wf(&self) -> bool {
        self.chunk_size() > 0
    }

    /// Create a new [`ServeFile`], serving in chunks of [`DEFAULT_CAPACITY`] bytes.
    pub fn new(file: File) -> (r: Self)
        ensures
            r.wf(),
            r.contents() == file.contents(),
            r.mime() == file.mime(),
            r.chunk_size() == DEFAULT_CAPACITY,
    {
        ServeFile { file, buf_chunk_size: DEFAULT_CAPACITY }
    }

    /// Set the number of bytes in each chunk of the body.
    pub fn with_buf_chunk_size(self, chunk_size: usize) -> (r: Self)
        requires
            chunk_size > 0,
        ensures
            r.wf(),
            r.contents() == self.contents(),
            r.mime() == self.mime(),
            r.chunk_size() == chunk_size,
    {
        ServeFile { buf_chunk_size: chunk_size, ..self }
    }

    /// Answer a request: the request itself is not read.
    pub fn call(&self) -> (r: ResponseFuture)
        requires
            self.wf(),
        ensures
            r.wf(),
            r.contents() == self.contents(),
            r.mime() == self.mime(),
            r.chunk_size() == self.chunk_size(),
    {
        ResponseFuture { file: self.file.duplicate(), buf_chunk_size: self.buf_chunk_size }
    }
}

/// The response of [`ServeFile`] to one request, before it is assembled.
pub struct ResponseFuture {
    file: File,
    buf_chunk_size: usize,
}

impl ResponseFuture {
    pub closed spec fn contents(&self) -> Seq<u8> {
        self.file.contents()
    }

    pub closed spec fn mime(&self) -> Seq<char> {
        self.file.mime()
    }

    pub closed spec fn chunk_size(&self) -> usize {
        self.buf_chunk_size
    }

    /// Chunks are not empty.
    pub open spec fn wf(&self) -> bool {
        self.chunk_size() > 0
    }

    /// Assemble the response: `200`, the file's media type, and its bytes.
    pub fn poll(self) -> (r: Response)
        requires
            self.wf(),
        ensures
            r.status == 200,
            r.content_type matches Some(t) && t@ == self.mime(),
            r.last_modified is None && r.location is None,
            r.body matches Some(b) && b.wf() && b.remaining() == self.contents()
                && b.chunk_size() == self.chunk_size(),
    {
        let body = AsyncReadBody::with_capacity(self.file.bytes, self.buf_chunk_size);
        Response {
            status: 200,
            content_type: Some(self.file.mime),
            last_modified: None,
            location: None,
            body: Some(body),
        }
    }
}

} // verus!
