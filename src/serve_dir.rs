//! The service that serves files from an embedded directory tree.
use include_dir::Dir;
use vstd::prelude::*;
use vstd::string::*;
use crate::bindings::{
    decode_percent, format_http_date, guess_mime, has_dir, http_date_secs, http_date_text,
    lookup_file, mime_guess_for, octet_stream, parse_http_date, percent_decoded, tree_dirs,
    tree_files, tree_times_bounded, HTTP_DATE_LIMIT,
};
use crate::body::AsyncReadBody;
use crate::request::{Method, RequestHead, Response};
use crate::DEFAULT_CAPACITY;

verus! {

/// The index of the first character at or after `i` that is not a `/`.
pub open spec fn skip_slashes_from(s: Seq<char>, i: int) -> int
    decreases s.len() - i,
{
    if 0 <= i < s.len() && s[i] == '/' {
        skip_slashes_from(s, i + 1)
    } else {
        i
    }
}

/// A path without its leading separators.
pub open spec fn trim_slashes(s: Seq<char>) -> Seq<char> {
    s.skip(skip_slashes_from(s, 0))
}

/// Position `i` of a decoded path holds a backslash, or starts a segment with `..`.
pub open spec fn bad_at(d: Seq<char>, i: int) -> bool {
    d[i] == '\\' || (d[i] == '.' && i + 1 < d.len() && d[i + 1] == '.' && (i == 0 || d[i - 1] == '/'))
}

/// No segment of a decoded path starts with `..` or holds a backslash.
pub open spec fn segments_allowed(d: Seq<char>) -> bool {
    forall|i: int| 0 <= i < d.len() ==> !#[trigger] bad_at(d, i)
}

pub open spec fn ends_with_slash(s: Seq<char>) -> bool {
    s.len() > 0 && s.last() == '/'
}

/// The root (the empty path) is a directory of every tree.
pub open spec fn is_dir(dir: Dir<'static>, p: Seq<char>) -> bool {
    p.len() == 0 || tree_dirs(dir).contains(p)
}

/// The index file of a directory.
pub open spec fn index_path(p: Seq<char>) -> Seq<char> {
    if ends_with_slash(p) || p.len() == 0 {
        p + "index.html"@
    } else {
        p + "/index.html"@
    }
}

/// The media type served for a path: the guess from its extension, else
/// `application/octet-stream`.
pub open spec fn mime_for(p: Seq<char>) -> Seq<char> {
    match mime_guess_for(p) {
        Some(m) => m,
        None => "application/octet-stream"@,
    }
}

/// What a redirect target keeps of the request URI before its path:
/// `scheme://authority`, `//authority` or `scheme:`, whichever parts it has.
pub open spec fn uri_prefix(req: RequestHead) -> Seq<char> {
    match (req.scheme, req.authority) {
        (Some(s), Some(a)) => s@ + "://"@ + a@,
        (None, Some(a)) => "//"@ + a@,
        (Some(s), None) => s@ + ":"@,
        (None, None) => Seq::<char>::empty(),
    }
}

/// What a redirect target keeps of the request URI after its path: `?query`.
pub open spec fn query_suffix(req: RequestHead) -> Seq<char> {
    match req.query {
        Some(q) => "?"@ + q@,
        None => Seq::<char>::empty(),
    }
}

/// Where a request for a directory without its trailing slash is sent: the
/// same URI with one `/` appended to its path, scheme, authority and query kept.
pub open spec fn location_of(req: RequestHead) -> Seq<char> {
    uri_prefix(req) + req.path@ + "/"@ + query_suffix(req)
}

/// A modification time is no later than a whole second `since`.
pub open spec fn not_after(modified: (u64, u32), since: u64) -> bool {
    modified.0 < since || (modified.0 == since && modified.1 == 0)
}

/// The conditional-GET rule, over an `If-Modified-Since` date already read:
/// only for GET and HEAD, only without `If-None-Match`, and only for a file
/// with a modification time no later than the date.
pub open spec fn unmodified_spec(
    modified: Option<(u64, u32)>,
    if_none_match: bool,
    method: Method,
    since: Option<u64>,
) -> bool {
    &&& modified is Some
    &&& !if_none_match
    &&& (method == Method::Get || method == Method::Head)
    &&& since is Some
    &&& not_after(modified.unwrap(), since.unwrap())
}

/// The date a request's `If-Modified-Since` header gives, if it has one that parses.
pub open spec fn since_of(req: RequestHead) -> Option<u64> {
    match req.if_modified_since {
        Some(h) => http_date_secs(h@),
        None => None,
    }
}

pub open spec fn unmodified_for(modified: Option<(u64, u32)>, req: RequestHead) -> bool {
    unmodified_spec(modified, req.if_none_match, req.method, since_of(req))
}

/// The response assembled for an outcome: `200` with the file's type, its
/// modification date when known, and its bytes; `307` to the redirect target;
/// `404` for a missing file or a rejected path; `304` for an unmodified file.
pub open spec fn response_for(v: ResolvedView, r: Response) -> bool {
    match v {
        ResolvedView::File { contents, mime, modified, chunk_size } => {
            &&& r.status == 200
            &&& r.content_type matches Some(t) && t@ == mime
            &&& r.location is None
            &&& match modified {
                Some(m) => r.last_modified matches Some(l) && l@ == http_date_text(m.0)
                    && http_date_secs(l@) == Some(m.0),
                None => r.last_modified is None,
            }
            &&& r.body matches Some(b) && b.wf() && b.remaining() == contents && b.chunk_size() == chunk_size
        },
        ResolvedView::Redirect(l) => {
            &&& r.status == 307
            &&& r.location matches Some(x) && x@ == l
            &&& r.content_type is None && r.last_modified is None && r.body is None
        },
        ResolvedView::NotFound | ResolvedView::Invalid => {
            &&& r.status == 404
            &&& r.location is None && r.content_type is None && r.last_modified is None && r.body is None
        },
        ResolvedView::NotModified => {
            &&& r.status == 304
            &&& r.location is None && r.content_type is None && r.last_modified is None && r.body is None
        },
    }
}

/// The outcome of resolving a request, as values.
pub enum ResolvedView {
    File { contents: Seq<u8>, mime: Seq<char>, modified: Option<(u64, u32)>, chunk_size: usize },
    Redirect(Seq<char>),
    NotFound,
    Invalid,
    NotModified,
}

/// The decoded, relative path a request names, unless it fails to decode.
pub open spec fn decoded_path(req: RequestHead) -> Option<Seq<char>> {
    percent_decoded(trim_slashes(req.path@))
}

/// The file a request for the path `p` (already decoded and allowed) is served from.
pub open spec fn file_path(dir: Dir<'static>, p: Seq<char>) -> Seq<char> {
    if is_dir(dir, p) {
        index_path(p)
    } else {
        p
    }
}

/// How a request resolves against a tree.
pub open spec fn resolve_spec(dir: Dir<'static>, index: bool, chunk_size: usize, req: RequestHead) -> ResolvedView {
    match decoded_path(req) {
        None => ResolvedView::Invalid,
        Some(d) => if !segments_allowed(d) {
            ResolvedView::Invalid
        } else {
            let p = trim_slashes(d);
            if !ends_with_slash(req.path@) && is_dir(dir, p) {
                ResolvedView::Redirect(location_of(req))
            } else if is_dir(dir, p) && !index {
                ResolvedView::NotFound
            } else {
                let fp = file_path(dir, p);
                if !tree_files(dir).contains_key(fp) {
                    ResolvedView::NotFound
                } else if unmodified_for(tree_files(dir)[fp].1, req) {
                    ResolvedView::NotModified
                } else {
                    ResolvedView::File {
                        contents: tree_files(dir)[fp].0,
                        mime: mime_for(fp),
                        modified: tree_files(dir)[fp].1,
                        chunk_size,
                    }
                }
            }
        },
    }
}

/// The outcome of resolving a request.
#[derive(Debug)]
pub enum Resolved {
    File { contents: &'static [u8], mime: String, modified: Option<(u64, u32)>, chunk_size: usize },
    Redirect(String),
    NotFound,
    Invalid,
    NotModified,
}

impl View for Resolved {
    type V = ResolvedView;

    open spec fn view(&self) -> ResolvedView {
        match self {
            Resolved::File { contents, mime, modified, chunk_size } => ResolvedView::File {
                contents: contents@,
                mime: mime@,
                modified: *modified,
                chunk_size: *chunk_size,
            },
            Resolved::Redirect(l) => ResolvedView::Redirect(l@),
            Resolved::NotFound => ResolvedView::NotFound,
            Resolved::Invalid => ResolvedView::Invalid,
            Resolved::NotModified => ResolvedView::NotModified,
        }
    }
}

/// A path without its leading separators.
pub fn trim_leading_slashes(s: &str) -> (r: &str)
    ensures
        r@ == trim_slashes(s@),
{
    let n = s.unicode_len();
    let mut i: usize = 0;
    while i < n && s.get_char(i) == '/'
        invariant
            i <= n,
            n == s@.len(),
            skip_slashes_from(s@, i as int) == skip_slashes_from(s@, 0),
        decreases n - i,
    {
        i = i + 1;
    }
    s.substring_char(i, n)
}

/// Whether a decoded path is allowed: no segment starts with `..` and none
/// holds a backslash.
pub fn segments_are_allowed(d: &str) -> (r: bool)
    ensures
        r == segments_allowed(d@),
{
    let n = d.unicode_len();
    let mut i: usize = 0;
    while i < n
        invariant
            i <= n,
            n == d@.len(),
            forall|j: int| 0 <= j < i ==> !#[trigger] bad_at(d@, j),
        decreases n - i,
    {
        let c = d.get_char(i);
        if c == '\\' {
            assert(bad_at(d@, i as int));
            return false;
        }
        if c == '.' && i + 1 < n && d.get_char(i + 1) == '.' && (i == 0 || d.get_char(i - 1) == '/') {
            assert(bad_at(d@, i as int));
            return false;
        }
        i = i + 1;
    }
    true
}

fn path_ends_with_slash(s: &str) -> (r: bool)
    ensures
        r == ends_with_slash(s@),
{
    let n = s.unicode_len();
    n > 0 && s.get_char(n - 1) == '/'
}

/// The media type of a path, as [`mime_for`] gives it.
pub fn mime_type(path: &str) -> (r: String)
    ensures
        r@ == mime_for(path@),
{
    match guess_mime(path) {
        Some(m) => m,
        None => octet_stream(),
    }
}

/// The conditional-GET rule over an `If-Modified-Since` date already read.
pub fn is_unmodified_since(
    modified: Option<(u64, u32)>,
    if_none_match: bool,
    method: Method,
    since: Option<u64>,
) -> (r: bool)
    ensures
        r == unmodified_spec(modified, if_none_match, method, since),
{
    let m = match modified {
        Some(m) => m,
        None => return false,
    };
    if if_none_match {
        return false;
    }
    match method {
        Method::Get | Method::Head => {},
        Method::Other => return false,
    }
    let s = match since {
        Some(s) => s,
        None => return false,
    };
    m.0 < s || (m.0 == s && m.1 == 0)
}

/// Whether a file with the given modification time can be answered with
/// `304 Not Modified`.
pub fn unmodified_since_request_condition(modified: Option<(u64, u32)>, req: &RequestHead) -> (r: bool)
    ensures
        r == unmodified_for(modified, *req),
{
    let since = match &req.if_modified_since {
        Some(h) => parse_http_date(h.as_str()),
        None => None,
    };
    is_unmodified_since(modified, req.if_none_match, req.method, since)
}

/// The redirect target of a request, as [`location_of`] gives it.
pub fn append_slash_on_path(req: &RequestHead) -> (r: String)
    ensures
        r@ == location_of(*req),
{
    let mut out = String::new();
    match (&req.scheme, &req.authority) {
        (Some(s), Some(a)) => {
            out.append(s.as_str());
            out.append("://");
            out.append(a.as_str());
        },
        (None, Some(a)) => {
            out.append("//");
            out.append(a.as_str());
        },
        (Some(s), None) => {
            out.append(s.as_str());
            out.append(":");
        },
        (None, None) => {},
    }
    out.append(req.path.as_str());
    out.append("/");
    match &req.query {
        Some(q) => {
            out.append("?");
            out.append(q.as_str());
        },
        None => {},
    }
    proof {
        reveal_strlit("://");
        reveal_strlit("//");
        reveal_strlit(":");
        reveal_strlit("/");
        reveal_strlit("?");
    }
    assert(out@ =~= location_of(*req));
    out
}

/// Service that serves files from a given directory and all its sub directories.
///
/// The `Content-Type` is guessed from the file extension. An empty response
/// with status `404 Not Found` is returned when the file does not exist, or
/// when a segment of the path starts with `..` or holds a backslash.
#[derive(Clone, Copy, Debug)]
pub struct ServeDir {
    dir: &'static Dir<'static>,
    append_index_html_on_directories: bool,
    buf_chunk_size: usize,
}

impl ServeDir {
    pub closed spec fn tree(&self) -> Dir<'static> {
        *self.dir
    }

    pub closed spec fn appends_index(&self) -> bool {
        self.append_index_html_on_directories
    }

    pub closed spec fn chunk_size(&self) -> usize {
        self.buf_chunk_size
    }

    /// Chunks are not empty, and every file time of the tree can be written
    /// as an HTTP date.
    pub open spec fn wf(&self) -> bool {
        self.chunk_size() > 0 && tree_times_bounded(self.tree())
    }

    /// Create a new [`ServeDir`]: index files are served for directories, in
    /// chunks of [`DEFAULT_CAPACITY`] bytes.
    pub fn new(dir: &'static Dir<'static>) -> (r: Self)
        requires
            tree_times_bounded(*dir),
        ensures
            r.wf(),
            r.tree() == *dir,
            r.appends_index(),
            r.chunk_size() == DEFAULT_CAPACITY,
    {
        ServeDir { dir, append_index_html_on_directories: true, buf_chunk_size: DEFAULT_CAPACITY }
    }

    /// If the requested path is a directory append `index.html`.
    pub fn append_index_html_on_directories(self, append: bool) -> (r: Self)
        requires
            self.wf(),
        ensures
            r.wf(),
            r.tree() == self.tree(),
            r.appends_index() == append,
            r.chunk_size() == self.chunk_size(),
    {
        ServeDir { append_index_html_on_directories: append, ..self }
    }

    /// Set the number of bytes in each chunk of a file's body.
    pub fn with_buf_chunk_size(self, chunk_size: usize) -> (r: Self)
        requires
            self.wf(),
            chunk_size > 0,
        ensures
            r.wf(),
            r.tree() == self.tree(),
            r.appends_index() == self.appends_index(),
            r.chunk_size() == chunk_size,
    {
        ServeDir { buf_chunk_size: chunk_size, ..self }
    }

    fn is_dir(&self, p: &str) -> (r: bool)
        ensures
            r == is_dir(self.tree(), p@),
    {
        p.unicode_len() == 0 || has_dir(self.dir, p)
    }

    /// Resolve a request against the tree.
    pub fn call(&self, req: &RequestHead) -> (r: ResponseFuture)
        requires
            self.wf(),
        ensures
            r.wf(),
            r.inner@ == resolve_spec(self.tree(), self.appends_index(), self.chunk_size(), *req),
    {
        let inner = self.resolve(req);
        ResponseFuture { inner }
    }

    fn resolve(&self, req: &RequestHead) -> (r: Resolved)
        requires
            self.wf(),
        ensures
            r@ == resolve_spec(self.tree(), self.appends_index(), self.chunk_size(), *req),
    {
        let path = trim_leading_slashes(req.path.as_str());
        let decoded = match decode_percent(path) {
            Some(d) => d,
            None => return Resolved::Invalid,
        };
        if !segments_are_allowed(decoded.as_str()) {
            return Resolved::Invalid;
        }
        let p = trim_leading_slashes(decoded.as_str());
        let dir_requested = self.is_dir(p);
        if !path_ends_with_slash(req.path.as_str()) && dir_requested {
            return Resolved::Redirect(append_slash_on_path(req));
        }
        let full_path: String = if dir_requested {
            if !self.append_index_html_on_directories {
                return Resolved::NotFound;
            }
            let sep = p.unicode_len() == 0 || path_ends_with_slash(p);
            proof {
                reveal_strlit("index.html");
                reveal_strlit("/index.html");
            }
            let mut f = p.to_owned();
            if sep {
                f.append("index.html");
            } else {
                f.append("/index.html");
            }
            f
        } else {
            p.to_owned()
        };
        let (contents, modified) = match lookup_file(self.dir, full_path.as_str()) {
            Some(f) => f,
            None => return Resolved::NotFound,
        };
        if unmodified_since_request_condition(modified, req) {
            return Resolved::NotModified;
        }
        let mime = mime_type(full_path.as_str());
        Resolved::File { contents, mime, modified, chunk_size: self.buf_chunk_size }
    }
}

/// The response of [`ServeDir`] to one request, before it is assembled.
pub struct ResponseFuture {
    pub inner: Resolved,
}

impl ResponseFuture {
    /// A file is served in chunks that are not empty, and its time can be
    /// written as an HTTP date.
    pub open spec fn wf(&self) -> bool {
        self.inner matches Resolved::File { chunk_size, modified, .. } ==> chunk_size > 0
            && (modified matches Some(m) ==> m.0 < HTTP_DATE_LIMIT)
    }

    /// Assemble the response, as [`response_for`] describes it.
    pub fn poll(self) -> (r: Response)
        requires
            self.wf(),
        ensures
            response_for(self.inner@, r),
    {
        match self.inner {
            Resolved::File { contents, mime, modified, chunk_size } => {
                let last_modified = match modified {
                    Some(m) => Some(format_http_date(m.0)),
                    None => None,
                };
                Response {
                    status: 200,
                    content_type: Some(mime),
                    last_modified,
                    location: None,
                    body: Some(AsyncReadBody::with_capacity(contents, chunk_size)),
                }
            },
            Resolved::Redirect(location) => Response {
                status: 307,
                content_type: None,
                last_modified: None,
                location: Some(location),
                body: None,
            },
            Resolved::NotFound | Resolved::Invalid => empty_response(404),
            Resolved::NotModified => empty_response(304),
        }
    }
}

fn empty_response(status: u16) -> (r: Response)
    ensures
        r.status == status,
        r.location is None && r.content_type is None && r.last_modified is None && r.body is None,
{
    Response { status, content_type: None, last_modified: None, location: None, body: None }
}

/// A request whose decoded path has a segment that starts with `..` or holds
/// a backslash is rejected with an empty `404`, whatever the tree and the settings.
pub proof fn lemma_rejected_path_is_invalid(
    dir: Dir<'static>,
    index: bool,
    chunk_size: usize,
    req: RequestHead,
    res: Response,
)
    requires
        decoded_path(req) matches Some(d) && !segments_allowed(d),
        response_for(resolve_spec(dir, index, chunk_size, req), res),
    ensures
        resolve_spec(dir, index, chunk_size, req) == ResolvedView::Invalid,
        res.status == 404 && res.body is None && res.content_type is None,
{
}

/// A request for an existing directory without a trailing slash is answered
/// with an empty `307` to the same URI with exactly one `/` appended to the
/// path, its scheme, authority and query kept.
pub proof fn lemma_directory_redirects(
    dir: Dir<'static>,
    index: bool,
    chunk_size: usize,
    req: RequestHead,
    res: Response,
)
    requires
        decoded_path(req) matches Some(d) && segments_allowed(d) && is_dir(dir, trim_slashes(d)),
        !ends_with_slash(req.path@),
        response_for(resolve_spec(dir, index, chunk_size, req), res),
    ensures
        resolve_spec(dir, index, chunk_size, req) == ResolvedView::Redirect(location_of(req)),
        res.status == 307 && res.body is None,
        res.location matches Some(l) && l@ == uri_prefix(req) + req.path@ + "/"@ + query_suffix(req),
{
}

/// A request with a trailing slash for an existing directory that holds an
/// `index.html` gets `200` with that file's bytes and media type, when index
/// files are enabled and the request is not answered as unmodified.
pub proof fn lemma_directory_index(dir: Dir<'static>, chunk_size: usize, req: RequestHead, res: Response)
    requires
        decoded_path(req) matches Some(d) && segments_allowed(d) && is_dir(dir, trim_slashes(d)),
        ends_with_slash(req.path@),
        tree_files(dir).contains_key(index_path(trim_slashes(decoded_path(req).unwrap()))),
        !unmodified_for(tree_files(dir)[index_path(trim_slashes(decoded_path(req).unwrap()))].1, req),
        response_for(resolve_spec(dir, true, chunk_size, req), res),
    ensures
        ({
            let f = index_path(trim_slashes(decoded_path(req).unwrap()));
            &&& resolve_spec(dir, true, chunk_size, req) == ResolvedView::File {
                contents: tree_files(dir)[f].0,
                mime: mime_for(f),
                modified: tree_files(dir)[f].1,
                chunk_size,
            }
            &&& res.status == 200
            &&& res.content_type matches Some(t) && t@ == mime_for(f)
            &&& res.body matches Some(b) && b.remaining() == tree_files(dir)[f].0
        }),
{
}

/// Resolving the same request twice against the same tree and settings gives
/// the same outcome.
pub proof fn lemma_resolution_idempotent(svc: ServeDir, req: RequestHead, first: ResponseFuture, second: ResponseFuture)
    requires
        first.inner@ == resolve_spec(svc.tree(), svc.appends_index(), svc.chunk_size(), req),
        second.inner@ == resolve_spec(svc.tree(), svc.appends_index(), svc.chunk_size(), req),
    ensures
        first.inner@ == second.inner@,
{
}

/// A request for a file whose modification time is no later than its
/// `If-Modified-Since` date, without `If-None-Match`, is answered with an
/// empty `304` without `Content-Type` or `Last-Modified` for GET and HEAD, and
/// with the file and its date for any other method.
pub proof fn lemma_conditional_get(dir: Dir<'static>, index: bool, chunk_size: usize, req: RequestHead, res: Response)
    requires
        decoded_path(req) matches Some(d) && segments_allowed(d) && !is_dir(dir, trim_slashes(d)),
        tree_files(dir).contains_key(trim_slashes(decoded_path(req).unwrap())),
        tree_files(dir)[trim_slashes(decoded_path(req).unwrap())].1 matches Some(m)
            && since_of(req) matches Some(s) && not_after(m, s),
        !req.if_none_match,
        response_for(resolve_spec(dir, index, chunk_size, req), res),
    ensures
        (req.method == Method::Get || req.method == Method::Head) ==> {
            &&& resolve_spec(dir, index, chunk_size, req) == ResolvedView::NotModified
            &&& res.status == 304 && res.body is None
            &&& res.content_type is None && res.last_modified is None
        },
        req.method == Method::Other ==> ({
            let f = tree_files(dir)[trim_slashes(decoded_path(req).unwrap())];
            &&& resolve_spec(dir, index, chunk_size, req) is File
            &&& res.status == 200
            &&& res.last_modified matches Some(l) && http_date_secs(l@) == Some(f.1.unwrap().0)
            &&& res.body matches Some(b) && b.remaining() == f.0
        }),
{
}

} // verus!
