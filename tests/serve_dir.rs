use include_dir::{Dir, DirEntry, File as EmbeddedFile, Metadata};
use std::time::Duration;
use tower_serve_static::serve_dir::{
    is_unmodified_since, mime_type, segments_are_allowed, trim_leading_slashes,
};
use tower_serve_static::{Method, RequestHead, Resolved, Response, ServeDir};

const MODIFIED: u64 = 1_600_000_000;

fn entries(list: Vec<DirEntry<'static>>) -> &'static [DirEntry<'static>] {
    Box::leak(list.into_boxed_slice())
}

fn assets() -> &'static Dir<'static> {
    let when = Duration::from_secs(MODIFIED);
    let sub = entries(vec![DirEntry::File(EmbeddedFile::new(
        "subfolder/data.json",
        b"{\"hello\": \"world\"}\n",
    ))]);
    let root = entries(vec![
        DirEntry::File(
            EmbeddedFile::new("text.txt", b"hello")
                .with_metadata(Metadata::new(when, when, when)),
        ),
        DirEntry::File(EmbeddedFile::new("index.html", b"<h1>Hello</h1>\n")),
        DirEntry::File(EmbeddedFile::new("\u{4f60}\u{597d}\u{4e16}\u{754c}.txt", b"ni hao")),
        DirEntry::File(EmbeddedFile::new("filename with space.txt", b"space")),
        DirEntry::Dir(Dir::new("subfolder", sub)),
        DirEntry::Dir(Dir::new("empty", entries(vec![]))),
    ]);
    Box::leak(Box::new(Dir::new("", root)))
}

fn get(path: &str) -> RequestHead {
    RequestHead {
        method: Method::Get,
        scheme: None,
        authority: None,
        path: path.to_string(),
        query: None,
        if_none_match: false,
        if_modified_since: None,
    }
}

fn respond(svc: &ServeDir, req: &RequestHead) -> Response {
    svc.call(req).poll()
}

fn body_bytes(res: Response) -> Vec<u8> {
    let mut out = Vec::new();
    if let Some(mut body) = res.body {
        while let Some(chunk) = body.poll_frame() {
            out.extend_from_slice(&chunk);
        }
    }
    out
}

#[test]
fn serve_dir_basic() {
    let svc = ServeDir::new(assets());
    let res = respond(&svc, &get("/text.txt"));
    assert_eq!(res.status, 200);
    assert_eq!(res.content_type.as_deref(), Some("text/plain"));
    assert!(res.last_modified.is_some());
    assert_eq!(body_bytes(res), b"hello".to_vec());
}

#[test]
fn with_if_modified_since() {
    let svc = ServeDir::new(assets());
    let mut req = get("/text.txt");
    req.if_modified_since = Some(httpdate::fmt_http_date(
        std::time::UNIX_EPOCH + Duration::from_secs(MODIFIED),
    ));
    let res = respond(&svc, &req);
    assert_eq!(res.status, 304);
    assert!(res.content_type.is_none());
    assert!(res.last_modified.is_none());
    assert!(body_bytes(res).is_empty());
}

#[test]
fn serve_dir_with_custom_chunk_size() {
    let svc = ServeDir::new(assets()).with_buf_chunk_size(1024 * 32);
    let res = respond(&svc, &get("/text.txt"));
    assert_eq!(res.status, 200);
    assert_eq!(res.content_type.as_deref(), Some("text/plain"));
    assert_eq!(body_bytes(res), b"hello".to_vec());
}

#[test]
fn access_to_sub_dirs() {
    let svc = ServeDir::new(assets());
    let res = respond(&svc, &get("/subfolder/data.json"));
    assert_eq!(res.status, 200);
    assert_eq!(res.content_type.as_deref(), Some("application/json"));
    assert_eq!(body_bytes(res), b"{\"hello\": \"world\"}\n".to_vec());
}

#[test]
fn not_found() {
    let svc = ServeDir::new(assets());
    let res = respond(&svc, &get("/not-found"));
    assert_eq!(res.status, 404);
    assert!(res.content_type.is_none());
    assert!(body_bytes(res).is_empty());
}

#[test]
fn redirect_to_trailing_slash_on_dir() {
    let svc = ServeDir::new(assets());
    let res = respond(&svc, &get("/subfolder"));
    assert_eq!(res.status, 307);
    assert_eq!(res.location.as_deref(), Some("/subfolder/"));
}

#[test]
fn empty_directory_without_index() {
    let svc = ServeDir::new(assets()).append_index_html_on_directories(false);
    let res = respond(&svc, &get("/"));
    assert_eq!(res.status, 404);
    assert!(res.content_type.is_none());
    assert!(body_bytes(res).is_empty());
}

#[test]
fn root_path_with_index() {
    let svc = ServeDir::new(assets());
    let res = respond(&svc, &get("/"));
    assert_eq!(res.status, 200);
    assert_eq!(res.content_type.as_deref(), Some("text/html"));
    assert_eq!(body_bytes(res), b"<h1>Hello</h1>\n".to_vec());
}

#[test]
fn access_cjk_percent_encoded_uri_path() {
    let svc = ServeDir::new(assets());
    let res = respond(&svc, &get("/%E4%BD%A0%E5%A5%BD%E4%B8%96%E7%95%8C.txt"));
    assert_eq!(res.status, 200);
    assert_eq!(res.content_type.as_deref(), Some("text/plain"));
}

#[test]
fn access_space_percent_encoded_uri_path() {
    let svc = ServeDir::new(assets());
    let res = respond(&svc, &get("/filename%20with%20space.txt"));
    assert_eq!(res.status, 200);
    assert_eq!(res.content_type.as_deref(), Some("text/plain"));
}

#[test]
fn parent_segments_are_rejected() {
    let svc = ServeDir::new(assets());
    for path in ["/../text.txt", "/subfolder/../text.txt", "/..hidden", "/subfolder/%2E%2E/text.txt"] {
        assert!(matches!(svc.call(&get(path)).inner, Resolved::Invalid), "{}", path);
        let res = respond(&svc, &get(path));
        assert_eq!(res.status, 404, "{}", path);
        assert!(res.content_type.is_none());
        assert!(body_bytes(res).is_empty());
    }
}

#[test]
fn backslashes_are_rejected() {
    let svc = ServeDir::new(assets());
    for path in ["/subfolder\\data.json", "/subfolder%5Cdata.json"] {
        assert!(matches!(svc.call(&get(path)).inner, Resolved::Invalid), "{}", path);
        let res = respond(&svc, &get(path));
        assert_eq!(res.status, 404, "{}", path);
    }
}

#[test]
fn invalid_percent_encoding_is_not_found() {
    let svc = ServeDir::new(assets());
    assert!(matches!(svc.call(&get("/%FF.txt")).inner, Resolved::Invalid));
    let res = respond(&svc, &get("/%FF.txt"));
    assert_eq!(res.status, 404);
    assert!(body_bytes(res).is_empty());
}

#[test]
fn dots_inside_a_name_are_allowed() {
    let svc = ServeDir::new(assets());
    assert!(matches!(svc.call(&get("/text..txt")).inner, Resolved::NotFound));
    assert!(matches!(svc.call(&get("/a..b/text.txt")).inner, Resolved::NotFound));
    assert_eq!(respond(&svc, &get("/subfolder/data.json")).status, 200);
}

#[test]
fn redirect_keeps_scheme_authority_and_query() {
    let svc = ServeDir::new(assets());
    let mut req = get("/subfolder");
    req.scheme = Some("http".to_string());
    req.authority = Some("example.com:8080".to_string());
    req.query = Some("a=1&b=2".to_string());
    let res = respond(&svc, &req);
    assert_eq!(res.status, 307);
    assert_eq!(
        res.location.as_deref(),
        Some("http://example.com:8080/subfolder/?a=1&b=2")
    );
    assert!(res.content_type.is_none());
    assert!(body_bytes(res).is_empty());
}

#[test]
fn redirect_keeps_query_of_relative_uri() {
    let svc = ServeDir::new(assets());
    let mut req = get("/empty");
    req.query = Some("x=y".to_string());
    let res = respond(&svc, &req);
    assert_eq!(res.status, 307);
    assert_eq!(res.location.as_deref(), Some("/empty/?x=y"));
}

#[test]
fn directory_without_index_file_is_not_found() {
    let svc = ServeDir::new(assets());
    assert_eq!(respond(&svc, &get("/subfolder/")).status, 404);
    assert_eq!(respond(&svc, &get("/empty/")).status, 404);
}

#[test]
fn leading_separators_are_dropped() {
    let svc = ServeDir::new(assets());
    let res = respond(&svc, &get("//%2Ftext.txt"));
    assert_eq!(res.status, 200);
    assert_eq!(body_bytes(res), b"hello".to_vec());
}

#[test]
fn last_modified_is_an_http_date() {
    let svc = ServeDir::new(assets());
    let res = respond(&svc, &get("/text.txt"));
    assert_eq!(res.last_modified.as_deref(), Some("Sun, 13 Sep 2020 12:26:40 GMT"));
    let res = respond(&svc, &get("/index.html"));
    assert!(res.last_modified.is_none());
}

#[test]
fn unknown_extension_is_octet_stream() {
    let svc = ServeDir::new(assets());
    let res = respond(&svc, &get("/text.txt"));
    assert_eq!(res.content_type.as_deref(), Some("text/plain"));
    assert_eq!(
        mime_type("archive.unknownext"),
        "application/octet-stream"
    );
    assert_eq!(mime_type("page.html"), "text/html");
}

#[test]
fn conditional_get_only_for_get_and_head() {
    let svc = ServeDir::new(assets());
    let since = httpdate::fmt_http_date(std::time::UNIX_EPOCH + Duration::from_secs(MODIFIED + 60));
    for (method, status) in [(Method::Get, 304), (Method::Head, 304), (Method::Other, 200)] {
        let mut req = get("/text.txt");
        req.method = method;
        req.if_modified_since = Some(since.clone());
        let res = respond(&svc, &req);
        assert_eq!(res.status, status);
        if status == 200 {
            assert_eq!(body_bytes(res), b"hello".to_vec());
        }
    }
}

#[test]
fn conditional_get_ignored_with_if_none_match_or_earlier_date() {
    let svc = ServeDir::new(assets());
    let mut req = get("/text.txt");
    req.if_modified_since =
        Some(httpdate::fmt_http_date(std::time::UNIX_EPOCH + Duration::from_secs(MODIFIED)));
    req.if_none_match = true;
    assert_eq!(respond(&svc, &req).status, 200);
    let mut req = get("/text.txt");
    req.if_modified_since =
        Some(httpdate::fmt_http_date(std::time::UNIX_EPOCH + Duration::from_secs(MODIFIED - 1)));
    assert_eq!(respond(&svc, &req).status, 200);
    let mut req = get("/text.txt");
    req.if_modified_since = Some("not a date".to_string());
    assert_eq!(respond(&svc, &req).status, 200);
    let mut req = get("/index.html");
    req.if_modified_since =
        Some(httpdate::fmt_http_date(std::time::UNIX_EPOCH + Duration::from_secs(MODIFIED)));
    assert_eq!(respond(&svc, &req).status, 200);
}

#[test]
fn conditional_rule_on_parsed_dates() {
    assert!(is_unmodified_since(Some((10, 0)), false, Method::Get, Some(10)));
    assert!(!is_unmodified_since(Some((10, 5)), false, Method::Get, Some(10)));
    assert!(is_unmodified_since(Some((10, 5)), false, Method::Head, Some(11)));
    assert!(!is_unmodified_since(Some((10, 0)), true, Method::Get, Some(10)));
    assert!(!is_unmodified_since(Some((10, 0)), false, Method::Other, Some(10)));
    assert!(!is_unmodified_since(None, false, Method::Get, Some(10)));
    assert!(!is_unmodified_since(Some((10, 0)), false, Method::Get, None));
}

#[test]
fn resolving_twice_gives_the_same_outcome() {
    let svc = ServeDir::new(assets());
    for path in ["/text.txt", "/subfolder", "/missing", "/../x", "/"] {
        let a = format!("{:?}", svc.call(&get(path)).inner);
        let b = format!("{:?}", svc.call(&get(path)).inner);
        assert_eq!(a, b);
    }
}

#[test]
fn end_to_end() {
    let svc = ServeDir::new(assets());
    let res = respond(&svc, &get("/text.txt"));
    assert_eq!(res.status, 200);
    assert_eq!(res.content_type.as_deref(), Some("text/plain"));
    assert_eq!(body_bytes(res), b"hello".to_vec());
    let res = respond(&svc, &get("/subfolder"));
    assert_eq!(res.status, 307);
    assert_eq!(res.location.as_deref(), Some("/subfolder/"));
    let res = respond(&svc, &get("/missing"));
    assert_eq!(res.status, 404);
    assert!(body_bytes(res).is_empty());
}

#[test]
fn path_helpers() {
    assert_eq!(trim_leading_slashes("///a/b/"), "a/b/");
    assert_eq!(trim_leading_slashes(""), "");
    assert!(segments_are_allowed("a/b.c/d..e"));
    assert!(!segments_are_allowed("a/..b"));
    assert!(!segments_are_allowed(".."));
    assert!(!segments_are_allowed("a\\b"));
}

#[test]
fn redirect_keeps_authority_without_scheme() {
    let svc = ServeDir::new(assets());
    let mut req = get("/subfolder");
    req.authority = Some("example.com:443".to_string());
    let res = respond(&svc, &req);
    assert_eq!(res.status, 307);
    assert_eq!(res.location.as_deref(), Some("//example.com:443/subfolder/"));
}

#[test]
fn echoing_last_modified_gives_not_modified() {
    let svc = ServeDir::new(assets());
    let first = respond(&svc, &get("/text.txt"));
    let mut req = get("/text.txt");
    req.if_modified_since = first.last_modified.clone();
    assert_eq!(respond(&svc, &req).status, 304);
    req.method = Method::Other;
    let res = respond(&svc, &req);
    assert_eq!(res.status, 200);
    assert_eq!(res.last_modified, first.last_modified);
}
