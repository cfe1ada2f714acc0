//! The calls this library makes into the crates it builds on, each with the
//! contract that the rest of the library is proved against.
use include_dir::Dir;
use vstd::prelude::*;

verus! {

#[verifier::external_type_specification]
#[verifier::external_body]
pub struct ExDir<'a>(Dir<'a>);

/// The first instant that an HTTP date cannot express (the year 10000).
pub const HTTP_DATE_LIMIT: u64 = 253402300800;

/// The files of an embedded tree, by path: each file's bytes and, when the
/// tree was embedded with metadata, its stored modification time as whole
/// seconds and nanoseconds since the Unix epoch.
pub uninterp spec fn tree_files(d: Dir<'static>) -> Map<Seq<char>, (Seq<u8>, Option<(u64, u32)>)>;

/// Every modification time stored in the tree lies before the year 10000.
pub open spec fn tree_times_bounded(d: Dir<'static>) -> bool {
    forall|p: Seq<char>|
        #[trigger] tree_files(d).contains_key(p) ==> (tree_files(d)[p].1 matches Some(m) ==> m.0
            < HTTP_DATE_LIMIT)
}

/// The paths that name a directory of an embedded tree.
pub uninterp spec fn tree_dirs(d: Dir<'static>) -> Set<Seq<char>>;

/// The text that percent-decoding a path gives, when the decoded bytes are UTF-8.
pub uninterp spec fn percent_decoded(s: Seq<char>) -> Option<Seq<char>>;

/// The first media type registered for the extension of a path, if any.
pub uninterp spec fn mime_guess_for(path: Seq<char>) -> Option<Seq<char>>;

/// The instant an HTTP date denotes, in whole seconds since the Unix epoch.
pub uninterp spec fn http_date_secs(s: Seq<char>) -> Option<u64>;

/// The IMF-fixdate text of an instant given in whole seconds since the Unix epoch.
pub uninterp spec fn http_date_text(secs: u64) -> Seq<char>;

/// Relies on `include_dir::Dir::get_file` (the entry found for `path`, when it
/// is a file), `File::contents` and `File::metadata` with `Metadata::modified`:
/// the result depends on the tree and the path alone. `Metadata::modified`
/// adds the stored duration to `UNIX_EPOCH`, which panics where the sum
/// cannot be represented; a time before the year 10000 always can.
#[verifier::external_body]
pub(crate) fn lookup_file(dir: &'static Dir<'static>, path: &str) -> (r: Option<(&'static [u8], Option<(u64, u32)>)>)
    requires
        tree_times_bounded(*dir),
    ensures
        r.is_some() == tree_files(*dir).contains_key(path@),
        r matches Some(f) ==> f.0@ == tree_files(*dir)[path@].0 && f.1 == tree_files(*dir)[path@].1,
{
    match dir.get_file(path) {
        Some(f) => {
            let modified = match f.metadata() {
                Some(m) => match m.modified().duration_since(std::time::UNIX_EPOCH) {
                    Ok(t) => Some((t.as_secs(), t.subsec_nanos())),
                    Err(_) => None,
                },
                None => None,
            };
            Some((f.contents(), modified))
        },
        None => None,
    }
}

/// Relies on `include_dir::Dir::get_dir`: whether the entry found for `path`
/// is a directory.
#[verifier::external_body]
pub(crate) fn has_dir(dir: &'static Dir<'static>, path: &str) -> (r: bool)
    ensures
        r == tree_dirs(*dir).contains(path@),
{
    dir.get_dir(path).is_some()
}

/// Relies on `percent_encoding::percent_decode` and `PercentDecode::decode_utf8`:
/// `%XX` sequences become bytes and every other byte is kept, so text without
/// a `%` decodes to itself.
#[verifier::external_body]
pub(crate) fn decode_percent(s: &str) -> (r: Option<String>)
    ensures
        r.is_none() == percent_decoded(s@).is_none(),
        r matches Some(x) ==> percent_decoded(s@) == Some(x@),
        !s@.contains('%') ==> r.is_some() && r.unwrap()@ == s@,
{
    match percent_encoding::percent_decode(s.as_bytes()).decode_utf8() {
        Ok(text) => Some(text.into_owned()),
        Err(_) => None,
    }
}

/// Relies on `mime_guess::from_path` and `MimeGuess::first_raw`: the first
/// media type known for the path's extension.
#[verifier::external_body]
pub(crate) fn guess_mime(path: &str) -> (r: Option<String>)
    ensures
        r.is_none() == mime_guess_for(path@).is_none(),
        r matches Some(m) ==> mime_guess_for(path@) == Some(m@),
{
    match mime_guess::from_path(path).first_raw() {
        Some(m) => Some(m.to_owned()),
        None => None,
    }
}

/// Relies on `mime::APPLICATION_OCTET_STREAM`, whose text is
/// `application/octet-stream`.
#[verifier::external_body]
pub(crate) fn octet_stream() -> (r: String)
    ensures
        r@ == "application/octet-stream"@,
{
    mime::APPLICATION_OCTET_STREAM.as_ref().to_owned()
}

/// Relies on `httpdate::parse_http_date`: the instant of an HTTP date in any of
/// its three formats, which lies between the epoch and the year 10000 and has
/// no fraction of a second.
#[verifier::external_body]
pub(crate) fn parse_http_date(s: &str) -> (r: Option<u64>)
    ensures
        r == http_date_secs(s@),
        r matches Some(secs) ==> secs < HTTP_DATE_LIMIT,
{
    match httpdate::parse_http_date(s) {
        Ok(t) => match t.duration_since(std::time::UNIX_EPOCH) {
            Ok(d) => Some(d.as_secs()),
            Err(_) => None,
        },
        Err(_) => None,
    }
}

/// Relies on `httpdate::fmt_http_date`, which panics from the year 10000 on,
/// and writes a date that `httpdate::parse_http_date` reads back.
#[verifier::external_body]
pub(crate) fn format_http_date(secs: u64) -> (r: String)
    requires
        secs < HTTP_DATE_LIMIT,
    ensures
        r@ == http_date_text(secs),
        http_date_secs(r@) == Some(secs),
{
    httpdate::fmt_http_date(std::time::UNIX_EPOCH + std::time::Duration::from_secs(secs))
}

} // verus!
