//! Source-selection policy: which reader a locator string is handed to.
//!
//! A locator that names an existing local path is always read as a local
//! file, even when it would also parse as a URL; only a locator that names
//! no existing path is tried as a URL. Preserving this precedence is part of
//! the observable behaviour for ambiguous locators.

use vstd::prelude::*;

verus! {

/// Whether `url::Url::parse` accepts the string as an absolute URL; the
/// outcome depends on the characters of the string alone.
pub uninterp spec fn url_parse_ok(s: Seq<char>) -> bool;

/// Relies on url::Url::parse: it parses an absolute URL from the string, or
/// reports a parse error, from the input string alone.
#[verifier::external_body]
fn parses_as_url(s: &str) -> (r: bool)
    ensures
        r == url_parse_ok(s@),
{
    url::Url::parse(s).is_ok()
}

/// The reader chosen for a locator.
#[derive(Clone, Copy, PartialEq, Eq, Structural, Debug)]
pub enum SourceSelection {
    /// The locator names an existing local path: read and decode that file.
    LocalFile,
    /// The locator parses as a URL: fetch it and decode the response body.
    RemoteUrl,
    /// Neither: no suitable reader exists for this locator.
    NoReader,
}

/// One reload attempt's failure, caught and logged by the task, never
/// propagated; the shared snapshot is left unchanged by a failed attempt.
#[derive(Clone, Copy, PartialEq, Eq, Structural, Debug)]
pub enum ReloadError {
    /// The locator is neither an existing path nor a parseable URL.
    Configuration,
    /// The local file could not be opened or read.
    Read,
    /// The remote fetch failed: connection, timeout, or unreadable body.
    Transport,
    /// The document could not be decoded.
    Decode,
}

/// The reader that the policy picks: the local file when the path exists,
/// else the URL reader when the locator parses as a URL, else none.
pub open spec fn selection_of(locator: Seq<char>, local_path_exists: bool) -> SourceSelection {
    if local_path_exists {
        SourceSelection::LocalFile
    } else if url_parse_ok(locator) {
        SourceSelection::RemoteUrl
    } else {
        SourceSelection::NoReader
    }
}

/// Picks the reader for `locator`, given whether the locator names an
/// existing local path; existence is checked before URL syntax, so an
/// ambiguous locator is always read as a local file.
pub fn resolve_source(locator: &str, local_path_exists: bool) -> (s: SourceSelection)
    ensures
        s == selection_of(locator@, local_path_exists),
{
    if local_path_exists {
        SourceSelection::LocalFile
    } else if parses_as_url(locator) {
        SourceSelection::RemoteUrl
    } else {
        SourceSelection::NoReader
    }
}

} // verus!
