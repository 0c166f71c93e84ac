//! What the parsers of the `url` and `http` crates accept.
//!
//! Both grammars are long and are not restated here. Each gets a name, and
//! the one function that runs the parser says that its answer is that
//! name's value on the text it was given. Nothing else is known of either
//! name.

use vstd::prelude::*;

verus! {

/// Whether the `url` crate parses `text` as a URL.
pub uninterp spec fn url_is_valid(text: Seq<char>) -> bool;

/// Whether the `http` crate parses `text` as a URI.
pub uninterp spec fn uri_is_well_formed(text: Seq<char>) -> bool;

/// Runs `validator::validate_url` on `text`.
///
/// That function hands the text to `url::Url::parse` and reports whether
/// parsing succeeded. The parser reads nothing but the text, so the
/// answer is taken to be `url_is_valid` of it. This is believed, not
/// proved.
#[verifier::external_body]
pub(crate) fn validate_url(text: &str) -> (valid: bool)
    ensures
        valid == url_is_valid(text@),
{
    validator::validate_url(text)
}

/// Runs the parser behind `hyper::Uri::try_from` on `text`.
///
/// `hyper::Uri` is `http::Uri`; its parser returns an error for every
/// text it does not accept, among them the empty text and any text
/// longer than 65534 bytes, and reads nothing but the text. The answer,
/// whether parsing succeeded, is taken to be `uri_is_well_formed` of the
/// text. This is believed, not proved.
#[verifier::external_body]
pub(crate) fn parses_as_uri(text: &str) -> (well_formed: bool)
    ensures
        well_formed == uri_is_well_formed(text@),
{
    hyper::Uri::try_from(text).is_ok()
}

} // verus!
