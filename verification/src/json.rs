//! JSON texts, as the `sonic_rs` parser reads them.
//!
//! Nothing here is proved: these items state what the parser is trusted to
//! do, and the decoding logic of the crate is verified against them.

use vstd::prelude::*;

verus! {

/// `sonic_rs::Error`: the parser's report on a text that it rejects.
#[verifier::external_type_specification]
#[verifier::external_body]
pub struct ExError(sonic_rs::Error);

/// Whether `sonic_rs::from_str` accepts a text as one JSON document. It is
/// meant to accept one JSON value with nothing but white space around it;
/// the contracts of the crate only rest on the answer, not on that.
pub uninterp spec fn is_document(text: Seq<char>) -> bool;

/// What `sonic_rs::get_from_str` finds in a document under a key: the JSON
/// text of the first member of that name, as it stands in the document, or
/// `None` where the document is no object or has no such member.
pub uninterp spec fn member_text(text: Seq<char>, key: Seq<char>) -> Option<Seq<char>>;

/// The view of an optional text.
pub open spec fn text_of(text: Option<&str>) -> Option<Seq<char>> {
    match text {
        Some(t) => Some(t@),
        None => None,
    }
}

/// Calls `sonic_rs::from_str` for a `sonic_rs::LazyValue`, which checks the
/// whole text and keeps nothing of it. The contract claims only that
/// acceptance is a function of the text, which [`is_document`] names.
#[verifier::external_body]
pub(crate) fn check_document(text: &str) -> (checked: Result<(), sonic_rs::Error>)
    ensures
        checked is Ok <==> is_document(text@),
{
    match sonic_rs::from_str::<sonic_rs::LazyValue>(text) {
        Ok(_) => Ok(()),
        Err(error) => Err(error),
    }
}

/// Calls `sonic_rs::get_from_str` with a path of one key, and
/// `LazyValue::as_raw_cow` on what it finds, which borrows the member's JSON
/// text from the document. The contract claims only that the outcome is a
/// function of the document and the key, which [`member_text`] names.
#[verifier::external_body]
pub(crate) fn raw_member<'a>(text: &'a str, key: &str) -> (found: Option<&'a str>)
    requires
        is_document(text@),
    ensures
        text_of(found) == member_text(text@, key@),
{
    match sonic_rs::get_from_str(text, &[key]).ok()?.as_raw_cow() {
        std::borrow::Cow::Borrowed(raw) => Some(raw),
        std::borrow::Cow::Owned(_) => None,
    }
}

/// Calls `to_string` on a `sonic_rs::Error`, which formats its `Display`
/// text. Nothing is claimed of the text.
#[verifier::external_body]
pub(crate) fn error_report(error: &sonic_rs::Error) -> (report: String) {
    error.to_string()
}

} // verus!
