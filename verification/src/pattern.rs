//! Regular expressions of the `regex` crate, as far as the crate uses them.
//!
//! Nothing here is proved: these items state what the matcher is trusted to
//! do.

use vstd::prelude::*;

verus! {

/// `regex::Regex`: a compiled regular expression. Its inside is not visible
/// to the verifier; [`matched_texts`] stands for what it matches.
#[verifier::external_type_specification]
#[verifier::external_body]
pub struct ExRegex(regex::Regex);

/// The language of a compiled regular expression: the texts in which it finds
/// a match somewhere.
pub uninterp spec fn matched_texts(rx: regex::Regex) -> Set<Seq<char>>;

/// `Regex::is_match` returns true if and only if there is a match for the
/// expression anywhere in the haystack. The contract claims only that the
/// answer depends on the expression and the haystack alone: it is membership
/// in [`matched_texts`].
pub assume_specification[ regex::Regex::is_match ](rx: &regex::Regex, haystack: &str) -> (found:
    bool)
    ensures
        found == matched_texts(*rx).contains(haystack@),
;

} // verus!
