//! Sets of regular expressions, compiled and matched by the `regex` crate.

use vstd::prelude::*;

verus! {

/// `regex::RegexSet`, a compiled set of regular expressions. Nothing of its
/// inside is known here.
#[verifier::external_type_specification]
#[verifier::external_body]
pub struct ExRegexSet(regex::RegexSet);

/// `regex::Error`, why a set of regular expressions did not compile.
#[verifier::external_type_specification]
#[verifier::external_body]
pub struct ExRegexError(regex::Error);

/// The regular expressions that the set was compiled from, in order.
pub uninterp spec fn regex_set_patterns(set: regex::RegexSet) -> Seq<Seq<char>>;

/// Whether `RegexSet::new` compiles the expressions into a set: each of them
/// is a valid regular expression, and the set stays within the size that
/// `RegexSet::new` allows.
pub uninterp spec fn regex_set_compiles(patterns: Seq<Seq<char>>) -> bool;

/// For each expression of a set, in order, whether it matches somewhere in
/// the text: what `RegexSet::matches` reports, index by index.
pub uninterp spec fn regex_set_matches(patterns: Seq<Seq<char>>, haystack: Seq<char>) -> Seq<bool>;

/// The expressions of a list, as texts.
pub open spec fn pattern_views(patterns: Seq<&str>) -> Seq<Seq<char>> {
    Seq::new(patterns.len(), |i: int| patterns[i]@)
}

/// `regex::RegexSet::new`. It fails where an expression is not valid or the
/// compiled set would be too large, which depends on the expressions alone;
/// where it succeeds, the set stands for the given expressions in the given
/// order.
#[verifier::external_body]
pub(crate) fn regex_set_new(patterns: &Vec<&str>) -> (r: Result<regex::RegexSet, regex::Error>)
    ensures
        r is Ok <==> regex_set_compiles(pattern_views(patterns@)),
        r matches Ok(set) ==> regex_set_patterns(set) == pattern_views(patterns@),
{
    regex::RegexSet::new(patterns)
}

/// `regex::RegexSet::matches`, read through `SetMatches::matched` at each
/// index: one answer for each expression of the set, in order.
#[verifier::external_body]
pub(crate) fn regex_set_matched(set: &regex::RegexSet, haystack: &str) -> (r: Vec<bool>)
    ensures
        r@ == regex_set_matches(regex_set_patterns(*set), haystack@),
        r@.len() == regex_set_patterns(*set).len(),
{
    let matches = set.matches(haystack);
    (0..matches.len()).map(|i| matches.matched(i)).collect()
}

/// The text that `{:?}` writes for a string: the string between double
/// quotes, escaped as the standard library's `Debug` for `str` does.
pub uninterp spec fn str_debug(s: Seq<char>) -> Seq<char>;

/// `format!` with `{:?}` on a string.
#[verifier::external_body]
pub(crate) fn debug_quoted(s: &str) -> (r: String)
    ensures
        r@ == str_debug(s@),
{
    format!("{:?}", s)
}

} // verus!
