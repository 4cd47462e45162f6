use vstd::prelude::*;
use regex::RegexSet;

verus! {

/// `regex::RegexSet`, carried through as a compiled set of patterns.
#[verifier::external_type_specification]
#[verifier::external_body]
pub struct ExRegexSet(regex::RegexSet);

/// `regex::Error`, the error of a pattern set that does not compile.
#[verifier::external_type_specification]
#[verifier::external_body]
pub struct ExRegexError(regex::Error);

/// The patterns that a compiled set was built from, in their order.
pub uninterp spec fn regex_set_patterns(set: RegexSet) -> Seq<Seq<char>>;

/// Whether `RegexSet::new` accepts these patterns (each is valid syntax and
/// the compiled set stays within the default size limit).
pub uninterp spec fn regex_set_compiles(patterns: Seq<Seq<char>>) -> bool;

/// Whether any of these patterns matches somewhere in the haystack, as
/// `RegexSet::is_match` decides it.
pub uninterp spec fn regex_set_matches(patterns: Seq<Seq<char>>, haystack: Seq<char>) -> bool;

/// The texts of a list of strings.
pub open spec fn strings_view(v: Seq<String>) -> Seq<Seq<char>> {
    v.map_values(|s: String| s@)
}

/// Calls `regex::RegexSet::new` on the patterns. Claimed: it succeeds
/// exactly when the patterns compile (`regex_set_compiles`), and the set it
/// builds holds the patterns it was given, in order (as `RegexSet::patterns`
/// shows).
#[verifier::external_body]
fn regex_set_new(patterns: &Vec<String>) -> (r: Result<RegexSet, regex::Error>)
    ensures
        r.is_ok() == regex_set_compiles(strings_view(patterns@)),
        r matches Ok(set) ==> regex_set_patterns(set) == strings_view(patterns@),
{
    RegexSet::new(patterns)
}

/// Calls `regex::RegexSet::is_match`. Claimed: the answer is
/// `regex_set_matches` of the set's patterns and the haystack, which the
/// crate documents as "one of the regexes in this set matches the haystack"
/// (the same answer as `matches(..).matched_any()`).
#[verifier::external_body]
fn regex_set_is_match(set: &RegexSet, haystack: &str) -> (r: bool)
    ensures
        r == regex_set_matches(regex_set_patterns(*set), haystack@),
{
    set.is_match(haystack)
}

/// The ignore list could not be compiled into a pattern set.
#[derive(Debug, Clone, Copy, PartialEq, Eq, Structural)]
pub enum IgnoreError {
    InvalidPattern,
}

/// Whether a process name is on the ignore list: the list is compiled into
/// a pattern set, and the name is ignored when any pattern matches it.
/// Fails exactly when the list does not compile.
pub fn is_ignored(ignore: &Vec<String>, name: &str) -> (r: Result<bool, IgnoreError>)
    ensures
        r is Err <==> !regex_set_compiles(strings_view(ignore@)),
        r matches Ok(b) ==> b == regex_set_matches(strings_view(ignore@), name@),
{
    match regex_set_new(ignore) {
        Ok(set) => Ok(regex_set_is_match(&set, name)),
        Err(_) => Err(IgnoreError::InvalidPattern),
    }
}

} // verus!
