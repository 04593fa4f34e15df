use vstd::prelude::*;

verus! {

/// Whether the regular expression `pattern` matches somewhere in `haystack`,
/// as the regex crate decides it.
pub uninterp spec fn regex_matches(pattern: Seq<char>, haystack: Seq<char>) -> bool;

/// Whether `regex::Regex::new` compiles `pattern`, as the regex crate
/// decides it (it refuses invalid and oversized patterns).
pub uninterp spec fn regex_compiles(pattern: Seq<char>) -> bool;

/// Relies on `regex::Regex::new`, which compiles `pattern` or fails (`None`
/// here; the reason is not kept), and `regex::Regex::is_match`, which tells
/// whether the compiled expression matches somewhere in `haystack`.
#[verifier::external_body]
pub(crate) fn pattern_matches(pattern: &str, haystack: &str) -> (r: Option<bool>)
    ensures
        r is Some <==> regex_compiles(pattern@),
        r matches Some(b) ==> b == regex_matches(pattern@, haystack@),
{
    match regex::Regex::new(pattern) {
        Ok(re) => Some(re.is_match(haystack)),
        Err(_) => None,
    }
}

} // verus!
