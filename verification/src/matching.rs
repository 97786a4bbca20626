//! The boundary to the pattern-matching engine: the library synthesizes
//! patterns as text and hands them over for compilation and matching.

use vstd::prelude::*;

verus! {

/// Whether the engine accepts a pattern.
pub uninterp spec fn pattern_compiles(p: Seq<char>) -> bool;

/// Whether a pattern matches somewhere in a text.
pub uninterp spec fn regex_matches(p: Seq<char>, t: Seq<char>) -> bool;

/// Relies on regex::Regex::new and regex::Regex::is_match: whether a pattern
/// compiles, and which texts it then matches, depend on the pattern and the
/// text alone.
#[verifier::external_body]
pub(crate) fn regex_full_match(pattern: &Vec<char>, text: &str) -> (r: Option<bool>)
    ensures
        r is Some <==> pattern_compiles(pattern@),
        r matches Some(m) ==> m == regex_matches(pattern@, text@),
{
    let p: String = pattern.iter().collect();
    match regex::Regex::new(&p) {
        Ok(re) => Some(re.is_match(text)),
        Err(_) => None,
    }
}

/// Relies on regex::RegexSet::new, which fails when any member is not a
/// valid pattern, and regex::RegexSet::is_match, which holds exactly when
/// one of the member patterns matches the text.
#[verifier::external_body]
pub(crate) fn regex_set_match(patterns: &Vec<Vec<char>>, text: &str) -> (r: Option<bool>)
    ensures
        r matches Some(m) ==> ({
            &&& forall|i: int|
                0 <= i < patterns@.len() ==> pattern_compiles(#[trigger] patterns@[i]@)
            &&& m == exists|i: int|
                0 <= i < patterns@.len() && regex_matches(#[trigger] patterns@[i]@, text@)
        }),
{
    let ps: Vec<String> = patterns.iter().map(|p| p.iter().collect::<String>()).collect();
    match regex::RegexSet::new(&ps) {
        Ok(set) => Some(set.is_match(text)),
        Err(_) => None,
    }
}

} // verus!
