//! String validation functions.

use vstd::prelude::*;
use vstd::string::StringSliceAdditionalSpecFns;
use crate::text::{
    char_alphabetic, char_alphanumeric, char_lower, char_upper, dec_digit, is_dec_digit,
    is_unicode_alnum, is_unicode_alpha, is_unicode_lower, is_unicode_upper, seq_has_sub,
};

verus! {

/// A non-empty string of alphanumeric characters.
pub open spec fn spec_alphanumeric(s: Seq<char>) -> bool {
    s.len() > 0 && forall|i: int| 0 <= i < s.len() ==> char_alphanumeric(#[trigger] s[i])
}

/// Validates if a string contains only alphanumeric characters.
pub fn is_alphanumeric(s: &str) -> (r: bool)
    ensures
        r == spec_alphanumeric(s@),
{
    let cs = crate::text::chars_vec(s);
    let n = cs.len();
    if n == 0 {
        return false;
    }
    let mut i: usize = 0;
    while i < n
        invariant
            n == cs@.len(),
            cs@ == s@,
            i <= n,
            forall|t: int| 0 <= t < i ==> char_alphanumeric(#[trigger] cs@[t]),
        decreases n - i,
    {
        if !is_unicode_alnum(cs[i]) {
            return false;
        }
        i = i + 1;
    }
    true
}

/// A non-empty string of alphabetic characters.
pub open spec fn spec_alpha(s: Seq<char>) -> bool {
    s.len() > 0 && forall|i: int| 0 <= i < s.len() ==> char_alphabetic(#[trigger] s[i])
}

/// Validates if a string contains only alphabetic characters.
pub fn is_alpha(s: &str) -> (r: bool)
    ensures
        r == spec_alpha(s@),
{
    let cs = crate::text::chars_vec(s);
    let n = cs.len();
    if n == 0 {
        return false;
    }
    let mut i: usize = 0;
    while i < n
        invariant
            n == cs@.len(),
            cs@ == s@,
            i <= n,
            forall|t: int| 0 <= t < i ==> char_alphabetic(#[trigger] cs@[t]),
        decreases n - i,
    {
        if !is_unicode_alpha(cs[i]) {
            return false;
        }
        i = i + 1;
    }
    true
}

/// A non-empty string of ASCII decimal digits.
pub open spec fn spec_numeric(s: Seq<char>) -> bool {
    s.len() > 0 && forall|i: int| 0 <= i < s.len() ==> dec_digit(#[trigger] s[i])
}

/// Validates if a string contains only numeric characters.
pub fn is_numeric(s: &str) -> (r: bool)
    ensures
        r == spec_numeric(s@),
{
    let cs = crate::text::chars_vec(s);
    let n = cs.len();
    if n == 0 {
        return false;
    }
    let mut i: usize = 0;
    while i < n
        invariant
            n == cs@.len(),
            cs@ == s@,
            i <= n,
            forall|t: int| 0 <= t < i ==> dec_digit(#[trigger] cs@[t]),
        decreases n - i,
    {
        if !is_dec_digit(cs[i]) {
            return false;
        }
        i = i + 1;
    }
    true
}

/// Validates if a string has a minimum length, counted in bytes.
pub fn has_min_length(s: &str, min: usize) -> (r: bool)
    ensures
        r == (s.spec_bytes().len() as usize >= min),
{
    s.len() >= min
}

/// Validates if a string has a maximum length, counted in bytes.
pub fn has_max_length(s: &str, max: usize) -> (r: bool)
    ensures
        r == (s.spec_bytes().len() as usize <= max),
{
    s.len() <= max
}

/// Validates if a string's length, counted in bytes, is within a range.
pub fn has_length_between(s: &str, min: usize, max: usize) -> (r: bool)
    ensures
        r == (min <= s.spec_bytes().len() as usize <= max),
{
    let len = s.len();
    len >= min && len <= max
}

/// Validates if a string contains a substring.
pub fn contains(s: &str, pattern: &str) -> (r: bool)
    ensures
        r == seq_has_sub(s@, pattern@),
{
    let h = crate::text::chars_vec(s);
    let n = crate::text::chars_vec(pattern);
    crate::text::vec_has_sub(&h, &n)
}

/// What `str::to_lowercase` returns for a given sequence of characters.
pub uninterp spec fn lower_of(s: Seq<char>) -> Seq<char>;

/// Relies on str::to_lowercase: the result depends on the characters alone,
/// and an empty string stays empty.
#[verifier::external_body]
fn lowercase(s: &str) -> (r: String)
    ensures
        r@ == lower_of(s@),
        s@.len() == 0 ==> r@.len() == 0,
{
    s.to_lowercase()
}

/// Validates if a string contains a substring, comparing both in lower case.
pub fn contains_case_insensitive(s: &str, pattern: &str) -> (r: bool)
    ensures
        r == seq_has_sub(lower_of(s@), lower_of(pattern@)),
{
    let ls = lowercase(s);
    let lp = lowercase(pattern);
    let h = crate::text::chars_vec(ls.as_str());
    let n = crate::text::chars_vec(lp.as_str());
    crate::text::vec_has_sub(&h, &n)
}

/// A non-empty string whose alphabetic characters are all uppercase.
pub open spec fn spec_uppercase(s: Seq<char>) -> bool {
    s.len() > 0 && forall|i: int|
        0 <= i < s.len() && char_alphabetic(#[trigger] s[i]) ==> char_upper(s[i])
}

/// Validates if a string is uppercase.
pub fn is_uppercase(s: &str) -> (r: bool)
    ensures
        r == spec_uppercase(s@),
{
    let cs = crate::text::chars_vec(s);
    let n = cs.len();
    if n == 0 {
        return false;
    }
    let mut i: usize = 0;
    while i < n
        invariant
            n == cs@.len(),
            cs@ == s@,
            i <= n,
            forall|t: int|
                0 <= t < i && char_alphabetic(#[trigger] cs@[t]) ==> char_upper(cs@[t]),
        decreases n - i,
    {
        if is_unicode_alpha(cs[i]) && !is_unicode_upper(cs[i]) {
            return false;
        }
        i = i + 1;
    }
    true
}

/// A non-empty string whose alphabetic characters are all lowercase.
pub open spec fn spec_lowercase(s: Seq<char>) -> bool {
    s.len() > 0 && forall|i: int|
        0 <= i < s.len() && char_alphabetic(#[trigger] s[i]) ==> char_lower(s[i])
}

/// Validates if a string is lowercase.
pub fn is_lowercase(s: &str) -> (r: bool)
    ensures
        r == spec_lowercase(s@),
{
    let cs = crate::text::chars_vec(s);
    let n = cs.len();
    if n == 0 {
        return false;
    }
    let mut i: usize = 0;
    while i < n
        invariant
            n == cs@.len(),
            cs@ == s@,
            i <= n,
            forall|t: int|
                0 <= t < i && char_alphabetic(#[trigger] cs@[t]) ==> char_lower(cs@[t]),
        decreases n - i,
    {
        if is_unicode_alpha(cs[i]) && !is_unicode_lower(cs[i]) {
            return false;
        }
        i = i + 1;
    }
    true
}

} // verus!
