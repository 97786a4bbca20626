//! URL validation functions.

use vstd::prelude::*;
use crate::text::{char_white, is_unicode_white, seq_has_sub, seq_starts_with};

verus! {

/// What may follow the scheme: a first character that is not whitespace and
/// none of `/`, `$`, `.`, `?`, `#`; a second character that is not a line
/// break; then no whitespace at all.
pub open spec fn spec_url_tail(t: Seq<char>) -> bool {
    &&& t.len() >= 2
    &&& !char_white(t[0])
    &&& t[0] != '/'
    &&& t[0] != '$'
    &&& t[0] != '.'
    &&& t[0] != '?'
    &&& t[0] != '#'
    &&& t[1] != '\n'
    &&& forall|i: int| 2 <= i < t.len() ==> !char_white(#[trigger] t[i])
}

/// A valid URL: an `http` or `https` scheme followed by a well-formed tail.
pub open spec fn spec_valid_url(s: Seq<char>) -> bool {
    ||| (seq_starts_with(s, "https://"@) && spec_url_tail(s.subrange(8, s.len() as int)))
    ||| (seq_starts_with(s, "http://"@) && spec_url_tail(s.subrange(7, s.len() as int)))
}

/// Validates if a string is a valid URL.
pub fn is_valid_url(url: &str) -> (r: bool)
    ensures
        r == spec_valid_url(url@),
{
    let cs = crate::text::chars_vec(url);
    let mut https: Vec<char> = Vec::new();
    crate::text::push_str_chars(&mut https, "https://");
    let mut http: Vec<char> = Vec::new();
    crate::text::push_str_chars(&mut http, "http://");
    let base: usize = if crate::text::vec_starts_with(&cs, &https) {
        8
    } else if crate::text::vec_starts_with(&cs, &http) {
        7
    } else {
        proof {
            reveal_strlit("https://");
            reveal_strlit("http://");
        }
        return false;
    };
    proof {
        reveal_strlit("https://");
        reveal_strlit("http://");
        if base == 7 {
            assert(!seq_starts_with(cs@, "https://"@)) by {
                if seq_starts_with(cs@, "https://"@) {
                    assert(cs@.subrange(0, 8)[4] == cs@[4]);
                    assert(cs@.subrange(0, 7)[4] == cs@[4]);
                }
            }
        } else {
            assert(!seq_starts_with(cs@, "http://"@)) by {
                if seq_starts_with(cs@, "http://"@) {
                    assert(cs@.subrange(0, 7)[4] == cs@[4]);
                    assert(cs@.subrange(0, 8)[4] == cs@[4]);
                }
            }
        }
    }
    let n = cs.len();
    let ghost tail = cs@.subrange(base as int, n as int);
    if n < base + 2 {
        return false;
    }
    proof {
        assert(tail[0] == cs@[base as int]);
        assert(tail[1] == cs@[base + 1]);
    }
    if is_unicode_white(cs[base]) {
        return false;
    }
    let c0 = cs[base];
    if c0 == '/' || c0 == '$' || c0 == '.' || c0 == '?' || c0 == '#' {
        return false;
    }
    if cs[base + 1] == '\n' {
        return false;
    }
    let mut i: usize = base + 2;
    while i < n
        invariant
            n == cs@.len(),
            cs@ == url@,
            base + 2 <= i <= n,
            tail == cs@.subrange(base as int, n as int),
            spec_valid_url(url@) <==> spec_url_tail(tail),
            spec_url_tail(tail) <==> (forall|t: int|
                2 <= t < tail.len() ==> !char_white(#[trigger] tail[t])),
            forall|t: int| 2 <= t < i - base ==> !char_white(#[trigger] tail[t]),
        decreases n - i,
    {
        if is_unicode_white(cs[i]) {
            proof {
                assert(tail[i - base] == cs@[i as int]);
            }
            return false;
        }
        i = i + 1;
    }
    true
}

/// Validates if a string is a valid HTTPS URL only.
pub fn is_valid_https_url(url: &str) -> (r: bool)
    ensures
        r == (seq_starts_with(url@, "https://"@) && spec_valid_url(url@)),
{
    let cs = crate::text::chars_vec(url);
    let mut https: Vec<char> = Vec::new();
    crate::text::push_str_chars(&mut https, "https://");
    crate::text::vec_starts_with(&cs, &https) && is_valid_url(url)
}

/// Validates if a URL belongs to a specific domain: the URL is valid and
/// holds `://` followed by the domain, with or without a `www.` in between.
pub fn is_url_from_domain(url: &str, domain: &str) -> (r: bool)
    ensures
        r == (spec_valid_url(url@) && (seq_has_sub(url@, "://"@ + domain@) || seq_has_sub(
            url@,
            "://www."@ + domain@,
        ))),
{
    if !is_valid_url(url) {
        return false;
    }
    let cs = crate::text::chars_vec(url);
    let mut plain: Vec<char> = Vec::new();
    crate::text::push_str_chars(&mut plain, "://");
    crate::text::push_str_chars(&mut plain, domain);
    let mut www: Vec<char> = Vec::new();
    crate::text::push_str_chars(&mut www, "://www.");
    crate::text::push_str_chars(&mut www, domain);
    crate::text::vec_has_sub(&cs, &plain) || crate::text::vec_has_sub(&cs, &www)
}

} // verus!
