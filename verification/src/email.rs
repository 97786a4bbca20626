//! Email validation functions.

use vstd::prelude::*;
use vstd::string::StringSliceAdditionalSpecFns;
use crate::text::{ascii_alnum, is_ascii_alnum};

verus! {

/// A character permitted in the local part of an address: an ASCII letter or
/// digit, or one of the permitted punctuation marks.
pub open spec fn local_char_ok(c: char) -> bool {
    ||| ascii_alnum(c)
    ||| c == '.' || c == '!' || c == '#' || c == '$' || c == '%' || c == '&' || c == '\''
    ||| c == '*' || c == '+' || c == '/' || c == '=' || c == '?' || c == '^' || c == '_'
    ||| c == '`' || c == '{' || c == '|' || c == '}' || c == '~' || c == '-'
}

fn is_local_char(c: char) -> (r: bool)
    ensures
        r == local_char_ok(c),
{
    is_ascii_alnum(c) || c == '.' || c == '!' || c == '#' || c == '$' || c == '%' || c == '&' || c
        == '\'' || c == '*' || c == '+' || c == '/' || c == '=' || c == '?' || c == '^' || c == '_'
        || c == '`' || c == '{' || c == '|' || c == '}' || c == '~' || c == '-'
}

/// A well-formed domain: labels of at most 63 characters, made of ASCII
/// letters, digits and hyphens, starting and ending alphanumerically,
/// separated by single dots.
pub open spec fn spec_valid_domain(d: Seq<char>) -> bool {
    &&& d.len() > 0
    &&& ascii_alnum(d[0])
    &&& ascii_alnum(d[d.len() - 1])
    &&& forall|i: int|
        0 <= i < d.len() ==> ascii_alnum(#[trigger] d[i]) || d[i] == '-' || d[i] == '.'
    &&& forall|i: int| 0 < i < d.len() && #[trigger] d[i] == '.' ==> ascii_alnum(d[i - 1])
    &&& forall|i: int| 0 <= i < d.len() - 1 && #[trigger] d[i] == '.' ==> ascii_alnum(d[i + 1])
    &&& forall|w: int| 0 <= w && w + 64 <= d.len() ==> #[trigger] has_dot_window(d, w)
}

/// Some character of `d[w .. w + 64)` is a dot.
pub open spec fn has_dot_window(d: Seq<char>, w: int) -> bool {
    exists|k: int| w <= k < w + 64 && #[trigger] d[k] == '.'
}

/// The address splits at `a`: a non-empty local part of permitted characters
/// before it, an `@` at it, and a well-formed domain after it.
pub open spec fn email_split_at(s: Seq<char>, a: int) -> bool {
    &&& 0 < a < s.len()
    &&& s[a] == '@'
    &&& forall|i: int| 0 <= i < a ==> local_char_ok(#[trigger] s[i])
    &&& spec_valid_domain(s.subrange(a + 1, s.len() as int))
}

/// An address shape: the string splits at some position.
pub open spec fn spec_email_format(s: Seq<char>) -> bool {
    exists|a: int| #[trigger] email_split_at(s, a)
}

/// A valid address: between one and 254 bytes, in address shape.
pub open spec fn spec_valid_email(s: &str) -> bool {
    &&& 1 <= s.spec_bytes().len() as usize <= 254
    &&& spec_email_format(s@)
}

/// Finds the first occurrence of a character.
pub fn find_char(v: &Vec<char>, target: char) -> (r: Option<usize>)
    ensures
        r matches Some(i) ==> i < v@.len() && v@[i as int] == target && forall|t: int|
            0 <= t < i ==> v@[t] != target,
        r is None ==> forall|t: int| 0 <= t < v@.len() ==> v@[t] != target,
{
    let n = v.len();
    let mut i: usize = 0;
    while i < n
        invariant
            n == v@.len(),
            i <= n,
            forall|t: int| 0 <= t < i ==> v@[t] != target,
        decreases n - i,
    {
        if v[i] == target {
            return Some(i);
        }
        i = i + 1;
    }
    None
}

/// Checks a domain against `spec_valid_domain`.
fn check_domain(d: &Vec<char>) -> (r: bool)
    ensures
        r == spec_valid_domain(d@),
{
    let n = d.len();
    if n == 0 {
        return false;
    }
    if !is_ascii_alnum(d[0]) || !is_ascii_alnum(d[n - 1]) {
        return false;
    }
    // Character classes and dot neighbourhoods.
    let mut i: usize = 0;
    while i < n
        invariant
            n == d@.len(),
            i <= n,
            ascii_alnum(d@[0]),
            ascii_alnum(d@[n - 1]),
            forall|t: int|
                0 <= t < i ==> ascii_alnum(#[trigger] d@[t]) || d@[t] == '-' || d@[t] == '.',
            forall|t: int| 0 < t < i && #[trigger] d@[t] == '.' ==> ascii_alnum(d@[t - 1]),
            forall|t: int| 0 <= t < i && t < n - 1 && #[trigger] d@[t] == '.' ==> ascii_alnum(
                d@[t + 1],
            ),
        decreases n - i,
    {
        let c = d[i];
        if !is_ascii_alnum(c) && c != '-' && c != '.' {
            return false;
        }
        if c == '.' {
            if i == 0 || !is_ascii_alnum(d[i - 1]) {
                return false;
            }
            if i + 1 >= n || !is_ascii_alnum(d[i + 1]) {
                proof {
                    if i + 1 >= n {
                        assert(d@[n - 1] == '.');
                        assert(!ascii_alnum(d@[n - 1]));
                    }
                }
                return false;
            }
        }
        i = i + 1;
    }
    // No sixty-four consecutive characters without a dot, so every label
    // stays within sixty-three characters.
    let mut run_start: usize = 0;
    let mut j: usize = 0;
    while j < n
        invariant
            n == d@.len(),
            run_start <= j <= n,
            j - run_start <= 63,
            forall|t: int| run_start <= t < j ==> d@[t] != '.',
            run_start == 0 || d@[run_start - 1] == '.',
            forall|w: int| 0 <= w && w + 64 <= j ==> #[trigger] has_dot_window(d@, w),
        decreases n - j,
    {
        if d[j] == '.' {
            run_start = j + 1;
        } else {
            if j - run_start == 63 {
                // The sixty-four characters from `run_start` on hold no dot.
                proof {
                    assert forall|k: int|
                        run_start <= k < run_start + 64 implies d@[k] != '.' by {}
                    assert(!spec_valid_domain(d@)) by {
                        if spec_valid_domain(d@) {
                            assert(has_dot_window(d@, run_start as int));
                            let k = choose|k: int|
                                run_start <= k < run_start + 64 && #[trigger] d@[k] == '.';
                            assert(d@[k] != '.');
                        }
                    }
                }
                return false;
            }
        }
        proof {
            assert forall|w: int| 0 <= w && w + 64 <= j + 1 implies #[trigger] has_dot_window(
                d@,
                w,
            ) by {
                if w + 64 == j + 1 {
                    if d@[j as int] == '.' {
                        assert(w <= j < w + 64 && d@[j as int] == '.');
                    } else {
                        assert(run_start >= 1);
                        assert(d@[run_start - 1] == '.');
                        assert(w <= run_start - 1 < w + 64);
                    }
                }
            }
        }
        j = j + 1;
    }
    true
}

/// Validates if a string is a valid email address.
pub fn is_valid_email(email: &str) -> (r: bool)
    ensures
        r == spec_valid_email(email),
{
    if email.len() == 0 || email.len() > 254 {
        return false;
    }
    let cs = crate::text::chars_vec(email);
    let n = cs.len();
    let at = match find_char(&cs, '@') {
        Some(a) => a,
        None => {
            proof {
                if spec_email_format(cs@) {
                    let b = choose|b: int| #[trigger] email_split_at(cs@, b);
                    assert(cs@[b] != '@');
                }
            }
            return false;
        },
    };
    if at == 0 {
        proof {
            lemma_at_unique(cs@, at as int);
            if spec_email_format(cs@) {
                let b = choose|b: int| #[trigger] email_split_at(cs@, b);
            }
        }
        return false;
    }
    let mut i: usize = 0;
    while i < at
        invariant
            at < n == cs@.len(),
            cs@ == email@,
            0 < at,
            cs@[at as int] == '@',
            forall|t: int| 0 <= t < at ==> cs@[t] != '@',
            i <= at,
            forall|t: int| 0 <= t < i ==> local_char_ok(#[trigger] cs@[t]),
        decreases at - i,
    {
        if !is_local_char(cs[i]) {
            proof {
                lemma_at_unique(cs@, at as int);
                if spec_email_format(cs@) {
                    let b = choose|b: int| #[trigger] email_split_at(cs@, b);
                    assert(b == at);
                    assert(local_char_ok(cs@[i as int]));
                }
            }
            return false;
        }
        i = i + 1;
    }
    let dom = crate::text::vec_slice(&cs, at + 1, n);
    let ok = check_domain(&dom);
    proof {
        if ok {
            assert(email_split_at(cs@, at as int));
        } else {
            lemma_at_unique(cs@, at as int);
            if spec_email_format(cs@) {
                let b = choose|b: int| #[trigger] email_split_at(cs@, b);
                assert(b == at);
            }
        }
    }
    ok
}

/// In a sequence whose first `@` stands at `a`, any position the address can
/// split at is `a` itself: the local part admits no `@`.
proof fn lemma_at_unique(s: Seq<char>, a: int)
    requires
        0 <= a < s.len(),
        s[a] == '@',
        forall|t: int| 0 <= t < a ==> s[t] != '@',
    ensures
        forall|b: int| #[trigger] email_split_at(s, b) ==> b == a,
{
    assert forall|b: int| #[trigger] email_split_at(s, b) implies b == a by {
        if b < a {
            assert(s[b] != '@');
        } else if b > a {
            assert(local_char_ok(s[a]));
            assert(!local_char_ok('@'));
        }
    }
}

/// Validates if a string is a valid email address whose domain is one of the
/// allowed ones.
pub fn is_valid_email_with_domain(email: &str, allowed_domains: &[&str]) -> (r: bool)
    ensures
        r == (spec_valid_email(email) && exists|i: int|
            0 <= i < allowed_domains@.len() && (#[trigger] allowed_domains@[i])@ == spec_after_at(
                email@,
            )),
{
    if !is_valid_email(email) {
        return false;
    }
    let cs = crate::text::chars_vec(email);
    let n = cs.len();
    let at = match find_char(&cs, '@') {
        Some(a) => a,
        None => {
            proof {
                assert(spec_email_format(cs@));
                let b = choose|b: int| #[trigger] email_split_at(cs@, b);
                assert(cs@[b] != '@');
            }
            return false;
        },
    };
    proof {
        lemma_find_idx(cs@, '@', at as int);
    }
    let dom = crate::text::vec_slice(&cs, at + 1, n);
    let dn = allowed_domains.len();
    let mut i: usize = 0;
    while i < dn
        invariant
            dn == allowed_domains@.len(),
            i <= dn,
            spec_valid_email(email),
            dom@ == spec_after_at(cs@),
            cs@ == email@,
            forall|t: int| 0 <= t < i ==> (#[trigger] allowed_domains@[t])@ != spec_after_at(cs@),
        decreases dn - i,
    {
        let cand: &str = allowed_domains[i];
        if crate::text::vec_eq_str(&dom, cand) {
            return true;
        }
        i = i + 1;
    }
    false
}

/// The index of the first occurrence of `c`, or the length when absent.
pub open spec fn spec_find_idx(s: Seq<char>, c: char) -> int
    decreases s.len(),
{
    if s.len() == 0 {
        0
    } else if s[0] == c {
        0
    } else {
        1 + spec_find_idx(s.drop_first(), c)
    }
}

/// Everything after the first `@`.
pub open spec fn spec_after_at(s: Seq<char>) -> Seq<char> {
    s.subrange(spec_find_idx(s, '@') + 1, s.len() as int)
}

proof fn lemma_find_idx(s: Seq<char>, c: char, a: int)
    requires
        0 <= a < s.len(),
        s[a] == c,
        forall|t: int| 0 <= t < a ==> s[t] != c,
    ensures
        spec_find_idx(s, c) == a,
    decreases s.len(),
{
    if a > 0 {
        assert(s[0] != c);
        lemma_find_idx(s.drop_first(), c, a - 1);
    }
}

} // verus!
