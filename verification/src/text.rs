//! Character and string helpers shared by the validators: character classes,
//! conversion of `&str` to `Vec<char>`, substring search, and digit parsing.

use vstd::prelude::*;
use vstd::string::StrSliceExecFns;

verus! {

// ---------------------------------------------------------------------------
// ASCII character classes
// ---------------------------------------------------------------------------

/// An ASCII decimal digit `'0'..='9'`.
pub open spec fn dec_digit(c: char) -> bool {
    48 <= c as u32 && c as u32 <= 57
}

/// The numeric value of an ASCII decimal digit.
pub open spec fn digit_val(c: char) -> int {
    c as u32 - 48
}

/// An ASCII letter or digit.
pub open spec fn ascii_alnum(c: char) -> bool {
    dec_digit(c) || (65 <= c as u32 && c as u32 <= 90) || (97 <= c as u32 && c as u32 <= 122)
}

pub fn is_dec_digit(c: char) -> (r: bool)
    ensures
        r == dec_digit(c),
{
    let u = c as u32;
    48 <= u && u <= 57
}

pub fn is_ascii_alnum(c: char) -> (r: bool)
    ensures
        r == ascii_alnum(c),
{
    let u = c as u32;
    (48 <= u && u <= 57) || (65 <= u && u <= 90) || (97 <= u && u <= 122)
}

// ---------------------------------------------------------------------------
// Unicode character classes, named after the std predicates they rely on
// ---------------------------------------------------------------------------

pub uninterp spec fn char_alphanumeric(c: char) -> bool;

pub uninterp spec fn char_alphabetic(c: char) -> bool;

pub uninterp spec fn char_upper(c: char) -> bool;

pub uninterp spec fn char_lower(c: char) -> bool;

pub uninterp spec fn char_white(c: char) -> bool;

/// Relies on char::is_alphanumeric: the result depends on the character alone.
#[verifier::external_body]
pub fn is_unicode_alnum(c: char) -> (r: bool)
    ensures
        r == char_alphanumeric(c),
{
    c.is_alphanumeric()
}

/// Relies on char::is_alphabetic: the result depends on the character alone.
#[verifier::external_body]
pub fn is_unicode_alpha(c: char) -> (r: bool)
    ensures
        r == char_alphabetic(c),
{
    c.is_alphabetic()
}

/// Relies on char::is_uppercase: the result depends on the character alone.
#[verifier::external_body]
pub fn is_unicode_upper(c: char) -> (r: bool)
    ensures
        r == char_upper(c),
{
    c.is_uppercase()
}

/// Relies on char::is_lowercase: the result depends on the character alone.
#[verifier::external_body]
pub fn is_unicode_lower(c: char) -> (r: bool)
    ensures
        r == char_lower(c),
{
    c.is_lowercase()
}

/// Relies on char::is_whitespace: the result depends on the character alone.
#[verifier::external_body]
pub fn is_unicode_white(c: char) -> (r: bool)
    ensures
        r == char_white(c),
{
    c.is_whitespace()
}

// ---------------------------------------------------------------------------
// &str to Vec<char> and string equality
// ---------------------------------------------------------------------------

/// The characters of a string slice, as a vector.
pub fn chars_vec(s: &str) -> (r: Vec<char>)
    ensures
        r@ == s@,
{
    let n = s.unicode_len();
    let mut r: Vec<char> = Vec::new();
    let mut i: usize = 0;
    while i < n
        invariant
            n == s@.len(),
            i <= n,
            r@ == s@.subrange(0, i as int),
        decreases n - i,
    {
        r.push(s.get_char(i));
        i = i + 1;
        proof {
            assert(r@ =~= s@.subrange(0, i as int));
        }
    }
    proof {
        assert(r@ =~= s@);
    }
    r
}

/// Character-wise equality of two string slices.
pub fn eq_str(a: &str, b: &str) -> (r: bool)
    ensures
        r == (a@ == b@),
{
    let n = a.unicode_len();
    if n != b.unicode_len() {
        return false;
    }
    let mut i: usize = 0;
    while i < n
        invariant
            n == a@.len(),
            n == b@.len(),
            i <= n,
            forall|j: int| 0 <= j < i ==> a@[j] == b@[j],
        decreases n - i,
    {
        if a.get_char(i) != b.get_char(i) {
            return false;
        }
        i = i + 1;
    }
    proof {
        assert(a@ =~= b@);
    }
    true
}

/// Character-wise equality of a character vector and a string slice.
pub fn vec_eq_str(v: &Vec<char>, s: &str) -> (r: bool)
    ensures
        r == (v@ == s@),
{
    let n = v.len();
    if n != s.unicode_len() {
        return false;
    }
    let mut i: usize = 0;
    while i < n
        invariant
            n == v@.len(),
            n == s@.len(),
            i <= n,
            forall|j: int| 0 <= j < i ==> v@[j] == s@[j],
        decreases n - i,
    {
        if v[i] != s.get_char(i) {
            return false;
        }
        i = i + 1;
    }
    proof {
        assert(v@ =~= s@);
    }
    true
}

// ---------------------------------------------------------------------------
// Substring search over character vectors
// ---------------------------------------------------------------------------

/// `p` is a prefix of `s`.
pub open spec fn seq_starts_with(s: Seq<char>, p: Seq<char>) -> bool {
    p.len() <= s.len() && s.subrange(0, p.len() as int) == p
}

/// `p` is a suffix of `s`.
pub open spec fn seq_ends_with(s: Seq<char>, p: Seq<char>) -> bool {
    p.len() <= s.len() && s.subrange(s.len() - p.len(), s.len() as int) == p
}

/// `n` occurs in `h` at position `k`.
pub open spec fn seq_match_at(h: Seq<char>, n: Seq<char>, k: int) -> bool {
    0 <= k && k + n.len() <= h.len() && h.subrange(k, k + n.len() as int) == n
}

/// `n` occurs somewhere in `h`.
pub open spec fn seq_has_sub(h: Seq<char>, n: Seq<char>) -> bool {
    exists|k: int| seq_match_at(h, n, k)
}

pub fn vec_match_at(h: &Vec<char>, n: &Vec<char>, k: usize) -> (r: bool)
    requires
        k + n@.len() <= h@.len(),
    ensures
        r == seq_match_at(h@, n@, k as int),
{
    let hn = h.len();
    let nn = n.len();
    let mut j: usize = 0;
    while j < nn
        invariant
            hn == h@.len(),
            nn == n@.len(),
            k + nn <= hn,
            j <= nn,
            forall|t: int| 0 <= t < j ==> h@[k + t] == n@[t],
        decreases nn - j,
    {
        if h[k + j] != n[j] {
            proof {
                assert(h@.subrange(k as int, k + n@.len() as int)[j as int] == h@[k + j]);
            }
            return false;
        }
        j = j + 1;
    }
    proof {
        assert(h@.subrange(k as int, k + n@.len() as int) =~= n@);
    }
    true
}

pub fn vec_has_sub(h: &Vec<char>, n: &Vec<char>) -> (r: bool)
    ensures
        r == seq_has_sub(h@, n@),
{
    if n.len() > h.len() {
        return false;
    }
    if n.len() == 0 {
        proof {
            assert(h@.subrange(0, 0) =~= n@);
            assert(seq_match_at(h@, n@, 0));
        }
        return true;
    }
    let hl = h.len();
    let last = hl - n.len();
    let mut k: usize = 0;
    while k <= last
        invariant
            hl == h@.len(),
            1 <= n@.len() <= h@.len(),
            last == h@.len() - n@.len(),
            k <= last + 1,
            forall|t: int| 0 <= t < k ==> !seq_match_at(h@, n@, t),
        decreases last + 1 - k,
    {
        if vec_match_at(h, n, k) {
            return true;
        }
        k = k + 1;
    }
    false
}

pub fn vec_starts_with(h: &Vec<char>, p: &Vec<char>) -> (r: bool)
    ensures
        r == seq_starts_with(h@, p@),
{
    if p.len() > h.len() {
        false
    } else {
        vec_match_at(h, p, 0)
    }
}

// ---------------------------------------------------------------------------
// Building character vectors
// ---------------------------------------------------------------------------

/// Appends the characters of `s` to `v`.
pub fn push_str_chars(v: &mut Vec<char>, s: &str)
    ensures
        final(v)@ == old(v)@ + s@,
{
    let n = s.unicode_len();
    let mut i: usize = 0;
    while i < n
        invariant
            n == s@.len(),
            i <= n,
            v@ == old(v)@ + s@.subrange(0, i as int),
        decreases n - i,
    {
        v.push(s.get_char(i));
        i = i + 1;
        proof {
            assert(v@ =~= old(v)@ + s@.subrange(0, i as int));
        }
    }
    proof {
        assert(v@ =~= old(v)@ + s@);
    }
}

/// Appends the contents of `s` to `v`.
pub fn push_vec_chars(v: &mut Vec<char>, s: &Vec<char>)
    ensures
        final(v)@ == old(v)@ + s@,
{
    let n = s.len();
    let mut i: usize = 0;
    while i < n
        invariant
            n == s@.len(),
            i <= n,
            v@ == old(v)@ + s@.subrange(0, i as int),
        decreases n - i,
    {
        v.push(s[i]);
        i = i + 1;
        proof {
            assert(v@ =~= old(v)@ + s@.subrange(0, i as int));
        }
    }
    proof {
        assert(v@ =~= old(v)@ + s@);
    }
}

/// Copies the characters of `v` between `a` and `b` into a fresh vector.
pub fn vec_slice(v: &Vec<char>, a: usize, b: usize) -> (r: Vec<char>)
    requires
        a <= b <= v@.len(),
    ensures
        r@ == v@.subrange(a as int, b as int),
{
    let mut r: Vec<char> = Vec::new();
    let mut i: usize = a;
    while i < b
        invariant
            a <= i <= b <= v@.len(),
            r@ == v@.subrange(a as int, i as int),
        decreases b - i,
    {
        r.push(v[i]);
        i = i + 1;
        proof {
            assert(r@ =~= v@.subrange(a as int, i as int));
        }
    }
    r
}

// ---------------------------------------------------------------------------
// Decimal number parsing
// ---------------------------------------------------------------------------

/// The value of a sequence of decimal digits, most significant first.
pub open spec fn dec_val(s: Seq<char>) -> int
    decreases s.len(),
{
    if s.len() == 0 {
        0
    } else {
        dec_val(s.drop_last()) * 10 + digit_val(s.last())
    }
}

pub open spec fn all_dec_digits(s: Seq<char>) -> bool {
    forall|i: int| 0 <= i < s.len() ==> dec_digit(#[trigger] s[i])
}

/// The digits of a numeral, after an optional leading `'+'`.
pub open spec fn parse_body(s: Seq<char>) -> Seq<char> {
    if s.len() > 0 && s[0] == '+' {
        s.drop_first()
    } else {
        s
    }
}

/// What `str::parse::<u32>` accepts: an optional leading `'+'`, then one or
/// more decimal digits whose value fits in a `u32`.
pub open spec fn spec_parse_u32(s: Seq<char>) -> Option<u32> {
    let body = parse_body(s);
    if body.len() > 0 && all_dec_digits(body) && dec_val(body) <= u32::MAX {
        Some(dec_val(body) as u32)
    } else {
        None
    }
}

proof fn lemma_dec_val_prefix_le(s: Seq<char>, i: int, j: int)
    requires
        0 <= i <= j <= s.len(),
        all_dec_digits(s),
    ensures
        dec_val(s.subrange(0, i)) <= dec_val(s.subrange(0, j)),
    decreases j - i,
{
    if i < j {
        lemma_dec_val_prefix_le(s, i, j - 1);
        let p = s.subrange(0, j);
        assert(p.drop_last() =~= s.subrange(0, j - 1));
        assert(dec_val(p) == dec_val(s.subrange(0, j - 1)) * 10 + digit_val(s[j - 1]));
        assert(dec_val(s.subrange(0, j - 1)) >= 0) by {
            lemma_dec_val_nonneg(s.subrange(0, j - 1));
        }
    }
}

proof fn lemma_dec_val_nonneg(s: Seq<char>)
    requires
        all_dec_digits(s),
    ensures
        dec_val(s) >= 0,
    decreases s.len(),
{
    if s.len() > 0 {
        assert(all_dec_digits(s.drop_last()));
        lemma_dec_val_nonneg(s.drop_last());
    }
}

/// Parses the characters of `v`, starting at `from`, as `str::parse::<u32>`
/// would parse the whole of them.
pub fn parse_u32_chars(v: &Vec<char>, from: usize) -> (r: Option<u32>)
    requires
        from <= v@.len(),
    ensures
        r == spec_parse_u32(v@.subrange(from as int, v@.len() as int)),
{
    let ghost whole = v@.subrange(from as int, v@.len() as int);
    let n = v.len();
    let mut i: usize = from;
    if i < n && v[i] == '+' {
        i = i + 1;
    }
    let ghost body = v@.subrange(i as int, v@.len() as int);
    proof {
        if whole.len() > 0 && whole[0] == '+' {
            assert(whole.drop_first() =~= body);
        } else {
            assert(whole =~= body);
        }
        assert(body == parse_body(whole));
    }
    if i == n {
        return None;
    }
    let start = i;
    let mut acc: u64 = 0;
    while i < n
        invariant
            start <= i <= n,
            start < n,
            n == v@.len(),
            from <= v@.len(),
            whole == v@.subrange(from as int, n as int),
            body == parse_body(whole),
            body == v@.subrange(start as int, n as int),
            all_dec_digits(v@.subrange(start as int, i as int)),
            acc == dec_val(v@.subrange(start as int, i as int)),
            acc <= u32::MAX,
        decreases n - i,
    {
        let c = v[i];
        if !is_dec_digit(c) {
            proof {
                assert(body[i - start] == c);
                assert(!all_dec_digits(body));
            }
            return None;
        }
        let d = (c as u32) - 48;
        let next: u64 = acc * 10 + (d as u64);
        proof {
            let prev = v@.subrange(start as int, i as int);
            let p = v@.subrange(start as int, i + 1);
            assert(p.drop_last() =~= prev);
            assert(p.last() == c);
            assert(dec_val(p) == dec_val(prev) * 10 + digit_val(c));
            assert(next == dec_val(p));
            assert forall|t: int| 0 <= t < p.len() implies dec_digit(#[trigger] p[t]) by {
                if t < i - start {
                    assert(p[t] == prev[t]);
                } else {
                    assert(p[t] == c);
                }
            }
        }
        if next > 0xFFFF_FFFFu64 {
            proof {
                let p = v@.subrange(start as int, i + 1);
                if all_dec_digits(body) {
                    assert(body.subrange(0, i + 1 - start) =~= p);
                    lemma_dec_val_prefix_le(body, i + 1 - start, body.len() as int);
                    assert(body.subrange(0, body.len() as int) =~= body);
                    assert(dec_val(body) >= dec_val(p));
                }
            }
            return None;
        }
        acc = next;
        i = i + 1;
    }
    proof {
        assert(v@.subrange(start as int, i as int) =~= body);
    }
    Some(acc as u32)
}

} // verus!
