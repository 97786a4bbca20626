//! Date and time validation functions.

use vstd::prelude::*;
use crate::text::{all_dec_digits, dec_digit, dec_val, is_dec_digit, spec_parse_u32};

verus! {

/// A Gregorian leap year.
pub open spec fn spec_leap_year(y: int) -> bool {
    (y % 4 == 0 && y % 100 != 0) || y % 400 == 0
}

proof fn lemma_divides_neg(y: int, k: int)
    requires
        k > 0,
    ensures
        (y % k == 0) <==> ((-y) % k == 0),
{
    vstd::arithmetic::div_mod::lemma_fundamental_div_mod(y, k);
    vstd::arithmetic::div_mod::lemma_fundamental_div_mod(-y, k);
    if y % k == 0 {
        assert((-y) == (-(y / k)) * k) by (nonlinear_arith)
            requires
                y == k * (y / k),
        ;
        vstd::arithmetic::div_mod::lemma_mod_multiples_basic(-(y / k), k);
    }
    if (-y) % k == 0 {
        assert(y == (-((-y) / k)) * k) by (nonlinear_arith)
            requires
                (-y) == k * ((-y) / k),
        ;
        vstd::arithmetic::div_mod::lemma_mod_multiples_basic(-((-y) / k), k);
    }
}

/// Checks if a year is a leap year.
pub fn is_leap_year(year: i32) -> (r: bool)
    ensures
        r == spec_leap_year(year as int),
{
    let y64: i64 = year as i64;
    let a: u32 = (if y64 < 0 {
        -y64
    } else {
        y64
    }) as u32;
    proof {
        if year < 0 {
            lemma_divides_neg(year as int, 4);
            lemma_divides_neg(year as int, 100);
            lemma_divides_neg(year as int, 400);
        }
    }
    (a % 4 == 0 && a % 100 != 0) || a % 400 == 0
}

/// The number of days in a month of a given year; zero for an invalid month.
pub open spec fn spec_days_in_month(y: int, m: int) -> int {
    if m == 1 || m == 3 || m == 5 || m == 7 || m == 8 || m == 10 || m == 12 {
        31
    } else if m == 4 || m == 6 || m == 9 || m == 11 {
        30
    } else if m == 2 {
        if spec_leap_year(y) {
            29
        } else {
            28
        }
    } else {
        0
    }
}

/// Year, month and day form a valid calendar date.
pub open spec fn spec_valid_date_parts(y: int, m: int, d: int) -> bool {
    1 <= m <= 12 && 1 <= d && d <= spec_days_in_month(y, m)
}

/// Validates if year, month, and day form a valid date.
pub fn is_valid_date_parts(year: i32, month: u32, day: u32) -> (r: bool)
    ensures
        r == spec_valid_date_parts(year as int, month as int, day as int),
{
    if month < 1 || month > 12 || day < 1 {
        return false;
    }
    let max_day: u32 = if month == 1 || month == 3 || month == 5 || month == 7 || month == 8
        || month == 10 || month == 12 {
        31
    } else if month == 4 || month == 6 || month == 9 || month == 11 {
        30
    } else {
        if is_leap_year(year) {
            29
        } else {
            28
        }
    };
    day <= max_day
}

/// The shape `YYYY-MM-DD`: ten characters, digits with dashes at the fifth
/// and eighth position.
pub open spec fn spec_date_shape(s: Seq<char>) -> bool {
    &&& s.len() == 10
    &&& s[4] == '-'
    &&& s[7] == '-'
    &&& forall|i: int|
        (0 <= i < 4 || 5 <= i < 7 || 8 <= i < 10) ==> dec_digit(#[trigger] s[i])
}

/// A string in `YYYY-MM-DD` shape whose numeric fields form a valid date.
pub open spec fn spec_valid_date(s: Seq<char>) -> bool {
    &&& spec_date_shape(s)
    &&& spec_valid_date_parts(
        dec_val(s.subrange(0, 4)),
        dec_val(s.subrange(5, 7)),
        dec_val(s.subrange(8, 10)),
    )
}

/// Validates if a string is in ISO 8601 date format (YYYY-MM-DD) and denotes
/// a real calendar date.
pub fn is_valid_date(date: &str) -> (r: bool)
    ensures
        r == spec_valid_date(date@),
{
    let cs = crate::text::chars_vec(date);
    if cs.len() != 10 {
        return false;
    }
    if cs[4] != '-' || cs[7] != '-' {
        return false;
    }
    let mut i: usize = 0;
    while i < 10
        invariant
            cs@.len() == 10,
            cs@ == date@,
            i <= 10,
            forall|t: int|
                0 <= t < i && (0 <= t < 4 || 5 <= t < 7 || 8 <= t < 10) ==> dec_digit(
                    #[trigger] cs@[t],
                ),
        decreases 10 - i,
    {
        if i != 4 && i != 7 && !is_dec_digit(cs[i]) {
            return false;
        }
        i = i + 1;
    }
    let year = field_val(&cs, 0, 4);
    let month = field_val(&cs, 5, 7);
    let day = field_val(&cs, 8, 10);
    is_valid_date_parts(year as i32, month, day)
}

/// The numeric value of an all-digit field of at most four characters.
fn field_val(v: &Vec<char>, a: usize, b: usize) -> (r: u32)
    requires
        a <= b <= v@.len(),
        b - a <= 4,
        forall|t: int| a <= t < b ==> dec_digit(#[trigger] v@[t]),
    ensures
        r == dec_val(v@.subrange(a as int, b as int)),
        r <= 9999,
{
    let mut r: u32 = 0;
    let mut i: usize = a;
    while i < b
        invariant
            a <= i <= b <= v@.len(),
            b - a <= 4,
            forall|t: int| a <= t < b ==> dec_digit(#[trigger] v@[t]),
            r == dec_val(v@.subrange(a as int, i as int)),
            r <= 9999,
        decreases b - i,
    {
        let c = v[i];
        let d = (c as u32) - 48;
        proof {
            let p = v@.subrange(a as int, i + 1);
            assert(p.drop_last() =~= v@.subrange(a as int, i as int));
            assert(p.last() == c);
            lemma_dec_val_bound(v@.subrange(a as int, i as int));
        }
        r = r * 10 + d;
        i = i + 1;
    }
    proof {
        lemma_dec_val_bound(v@.subrange(a as int, b as int));
    }
    r
}

proof fn lemma_dec_val_bound(s: Seq<char>)
    requires
        forall|t: int| 0 <= t < s.len() ==> dec_digit(#[trigger] s[t]),
        s.len() <= 4,
    ensures
        dec_val(s) <= if s.len() == 0 {
            0int
        } else if s.len() == 1 {
            9int
        } else if s.len() == 2 {
            99int
        } else if s.len() == 3 {
            999int
        } else {
            9999int
        },
    decreases s.len(),
{
    if s.len() > 0 {
        assert(s.drop_last().len() == s.len() - 1);
        lemma_dec_val_bound(s.drop_last());
    }
}

// ---------------------------------------------------------------------------
// Date-time strings
// ---------------------------------------------------------------------------

/// An optional fractional-seconds suffix: nothing, or a dot followed by one
/// or more digits.
pub open spec fn spec_frac_ok(f: Seq<char>) -> bool {
    ||| f.len() == 0
    ||| (f.len() >= 2 && f[0] == '.' && all_dec_digits(f.subrange(1, f.len() as int)))
}

/// An optional time-zone suffix: nothing, a literal `Z`, or a sign followed
/// by a two-digit hour, a colon, and a two-digit minute.
pub open spec fn spec_zone_ok(z: Seq<char>) -> bool {
    ||| z.len() == 0
    ||| (z.len() == 1 && z[0] == 'Z')
    ||| (z.len() == 6 && (z[0] == '+' || z[0] == '-') && dec_digit(z[1]) && dec_digit(z[2])
        && z[3] == ':' && dec_digit(z[4]) && dec_digit(z[5]))
}

/// The `YYYY-MM-DDTHH:MM:SS` head of a date-time string.
pub open spec fn spec_datetime_head(s: Seq<char>) -> bool {
    &&& s.len() >= 19
    &&& s[4] == '-'
    &&& s[7] == '-'
    &&& s[10] == 'T'
    &&& s[13] == ':'
    &&& s[16] == ':'
    &&& forall|i: int|
        (0 <= i < 4 || 5 <= i < 7 || 8 <= i < 10 || 11 <= i < 13 || 14 <= i < 16 || 17 <= i < 19)
            ==> dec_digit(#[trigger] s[i])
}

/// An ISO 8601 date-time: head, then an optional fraction, then an optional
/// time zone.
pub open spec fn spec_valid_datetime(s: Seq<char>) -> bool {
    &&& spec_datetime_head(s)
    &&& exists|k: int|
        19 <= k <= s.len() && spec_frac_ok(#[trigger] s.subrange(19, k)) && spec_zone_ok(
            s.subrange(k, s.len() as int),
        )
}

/// Validates if a string is in ISO 8601 datetime format.
pub fn is_valid_datetime(datetime: &str) -> (r: bool)
    ensures
        r == spec_valid_datetime(datetime@),
{
    let cs = crate::text::chars_vec(datetime);
    let n = cs.len();
    if n < 19 {
        return false;
    }
    if cs[4] != '-' || cs[7] != '-' || cs[10] != 'T' || cs[13] != ':' || cs[16] != ':' {
        return false;
    }
    let mut i: usize = 0;
    while i < 19
        invariant
            n == cs@.len(),
            n >= 19,
            cs@ == datetime@,
            i <= 19,
            forall|t: int|
                0 <= t < i && (0 <= t < 4 || 5 <= t < 7 || 8 <= t < 10 || 11 <= t < 13 || 14 <= t
                    < 16 || 17 <= t < 19) ==> dec_digit(#[trigger] cs@[t]),
        decreases 19 - i,
    {
        if i != 4 && i != 7 && i != 10 && i != 13 && i != 16 && !is_dec_digit(cs[i]) {
            return false;
        }
        i = i + 1;
    }
    // Optional fraction: a dot followed by one or more digits.
    let mut k: usize = 19;
    if k < n && cs[k] == '.' {
        let mut j: usize = k + 1;
        while j < n && is_dec_digit_at(&cs, j)
            invariant
                n == cs@.len(),
                20 <= j <= n,
                forall|t: int| 20 <= t < j ==> dec_digit(#[trigger] cs@[t]),
            decreases n - j,
        {
            j = j + 1;
        }
        if j == k + 1 {
            // A dot with no digits: no split point separates a valid
            // fraction from a valid zone, since a zone never starts with a
            // dot and a fraction needs at least one digit.
            proof {
                assert forall|t: int|
                    19 <= t <= cs@.len() && spec_frac_ok(#[trigger] cs@.subrange(19, t))
                        implies !spec_zone_ok(cs@.subrange(t, cs@.len() as int)) by {
                    let f = cs@.subrange(19, t);
                    let z = cs@.subrange(t, cs@.len() as int);
                    if f.len() == 0 {
                        assert(z[0] == '.');
                    } else {
                        assert(f[1] == cs@[20]);
                        assert(!dec_digit(f.subrange(1, f.len() as int)[0]));
                    }
                }
            }
            return false;
        }
        proof {
            assert(spec_frac_ok(cs@.subrange(19, j as int))) by {
                let f = cs@.subrange(19, j as int);
                assert(f[0] == '.');
                assert(forall|t: int|
                    0 <= t < f.len() - 1 ==> #[trigger] f.subrange(1, f.len() as int)[t] == cs@[19
                        + 1 + t]);
            }
        }
        k = j;
    }
    // Optional zone: nothing, `Z`, or a signed `HH:MM` offset.
    let zone_ok: bool = if k == n {
        true
    } else if n - k == 1 && cs[k] == 'Z' {
        true
    } else if n - k == 6 && (cs[k] == '+' || cs[k] == '-') && is_dec_digit(cs[k + 1])
        && is_dec_digit(cs[k + 2]) && cs[k + 3] == ':' && is_dec_digit(cs[k + 4]) && is_dec_digit(
        cs[k + 5],
    ) {
        true
    } else {
        false
    };
    proof {
        let zs = cs@.subrange(k as int, n as int);
        assert(zone_ok == spec_zone_ok(zs));
        if zone_ok {
            assert(spec_frac_ok(cs@.subrange(19, k as int)));
        } else {
            // No other split point can succeed: any valid fraction is either
            // empty or runs to exactly `k`, the end of the digit run.
            assert forall|t: int|
                19 <= t <= cs@.len() && spec_frac_ok(#[trigger] cs@.subrange(19, t)) implies
                !spec_zone_ok(cs@.subrange(t, cs@.len() as int)) by {
                let f = cs@.subrange(19, t);
                let z = cs@.subrange(t, cs@.len() as int);
                if f.len() == 0 {
                    if k != 19 {
                        // The text continues with a dot, which no zone form
                        // allows first.
                        assert(z[0] == cs@[19]);
                        assert(z[0] == '.');
                        assert(!spec_zone_ok(z));
                    } else {
                        assert(z =~= zs);
                    }
                } else {
                    // The fraction starts with the dot at 19, so the text at
                    // 19 is a dot and digits follow up to `t`.
                    assert(cs@[19] == f[0]);
                    if k == 19 {
                        // No dot was consumed, so the text at 19 is not a
                        // dot, yet the fraction would have to start with one.
                        assert(19 < cs@.len());
                        assert(cs@[19] == '.');
                        assert(false);
                    } else if t < k {
                        // The zone would start with one of the consumed
                        // digits.
                        assert(20 <= t < k);
                        assert(dec_digit(cs@[t]));
                        assert(z[0] == cs@[t]);
                        assert(!spec_zone_ok(z));
                    } else if t > k {
                        // The fraction would contain the non-digit at `k`.
                        assert(k >= 20);
                        assert(f.subrange(1, f.len() as int)[k - 19 - 1] == cs@[k as int]);
                        assert(!dec_digit(cs@[k as int]));
                        assert(!spec_frac_ok(f));
                    } else {
                        assert(z =~= zs);
                    }
                }
            }
        }
    }
    zone_ok
}

/// Digit test through an index, for use inside a loop condition.
fn is_dec_digit_at(v: &Vec<char>, i: usize) -> (r: bool)
    requires
        i < v@.len(),
    ensures
        r == dec_digit(v@[i as int]),
{
    is_dec_digit(v[i])
}

// ---------------------------------------------------------------------------
// Times
// ---------------------------------------------------------------------------

/// Positions `i < j` are colons and no other position is.
pub open spec fn spec_time_split(s: Seq<char>, i: int, j: int) -> bool {
    &&& 0 <= i < j < s.len()
    &&& s[i] == ':'
    &&& s[j] == ':'
    &&& forall|t: int| 0 <= t < s.len() && t != i && t != j ==> s[t] != ':'
}

/// A valid `HH:MM:SS` time: two colons split the string into three numeric
/// fields within the ranges of hours, minutes and seconds.
pub open spec fn spec_valid_time(s: Seq<char>) -> bool {
    exists|i: int, j: int|
        #[trigger] spec_time_split(s, i, j) && {
            let h = spec_parse_u32(s.subrange(0, i));
            let m = spec_parse_u32(s.subrange(i + 1, j));
            let c = spec_parse_u32(s.subrange(j + 1, s.len() as int));
            h is Some && m is Some && c is Some && h->0 < 24 && m->0 < 60 && c->0 < 60
        }
}

/// Validates if a string is a valid time in HH:MM:SS format.
pub fn is_valid_time(time: &str) -> (r: bool)
    ensures
        r == spec_valid_time(time@),
{
    let cs = crate::text::chars_vec(time);
    let n = cs.len();
    let mut cols: Vec<usize> = Vec::new();
    let mut i: usize = 0;
    while i < n
        invariant
            n == cs@.len(),
            cs@ == time@,
            i <= n,
            forall|k: int| 0 <= k < cols@.len() ==> #[trigger] cols@[k] < i,
            forall|k: int| 0 <= k < cols@.len() ==> cs@[#[trigger] cols@[k] as int] == ':',
            forall|k: int, l: int| 0 <= k < l < cols@.len() ==> cols@[k] < cols@[l],
            forall|t: int|
                0 <= t < i && cs@[t] == ':' ==> exists|k: int|
                    0 <= k < cols@.len() && #[trigger] cols@[k] == t,
        decreases n - i,
    {
        if cs[i] == ':' {
            let ghost oldc = cols@;
            cols.push(i);
            proof {
                assert forall|t: int|
                    0 <= t < i + 1 && cs@[t] == ':' implies exists|k: int|
                    0 <= k < cols@.len() && #[trigger] cols@[k] == t by {
                    if t == i as int {
                        assert(cols@[cols@.len() - 1] == i as int);
                    } else {
                        let k = choose|k: int| 0 <= k < oldc.len() && #[trigger] oldc[k] == t;
                        assert(cols@[k] == t);
                    }
                }
            }
        }
        i = i + 1;
    }
    if cols.len() != 2 {
        proof {
            assert forall|a: int, b: int| !spec_time_split(cs@, a, b) by {
                if spec_time_split(cs@, a, b) {
                    assert(exists|k: int| 0 <= k < cols@.len() && #[trigger] cols@[k] == a);
                    assert(exists|k: int| 0 <= k < cols@.len() && #[trigger] cols@[k] == b);
                    if cols@.len() < 2 {
                        // Two distinct colons cannot both be the single entry.
                    } else {
                        // At least three entries: some entry is neither a nor
                        // b, yet holds a colon.
                        assert(cols@.len() >= 3);
                        let c0 = cols@[0];
                        let c1 = cols@[1];
                        let c2 = cols@[2];
                        assert(c0 < c1 < c2);
                        assert(cs@[c0 as int] == ':' && cs@[c1 as int] == ':' && cs@[c2 as int]
                            == ':');
                    }
                }
            }
        }
        return false;
    }
    let i0 = cols[0];
    let j0 = cols[1];
    let part_h = crate::text::vec_slice(&cs, 0, i0);
    let part_m = crate::text::vec_slice(&cs, i0 + 1, j0);
    let part_s = crate::text::vec_slice(&cs, j0 + 1, n);
    let rh = crate::text::parse_u32_chars(&part_h, 0);
    let rm = crate::text::parse_u32_chars(&part_m, 0);
    let rs = crate::text::parse_u32_chars(&part_s, 0);
    proof {
        assert(part_h@.subrange(0, part_h@.len() as int) =~= part_h@);
        assert(part_m@.subrange(0, part_m@.len() as int) =~= part_m@);
        assert(part_s@.subrange(0, part_s@.len() as int) =~= part_s@);
        assert(spec_time_split(cs@, i0 as int, j0 as int)) by {
            assert forall|t: int|
                0 <= t < cs@.len() && t != i0 && t != j0 implies cs@[t] != ':' by {
                if cs@[t] == ':' {
                    let k = choose|k: int| 0 <= k < cols@.len() && #[trigger] cols@[k] == t;
                    assert(k == 0 || k == 1);
                }
            }
        }
        // Any split the specification may choose is this one.
        assert forall|a: int, b: int|
            #[trigger] spec_time_split(cs@, a, b) implies a == i0 && b == j0 by {
            assert(exists|k: int| 0 <= k < cols@.len() && #[trigger] cols@[k] == a);
            assert(exists|k: int| 0 <= k < cols@.len() && #[trigger] cols@[k] == b);
        }
    }
    match (rh, rm, rs) {
        (Some(h), Some(m), Some(s)) => h < 24 && m < 60 && s < 60,
        _ => false,
    }
}

} // verus!
