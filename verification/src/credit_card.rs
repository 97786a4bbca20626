//! Credit card validation functions.

use vstd::prelude::*;
use crate::text::{dec_digit, digit_val, is_dec_digit};

verus! {

/// A character that survives cleaning: anything but a space or a hyphen.
pub open spec fn keeps_card_char(c: char) -> bool {
    c != ' ' && c != '-'
}

/// The card number with every space and hyphen removed.
pub open spec fn spec_clean_card(s: Seq<char>) -> Seq<char>
    decreases s.len(),
{
    if s.len() == 0 {
        Seq::empty()
    } else if keeps_card_char(s.last()) {
        spec_clean_card(s.drop_last()).push(s.last())
    } else {
        spec_clean_card(s.drop_last())
    }
}

/// Removes spaces and hyphens from a card number.
pub fn clean_card(s: &str) -> (r: Vec<char>)
    ensures
        r@ == spec_clean_card(s@),
{
    let cs = crate::text::chars_vec(s);
    let n = cs.len();
    let mut r: Vec<char> = Vec::new();
    let mut i: usize = 0;
    while i < n
        invariant
            n == cs@.len(),
            cs@ == s@,
            i <= n,
            r@ == spec_clean_card(s@.subrange(0, i as int)),
        decreases n - i,
    {
        let c = cs[i];
        proof {
            let p = s@.subrange(0, i + 1);
            assert(p.drop_last() =~= s@.subrange(0, i as int));
            assert(p.last() == c);
        }
        if c != ' ' && c != '-' {
            r.push(c);
        }
        i = i + 1;
    }
    proof {
        assert(s@.subrange(0, n as int) =~= s@);
    }
    r
}

/// The Luhn contribution of one digit: doubled on alternating positions,
/// with nine subtracted when doubling overflows a single digit.
pub open spec fn luhn_digit(d: int, doubled: bool) -> int {
    if doubled {
        if 2 * d > 9 {
            2 * d - 9
        } else {
            2 * d
        }
    } else {
        d
    }
}

/// The Luhn sum of the first `n` digits of `ds`, where a digit is doubled
/// when its distance from the right end of the whole sequence is odd.
pub open spec fn luhn_partial(ds: Seq<char>, n: int) -> int
    decreases n,
{
    if n <= 0 {
        0
    } else {
        luhn_partial(ds, n - 1) + luhn_digit(digit_val(ds[n - 1]), (ds.len() - n) % 2 == 1)
    }
}

/// The Luhn sum of a digit sequence.
pub open spec fn luhn_total(ds: Seq<char>) -> int {
    luhn_partial(ds, ds.len() as int)
}

/// The digits of `s`, in order, everything else dropped.
pub open spec fn spec_digits_of(s: Seq<char>) -> Seq<char>
    decreases s.len(),
{
    if s.len() == 0 {
        Seq::empty()
    } else if dec_digit(s.last()) {
        spec_digits_of(s.drop_last()).push(s.last())
    } else {
        spec_digits_of(s.drop_last())
    }
}

/// Whether a string passes the Luhn checksum: its digits are extracted, at
/// least one must be present, and their Luhn sum must be divisible by ten.
pub open spec fn spec_luhn_check(s: Seq<char>) -> bool {
    let ds = spec_digits_of(s);
    ds.len() > 0 && luhn_total(ds) % 10 == 0
}

proof fn lemma_digits_all_digits(s: Seq<char>)
    ensures
        forall|i: int|
            0 <= i < spec_digits_of(s).len() ==> dec_digit(#[trigger] spec_digits_of(s)[i]),
    decreases s.len(),
{
    if s.len() > 0 {
        lemma_digits_all_digits(s.drop_last());
        let pre = spec_digits_of(s.drop_last());
        assert forall|i: int|
            0 <= i < spec_digits_of(s).len() implies dec_digit(#[trigger] spec_digits_of(s)[i]) by {
            if dec_digit(s.last()) {
                assert(spec_digits_of(s) == pre.push(s.last()));
                if i < pre.len() {
                    assert(spec_digits_of(s)[i] == pre[i]);
                } else {
                    assert(spec_digits_of(s)[i] == s.last());
                }
            } else {
                assert(spec_digits_of(s) == pre);
            }
        }
    }
}

/// The Luhn checksum over a vector of characters.
fn luhn_vec(v: &Vec<char>) -> (r: bool)
    ensures
        r == spec_luhn_check(v@),
{
    let n = v.len();
    let mut digits: Vec<char> = Vec::new();
    let mut i: usize = 0;
    while i < n
        invariant
            n == v@.len(),
            i <= n,
            digits@ == spec_digits_of(v@.subrange(0, i as int)),
        decreases n - i,
    {
        let c = v[i];
        proof {
            let p = v@.subrange(0, i + 1);
            assert(p.drop_last() =~= v@.subrange(0, i as int));
            assert(p.last() == c);
        }
        if is_dec_digit(c) {
            digits.push(c);
        }
        i = i + 1;
    }
    proof {
        assert(v@.subrange(0, n as int) =~= v@);
    }
    if digits.len() == 0 {
        return false;
    }
    proof {
        lemma_digits_all_digits(v@);
    }
    let dn = digits.len();
    let mut sum: u128 = 0;
    let mut k: usize = 0;
    while k < dn
        invariant
            dn == digits@.len(),
            digits@ == spec_digits_of(v@),
            forall|t: int| 0 <= t < digits@.len() ==> dec_digit(#[trigger] digits@[t]),
            k <= dn,
            sum == luhn_partial(digits@, k as int),
            sum <= 18 * k,
        decreases dn - k,
    {
        let c = digits[k];
        let d = (c as u32) - 48;
        let doubled = (dn - 1 - k) % 2 == 1;
        let add: u32 = if doubled {
            if 2 * d > 9 {
                2 * d - 9
            } else {
                2 * d
            }
        } else {
            d
        };
        sum = sum + (add as u128);
        k = k + 1;
    }
    sum % 10 == 0
}

/// Implements the Luhn algorithm for credit card validation.
pub fn luhn_check(number: &str) -> (r: bool)
    ensures
        r == spec_luhn_check(number@),
{
    let cs = crate::text::chars_vec(number);
    luhn_vec(&cs)
}

/// A valid card number: after cleaning, between 13 and 19 characters, all of
/// them digits, passing the Luhn checksum.
pub open spec fn spec_valid_credit_card(s: Seq<char>) -> bool {
    let cl = spec_clean_card(s);
    &&& 13 <= cl.len() <= 19
    &&& forall|i: int| 0 <= i < cl.len() ==> dec_digit(#[trigger] cl[i])
    &&& spec_luhn_check(cl)
}

/// Validates a credit card number using the Luhn algorithm.
pub fn is_valid_credit_card(card_number: &str) -> (r: bool)
    ensures
        r == spec_valid_credit_card(card_number@),
{
    let cleaned = clean_card(card_number);
    let n = cleaned.len();
    if n < 13 || n > 19 {
        return false;
    }
    let mut i: usize = 0;
    while i < n
        invariant
            n == cleaned@.len(),
            cleaned@ == spec_clean_card(card_number@),
            i <= n,
            forall|t: int| 0 <= t < i ==> dec_digit(#[trigger] cleaned@[t]),
        decreases n - i,
    {
        if !is_dec_digit(cleaned[i]) {
            return false;
        }
        i = i + 1;
    }
    luhn_vec(&cleaned)
}

/// Identifies the credit card type based on the card number.
#[derive(Debug, PartialEq, Eq)]
pub enum CardType {
    Visa,
    MasterCard,
    Amex,
    Discover,
    Unknown,
}

/// The card type read off the cleaned number's leading digits.
pub open spec fn spec_card_type(cl: Seq<char>) -> CardType {
    if cl.len() >= 1 && cl[0] == '4' {
        CardType::Visa
    } else if cl.len() >= 2 && cl[0] == '5' && 49 <= cl[1] as u32 && cl[1] as u32 <= 53 {
        CardType::MasterCard
    } else if cl.len() >= 2 && cl[0] == '3' && (cl[1] == '4' || cl[1] == '7') {
        CardType::Amex
    } else if (cl.len() >= 4 && cl[0] == '6' && cl[1] == '0' && cl[2] == '1' && cl[3] == '1') || (
    cl.len() >= 2 && cl[0] == '6' && cl[1] == '5') {
        CardType::Discover
    } else {
        CardType::Unknown
    }
}

/// Determines the type of credit card.
pub fn get_card_type(card_number: &str) -> (r: CardType)
    ensures
        r == spec_card_type(spec_clean_card(card_number@)),
{
    let cl = clean_card(card_number);
    let n = cl.len();
    if n >= 1 && cl[0] == '4' {
        CardType::Visa
    } else if n >= 2 && cl[0] == '5' && 49 <= cl[1] as u32 && cl[1] as u32 <= 53 {
        CardType::MasterCard
    } else if n >= 2 && cl[0] == '3' && (cl[1] == '4' || cl[1] == '7') {
        CardType::Amex
    } else if (n >= 4 && cl[0] == '6' && cl[1] == '0' && cl[2] == '1' && cl[3] == '1') || (n >= 2
        && cl[0] == '6' && cl[1] == '5') {
        CardType::Discover
    } else {
        CardType::Unknown
    }
}

} // verus!
