//! Currency validation: a configurable grammar over locale format options.
//!
//! From a set of options a matching pattern is synthesized; a fixed row of
//! guard checks rejects beforehand what the pattern, lacking lookaround,
//! cannot itself exclude.

use vstd::prelude::*;
use crate::matching::{pattern_compiles, regex_matches};
use crate::text::{
    char_alphanumeric, dec_digit, is_dec_digit, is_unicode_alnum, seq_ends_with, seq_has_sub,
};

verus! {

/// Options for currency validation: symbol, separators, sign and spacing
/// conventions, and the accepted counts of fractional digits.
#[derive(Debug, Clone)]
pub struct CurrencyOptions {
    pub symbol: String,
    pub require_symbol: bool,
    pub allow_space_after_symbol: bool,
    pub symbol_after_digits: bool,
    pub allow_negatives: bool,
    pub parens_for_negatives: bool,
    pub negative_sign_before_digits: bool,
    pub negative_sign_after_digits: bool,
    pub allow_negative_sign_placeholder: bool,
    pub thousands_separator: char,
    pub decimal_separator: char,
    pub allow_decimal: bool,
    pub require_decimal: bool,
    pub digits_after_decimal: Vec<usize>,
    pub allow_space_after_digits: bool,
}

/// The mathematical view of a set of options.
pub ghost struct OptionsV {
    pub symbol: Seq<char>,
    pub require_symbol: bool,
    pub allow_space_after_symbol: bool,
    pub symbol_after_digits: bool,
    pub allow_negatives: bool,
    pub parens_for_negatives: bool,
    pub negative_sign_before_digits: bool,
    pub negative_sign_after_digits: bool,
    pub allow_negative_sign_placeholder: bool,
    pub thousands_separator: char,
    pub decimal_separator: char,
    pub allow_decimal: bool,
    pub require_decimal: bool,
    pub digits_after_decimal: Seq<usize>,
    pub allow_space_after_digits: bool,
}

impl View for CurrencyOptions {
    type V = OptionsV;

    open spec fn view(&self) -> OptionsV {
        OptionsV {
            symbol: self.symbol@,
            require_symbol: self.require_symbol,
            allow_space_after_symbol: self.allow_space_after_symbol,
            symbol_after_digits: self.symbol_after_digits,
            allow_negatives: self.allow_negatives,
            parens_for_negatives: self.parens_for_negatives,
            negative_sign_before_digits: self.negative_sign_before_digits,
            negative_sign_after_digits: self.negative_sign_after_digits,
            allow_negative_sign_placeholder: self.allow_negative_sign_placeholder,
            thousands_separator: self.thousands_separator,
            decimal_separator: self.decimal_separator,
            allow_decimal: self.allow_decimal,
            require_decimal: self.require_decimal,
            digits_after_decimal: self.digits_after_decimal@,
            allow_space_after_digits: self.allow_space_after_digits,
        }
    }
}

/// The default format: dollar symbol, comma grouping, dot decimal point,
/// exactly two fractional digits, plain leading sign for negatives.
pub open spec fn spec_default_options() -> OptionsV {
    OptionsV {
        symbol: "$"@,
        require_symbol: false,
        allow_space_after_symbol: false,
        symbol_after_digits: false,
        allow_negatives: true,
        parens_for_negatives: false,
        negative_sign_before_digits: false,
        negative_sign_after_digits: false,
        allow_negative_sign_placeholder: false,
        thousands_separator: ',',
        decimal_separator: '.',
        allow_decimal: true,
        require_decimal: false,
        digits_after_decimal: seq![2usize],
        allow_space_after_digits: false,
    }
}

impl Default for CurrencyOptions {
    fn default() -> (r: Self)
        ensures
            r@ == spec_default_options(),
    {
        let mut counts: Vec<usize> = Vec::new();
        counts.push(2);
        proof {
            assert(counts@ =~= seq![2usize]);
        }
        let r = CurrencyOptions {
            symbol: "$".to_owned(),
            require_symbol: false,
            allow_space_after_symbol: false,
            symbol_after_digits: false,
            allow_negatives: true,
            parens_for_negatives: false,
            negative_sign_before_digits: false,
            negative_sign_after_digits: false,
            allow_negative_sign_placeholder: false,
            thousands_separator: ',',
            decimal_separator: '.',
            allow_decimal: true,
            require_decimal: false,
            digits_after_decimal: counts,
            allow_space_after_digits: false,
        };
        r
    }
}

impl CurrencyOptions {
    /// Create a new CurrencyOptions with default values.
    pub fn new() -> (r: Self)
        ensures
            r@ == spec_default_options(),
    {
        Self::default()
    }

    /// Set the currency symbol.
    pub fn symbol(self, symbol: &str) -> (r: Self)
        ensures
            r@ == (OptionsV { symbol: symbol@, ..self@ }),
    {
        CurrencyOptions { symbol: symbol.to_owned(), ..self }
    }

    /// Set whether the symbol is required.
    pub fn require_symbol(self, require: bool) -> (r: Self)
        ensures
            r@ == (OptionsV { require_symbol: require, ..self@ }),
    {
        CurrencyOptions { require_symbol: require, ..self }
    }

    /// Set whether to allow a space after the symbol.
    pub fn allow_space_after_symbol(self, allow: bool) -> (r: Self)
        ensures
            r@ == (OptionsV { allow_space_after_symbol: allow, ..self@ }),
    {
        CurrencyOptions { allow_space_after_symbol: allow, ..self }
    }

    /// Set whether the symbol appears after the digits.
    pub fn symbol_after_digits(self, after: bool) -> (r: Self)
        ensures
            r@ == (OptionsV { symbol_after_digits: after, ..self@ }),
    {
        CurrencyOptions { symbol_after_digits: after, ..self }
    }

    /// Set whether negatives are allowed.
    pub fn allow_negatives(self, allow: bool) -> (r: Self)
        ensures
            r@ == (OptionsV { allow_negatives: allow, ..self@ }),
    {
        CurrencyOptions { allow_negatives: allow, ..self }
    }

    /// Set whether to use parentheses for negatives.
    pub fn parens_for_negatives(self, use_parens: bool) -> (r: Self)
        ensures
            r@ == (OptionsV { parens_for_negatives: use_parens, ..self@ }),
    {
        CurrencyOptions { parens_for_negatives: use_parens, ..self }
    }

    /// Set the thousands separator character.
    pub fn thousands_separator(self, sep: char) -> (r: Self)
        ensures
            r@ == (OptionsV { thousands_separator: sep, ..self@ }),
    {
        CurrencyOptions { thousands_separator: sep, ..self }
    }

    /// Set the decimal separator character.
    pub fn decimal_separator(self, sep: char) -> (r: Self)
        ensures
            r@ == (OptionsV { decimal_separator: sep, ..self@ }),
    {
        CurrencyOptions { decimal_separator: sep, ..self }
    }

    /// Set whether decimals are allowed.
    pub fn allow_decimal(self, allow: bool) -> (r: Self)
        ensures
            r@ == (OptionsV { allow_decimal: allow, ..self@ }),
    {
        CurrencyOptions { allow_decimal: allow, ..self }
    }

    /// Set whether a decimal part is required.
    pub fn require_decimal(self, require: bool) -> (r: Self)
        ensures
            r@ == (OptionsV { require_decimal: require, ..self@ }),
    {
        CurrencyOptions { require_decimal: require, ..self }
    }

    /// Set the allowed counts of digits after the decimal separator.
    pub fn digits_after_decimal(self, digits: Vec<usize>) -> (r: Self)
        ensures
            r@ == (OptionsV { digits_after_decimal: digits@, ..self@ }),
    {
        CurrencyOptions { digits_after_decimal: digits, ..self }
    }

    /// Set whether the negative sign appears before the digits.
    pub fn negative_sign_before_digits(self, before: bool) -> (r: Self)
        ensures
            r@ == (OptionsV { negative_sign_before_digits: before, ..self@ }),
    {
        CurrencyOptions { negative_sign_before_digits: before, ..self }
    }

    /// Set whether the negative sign appears after the digits.
    pub fn negative_sign_after_digits(self, after: bool) -> (r: Self)
        ensures
            r@ == (OptionsV { negative_sign_after_digits: after, ..self@ }),
    {
        CurrencyOptions { negative_sign_after_digits: after, ..self }
    }

    /// Set whether to allow a space standing in for the negative sign.
    pub fn allow_negative_sign_placeholder(self, allow: bool) -> (r: Self)
        ensures
            r@ == (OptionsV { allow_negative_sign_placeholder: allow, ..self@ }),
    {
        CurrencyOptions { allow_negative_sign_placeholder: allow, ..self }
    }

    /// Set whether to allow a space after the digits.
    pub fn allow_space_after_digits(self, allow: bool) -> (r: Self)
        ensures
            r@ == (OptionsV { allow_space_after_digits: allow, ..self@ }),
    {
        CurrencyOptions { allow_space_after_digits: allow, ..self }
    }
}

// ---------------------------------------------------------------------------
// Pattern synthesis
// ---------------------------------------------------------------------------

/// A character the pattern engine gives meaning to; taken from the engine's
/// fixed, documented set.
pub open spec fn regex_meta(c: char) -> bool {
    c == '\\' || c == '.' || c == '+' || c == '*' || c == '?' || c == '(' || c == ')' || c == '|'
        || c == '[' || c == ']' || c == '{' || c == '}' || c == '^' || c == '$' || c == '#' || c
        == '&' || c == '-' || c == '~'
}

/// A character made literal: meta characters get a backslash.
pub open spec fn spec_escape_char(c: char) -> Seq<char> {
    if regex_meta(c) {
        seq!['\\', c]
    } else {
        seq![c]
    }
}

/// A whole string made literal.
pub open spec fn spec_escape(s: Seq<char>) -> Seq<char>
    decreases s.len(),
{
    if s.len() == 0 {
        Seq::empty()
    } else {
        spec_escape(s.drop_last()) + spec_escape_char(s.last())
    }
}

fn is_regex_meta(c: char) -> (r: bool)
    ensures
        r == regex_meta(c),
{
    c == '\\' || c == '.' || c == '+' || c == '*' || c == '?' || c == '(' || c == ')' || c == '|'
        || c == '[' || c == ']' || c == '{' || c == '}' || c == '^' || c == '$' || c == '#' || c
        == '&' || c == '-' || c == '~'
}

/// Appends `s` with every meta character escaped.
fn escape_into(out: &mut Vec<char>, s: &Vec<char>)
    ensures
        final(out)@ == old(out)@ + spec_escape(s@),
{
    let n = s.len();
    let mut i: usize = 0;
    while i < n
        invariant
            n == s@.len(),
            i <= n,
            out@ == old(out)@ + spec_escape(s@.subrange(0, i as int)),
        decreases n - i,
    {
        let c = s[i];
        if is_regex_meta(c) {
            out.push('\\');
        }
        out.push(c);
        i = i + 1;
        proof {
            let p = s@.subrange(0, i as int);
            assert(p.drop_last() =~= s@.subrange(0, i - 1));
            assert(p.last() == c);
            assert(out@ =~= old(out)@ + spec_escape(p));
        }
    }
    proof {
        assert(s@.subrange(0, n as int) =~= s@);
    }
}

/// A separator made literal: alphanumeric characters and the underscore
/// stand as they are, everything else gets a backslash.
pub open spec fn spec_sep_fragment(c: char) -> Seq<char> {
    if char_alphanumeric(c) || c == '_' {
        seq![c]
    } else {
        seq!['\\', c]
    }
}

/// Appends a separator, escaped as the grammar requires.
fn push_sep_fragment(out: &mut Vec<char>, c: char)
    ensures
        final(out)@ == old(out)@ + spec_sep_fragment(c),
{
    if is_unicode_alnum(c) || c == '_' {
        out.push(c);
    } else {
        out.push('\\');
        out.push(c);
    }
    proof {
        assert(out@ =~= old(out)@ + spec_sep_fragment(c));
    }
}

/// One decimal digit as a character.
pub open spec fn spec_digit_char(d: int) -> char {
    if d == 0 {
        '0'
    } else if d == 1 {
        '1'
    } else if d == 2 {
        '2'
    } else if d == 3 {
        '3'
    } else if d == 4 {
        '4'
    } else if d == 5 {
        '5'
    } else if d == 6 {
        '6'
    } else if d == 7 {
        '7'
    } else if d == 8 {
        '8'
    } else {
        '9'
    }
}

/// A number written in decimal, most significant digit first.
pub open spec fn spec_dec_string(n: int) -> Seq<char>
    decreases n,
{
    if n <= 9 {
        seq![spec_digit_char(n)]
    } else {
        spec_dec_string(n / 10) + seq![spec_digit_char(n % 10)]
    }
}

fn digit_char_of(d: usize) -> (r: char)
    requires
        d <= 9,
    ensures
        r == spec_digit_char(d as int),
{
    if d == 0 {
        '0'
    } else if d == 1 {
        '1'
    } else if d == 2 {
        '2'
    } else if d == 3 {
        '3'
    } else if d == 4 {
        '4'
    } else if d == 5 {
        '5'
    } else if d == 6 {
        '6'
    } else if d == 7 {
        '7'
    } else if d == 8 {
        '8'
    } else {
        '9'
    }
}

/// Appends a number in decimal.
fn push_dec_usize(out: &mut Vec<char>, n: usize)
    ensures
        final(out)@ == old(out)@ + spec_dec_string(n as int),
    decreases n,
{
    if n <= 9 {
        out.push(digit_char_of(n));
        proof {
            assert(out@ =~= old(out)@ + spec_dec_string(n as int));
        }
    } else {
        push_dec_usize(out, n / 10);
        out.push(digit_char_of(n % 10));
        proof {
            assert(out@ =~= old(out)@ + spec_dec_string(n as int));
        }
    }
}

/// A counted digit group, `\d{n}`.
pub open spec fn spec_quant(n: int) -> Seq<char> {
    "\\d{"@ + spec_dec_string(n) + "}"@
}

fn push_quant(out: &mut Vec<char>, n: usize)
    ensures
        final(out)@ == old(out)@ + spec_quant(n as int),
{
    crate::text::push_str_chars(out, "\\d{");
    push_dec_usize(out, n);
    crate::text::push_str_chars(out, "}");
    proof {
        assert(out@ =~= old(out)@ + spec_quant(n as int));
    }
}

/// The alternation over every accepted count of fractional digits.
pub open spec fn spec_counts_alt(counts: Seq<usize>) -> Seq<char>
    decreases counts.len(),
{
    if counts.len() == 0 {
        Seq::empty()
    } else if counts.len() == 1 {
        spec_quant(counts[0] as int)
    } else {
        spec_counts_alt(counts.drop_last()) + "|"@ + spec_quant(counts.last() as int)
    }
}

fn push_counts_alt(out: &mut Vec<char>, counts: &Vec<usize>)
    requires
        counts@.len() > 0,
    ensures
        final(out)@ == old(out)@ + spec_counts_alt(counts@),
{
    let n = counts.len();
    push_quant(out, counts[0]);
    proof {
        assert(counts@.subrange(0, 1)[0] == counts@[0]);
        assert(out@ =~= old(out)@ + spec_counts_alt(counts@.subrange(0, 1)));
    }
    let mut i: usize = 1;
    while i < n
        invariant
            n == counts@.len(),
            1 <= i <= n,
            out@ == old(out)@ + spec_counts_alt(counts@.subrange(0, i as int)),
        decreases n - i,
    {
        crate::text::push_str_chars(out, "|");
        push_quant(out, counts[i]);
        i = i + 1;
        proof {
            let p = counts@.subrange(0, i as int);
            assert(p.drop_last() =~= counts@.subrange(0, i - 1));
            assert(p.last() == counts@[i - 1]);
            assert(out@ =~= old(out)@ + spec_counts_alt(p));
        }
    }
    proof {
        assert(counts@.subrange(0, n as int) =~= counts@);
    }
}

/// The symbol fragment: the escaped symbol in a group, optional unless the
/// symbol is required.
pub open spec fn spec_symbol_fragment(o: OptionsV) -> Seq<char> {
    "("@ + spec_escape(o.symbol) + ")"@ + (if o.require_symbol {
        Seq::<char>::empty()
    } else {
        "?"@
    })
}

/// The whole-amount fragment: a lone zero, ungrouped digits without a
/// leading zero, or one to three digits followed by separated triples; the
/// whole of it optional.
pub open spec fn spec_whole_fragment(o: OptionsV) -> Seq<char> {
    "(0|[1-9]\\d*|[1-9]\\d{0,2}("@ + spec_sep_fragment(o.thousands_separator) + "\\d{3})*)?"@
}

/// The decimal fragment: the separator and one accepted digit count,
/// optional unless a decimal part is required.
pub open spec fn spec_decimal_fragment(o: OptionsV) -> Seq<char> {
    "("@ + spec_sep_fragment(o.decimal_separator) + "("@ + spec_counts_alt(o.digits_after_decimal)
        + "))"@ + (if o.require_decimal {
        Seq::<char>::empty()
    } else {
        "?"@
    })
}

/// The numeric core: the whole-amount fragment, with the decimal fragment
/// appended when decimals are allowed or required.
pub open spec fn spec_core_fragment(o: OptionsV) -> Seq<char> {
    if o.allow_decimal || o.require_decimal {
        spec_whole_fragment(o) + spec_decimal_fragment(o)
    } else {
        spec_whole_fragment(o)
    }
}

/// The core with the sign glyph placed next to the digits, where negatives
/// are allowed, parentheses are not used, and a placement is chosen; the
/// after-digits placement takes precedence.
pub open spec fn spec_signed_fragment(o: OptionsV) -> Seq<char> {
    if o.allow_negatives && !o.parens_for_negatives {
        if o.negative_sign_after_digits {
            spec_core_fragment(o) + "-?"@
        } else if o.negative_sign_before_digits {
            "-?"@ + spec_core_fragment(o)
        } else {
            spec_core_fragment(o)
        }
    } else {
        spec_core_fragment(o)
    }
}

/// The signed core with at most one spacing allowance applied: the sign
/// placeholder, then a space after the symbol, then a space after the
/// digits, in that order of priority.
pub open spec fn spec_spaced_fragment(o: OptionsV) -> Seq<char> {
    if o.allow_negative_sign_placeholder {
        "( ?-?)?"@ + spec_signed_fragment(o)
    } else if o.allow_space_after_symbol {
        " ?"@ + spec_signed_fragment(o)
    } else if o.allow_space_after_digits {
        spec_signed_fragment(o) + " ?"@
    } else {
        spec_signed_fragment(o)
    }
}

/// The spaced core with the symbol fragment attached before or after.
pub open spec fn spec_attached_fragment(o: OptionsV) -> Seq<char> {
    if o.symbol_after_digits {
        spec_spaced_fragment(o) + spec_symbol_fragment(o)
    } else {
        spec_symbol_fragment(o) + spec_spaced_fragment(o)
    }
}

/// The assembled body: wrapped as an alternation of a parenthesized and a
/// bare copy when parentheses mark negatives, or prefixed with a plain
/// optional sign when no digit-side placement was chosen.
pub open spec fn spec_wrapped_fragment(o: OptionsV) -> Seq<char> {
    if o.allow_negatives {
        if o.parens_for_negatives {
            "(\\("@ + spec_attached_fragment(o) + "\\)|"@ + spec_attached_fragment(o) + ")"@
        } else if !o.negative_sign_before_digits && !o.negative_sign_after_digits {
            "-?"@ + spec_attached_fragment(o)
        } else {
            spec_attached_fragment(o)
        }
    } else {
        spec_attached_fragment(o)
    }
}

/// The full pattern: the wrapped body, anchored at both ends.
pub open spec fn spec_currency_pattern(o: OptionsV) -> Seq<char> {
    "^"@ + spec_wrapped_fragment(o) + "$"@
}

fn build_symbol_fragment(options: &CurrencyOptions) -> (r: Vec<char>)
    ensures
        r@ == spec_symbol_fragment(options@),
{
    let mut symbol: Vec<char> = Vec::new();
    crate::text::push_str_chars(&mut symbol, "(");
    let symbol_chars = crate::text::chars_vec(options.symbol.as_str());
    escape_into(&mut symbol, &symbol_chars);
    crate::text::push_str_chars(&mut symbol, ")");
    if !options.require_symbol {
        crate::text::push_str_chars(&mut symbol, "?");
    }
    proof {
        assert(symbol@ =~= spec_symbol_fragment(options@));
    }
    symbol
}

fn build_core_fragment(options: &CurrencyOptions) -> (r: Vec<char>)
    requires
        options@.digits_after_decimal.len() > 0,
    ensures
        r@ == spec_core_fragment(options@),
{
    let mut p0: Vec<char> = Vec::new();
    crate::text::push_str_chars(&mut p0, "(0|[1-9]\\d*|[1-9]\\d{0,2}(");
    push_sep_fragment(&mut p0, options.thousands_separator);
    crate::text::push_str_chars(&mut p0, "\\d{3})*)?");
    proof {
        assert(p0@ =~= spec_whole_fragment(options@));
    }
    if options.allow_decimal || options.require_decimal {
        crate::text::push_str_chars(&mut p0, "(");
        push_sep_fragment(&mut p0, options.decimal_separator);
        crate::text::push_str_chars(&mut p0, "(");
        push_counts_alt(&mut p0, &options.digits_after_decimal);
        crate::text::push_str_chars(&mut p0, "))");
        if !options.require_decimal {
            crate::text::push_str_chars(&mut p0, "?");
        }
        proof {
            assert(p0@ =~= spec_whole_fragment(options@) + spec_decimal_fragment(options@));
        }
    }
    p0
}

fn build_signed_fragment(options: &CurrencyOptions, p0: Vec<char>) -> (r: Vec<char>)
    requires
        p0@ == spec_core_fragment(options@),
    ensures
        r@ == spec_signed_fragment(options@),
{
    if options.allow_negatives && !options.parens_for_negatives
        && options.negative_sign_after_digits {
        let mut r = p0;
        crate::text::push_str_chars(&mut r, "-?");
        r
    } else if options.allow_negatives && !options.parens_for_negatives
        && options.negative_sign_before_digits {
        let mut r: Vec<char> = Vec::new();
        crate::text::push_str_chars(&mut r, "-?");
        crate::text::push_vec_chars(&mut r, &p0);
        proof {
            assert(r@ =~= "-?"@ + p0@);
        }
        r
    } else {
        p0
    }
}

fn build_spaced_fragment(options: &CurrencyOptions, p1: Vec<char>) -> (r: Vec<char>)
    requires
        p1@ == spec_signed_fragment(options@),
    ensures
        r@ == spec_spaced_fragment(options@),
{
    if options.allow_negative_sign_placeholder {
        let mut r: Vec<char> = Vec::new();
        crate::text::push_str_chars(&mut r, "( ?-?)?");
        crate::text::push_vec_chars(&mut r, &p1);
        proof {
            assert(r@ =~= "( ?-?)?"@ + p1@);
        }
        r
    } else if options.allow_space_after_symbol {
        let mut r: Vec<char> = Vec::new();
        crate::text::push_str_chars(&mut r, " ?");
        crate::text::push_vec_chars(&mut r, &p1);
        proof {
            assert(r@ =~= " ?"@ + p1@);
        }
        r
    } else if options.allow_space_after_digits {
        let mut r = p1;
        crate::text::push_str_chars(&mut r, " ?");
        r
    } else {
        p1
    }
}

fn build_attached_fragment(options: &CurrencyOptions, p2: Vec<char>) -> (r: Vec<char>)
    requires
        p2@ == spec_spaced_fragment(options@),
    ensures
        r@ == spec_attached_fragment(options@),
{
    let symbol = build_symbol_fragment(options);
    if options.symbol_after_digits {
        let mut r = p2;
        crate::text::push_vec_chars(&mut r, &symbol);
        r
    } else {
        let mut r = symbol;
        crate::text::push_vec_chars(&mut r, &p2);
        r
    }
}

fn build_wrapped_fragment(options: &CurrencyOptions, p3: Vec<char>) -> (r: Vec<char>)
    requires
        p3@ == spec_attached_fragment(options@),
    ensures
        r@ == spec_wrapped_fragment(options@),
{
    if options.allow_negatives && options.parens_for_negatives {
        let mut r: Vec<char> = Vec::new();
        crate::text::push_str_chars(&mut r, "(\\(");
        crate::text::push_vec_chars(&mut r, &p3);
        crate::text::push_str_chars(&mut r, "\\)|");
        crate::text::push_vec_chars(&mut r, &p3);
        crate::text::push_str_chars(&mut r, ")");
        proof {
            assert(r@ =~= "(\\("@ + p3@ + "\\)|"@ + p3@ + ")"@);
        }
        r
    } else if options.allow_negatives && !options.negative_sign_before_digits
        && !options.negative_sign_after_digits {
        let mut r: Vec<char> = Vec::new();
        crate::text::push_str_chars(&mut r, "-?");
        crate::text::push_vec_chars(&mut r, &p3);
        proof {
            assert(r@ =~= "-?"@ + p3@);
        }
        r
    } else {
        p3
    }
}

/// Builds the pattern for a set of options; fails exactly when no count of
/// fractional digits is configured.
pub fn build_currency_pattern(options: &CurrencyOptions) -> (r: Option<Vec<char>>)
    ensures
        r is Some <==> options@.digits_after_decimal.len() > 0,
        r matches Some(p) ==> p@ == spec_currency_pattern(options@),
{
    if options.digits_after_decimal.len() == 0 {
        return None;
    }
    let p0 = build_core_fragment(options);
    let p1 = build_signed_fragment(options, p0);
    let p2 = build_spaced_fragment(options, p1);
    let p3 = build_attached_fragment(options, p2);
    let p4 = build_wrapped_fragment(options, p3);
    let mut full: Vec<char> = Vec::new();
    crate::text::push_str_chars(&mut full, "^");
    crate::text::push_vec_chars(&mut full, &p4);
    crate::text::push_str_chars(&mut full, "$");
    proof {
        assert(full@ =~= spec_currency_pattern(options@));
    }
    Some(full)
}

// ---------------------------------------------------------------------------
// Guard checks
// ---------------------------------------------------------------------------

/// `t` with one trailing occurrence of `suf` removed, when there is one; an
/// empty `suf` removes nothing.
pub open spec fn spec_strip_one_suffix(t: Seq<char>, suf: Seq<char>) -> Seq<char> {
    if suf.len() > 0 && seq_ends_with(t, suf) {
        t.subrange(0, t.len() - suf.len())
    } else {
        t
    }
}

/// The guard checks, in their fixed order: no empty text, no leading or
/// trailing space, no sign character directly followed by a space anywhere,
/// at least one digit, no space directly after the symbol unless some
/// option allows it, no sign after a spaced symbol under the placeholder
/// convention, and no bare trailing space once one final symbol occurrence
/// and one final closing parenthesis are stripped.
pub open spec fn spec_guards(t: Seq<char>, o: OptionsV) -> bool {
    &&& t.len() > 0
    &&& t[0] != ' '
    &&& t[t.len() - 1] != ' '
    &&& !seq_has_sub(t, seq!['-', ' '])
    &&& exists|i: int| 0 <= i < t.len() && dec_digit(#[trigger] t[i])
    &&& (!o.allow_space_after_symbol && !o.allow_negative_sign_placeholder ==> !seq_has_sub(
        t,
        o.symbol + seq![' '],
    ))
    &&& (o.allow_negative_sign_placeholder && !o.allow_space_after_symbol ==> !seq_has_sub(
        t,
        o.symbol + seq![' ', '-'],
    ))
    &&& (!o.allow_space_after_digits && !o.allow_negative_sign_placeholder ==> !seq_ends_with(
        spec_strip_one_suffix(spec_strip_one_suffix(t, o.symbol), seq![')']),
        seq![' '],
    ))
}

/// Strips one trailing occurrence of `suf`, if any, from the first `end0`
/// characters of `v`, returning the new end.
fn strip_once(v: &Vec<char>, end0: usize, suf: &Vec<char>) -> (r: usize)
    requires
        end0 <= v@.len(),
    ensures
        r <= end0,
        v@.subrange(0, r as int) == spec_strip_one_suffix(v@.subrange(0, end0 as int), suf@),
{
    let sl = suf.len();
    let ghost cur = v@.subrange(0, end0 as int);
    if sl == 0 || end0 < sl {
        return end0;
    }
    let k = end0 - sl;
    if crate::text::vec_match_at(v, suf, k) {
        proof {
            assert(cur.subrange(cur.len() - suf@.len(), cur.len() as int) =~= v@.subrange(
                k as int,
                k + suf@.len(),
            ));
            assert(seq_ends_with(cur, suf@));
            assert(cur.subrange(0, cur.len() - suf@.len()) =~= v@.subrange(0, k as int));
        }
        k
    } else {
        proof {
            assert(cur.subrange(cur.len() - suf@.len(), cur.len() as int) =~= v@.subrange(
                k as int,
                k + suf@.len(),
            ));
            assert(!seq_ends_with(cur, suf@));
        }
        end0
    }
}

/// The guard checks, run before any pattern matching.
pub fn validate_currency_manual(value: &str, options: &CurrencyOptions) -> (r: bool)
    ensures
        r == spec_guards(value@, options@),
{
    let cs = crate::text::chars_vec(value);
    let n = cs.len();
    if n == 0 {
        return false;
    }
    if cs[0] == ' ' || cs[n - 1] == ' ' {
        return false;
    }
    let mut sign_space: Vec<char> = Vec::new();
    sign_space.push('-');
    sign_space.push(' ');
    proof {
        assert(sign_space@ =~= seq!['-', ' ']);
    }
    if crate::text::vec_has_sub(&cs, &sign_space) {
        return false;
    }
    let mut has_digit = false;
    let mut i: usize = 0;
    while i < n
        invariant
            n == cs@.len(),
            i <= n,
            has_digit == exists|t: int| 0 <= t < i && dec_digit(#[trigger] cs@[t]),
        decreases n - i,
    {
        if is_dec_digit(cs[i]) {
            has_digit = true;
        }
        i = i + 1;
    }
    if !has_digit {
        return false;
    }
    let sym = crate::text::chars_vec(options.symbol.as_str());
    if !options.allow_space_after_symbol && !options.allow_negative_sign_placeholder {
        let mut needle: Vec<char> = Vec::new();
        crate::text::push_vec_chars(&mut needle, &sym);
        needle.push(' ');
        proof {
            assert(needle@ =~= options@.symbol + seq![' ']);
        }
        if crate::text::vec_has_sub(&cs, &needle) {
            return false;
        }
    }
    if options.allow_negative_sign_placeholder && !options.allow_space_after_symbol {
        let mut needle: Vec<char> = Vec::new();
        crate::text::push_vec_chars(&mut needle, &sym);
        needle.push(' ');
        needle.push('-');
        proof {
            assert(needle@ =~= options@.symbol + seq![' ', '-']);
        }
        if crate::text::vec_has_sub(&cs, &needle) {
            return false;
        }
    }
    if !options.allow_space_after_digits && !options.allow_negative_sign_placeholder {
        proof {
            assert(cs@.subrange(0, n as int) =~= cs@);
        }
        let end1 = strip_once(&cs, n, &sym);
        let mut paren: Vec<char> = Vec::new();
        paren.push(')');
        proof {
            assert(paren@ =~= seq![')']);
        }
        let end2 = strip_once(&cs, end1, &paren);
        let ghost stripped = spec_strip_one_suffix(spec_strip_one_suffix(cs@, options@.symbol), seq![')']);
        proof {
            assert(cs@.subrange(0, end2 as int) == stripped);
        }
        if end2 > 0 && cs[end2 - 1] == ' ' {
            proof {
                let st = cs@.subrange(0, end2 as int);
                assert(st.subrange(st.len() - 1, st.len() as int) =~= seq![' ']);
                assert(seq_ends_with(stripped, seq![' ']));
            }
            return false;
        }
        proof {
            let st = cs@.subrange(0, end2 as int);
            if seq_ends_with(stripped, seq![' ']) {
                assert(st.subrange(st.len() - 1, st.len() as int)[0] == st[st.len() - 1]);
            }
        }
    }
    true
}

// ---------------------------------------------------------------------------
// The validator
// ---------------------------------------------------------------------------

/// A valid currency string: it passes the guard checks, the options admit a
/// grammar, the grammar compiles, and the text matches it.
pub open spec fn spec_is_currency(t: Seq<char>, o: OptionsV) -> bool {
    &&& spec_guards(t, o)
    &&& o.digits_after_decimal.len() > 0
    &&& pattern_compiles(spec_currency_pattern(o))
    &&& regex_matches(spec_currency_pattern(o), t)
}

/// The options a call works with: the given ones, or the default format.
pub open spec fn spec_options_of(options: Option<CurrencyOptions>) -> OptionsV {
    match options {
        Some(o) => o@,
        None => spec_default_options(),
    }
}

/// Validates if a string is a valid currency format.
pub fn is_currency(value: &str, options: Option<CurrencyOptions>) -> (r: bool)
    ensures
        r == spec_is_currency(value@, spec_options_of(options)),
{
    let opts = match options {
        Some(o) => o,
        None => CurrencyOptions::new(),
    };
    if !validate_currency_manual(value, &opts) {
        return false;
    }
    match build_currency_pattern(&opts) {
        None => false,
        Some(p) => match crate::matching::regex_full_match(&p, value) {
            None => false,
            Some(m) => m,
        },
    }
}

/// A validation's outcome is a function of the text and the options alone:
/// any two results that the validator's contract admits for equal inputs are
/// equal.
pub proof fn lemma_is_currency_deterministic(t: Seq<char>, o: OptionsV, r1: bool, r2: bool)
    requires
        r1 == spec_is_currency(t, o),
        r2 == spec_is_currency(t, o),
    ensures
        r1 == r2,
{
}

/// An empty set of fractional digit counts makes grammar construction fail,
/// so validation rejects every input.
pub proof fn lemma_empty_digit_counts_reject(t: Seq<char>, o: OptionsV)
    requires
        o.digits_after_decimal.len() == 0,
    ensures
        !spec_is_currency(t, o),
{
}

} // verus!
