//! Reading a score from the text of a JSON number.
//!
//! A JSON number is an optional minus sign, an integer part without leading
//! zeros, an optional fraction and an optional exponent. Its value is kept
//! exactly: the digits of the integer part and of the fraction make the
//! mantissa, and the exponent is lowered by the length of the fraction.

use vstd::prelude::*;
use crate::score::Score;
use crate::text::chars_of;

verus! {

pub open spec fn is_digit(c: char) -> bool {
    '0' <= c && c <= '9'
}

pub open spec fn digit_value(c: char) -> nat {
    (c as int - '0' as int) as nat
}

/// The number that `digits` spell when they are written behind the digits of
/// `acc`.
pub open spec fn accumulate(acc: nat, digits: Seq<char>) -> nat
    decreases digits.len(),
{
    if digits.len() == 0 {
        acc
    } else {
        accumulate(acc, digits.drop_last()) * 10 + digit_value(digits.last())
    }
}

/// The number that `digits` spell.
pub open spec fn digits_value(digits: Seq<char>) -> nat {
    accumulate(0, digits)
}

/// Where the run of digits that starts at `from` ends.
pub open spec fn digits_end(s: Seq<char>, from: int) -> int
    decreases s.len() - from,
{
    if 0 <= from < s.len() && is_digit(s[from]) {
        digits_end(s, from + 1)
    } else {
        from
    }
}

/// The places at which the parts of a number's text begin and end.
pub struct NumberLayout {
    pub negative: bool,
    pub int_start: int,
    pub int_end: int,
    pub has_fraction: bool,
    pub frac_start: int,
    pub frac_end: int,
    pub has_exponent: bool,
    pub exponent_negative: bool,
    pub exp_start: int,
    pub exp_end: int,
}

pub open spec fn layout_of(s: Seq<char>) -> NumberLayout {
    let negative = s.len() > 0 && s[0] == '-';
    let int_start: int = if negative { 1 } else { 0 };
    let int_end = digits_end(s, int_start);
    let has_fraction = int_end < s.len() && s[int_end] == '.';
    let frac_start = if has_fraction { int_end + 1 } else { int_end };
    let frac_end = if has_fraction { digits_end(s, frac_start) } else { int_end };
    let has_exponent = frac_end < s.len() && (s[frac_end] == 'e' || s[frac_end] == 'E');
    let signed = has_exponent && frac_end + 1 < s.len() && (s[frac_end + 1] == '-' || s[frac_end
        + 1] == '+');
    let exponent_negative = signed && s[frac_end + 1] == '-';
    let exp_start = if !has_exponent {
        frac_end
    } else if signed {
        frac_end + 2
    } else {
        frac_end + 1
    };
    let exp_end = if has_exponent { digits_end(s, exp_start) } else { frac_end };
    NumberLayout {
        negative,
        int_start,
        int_end,
        has_fraction,
        frac_start,
        frac_end,
        has_exponent,
        exponent_negative,
        exp_start,
        exp_end,
    }
}

/// Whether `s` is the text of a JSON number.
pub open spec fn is_number_text(s: Seq<char>) -> bool {
    let l = layout_of(s);
    &&& l.int_end > l.int_start
    &&& (l.int_end - l.int_start == 1 || s[l.int_start] != '0')
    &&& (l.has_fraction ==> l.frac_end > l.frac_start)
    &&& (l.has_exponent ==> l.exp_end > l.exp_start)
    &&& l.exp_end == s.len()
}

/// The mantissa that the text of a number stands for: its digits before and
/// behind the point, with its sign.
pub open spec fn mantissa_of(s: Seq<char>) -> int {
    let l = layout_of(s);
    let magnitude = digits_value(
        s.subrange(l.int_start, l.int_end) + s.subrange(l.frac_start, l.frac_end),
    );
    if l.negative {
        -magnitude
    } else {
        magnitude as int
    }
}

/// The exponent that the text of a number stands for: the one written, less
/// the number of digits behind the point.
pub open spec fn exponent_of(s: Seq<char>) -> int {
    let l = layout_of(s);
    let written = digits_value(s.subrange(l.exp_start, l.exp_end));
    (if l.exponent_negative { -written } else { written as int }) - (l.frac_end - l.frac_start)
}

/// The score that a text stands for: the text must be a JSON number whose
/// mantissa and exponent fit their fields.
pub open spec fn parse_number(s: Seq<char>) -> Option<Score> {
    if is_number_text(s) && i64::MIN <= mantissa_of(s) <= i64::MAX && i32::MIN <= exponent_of(s)
        <= i32::MAX {
        Some(Score { mantissa: mantissa_of(s) as i64, exponent: exponent_of(s) as i32 })
    } else {
        None
    }
}

pub proof fn lemma_accumulate_concat(acc: nat, a: Seq<char>, b: Seq<char>)
    ensures
        accumulate(acc, a + b) == accumulate(accumulate(acc, a), b),
    decreases b.len(),
{
    if b.len() == 0 {
        assert(a + b =~= a);
    } else {
        lemma_accumulate_concat(acc, a, b.drop_last());
        assert((a + b).drop_last() =~= a + b.drop_last());
        assert((a + b).last() == b.last());
    }
}

pub proof fn lemma_accumulate_grows(acc: nat, a: Seq<char>)
    ensures
        accumulate(acc, a) >= acc,
    decreases a.len(),
{
    if a.len() > 0 {
        lemma_accumulate_grows(acc, a.drop_last());
    }
}

proof fn lemma_digits_end_bounds(s: Seq<char>, from: int)
    requires
        0 <= from <= s.len(),
    ensures
        from <= digits_end(s, from) <= s.len(),
        forall|i: int| from <= i < digits_end(s, from) ==> is_digit(#[trigger] s[i]),
        digits_end(s, from) < s.len() ==> !is_digit(s[digits_end(s, from)]),
    decreases s.len() - from,
{
    if from < s.len() && is_digit(s[from]) {
        lemma_digits_end_bounds(s, from + 1);
    }
}

/// Finds the end of the run of digits that starts at `from`.
fn scan_digits(cs: &Vec<char>, from: usize) -> (end: usize)
    requires
        from <= cs.len(),
    ensures
        end == digits_end(cs@, from as int),
        from <= end <= cs.len(),
        forall|i: int| from <= i < end ==> is_digit(#[trigger] cs@[i]),
{
    let mut i = from;
    while i < cs.len() && '0' <= cs[i] && cs[i] <= '9'
        invariant
            from <= i <= cs.len(),
            digits_end(cs@, from as int) == digits_end(cs@, i as int),
            forall|j: int| from <= j < i ==> is_digit(#[trigger] cs@[j]),
        decreases cs.len() - i,
    {
        i = i + 1;
    }
    i
}

/// Reads the digits in `cs[from..to]` behind the digits of `start`, giving up
/// once the number passes `cap`.
fn read_digits(cs: &Vec<char>, from: usize, to: usize, start: u128, cap: u128) -> (r: Option<u128>)
    requires
        from <= to <= cs.len(),
        forall|i: int| from <= i < to ==> is_digit(#[trigger] cs@[i]),
        start <= cap,
        cap <= 0x1_0000_0000_0000_0000_0000,
    ensures
        match r {
            Some(v) => v == accumulate(start as nat, cs@.subrange(from as int, to as int)) && v
                <= cap,
            None => accumulate(start as nat, cs@.subrange(from as int, to as int)) > cap,
        },
{
    let mut acc = start;
    let mut i = from;
    proof {
        assert(cs@.subrange(from as int, from as int) =~= Seq::<char>::empty());
    }
    while i < to
        invariant
            from <= i <= to <= cs.len(),
            forall|j: int| from <= j < to ==> is_digit(#[trigger] cs@[j]),
            acc == accumulate(start as nat, cs@.subrange(from as int, i as int)),
            acc <= cap,
            cap <= 0x1_0000_0000_0000_0000_0000,
        decreases to - i,
    {
        let c = cs[i];
        let d: u128 = (c as u32 - '0' as u32) as u128;
        proof {
            let before = cs@.subrange(from as int, i as int);
            let now = cs@.subrange(from as int, i + 1);
            assert(now.drop_last() =~= before);
            assert(now.last() == c);
            assert(d == digit_value(c));
        }
        acc = acc * 10 + d;
        i = i + 1;
        if acc > cap {
            proof {
                let seen = cs@.subrange(from as int, i as int);
                let rest = cs@.subrange(i as int, to as int);
                assert(cs@.subrange(from as int, to as int) =~= seen + rest);
                lemma_accumulate_concat(start as nat, seen, rest);
                lemma_accumulate_grows(acc as nat, rest);
            }
            return None;
        }
    }
    Some(acc)
}

impl Score {
    /// Reads a score from the text of a JSON number. Text that is no such
    /// number, or whose mantissa or exponent does not fit, gives `None`.
    pub fn parse(text: &str) -> (r: Option<Score>)
        ensures
            r == parse_number(text@),
    {
        let cs = chars_of(text);
        let n = cs.len();
        let ghost s = cs@;
        let ghost l = layout_of(s);
        let negative = n > 0 && cs[0] == '-';
        let int_start: usize = if negative { 1 } else { 0 };
        let int_end = scan_digits(&cs, int_start);
        if int_end == int_start {
            return None;
        }
        if int_end - int_start > 1 && cs[int_start] == '0' {
            return None;
        }
        let has_fraction = int_end < n && cs[int_end] == '.';
        let frac_start: usize = if has_fraction { int_end + 1 } else { int_end };
        let frac_end: usize = if has_fraction { scan_digits(&cs, frac_start) } else { int_end };
        if has_fraction && frac_end == frac_start {
            return None;
        }
        let has_exponent = frac_end < n && (cs[frac_end] == 'e' || cs[frac_end] == 'E');
        let signed = has_exponent && frac_end + 1 < n && (cs[frac_end + 1] == '-' || cs[frac_end
            + 1] == '+');
        let exponent_negative = signed && cs[frac_end + 1] == '-';
        let exp_start: usize = if !has_exponent {
            frac_end
        } else if signed {
            frac_end + 2
        } else {
            frac_end + 1
        };
        let exp_end: usize = if has_exponent { scan_digits(&cs, exp_start) } else { frac_end };
        if has_exponent && exp_end == exp_start {
            return None;
        }
        if exp_end != n {
            return None;
        }
        assert(is_number_text(s));
        let mantissa_cap: u128 = 0x8000_0000_0000_0000;
        let exponent_cap: u128 = 0x2_0000_0000_0000_0000;
        let ghost int_digits = s.subrange(int_start as int, int_end as int);
        let ghost frac_digits = s.subrange(frac_start as int, frac_end as int);
        proof {
            lemma_accumulate_concat(0, int_digits, frac_digits);
            lemma_accumulate_grows(accumulate(0, int_digits), frac_digits);
        }
        let whole = match read_digits(&cs, int_start, int_end, 0, mantissa_cap) {
            Some(v) => v,
            None => {
                return None;
            },
        };
        let magnitude = match read_digits(&cs, frac_start, frac_end, whole, mantissa_cap) {
            Some(v) => v,
            None => {
                return None;
            },
        };
        let written = match read_digits(&cs, exp_start, exp_end, 0, exponent_cap) {
            Some(v) => v,
            None => {
                return None;
            },
        };
        let places: i128 = (frac_end - frac_start) as i128;
        let exponent: i128 = if exponent_negative {
            -(written as i128) - places
        } else {
            written as i128 - places
        };
        let mantissa: i128 = if negative {
            -(magnitude as i128)
        } else {
            magnitude as i128
        };
        if mantissa < -0x8000_0000_0000_0000 || mantissa > 0x7fff_ffff_ffff_ffff {
            return None;
        }
        if exponent < -0x8000_0000 || exponent > 0x7fff_ffff {
            return None;
        }
        Some(Score { mantissa: mantissa as i64, exponent: exponent as i32 })
    }
}

} // verus!
