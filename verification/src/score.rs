//! Scores as exact decimal numbers.
//!
//! The service writes scores as JSON numbers, which are decimal text. A
//! [`Score`] keeps such a number exactly, as `mantissa * 10^exponent`, so that
//! moving a score from the 0-100 scale to the 0-1 scale loses nothing.

use vstd::prelude::*;
use vstd::string::*;
use crate::text::{decimal_string, join, signed_decimal_text};

verus! {

/// Ten to the power `n`.
pub open spec fn pow10(n: nat) -> nat
    decreases n,
{
    if n == 0 {
        1
    } else {
        10 * pow10((n - 1) as nat)
    }
}

/// The number `mantissa * 10^exponent`.
#[derive(Clone, Copy, Debug, PartialEq, Eq, Structural)]
pub struct Score {
    pub mantissa: i64,
    pub exponent: i32,
}

impl Score {
    /// Whether the number is greater than one.
    pub open spec fn exceeds_one(self) -> bool {
        if self.exponent >= 0 {
            self.mantissa * pow10(self.exponent as nat) > 1
        } else {
            self.mantissa > pow10((-self.exponent) as nat)
        }
    }

    /// Whether the number is at most `bound`.
    pub open spec fn at_most(self, bound: int) -> bool {
        if self.exponent >= 0 {
            self.mantissa * pow10(self.exponent as nat) <= bound
        } else {
            self.mantissa <= bound * pow10((-self.exponent) as nat)
        }
    }

    /// Whether the number is zero or more.
    pub open spec fn non_negative(self) -> bool {
        self.mantissa >= 0
    }

    /// The number counted in units of `10^unit`, for a unit no coarser than
    /// the number's own last digit.
    pub open spec fn in_units(self, unit: int) -> int
        recommends
            unit <= self.exponent,
    {
        self.mantissa * pow10((self.exponent - unit) as nat)
    }

    /// The score on the 0-1 scale: a number above one is taken to be on the
    /// 0-100 scale and divided by one hundred, any other number is kept.
    pub open spec fn spec_normalized(self) -> Score {
        if self.exceeds_one() {
            Score { mantissa: self.mantissa, exponent: (self.exponent - 2) as i32 }
        } else {
            self
        }
    }

    /// The text of the number: the mantissa, the letter `e`, the exponent.
    pub open spec fn spec_text(self) -> Seq<char> {
        signed_decimal_text(self.mantissa as int) + seq!['e'] + signed_decimal_text(
            self.exponent as int,
        )
    }

    pub fn new(mantissa: i64, exponent: i32) -> (r: Score)
        ensures
            r == (Score { mantissa, exponent }),
    {
        Score { mantissa, exponent }
    }

    /// Whether the number is greater than one.
    pub fn is_above_one(&self) -> (r: bool)
        ensures
            r == self.exceeds_one(),
    {
        if self.exponent >= 0 {
            proof {
                lemma_pow10_positive(self.exponent as nat);
                let p = pow10(self.exponent as nat) as int;
                let m = self.mantissa as int;
                if m >= 2 {
                    assert(m * p >= 2) by (nonlinear_arith)
                        requires
                            m >= 2,
                            p >= 1,
                    ;
                } else if m == 1 {
                    assert(m * p == p) by (nonlinear_arith)
                        requires
                            m == 1,
                    ;
                } else {
                    assert(m * p <= 0) by (nonlinear_arith)
                        requires
                            m <= 0,
                            p >= 1,
                    ;
                }
            }
            self.mantissa >= 2 || (self.mantissa == 1 && self.exponent >= 1)
        } else {
            let places: i64 = -(self.exponent as i64);
            if self.mantissa <= 0 {
                proof {
                    lemma_pow10_positive(places as nat);
                }
                false
            } else if places >= 19 {
                proof {
                    lemma_pow10_19();
                    lemma_pow10_monotonic(19, places as nat);
                }
                false
            } else {
                let mut power: u64 = 1;
                let mut done: i64 = 0;
                proof {
                    lemma_pow10_positive(18);
                }
                while done < places
                    invariant
                        0 <= done <= places < 19,
                        power == pow10(done as nat),
                        power <= pow10(18),
                    decreases places - done,
                {
                    proof {
                        lemma_pow10_19();
                        lemma_pow10_monotonic((done + 1) as nat, 18);
                    }
                    power = power * 10;
                    done = done + 1;
                }
                (self.mantissa as u64) > power
            }
        }
    }

    /// The score on the 0-1 scale.
    pub fn normalized(&self) -> (r: Score)
        ensures
            r == self.spec_normalized(),
    {
        if self.is_above_one() {
            proof {
                lemma_above_one_exponent(*self);
            }
            Score { mantissa: self.mantissa, exponent: self.exponent - 2 }
        } else {
            *self
        }
    }

    /// The text of the number, in a form that number parsers read: the
    /// mantissa, the letter `e`, the exponent.
    pub fn to_string(&self) -> (r: String)
        ensures
            r@ == self.spec_text(),
    {
        let m = signed_string(self.mantissa);
        let e = signed_string(self.exponent as i64);
        let mut s = join(m.as_str(), "e");
        s.append(e.as_str());
        proof {
            reveal_strlit("e");
            assert("e"@ =~= seq!['e']);
        }
        s
    }
}

/// Spells a signed integer in decimal.
fn signed_string(i: i64) -> (r: String)
    ensures
        r@ == signed_decimal_text(i as int),
{
    if i < 0 {
        let magnitude: u64 = ((-(i + 1)) as u64) + 1;
        let digits = decimal_string(magnitude);
        proof {
            reveal_strlit("-");
            assert("-"@ =~= seq!['-']);
        }
        join("-", digits.as_str())
    } else {
        decimal_string(i as u64)
    }
}

pub proof fn lemma_pow10_positive(n: nat)
    ensures
        pow10(n) >= 1,
        n >= 1 ==> pow10(n) >= 10,
    decreases n,
{
    if n > 0 {
        lemma_pow10_positive((n - 1) as nat);
    }
}

pub proof fn lemma_pow10_monotonic(a: nat, b: nat)
    requires
        a <= b,
    ensures
        pow10(a) <= pow10(b),
    decreases b,
{
    if a < b {
        lemma_pow10_monotonic(a, (b - 1) as nat);
    }
}

pub proof fn lemma_pow10_adds(a: nat, b: nat)
    ensures
        pow10(a + b) == pow10(a) * pow10(b),
    decreases a,
{
    if a == 0 {
        assert(pow10(0 + b) == 1 * pow10(b));
    } else {
        lemma_pow10_adds((a - 1) as nat, b);
        assert(pow10(a + b) == 10 * pow10((a - 1 + b) as nat));
        let x = pow10((a - 1) as nat) as int;
        let y = pow10(b) as int;
        assert(10 * (x * y) == (10 * x) * y) by (nonlinear_arith);
    }
}

pub proof fn lemma_pow10_19()
    ensures
        pow10(2) == 100,
        pow10(18) == 1_000_000_000_000_000_000,
        pow10(19) == 10_000_000_000_000_000_000,
        pow10(19) > i64::MAX,
{
    reveal_with_fuel(pow10, 20);
}

/// A number above one has an exponent of -18 or more, so two can be taken
/// off it without leaving the range of the exponent.
pub proof fn lemma_above_one_exponent(s: Score)
    requires
        s.exceeds_one(),
    ensures
        s.exponent >= -18,
        s.mantissa >= 1,
{
    if s.exponent < 0 {
        let places = (-s.exponent) as nat;
        lemma_pow10_positive(places);
        if places >= 19 {
            lemma_pow10_19();
            lemma_pow10_monotonic(19, places);
        }
    } else {
        let p = pow10(s.exponent as nat) as int;
        let m = s.mantissa as int;
        lemma_pow10_positive(s.exponent as nat);
        if m <= 0 {
            assert(m * p <= 0) by (nonlinear_arith)
                requires
                    m <= 0,
                    p >= 1,
            ;
        }
    }
}

/// A score above one is divided by exactly one hundred, whatever unit both
/// numbers are counted in; any other score stays as it is.
pub proof fn lemma_normalized_is_hundredth(s: Score, unit: int)
    requires
        unit <= s.exponent - 2,
    ensures
        s.exceeds_one() ==> 100 * s.spec_normalized().in_units(unit) == s.in_units(unit),
        !s.exceeds_one() ==> s.spec_normalized() == s,
{
    if s.exceeds_one() {
        lemma_above_one_exponent(s);
        let r = s.spec_normalized();
        let k = (r.exponent - unit) as nat;
        lemma_pow10_adds(2, k);
        lemma_pow10_19();
        assert(pow10((s.exponent - unit) as nat) == 100 * pow10(k));
        let m = s.mantissa as int;
        let p = pow10(k) as int;
        assert(100 * (m * p) == m * (100 * p)) by (nonlinear_arith);
    }
}

/// A score between 0 and 100 ends up between 0 and 1.
pub proof fn lemma_normalized_in_unit_range(s: Score)
    requires
        s.non_negative(),
        s.at_most(100),
    ensures
        s.spec_normalized().non_negative(),
        s.spec_normalized().at_most(1),
{
    let r = s.spec_normalized();
    let m = s.mantissa as int;
    lemma_pow10_19();
    if s.exceeds_one() {
        lemma_above_one_exponent(s);
        if s.exponent >= 2 {
            let k = (s.exponent - 2) as nat;
            lemma_pow10_adds(2, k);
            let p = pow10(k) as int;
            assert(m * (100 * p) == 100 * (m * p)) by (nonlinear_arith);
        } else if s.exponent >= 0 {
            let e = s.exponent as nat;
            let k = (2 - s.exponent) as nat;
            lemma_pow10_adds(e, k);
            lemma_pow10_positive(e);
            lemma_pow10_positive(k);
            let pe = pow10(e) as int;
            let pk = pow10(k) as int;
            assert(m <= pk) by (nonlinear_arith)
                requires
                    m * pe <= pe * pk,
                    pe >= 1,
            ;
        } else {
            let e = (-s.exponent) as nat;
            lemma_pow10_adds(2, e);
        }
    } else {
        if s.exponent >= 0 {
        } else {
        }
    }
}

/// Normalizing a score that is at most 100 a second time changes nothing.
pub proof fn lemma_normalized_twice(s: Score)
    requires
        s.at_most(100),
    ensures
        s.spec_normalized().spec_normalized() == s.spec_normalized(),
{
    if s.exceeds_one() {
        lemma_above_one_exponent(s);
        lemma_normalized_in_unit_range(s);
    }
}

} // verus!
