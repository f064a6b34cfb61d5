//! The decimal number that every figure of the library is made of.
//!
//! A decimal is an integer mantissa together with a scale, the count of
//! digits behind the decimal point: it stands for `mantissa / 10^scale`. The
//! mantissa has at most 96 bits and the scale is at most 28.

use vstd::prelude::*;

verus! {

/// The largest mantissa, `2^96 - 1`.
pub const MAX_MANTISSA: i128 = 79_228_162_514_264_337_593_543_950_335;

/// The largest scale.
pub const MAX_SCALE: u32 = 28;

/// `10^n`.
pub open spec fn pow10(n: nat) -> int
    decreases n,
{
    if n == 0 {
        1
    } else {
        10 * pow10((n - 1) as nat)
    }
}

/// The mathematical content of a decimal: the number `mantissa / 10^scale`.
pub struct Value {
    pub mantissa: int,
    pub scale: nat,
}

impl Value {
    /// The mantissa has at most 96 bits and the scale is at most 28.
    pub open spec fn wf(self) -> bool {
        &&& -MAX_MANTISSA <= self.mantissa <= MAX_MANTISSA
        &&& self.scale <= MAX_SCALE
    }

    /// The number 0, without digits behind the point.
    pub open spec fn zero() -> Value {
        Value { mantissa: 0, scale: 0 }
    }

    /// The number 1, without digits behind the point.
    pub open spec fn one() -> Value {
        Value { mantissa: 1, scale: 0 }
    }

    /// The whole number `n`.
    pub open spec fn whole(n: int) -> Value {
        Value { mantissa: n, scale: 0 }
    }

    /// The number with the opposite sign.
    pub open spec fn neg(self) -> Value {
        Value { mantissa: -self.mantissa, scale: self.scale }
    }

    /// `self <= other` as numbers: both sides are brought to the common
    /// denominator `10^(self.scale + other.scale)`.
    pub open spec fn le(self, other: Value) -> bool {
        self.mantissa * pow10(other.scale) <= other.mantissa * pow10(self.scale)
    }

    /// `self < other` as numbers.
    pub open spec fn lt(self, other: Value) -> bool {
        self.mantissa * pow10(other.scale) < other.mantissa * pow10(self.scale)
    }
}

/// An exact base-10 number of at most 96 bits of mantissa and 28 digits
/// behind the point.
#[derive(Clone, Copy, Debug, PartialEq, Eq)]
pub struct Decimal {
    pub(crate) mantissa: i128,
    pub(crate) scale: u32,
}

impl View for Decimal {
    type V = Value;

    closed spec fn view(&self) -> Value {
        Value { mantissa: self.mantissa as int, scale: self.scale as nat }
    }
}

/// `10^n` is positive.
pub proof fn lemma_pow10_positive(n: nat)
    ensures
        pow10(n) >= 1,
    decreases n,
{
    if n > 0 {
        lemma_pow10_positive((n - 1) as nat);
    }
}

/// `10^(a + b) = 10^a * 10^b`.
pub proof fn lemma_pow10_adds(a: nat, b: nat)
    ensures
        pow10(a + b) == pow10(a) * pow10(b),
    decreases a,
{
    if a == 0 {
        assert(pow10(0) == 1);
    } else {
        lemma_pow10_adds((a - 1) as nat, b);
        assert(pow10(a + b) == 10 * pow10((a + b - 1) as nat));
        assert(pow10(a) == 10 * pow10((a - 1) as nat));
        assert(10 * (pow10((a - 1) as nat) * pow10(b)) == (10 * pow10((a - 1) as nat)) * pow10(b))
            by (nonlinear_arith);
    }
}

/// `m * 10^d` where its size is at most `MAX_MANTISSA`, and `None` where it
/// is larger.
fn scale_up(m: i128, d: u32) -> (r: Option<i128>)
    requires
        -MAX_MANTISSA <= m <= MAX_MANTISSA,
    ensures
        match r {
            Some(v) => v == m * pow10(d as nat) && -MAX_MANTISSA <= v <= MAX_MANTISSA,
            None => m * pow10(d as nat) > MAX_MANTISSA || m * pow10(d as nat) < -MAX_MANTISSA,
        },
{
    let mut cur: i128 = m;
    let mut i: u32 = 0;
    while i < d
        invariant
            i <= d,
            cur == m * pow10(i as nat),
            -MAX_MANTISSA <= cur <= MAX_MANTISSA,
        decreases d - i,
    {
        let next: i128 = cur * 10;
        proof {
            let rest: nat = (d - i - 1) as nat;
            lemma_pow10_adds((i + 1) as nat, rest);
            lemma_pow10_positive(rest);
            assert(pow10((i + 1) as nat) == 10 * pow10(i as nat));
            assert(next == m * pow10((i + 1) as nat)) by (nonlinear_arith)
                requires
                    next == cur * 10,
                    cur == m * pow10(i as nat),
                    pow10((i + 1) as nat) == 10 * pow10(i as nat),
            ;
            assert((i + 1) as nat + rest == d as nat);
            assert(m * pow10(d as nat) == next * pow10(rest)) by (nonlinear_arith)
                requires
                    next == m * pow10((i + 1) as nat),
                    pow10(d as nat) == pow10((i + 1) as nat) * pow10(rest),
            ;
            if next > MAX_MANTISSA {
                assert(next * pow10(rest) >= next) by (nonlinear_arith)
                    requires
                        next > 0,
                        pow10(rest) >= 1,
                ;
            }
            if next < -MAX_MANTISSA {
                assert(next * pow10(rest) <= next) by (nonlinear_arith)
                    requires
                        next < 0,
                        pow10(rest) >= 1,
                ;
            }
        }
        if next > MAX_MANTISSA || next < -MAX_MANTISSA {
            return None;
        }
        cur = next;
        i = i + 1;
    }
    Some(cur)
}

impl Decimal {
    /// What every decimal satisfies: its content is well formed.
    #[verifier::type_invariant]
    pub open spec fn inv(self) -> bool {
        self@.wf()
    }

    /// The decimal `mantissa / 10^scale`, where the mantissa has at most 96
    /// bits and the scale is at most 28; `None` otherwise.
    pub fn new(mantissa: i128, scale: u32) -> (r: Option<Decimal>)
        ensures
            (Value { mantissa: mantissa as int, scale: scale as nat }).wf() ==> r is Some,
            r matches Some(d) ==> d@ == (Value { mantissa: mantissa as int, scale: scale as nat })
                && d@.wf(),
    {
        if mantissa < -MAX_MANTISSA || mantissa > MAX_MANTISSA || scale > MAX_SCALE {
            None
        } else {
            Some(Decimal { mantissa, scale })
        }
    }

    /// The whole number `n`.
    pub fn from_i64(n: i64) -> (r: Decimal)
        ensures
            r@ == Value::whole(n as int),
            r@.wf(),
    {
        Decimal { mantissa: n as i128, scale: 0 }
    }

    /// The number 0.
    pub fn zero() -> (r: Decimal)
        ensures
            r@ == Value::zero(),
    {
        Decimal { mantissa: 0, scale: 0 }
    }

    /// The mantissa.
    pub fn mantissa(&self) -> (m: i128)
        ensures
            m == self@.mantissa,
            self@.wf(),
    {
        proof {
            use_type_invariant(self);
        }
        self.mantissa
    }

    /// The scale: the count of digits behind the decimal point.
    pub fn scale(&self) -> (s: u32)
        ensures
            s == self@.scale,
            self@.wf(),
    {
        proof {
            use_type_invariant(self);
        }
        self.scale
    }

    /// Whether the number is 0.
    pub fn is_zero(&self) -> (r: bool)
        ensures
            r == (self@.mantissa == 0),
    {
        self.mantissa == 0
    }

    /// Whether the number is above 0.
    pub fn is_positive(&self) -> (r: bool)
        ensures
            r == (self@.mantissa > 0),
    {
        self.mantissa > 0
    }

    /// Whether the number is below 0.
    pub fn is_negative(&self) -> (r: bool)
        ensures
            r == (self@.mantissa < 0),
    {
        self.mantissa < 0
    }

    /// The number with the opposite sign.
    pub fn neg(&self) -> (r: Decimal)
        ensures
            r@ == self@.neg(),
    {
        proof {
            use_type_invariant(self);
        }
        Decimal { mantissa: -self.mantissa, scale: self.scale }
    }

    /// Whether `self <= other` as numbers, whatever their scales.
    pub fn le(&self, other: &Decimal) -> (r: bool)
        ensures
            r == self@.le(other@),
    {
        proof {
            use_type_invariant(self);
            use_type_invariant(other);
        }
        if self.scale <= other.scale {
            let d: u32 = other.scale - self.scale;
            proof {
                lemma_pow10_adds(d as nat, self.scale as nat);
                lemma_pow10_positive(self.scale as nat);
                lemma_le_common_factor(
                    self.mantissa * pow10(d as nat),
                    other.mantissa as int,
                    pow10(self.scale as nat),
                );
                assert(self.mantissa * pow10(other.scale as nat) == (self.mantissa * pow10(
                    d as nat,
                )) * pow10(self.scale as nat)) by (nonlinear_arith)
                    requires
                        pow10(other.scale as nat) == pow10(d as nat) * pow10(self.scale as nat),
                ;
            }
            proof {
                lemma_pow10_positive(d as nat);
                lemma_product_sign(self.mantissa as int, pow10(d as nat));
            }
            match scale_up(self.mantissa, d) {
                Some(v) => v <= other.mantissa,
                None => self.mantissa < 0,
            }
        } else {
            let d: u32 = self.scale - other.scale;
            proof {
                lemma_pow10_adds(d as nat, other.scale as nat);
                lemma_pow10_positive(other.scale as nat);
                lemma_le_common_factor(
                    self.mantissa as int,
                    other.mantissa * pow10(d as nat),
                    pow10(other.scale as nat),
                );
                assert(other.mantissa * pow10(self.scale as nat) == (other.mantissa * pow10(
                    d as nat,
                )) * pow10(other.scale as nat)) by (nonlinear_arith)
                    requires
                        pow10(self.scale as nat) == pow10(d as nat) * pow10(other.scale as nat),
                ;
            }
            proof {
                lemma_pow10_positive(d as nat);
                lemma_product_sign(other.mantissa as int, pow10(d as nat));
            }
            match scale_up(other.mantissa, d) {
                Some(v) => self.mantissa <= v,
                None => other.mantissa > 0,
            }
        }
    }

    /// Whether `self < other` as numbers, whatever their scales.
    pub fn lt(&self, other: &Decimal) -> (r: bool)
        ensures
            r == self@.lt(other@),
    {
        !other.le(self)
    }
}

/// A positive factor does not change a sign.
proof fn lemma_product_sign(x: int, f: int)
    requires
        f >= 1,
    ensures
        x > 0 ==> x * f > 0,
        x < 0 ==> x * f < 0,
        x == 0 ==> x * f == 0,
{
    assert(x > 0 ==> x * f > 0) by (nonlinear_arith)
        requires
            f >= 1,
    ;
    assert(x < 0 ==> x * f < 0) by (nonlinear_arith)
        requires
            f >= 1,
    ;
}

/// A positive common factor does not change an order.
proof fn lemma_le_common_factor(x: int, y: int, f: int)
    requires
        f >= 1,
    ensures
        x * f <= y * f <==> x <= y,
{
    assert(x * f <= y * f <==> x <= y) by (nonlinear_arith)
        requires
            f >= 1,
    ;
}

} // verus!
