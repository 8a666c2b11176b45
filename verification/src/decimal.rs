use vstd::prelude::*;

use crate::errors::ErrorCode;

verus! {

broadcast use vstd::arithmetic::mul::group_mul_basics;

/// Ten to the `n`th power.
pub open spec fn pow10(n: nat) -> nat
    decreases n,
{
    if n == 0 {
        1
    } else {
        10 * pow10((n - 1) as nat)
    }
}

/// Every power of ten is positive.
pub proof fn lemma_pow10_pos(n: nat)
    ensures
        pow10(n) >= 1,
    decreases n,
{
    if n > 0 {
        lemma_pow10_pos((n - 1) as nat);
    }
}

/// Powers of ten grow with the exponent.
pub proof fn lemma_pow10_increases(i: nat, j: nat)
    requires
        i <= j,
    ensures
        pow10(i) <= pow10(j),
    decreases j,
{
    if i < j {
        lemma_pow10_increases(i, (j - 1) as nat);
        lemma_pow10_pos((j - 1) as nat);
    }
}

/// Ten to the thirty-eighth still fits the mantissa width; ten to the
/// thirty-ninth no longer does.
proof fn lemma_pow10_bounds()
    ensures
        pow10(38) <= u128::MAX,
        pow10(39) > u128::MAX,
{
    reveal_with_fuel(pow10, 40);
    assert(pow10(38) == 100000000000000000000000000000000000000);
}

/// Computes ten to the `n`th power.
fn pow10_exec(n: u32) -> (r: u128)
    requires
        pow10(n as nat) <= u128::MAX,
    ensures
        r == pow10(n as nat),
{
    let mut i: u32 = 0;
    let mut r: u128 = 1;
    while i < n
        invariant
            i <= n,
            r == pow10(i as nat),
            pow10(n as nat) <= u128::MAX,
        decreases n - i,
    {
        proof {
            lemma_pow10_increases((i + 1) as nat, n as nat);
        }
        r = r * 10;
        i = i + 1;
    }
    r
}

/// Multiplies a mantissa by ten to the `d`th power.
fn scale_up(m: u128, d: u32) -> (r: u128)
    requires
        m * pow10(d as nat) <= u128::MAX,
    ensures
        r == m * pow10(d as nat),
{
    if m == 0 {
        return 0;
    }
    proof {
        lemma_pow10_pos(d as nat);
        assert(pow10(d as nat) <= m * pow10(d as nat)) by (nonlinear_arith)
            requires
                m >= 1,
                pow10(d as nat) >= 1,
        ;
    }
    let f = pow10_exec(d);
    m * f
}

/// A scaled-integer decimal number: the represented value is
/// `mantissa / 10^scale`.
///
/// The type is an immutable value type; every operation returns a new
/// instance.  Operands of addition, subtraction, comparison and division are
/// first rewritten at their larger (common) scale; multiplication adds the
/// scales.  All values are non-negative.
#[derive(Clone, Copy, Debug)]
pub struct Decimal {
    pub mantissa: u128,
    pub scale: u32,
}

impl Decimal {
    /// The larger of the two scales: the scale both operands are rewritten at
    /// before they are combined or compared.
    pub open spec fn common_scale(self, other: Decimal) -> nat {
        if self.scale >= other.scale {
            self.scale as nat
        } else {
            other.scale as nat
        }
    }

    /// The mantissa of this value rewritten at scale `s`: the integer `m`
    /// with `value == m / 10^s`, for `s` at or above the own scale.
    pub open spec fn mantissa_at(self, s: nat) -> int {
        self.mantissa * pow10((s - self.scale) as nat)
    }

    /// Both operands' mantissas, rewritten at the common scale, fit the
    /// mantissa width; the machine bound under which they can be combined.
    pub open spec fn comparable(self, other: Decimal) -> bool {
        &&& self.mantissa_at(self.common_scale(other)) <= u128::MAX
        &&& other.mantissa_at(self.common_scale(other)) <= u128::MAX
    }

    /// Value equality: equal mantissas at the common scale.
    pub open spec fn eq_spec(self, other: Decimal) -> bool {
        self.mantissa_at(self.common_scale(other)) == other.mantissa_at(self.common_scale(other))
    }

    /// Value order: mantissa order at the common scale.
    pub open spec fn lt_spec(self, other: Decimal) -> bool {
        self.mantissa_at(self.common_scale(other)) < other.mantissa_at(self.common_scale(other))
    }

    pub open spec fn lte_spec(self, other: Decimal) -> bool {
        self.mantissa_at(self.common_scale(other)) <= other.mantissa_at(self.common_scale(other))
    }

    pub open spec fn gt_spec(self, other: Decimal) -> bool {
        self.mantissa_at(self.common_scale(other)) > other.mantissa_at(self.common_scale(other))
    }

    pub open spec fn gte_spec(self, other: Decimal) -> bool {
        self.mantissa_at(self.common_scale(other)) >= other.mantissa_at(self.common_scale(other))
    }

    /// The result of rescaling to `target`: rewriting upward multiplies the
    /// mantissa by a power of ten exactly; rewriting downward divides it,
    /// truncating toward zero (low-order digits are dropped silently).
    pub open spec fn to_scale_spec(self, target: u32) -> Decimal {
        if target >= self.scale {
            Decimal {
                mantissa: (self.mantissa * pow10((target - self.scale) as nat)) as u128,
                scale: target,
            }
        } else {
            Decimal {
                mantissa: (self.mantissa as int / pow10((self.scale - target) as nat) as int) as u128,
                scale: target,
            }
        }
    }

    /// Constructs the value `mantissa / 10^scale`.
    pub fn new(mantissa: u128, scale: u32) -> (r: Decimal)
        ensures
            r == (Decimal { mantissa, scale }),
    {
        Decimal { mantissa, scale }
    }

    /// Both mantissas rewritten at the common scale.
    fn rescaled_pair(&self, other: &Decimal) -> (r: (u128, u128))
        requires
            self.comparable(*other),
        ensures
            r.0 == self.mantissa_at(self.common_scale(*other)),
            r.1 == other.mantissa_at(self.common_scale(*other)),
    {
        if self.scale >= other.scale {
            let f = scale_up(other.mantissa, self.scale - other.scale);
            (self.mantissa, f)
        } else {
            let f = scale_up(self.mantissa, other.scale - self.scale);
            (f, other.mantissa)
        }
    }

    /// Rewrites the value at scale `target`; truncation toward zero when the
    /// target scale is smaller (see `to_scale_spec`).
    pub fn to_scale(&self, target: u32) -> (r: Decimal)
        requires
            target >= self.scale ==> self.mantissa * pow10((target - self.scale) as nat)
                <= u128::MAX,
        ensures
            r == self.to_scale_spec(target),
    {
        if target >= self.scale {
            let m = scale_up(self.mantissa, target - self.scale);
            Decimal { mantissa: m, scale: target }
        } else {
            let d = self.scale - target;
            if d >= 39 {
                proof {
                    lemma_pow10_bounds();
                    lemma_pow10_increases(39, d as nat);
                    vstd::arithmetic::div_mod::lemma_basic_div(
                        self.mantissa as int,
                        pow10(d as nat) as int,
                    );
                }
                Decimal { mantissa: 0, scale: target }
            } else {
                proof {
                    lemma_pow10_bounds();
                    lemma_pow10_increases(d as nat, 38);
                    lemma_pow10_pos(d as nat);
                }
                let f = pow10_exec(d);
                Decimal { mantissa: self.mantissa / f, scale: target }
            }
        }
    }

    /// Sum at the common scale.
    pub fn add(&self, other: &Decimal) -> (r: Decimal)
        requires
            self.comparable(*other),
            self.mantissa_at(self.common_scale(*other)) + other.mantissa_at(
                self.common_scale(*other),
            ) <= u128::MAX,
        ensures
            r.scale == self.common_scale(*other),
            r.mantissa == self.mantissa_at(self.common_scale(*other)) + other.mantissa_at(
                self.common_scale(*other),
            ),
    {
        let (a, b) = self.rescaled_pair(other);
        let s = if self.scale >= other.scale {
            self.scale
        } else {
            other.scale
        };
        Decimal { mantissa: a + b, scale: s }
    }

    /// Difference at the common scale; defined for a minuend at or above the
    /// subtrahend, since values are non-negative.
    pub fn sub(&self, other: &Decimal) -> (r: Decimal)
        requires
            self.comparable(*other),
            self.gte_spec(*other),
        ensures
            r.scale == self.common_scale(*other),
            r.mantissa == self.mantissa_at(self.common_scale(*other)) - other.mantissa_at(
                self.common_scale(*other),
            ),
    {
        let (a, b) = self.rescaled_pair(other);
        let s = if self.scale >= other.scale {
            self.scale
        } else {
            other.scale
        };
        Decimal { mantissa: a - b, scale: s }
    }

    /// Product: mantissas multiply and scales add.
    pub fn mul(&self, other: &Decimal) -> (r: Decimal)
        requires
            self.mantissa * other.mantissa <= u128::MAX,
            self.scale + other.scale <= u32::MAX,
        ensures
            r.mantissa == self.mantissa * other.mantissa,
            r.scale == self.scale + other.scale,
    {
        Decimal { mantissa: self.mantissa * other.mantissa, scale: self.scale + other.scale }
    }

    /// Quotient: integer division of the mantissas rewritten at the common
    /// scale, truncating toward zero, at scale zero.  A zero-valued divisor
    /// is rejected with `DivisionByZero`.
    pub fn div(&self, other: &Decimal) -> (r: Result<Decimal, ErrorCode>)
        requires
            self.comparable(*other),
        ensures
            other.mantissa == 0 ==> r == Err::<Decimal, ErrorCode>(ErrorCode::DivisionByZero),
            other.mantissa != 0 ==> (r matches Ok(q) && q.scale == 0 && q.mantissa
                == self.mantissa_at(self.common_scale(*other)) / other.mantissa_at(
                self.common_scale(*other),
            )),
    {
        if other.mantissa == 0 {
            return Err(ErrorCode::DivisionByZero);
        }
        let (a, b) = self.rescaled_pair(other);
        proof {
            let p = pow10((self.common_scale(*other) - other.scale) as nat);
            lemma_pow10_pos((self.common_scale(*other) - other.scale) as nat);
            assert(other.mantissa * p >= 1) by (nonlinear_arith)
                requires
                    other.mantissa >= 1,
                    p >= 1,
            ;
        }
        Ok(Decimal { mantissa: a / b, scale: 0 })
    }

    /// Value equality of the two operands.
    pub fn eq(&self, other: &Decimal) -> (r: bool)
        requires
            self.comparable(*other),
        ensures
            r == self.eq_spec(*other),
    {
        let (a, b) = self.rescaled_pair(other);
        a == b
    }

    /// Value inequality of the two operands.
    pub fn ne(&self, other: &Decimal) -> (r: bool)
        requires
            self.comparable(*other),
        ensures
            r == !self.eq_spec(*other),
    {
        let (a, b) = self.rescaled_pair(other);
        a != b
    }

    /// Strictly less, by value.
    pub fn lt(&self, other: &Decimal) -> (r: bool)
        requires
            self.comparable(*other),
        ensures
            r == self.lt_spec(*other),
    {
        let (a, b) = self.rescaled_pair(other);
        a < b
    }

    /// Less or equal, by value.
    pub fn lte(&self, other: &Decimal) -> (r: bool)
        requires
            self.comparable(*other),
        ensures
            r == self.lte_spec(*other),
    {
        let (a, b) = self.rescaled_pair(other);
        a <= b
    }

    /// Strictly greater, by value.
    pub fn gt(&self, other: &Decimal) -> (r: bool)
        requires
            self.comparable(*other),
        ensures
            r == self.gt_spec(*other),
    {
        let (a, b) = self.rescaled_pair(other);
        a > b
    }

    /// Greater or equal, by value.
    pub fn gte(&self, other: &Decimal) -> (r: bool)
        requires
            self.comparable(*other),
        ensures
            r == self.gte_spec(*other),
    {
        let (a, b) = self.rescaled_pair(other);
        a >= b
    }
}

/// Rescaling a value down to a smaller scale and back keeps the scale but
/// truncates: exactly the low-order digits below the smaller scale are
/// dropped, so the round trip returns the original mantissa less its
/// remainder modulo the dropped power of ten.
pub proof fn lemma_rescale_down_truncates(d: Decimal, s2: u32)
    requires
        s2 < d.scale,
    ensures
        d.to_scale_spec(s2).to_scale_spec(d.scale).scale == d.scale,
        d.to_scale_spec(s2).to_scale_spec(d.scale).mantissa == d.mantissa - d.mantissa as int % (
        pow10((d.scale - s2) as nat) as int),
{
    let k = (d.scale - s2) as nat;
    let p = pow10(k) as int;
    let m = d.mantissa as int;
    lemma_pow10_pos(k);
    vstd::arithmetic::div_mod::lemma_fundamental_div_mod(m, p);
    vstd::arithmetic::div_mod::lemma_mod_bound(m, p);
    vstd::arithmetic::div_mod::lemma_div_pos_is_pos(m, p);
    assert((m / p) * p == p * (m / p)) by (nonlinear_arith);
    assert((m / p) * pow10(k) == (m / p) * p);
}

/// Rescaling a value up to a larger scale and back restores the original:
/// no digit is lost going up, and coming back down divides out exactly the
/// power of ten that was multiplied in.
pub proof fn lemma_rescale_round_trip(d: Decimal, s2: u32)
    requires
        d.scale <= s2,
        d.mantissa * pow10((s2 - d.scale) as nat) <= u128::MAX,
    ensures
        d.to_scale_spec(s2).to_scale_spec(d.scale) == d,
{
    let k = (s2 - d.scale) as nat;
    let up = d.to_scale_spec(s2);
    if d.scale == s2 {
        assert(up.mantissa == d.mantissa);
    } else {
        lemma_pow10_pos(k);
        vstd::arithmetic::div_mod::lemma_div_multiples_vanish(
            d.mantissa as int,
            pow10(k) as int,
        );
        assert(pow10(k) as int * d.mantissa as int == d.mantissa as int * pow10(k) as int)
            by (nonlinear_arith);
    }
}

} // verus!
