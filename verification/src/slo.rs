use vstd::prelude::*;

use crate::errors::ErrorCode;

verus! {

/// The six comparison kinds a service-level objective can declare.
///
/// The set is closed: an objective always carries exactly one of these, and
/// evaluation dispatches over all six exhaustively.
#[derive(Clone, Copy, Debug, PartialEq, Eq, Structural)]
pub enum SloType {
    EqualTo,
    NotEqualTo,
    SmallerThan,
    SmallerOrEqualTo,
    GreaterThan,
    GreaterOrEqualTo,
}

impl SloType {
    /// The two kinds without a meaningful distance metric; their deviation is
    /// a fixed one-percent placeholder instead of a computed gap.
    pub open spec fn is_equality_kind(self) -> bool {
        self == SloType::EqualTo || self == SloType::NotEqualTo
    }
}

/// A deviation precision is accepted exactly when it is a positive multiple
/// of one hundred, so that it splits evenly into percentage points.
pub open spec fn valid_precision(precision: u128) -> bool {
    precision % 100 == 0 && precision != 0
}

/// A service-level objective over plain unsigned indicator readings: a target
/// value and the comparison kind the observed value is judged by.
pub struct Slo {
    pub slo_value: u128,
    pub slo_type: SloType,
    pub bump: u8,
}

impl Slo {
    /// The mathematical relation `value <comparison> target` for each of the
    /// six comparison kinds.
    pub open spec fn respected(self, value: u128) -> bool {
        match self.slo_type {
            SloType::EqualTo => value == self.slo_value,
            SloType::NotEqualTo => value != self.slo_value,
            SloType::SmallerThan => value < self.slo_value,
            SloType::SmallerOrEqualTo => value <= self.slo_value,
            SloType::GreaterThan => value > self.slo_value,
            SloType::GreaterOrEqualTo => value >= self.slo_value,
        }
    }

    /// Numerator of the relative-deviation formula: the gap above the target
    /// when the reading meets or exceeds it, else the whole target.
    pub open spec fn deviation_gap(self, sli: u128) -> int {
        if sli >= self.slo_value {
            sli - self.slo_value
        } else {
            self.slo_value as int
        }
    }

    /// Denominator of the formula: the arithmetic mean of reading and target,
    /// rounded down.
    pub open spec fn deviation_mean(self, sli: u128) -> int {
        (sli + self.slo_value) / 2
    }

    /// The gap scaled by the precision, normalized by the mean, and clamped
    /// to one quarter of the precision (a twenty-five percent cap) so that an
    /// extreme reading cannot skew a payout past the cap.
    pub open spec fn deviation_value(self, sli: u128, precision: u128) -> int {
        let raw = self.deviation_gap(sli) * precision / self.deviation_mean(sli);
        let cap = precision * 25 / 100;
        if raw > cap {
            cap
        } else {
            raw
        }
    }

    /// The machine bounds under which the deviation formula's intermediate
    /// products fit the mantissa width.
    pub open spec fn deviation_defined(self, sli: u128, precision: u128) -> bool {
        &&& sli + self.slo_value <= u128::MAX
        &&& self.deviation_gap(sli) * precision <= u128::MAX
    }

    /// The full outcome of a deviation request: the error on a rejected
    /// precision, the fixed one-percent placeholder for the equality kinds,
    /// the division-by-zero error when reading and target average to zero,
    /// and the capped relative deviation otherwise.
    pub open spec fn deviation_result(self, sli: u128, precision: u128) -> Result<u128, ErrorCode> {
        if !valid_precision(precision) {
            Err(ErrorCode::InvalidPrecision)
        } else if self.slo_type.is_equality_kind() {
            Ok((precision / 100) as u128)
        } else if self.deviation_mean(sli) == 0 {
            Err(ErrorCode::DivisionByZero)
        } else {
            Ok(self.deviation_value(sli, precision) as u128)
        }
    }

    /// Whether the observed reading satisfies the objective.  Pure; the
    /// result is exactly the mathematical relation and the call never fails.
    pub fn is_respected(&self, value: u128) -> (r: Result<bool, ErrorCode>)
        ensures
            r == Ok::<bool, ErrorCode>(self.respected(value)),
    {
        let slo_type = self.slo_type;
        let slo_value = self.slo_value;

        match slo_type {
            SloType::EqualTo => Ok(value == slo_value),
            SloType::NotEqualTo => Ok(value != slo_value),
            SloType::SmallerThan => Ok(value < slo_value),
            SloType::SmallerOrEqualTo => Ok(value <= slo_value),
            SloType::GreaterThan => Ok(value > slo_value),
            SloType::GreaterOrEqualTo => Ok(value >= slo_value),
        }
    }

    /// How far the reading deviated from the objective, scaled by `precision`
    /// and clamped to a quarter of it.  Pure function of its inputs and the
    /// objective's own state; see `deviation_result` for the exact outcome.
    pub fn get_deviation(&self, sli: u128, precision: u128) -> (r: Result<u128, ErrorCode>)
        requires
            valid_precision(precision) && !self.slo_type.is_equality_kind()
                ==> self.deviation_defined(sli, precision),
        ensures
            r == self.deviation_result(sli, precision),
            r matches Ok(d) ==> d <= precision * 25 / 100,
    {
        if precision % 100 != 0 || precision == 0 {
            return Err(ErrorCode::InvalidPrecision);
        }

        let slo_type = self.slo_type;
        let slo_value = self.slo_value;

        match slo_type {
            SloType::EqualTo | SloType::NotEqualTo => {
                proof {
                    lemma_hundredth_below_cap(precision);
                }
                Ok(precision / 100)
            },
            _ => {
                let gap: u128 = if sli >= slo_value {
                    sli - slo_value
                } else {
                    slo_value
                };
                let mean: u128 = (sli + slo_value) / 2;
                if mean == 0 {
                    return Err(ErrorCode::DivisionByZero);
                }
                let mut deviation: u128 = gap * precision / mean;
                let cap: u128 = precision / 100 * 25;
                proof {
                    lemma_cap_rearranged(precision);
                }
                if deviation > cap {
                    deviation = cap;
                }
                Ok(deviation)
            },
        }
    }
}

/// For a precision that is a multiple of one hundred, computing the cap as
/// `precision / 100 * 25` is exact and equals `precision * 25 / 100`.
proof fn lemma_cap_rearranged(precision: u128)
    requires
        precision % 100 == 0,
    ensures
        precision / 100 * 25 == precision * 25 / 100,
{
    let q = precision as int / 100;
    vstd::arithmetic::div_mod::lemma_fundamental_div_mod(precision as int, 100);
    assert(precision as int == 100 * q);
    assert(precision as int * 25 == 100 * (25 * q)) by (nonlinear_arith)
        requires
            precision as int == 100 * q,
    ;
    vstd::arithmetic::div_mod::lemma_div_multiples_vanish(25 * q, 100);
}

/// One percent of the precision never exceeds the twenty-five percent cap.
proof fn lemma_hundredth_below_cap(precision: u128)
    ensures
        precision / 100 <= precision * 25 / 100,
{
    vstd::arithmetic::div_mod::lemma_div_is_ordered(
        precision as int,
        precision as int * 25,
        100,
    );
}

/// Evaluating an objective is deterministic: the contracts of `is_respected`
/// and `get_deviation` pin their results to functions of the inputs alone, so
/// two calls with identical inputs yield identical outputs.
pub proof fn lemma_evaluation_idempotent(
    slo: Slo,
    value: u128,
    precision: u128,
    r1: Result<bool, ErrorCode>,
    r2: Result<bool, ErrorCode>,
    d1: Result<u128, ErrorCode>,
    d2: Result<u128, ErrorCode>,
)
    requires
        r1 == Ok::<bool, ErrorCode>(slo.respected(value)),
        r2 == Ok::<bool, ErrorCode>(slo.respected(value)),
        d1 == slo.deviation_result(value, precision),
        d2 == slo.deviation_result(value, precision),
    ensures
        r1 == r2,
        d1 == d2,
{
}

/// For the gap-measuring comparison kinds, a computed deviation never
/// exceeds the twenty-five percent cap, whatever the reading.
pub proof fn lemma_deviation_capped(slo: Slo, sli: u128, precision: u128)
    requires
        !slo.slo_type.is_equality_kind(),
    ensures
        slo.deviation_result(sli, precision) matches Ok(d) ==> d <= precision * 25 / 100,
{
    if valid_precision(precision) && slo.deviation_mean(sli) != 0 {
        vstd::arithmetic::div_mod::lemma_div_pos_is_pos(
            slo.deviation_gap(sli) * precision,
            slo.deviation_mean(sli),
        );
        assert(slo.deviation_gap(sli) * precision >= 0) by (nonlinear_arith)
            requires
                slo.deviation_gap(sli) >= 0,
        ;
    }
}

/// For the equality comparison kinds, the deviation is the fixed one-percent
/// placeholder, whatever the reading.
pub proof fn lemma_equality_kind_constant(slo: Slo, sli: u128, precision: u128)
    requires
        valid_precision(precision),
        slo.slo_type.is_equality_kind(),
    ensures
        slo.deviation_result(sli, precision) == Ok::<u128, ErrorCode>((precision / 100) as u128),
{
}

} // verus!
