use vstd::prelude::*;

use crate::decimal::Decimal;
use crate::decimal::pow10;
use crate::errors::ErrorCode;
use crate::slo::valid_precision;

pub use crate::slo::SloType;

verus! {

broadcast use vstd::arithmetic::mul::group_mul_basics;

/// An opaque thirty-two-byte identity: an account, a mint, an oracle or a
/// derived signing authority.  Only equality of identities matters to the
/// core's logic.
#[derive(Clone, Copy, Debug)]
pub struct Address {
    pub bytes: [u8; 32],
}

impl Address {
    /// Two identities are the same exactly when their bytes agree.
    pub open spec fn eq_spec(self, other: Address) -> bool {
        self.bytes@ == other.bytes@
    }

    /// Byte-wise identity comparison.
    pub fn addr_eq(&self, other: &Address) -> (r: bool)
        ensures
            r == self.eq_spec(*other),
    {
        let mut i: usize = 0;
        while i < 32
            invariant
                i <= 32,
                forall|j: int| 0 <= j < i ==> self.bytes@[j] == other.bytes@[j],
            decreases 32 - i,
        {
            if self.bytes[i] != other.bytes[i] {
                return false;
            }
            i = i + 1;
        }
        proof {
            assert(self.bytes@ =~= other.bytes@);
        }
        true
    }
}

/// The derived signing authority of an agreement.  It owns the agreement's
/// custody vaults and mints its claim tokens; no party holds a private key
/// for it, so control is proven structurally at call time.
pub struct SlaAuthority {}

/// A service-level objective over fixed-point decimal readings: a target
/// value and the comparison kind the observed value is judged by.
pub struct Slo {
    pub slo_value: Decimal,
    pub slo_type: SloType,
}

impl Slo {
    /// The mathematical relation `value <comparison> target`, by decimal
    /// value, for each of the six comparison kinds.
    pub open spec fn respected(self, value: Decimal) -> bool {
        match self.slo_type {
            SloType::EqualTo => value.eq_spec(self.slo_value),
            SloType::NotEqualTo => !value.eq_spec(self.slo_value),
            SloType::SmallerThan => value.lt_spec(self.slo_value),
            SloType::SmallerOrEqualTo => value.lte_spec(self.slo_value),
            SloType::GreaterThan => value.gt_spec(self.slo_value),
            SloType::GreaterOrEqualTo => value.gte_spec(self.slo_value),
        }
    }

    /// Numerator of the relative-deviation formula: the decimal gap above the
    /// target when the reading reaches it, else the whole target.
    pub open spec fn deviation_gap(self, sli: Decimal) -> Decimal {
        let c = sli.common_scale(self.slo_value);
        if sli.gte_spec(self.slo_value) {
            Decimal {
                mantissa: (sli.mantissa_at(c) - self.slo_value.mantissa_at(c)) as u128,
                scale: c as u32,
            }
        } else {
            self.slo_value
        }
    }

    /// Denominator of the formula: the whole part of the arithmetic mean of
    /// reading and target, as a scale-zero mantissa.
    pub open spec fn deviation_mean(self, sli: Decimal) -> int {
        let c = sli.common_scale(self.slo_value);
        (sli.mantissa_at(c) + self.slo_value.mantissa_at(c)) / (2 * pow10(c) as int)
    }

    /// The gap scaled by the precision, normalized by the mean, and clamped
    /// to one quarter of the precision (a twenty-five percent cap), as a
    /// scale-zero decimal.
    pub open spec fn deviation_value(self, sli: Decimal, precision: u128) -> Decimal {
        let gap = self.deviation_gap(sli);
        let raw = gap.mantissa * precision / (self.deviation_mean(sli) * pow10(gap.scale as nat));
        let cap = precision * 25 / 100;
        Decimal {
            mantissa: (if raw > cap {
                cap
            } else {
                raw
            }) as u128,
            scale: 0,
        }
    }

    /// The machine bounds under which the formula's rescalings and
    /// intermediate products fit the mantissa width.
    pub open spec fn deviation_defined(self, sli: Decimal, precision: u128) -> bool {
        let c = sli.common_scale(self.slo_value);
        let gap = self.deviation_gap(sli);
        &&& sli.comparable(self.slo_value)
        &&& sli.mantissa_at(c) + self.slo_value.mantissa_at(c) <= u128::MAX
        &&& 2 * pow10(c) <= u128::MAX
        &&& gap.mantissa * precision <= u128::MAX
        &&& self.deviation_mean(sli) * pow10(gap.scale as nat) <= u128::MAX
        &&& precision * 25 <= u128::MAX
    }

    /// The full outcome of a deviation request: the error on a rejected
    /// precision, the fixed one-percent placeholder for the equality kinds,
    /// the division-by-zero error when reading and target average to zero,
    /// and the capped relative deviation otherwise.
    pub open spec fn deviation_result(self, sli: Decimal, precision: u128) -> Result<
        Decimal,
        ErrorCode,
    > {
        if !valid_precision(precision) {
            Err(ErrorCode::InvalidPrecision)
        } else if self.slo_type.is_equality_kind() {
            Ok(Decimal { mantissa: (precision / 100) as u128, scale: 0 })
        } else if self.deviation_mean(sli) == 0 {
            Err(ErrorCode::DivisionByZero)
        } else {
            Ok(self.deviation_value(sli, precision))
        }
    }

    /// Whether the observed decimal reading satisfies the objective.  Pure;
    /// the result is exactly the mathematical relation and the call never
    /// fails.
    pub fn is_respected(&self, value: Decimal) -> (r: Result<bool, ErrorCode>)
        requires
            value.comparable(self.slo_value),
        ensures
            r == Ok::<bool, ErrorCode>(self.respected(value)),
    {
        let slo_type = self.slo_type;
        let slo_value = self.slo_value;

        match slo_type {
            SloType::EqualTo => Ok(value.eq(&slo_value)),
            SloType::NotEqualTo => Ok(value.ne(&slo_value)),
            SloType::SmallerThan => Ok(value.lt(&slo_value)),
            SloType::SmallerOrEqualTo => Ok(value.lte(&slo_value)),
            SloType::GreaterThan => Ok(value.gt(&slo_value)),
            SloType::GreaterOrEqualTo => Ok(value.gte(&slo_value)),
        }
    }

    /// How far the decimal reading deviated from the objective, scaled by
    /// `precision` and clamped to a quarter of it.  Pure function of its
    /// inputs and the objective's own state; see `deviation_result` for the
    /// exact outcome.
    pub fn get_deviation(&self, sli: Decimal, precision: u128) -> (r: Result<Decimal, ErrorCode>)
        requires
            valid_precision(precision) && !self.slo_type.is_equality_kind()
                ==> self.deviation_defined(sli, precision),
        ensures
            r == self.deviation_result(sli, precision),
            r matches Ok(d) ==> (self.slo_type.is_equality_kind() || d.mantissa <= precision * 25
                / 100),
    {
        if precision % 100 != 0 || precision == 0 {
            return Err(ErrorCode::InvalidPrecision);
        }
        let precision_dec = Decimal::new(precision, 0);
        let hundred = Decimal::new(100, 0);

        let slo_type = self.slo_type;
        let slo_value = self.slo_value;

        match slo_type {
            SloType::EqualTo | SloType::NotEqualTo => {
                // Deviation of 1%
                match precision_dec.div(&hundred) {
                    Ok(d) => Ok(d),
                    Err(e) => Err(e),
                }
            },
            _ => {
                let gap = if sli.gte(&slo_value) {
                    sli.sub(&slo_value)
                } else {
                    slo_value
                };
                let num = gap.mul(&precision_dec);
                let sum = sli.add(&slo_value);
                let den = match sum.div(&Decimal::new(2, 0)) {
                    Ok(d) => d,
                    Err(e) => {
                        return Err(e);
                    },
                };
                let mut deviation = match num.div(&den) {
                    Ok(d) => d,
                    Err(e) => {
                        return Err(e);
                    },
                };
                let cap = match precision_dec.mul(&Decimal::new(25, 0)).div(&hundred) {
                    Ok(d) => d,
                    Err(e) => {
                        return Err(e);
                    },
                };
                let cap = cap.to_scale(deviation.scale);
                if deviation.gt(&cap) {
                    deviation = cap;
                }
                Ok(deviation)
            },
        }
    }
}

/// For the gap-measuring comparison kinds, a computed decimal deviation
/// never exceeds the twenty-five percent cap, whatever the reading.
pub proof fn lemma_deviation_capped(slo: Slo, sli: Decimal, precision: u128)
    requires
        !slo.slo_type.is_equality_kind(),
    ensures
        slo.deviation_result(sli, precision) matches Ok(d) ==> d.mantissa <= precision * 25 / 100,
{
    if valid_precision(precision) && slo.deviation_mean(sli) != 0 {
        let c = sli.common_scale(slo.slo_value);
        let gap = slo.deviation_gap(sli);
        let sum = sli.mantissa_at(c) + slo.slo_value.mantissa_at(c);
        crate::decimal::lemma_pow10_pos(c);
        crate::decimal::lemma_pow10_pos(gap.scale as nat);
        assert(sli.mantissa_at(c) >= 0 && slo.slo_value.mantissa_at(c) >= 0)
            by (nonlinear_arith)
            requires
                pow10((c - sli.scale) as nat) >= 0,
                pow10((c - slo.slo_value.scale) as nat) >= 0,
        ;
        vstd::arithmetic::div_mod::lemma_div_pos_is_pos(sum, 2 * pow10(c) as int);
        let den = slo.deviation_mean(sli) * pow10(gap.scale as nat) as int;
        assert(slo.deviation_mean(sli) * pow10(gap.scale as nat) as int >= 1)
            by (nonlinear_arith)
            requires
                slo.deviation_mean(sli) >= 1,
                pow10(gap.scale as nat) >= 1,
        ;
        assert(gap.mantissa * precision >= 0) by (nonlinear_arith);
        vstd::arithmetic::div_mod::lemma_div_pos_is_pos(gap.mantissa * precision, den);
        vstd::arithmetic::div_mod::lemma_div_is_ordered(
            precision * 25,
            u128::MAX as int * 25,
            100,
        );
    }
}

/// For the equality comparison kinds, the decimal deviation is the fixed
/// one-percent placeholder at scale zero, whatever the reading.
pub proof fn lemma_equality_kind_constant(slo: Slo, sli: Decimal, precision: u128)
    requires
        valid_precision(precision),
        slo.slo_type.is_equality_kind(),
    ensures
        slo.deviation_result(sli, precision) == Ok::<Decimal, ErrorCode>(
            Decimal { mantissa: (precision / 100) as u128, scale: 0 },
        ),
{
}

/// Evaluating an objective over decimal readings is deterministic: the
/// contracts of `is_respected` and `get_deviation` pin their results to
/// functions of the inputs alone, so two calls with identical inputs yield
/// identical outputs.
pub proof fn lemma_evaluation_idempotent(
    slo: Slo,
    value: Decimal,
    precision: u128,
    r1: Result<bool, ErrorCode>,
    r2: Result<bool, ErrorCode>,
    d1: Result<Decimal, ErrorCode>,
    d2: Result<Decimal, ErrorCode>,
)
    requires
        r1 == Ok::<bool, ErrorCode>(slo.respected(value)),
        r2 == Ok::<bool, ErrorCode>(slo.respected(value)),
        d1 == slo.deviation_result(value, precision),
        d2 == slo.deviation_result(value, precision),
    ensures
        r1 == r2,
        d1 == d2,
{
}

/// A service-level agreement: the unit of custody and the signer for the
/// mint and transfer operations it authorizes.
pub struct Sla {
    /// Identity of the messenger (oracle) providing the indicator data.
    pub messenger_address: Address,
    /// The objective the provider must achieve to be rewarded.
    pub slo: Slo,
    /// Leverage between provider and user pool; consumed by settlement
    /// logic outside this core.
    pub leverage: u64,
    /// Content-addressed pointer to the off-chain agreement text.
    pub ipfs_hash: String,
    /// Identity of the coin staked and rewarded under the agreement.
    pub mint_address: Address,
    /// The derived account with authority over all assets in the agreement.
    pub sla_authority: Address,
    /// The identity used as the seed for deriving the authority; typically
    /// the agreement's own identity.
    pub authority_seed: Address,
    /// The nonce that, together with the seed, re-derives the authority.
    pub authority_bump_seed: [u8; 1],
}

impl Sla {
    /// Control of the derived signing authority is proven structurally, not
    /// cryptographically: an operation is authorized exactly when the
    /// authority it presents is the agreement's own.
    pub fn authorize_as_signer(&self, authority: &Address) -> (r: bool)
        ensures
            r == authority.eq_spec(self.sla_authority),
    {
        authority.addr_eq(&self.sla_authority)
    }
}

/// Constructs an agreement from its parts.  Construction is total: the
/// objective's comparison kind is always one of the six defined kinds, so no
/// validation can fail here.
pub fn deploy_sla(
    ipfs_hash: String,
    messenger_address: Address,
    slo: Slo,
    leverage: u64,
    mint_address: Address,
    sla_identity: Address,
    sla_authority: Address,
    authority_bump_seed: u8,
) -> (r: Sla)
    ensures
        r.messenger_address == messenger_address,
        r.slo == slo,
        r.leverage == leverage,
        r.ipfs_hash == ipfs_hash,
        r.mint_address == mint_address,
        r.sla_authority == sla_authority,
        r.authority_seed == sla_identity,
        r.authority_bump_seed@.len() == 1 && r.authority_bump_seed@[0] == authority_bump_seed,
{
    Sla {
        messenger_address,
        slo,
        leverage,
        ipfs_hash,
        mint_address,
        sla_authority,
        authority_seed: sla_identity,
        authority_bump_seed: [authority_bump_seed],
    }
}

} // verus!
