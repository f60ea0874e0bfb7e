//! Gas policy: limits, credit and price for each invocation shape.
//!
//! Two call shapes exist.  A get-method call transfers no value and
//! runs on a fixed speculative credit with no hard limit beyond the
//! global maximum.  A message send converts the carried value into a
//! spendable limit at a fixed price; internal messages are already
//! funded and get no credit, external messages get credit only and
//! must accept before being charged.  An explicit caller-supplied
//! limit always overrides policy and disables credit.

use vstd::prelude::*;

verus! {

/// Global hard cap on gas for any emulated run.
pub const MAX_GAS: u64 = 1000000;

/// Fixed gas price: one thousand units, as a fixed-point number with
/// sixteen fractional bits.
pub const BASE_GAS_PRICE: u64 = 65536000;

/// Speculative credit granted to calls that must accept before being
/// charged.
pub const SPECULATIVE_CREDIT: u64 = 10000;

/// Price ratio converting a carried value into a gas limit.
pub const GAS_PER_VALUE_UNIT: u64 = 1000;

/// Gas parameters for one VM invocation.  `credit > 0` marks a
/// speculative pre-acceptance call.
#[derive(Clone, Copy, Debug, PartialEq, Eq, Structural)]
pub struct GasValues {
    /// Maximum possible value of `limit`.
    pub max: u64,
    /// Hard gas limit.
    pub limit: u64,
    /// Free speculative gas.
    pub credit: u64,
    /// Gas price.
    pub price: u64,
}

/// The product of a value amount and the gas ratio, saturated to the
/// integer's range.
pub open spec fn saturating_value_gas(amount: u64) -> u64 {
    if amount * GAS_PER_VALUE_UNIT > u64::MAX {
        u64::MAX
    } else {
        (amount * GAS_PER_VALUE_UNIT) as u64
    }
}

/// The policy default for a get-method call: speculative credit, no
/// hard limit, global maximum and fixed price.
pub open spec fn get_method_default_gas() -> GasValues {
    GasValues { max: MAX_GAS, limit: 0, credit: SPECULATIVE_CREDIT, price: BASE_GAS_PRICE }
}

/// Gas for a synthesized message send: an internal message converts its
/// carried amount into a spendable limit and gets no credit; an
/// external message gets no limit and the speculative credit.
pub fn gas_for_message(is_internal: bool, amount: u64) -> (r: GasValues)
    ensures
        r.max == MAX_GAS,
        r.price == BASE_GAS_PRICE,
        is_internal ==> r.limit == saturating_value_gas(amount) && r.credit == 0,
        !is_internal ==> r.limit == 0 && r.credit == SPECULATIVE_CREDIT,
{
    if is_internal {
        let limit: u64 = if amount > u64::MAX / GAS_PER_VALUE_UNIT {
            u64::MAX
        } else {
            amount * GAS_PER_VALUE_UNIT
        };
        GasValues { max: MAX_GAS, limit, credit: 0, price: BASE_GAS_PRICE }
    } else {
        GasValues { max: MAX_GAS, limit: 0, credit: SPECULATIVE_CREDIT, price: BASE_GAS_PRICE }
    }
}

/// Gas for an explicit caller-supplied limit: the limit is taken as
/// given and credit is disabled.
pub fn gas_for_explicit_limit(gas_limit: u64) -> (r: GasValues)
    ensures
        r == (GasValues { max: MAX_GAS, limit: gas_limit, credit: 0, price: BASE_GAS_PRICE }),
{
    GasValues { max: MAX_GAS, limit: gas_limit, credit: 0, price: BASE_GAS_PRICE }
}

/// Interprets a caller's raw gas limit: zero means "no override, apply
/// the policy default", anything else becomes an explicit override.
pub fn gas_override_for_limit(gas_limit: u64) -> (r: Option<GasValues>)
    ensures
        gas_limit == 0 ==> r is None,
        gas_limit > 0 ==> r == Some(
            GasValues { max: MAX_GAS, limit: gas_limit, credit: 0, price: BASE_GAS_PRICE },
        ),
{
    if gas_limit > 0 {
        Some(gas_for_explicit_limit(gas_limit))
    } else {
        None
    }
}

/// The gas a get-method run actually uses: the explicit override when
/// one is set, the policy default otherwise.
pub fn effective_get_method_gas(explicit: &Option<GasValues>) -> (r: GasValues)
    ensures
        explicit matches Some(g) ==> r == g,
        explicit is None ==> r == get_method_default_gas(),
{
    match explicit {
        Some(g) => *g,
        None => GasValues {
            max: MAX_GAS,
            limit: 0,
            credit: SPECULATIVE_CREDIT,
            price: BASE_GAS_PRICE,
        },
    }
}

/// Acceptance: the VM signalled its willingness to pay by driving its
/// granted credit to zero.
pub open spec fn accepted_of_credit(credit_after: u64) -> bool {
    credit_after == 0
}

/// Acceptance monotonicity for a speculative call: the credit left
/// after a run is never negative; a run is accepted exactly when it
/// consumed its credit in full, and leftover credit means the call was
/// not accepted.  What an unaccepted run may not do — commit data or
/// actions — is stated by the outcome classifier's contract.
pub proof fn lemma_acceptance_monotonic(credit_after: u64)
    ensures
        credit_after >= 0,
        accepted_of_credit(credit_after) <==> credit_after == 0,
        credit_after > 0 ==> !accepted_of_credit(credit_after),
{
}

} // verus!
