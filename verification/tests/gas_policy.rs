use tvm_emu::gas::{
    effective_get_method_gas, gas_for_explicit_limit, gas_for_message, gas_override_for_limit,
    GasValues, BASE_GAS_PRICE, MAX_GAS, SPECULATIVE_CREDIT,
};

#[test]
fn get_method_zero_limit_applies_policy_default() {
    // A zero gas limit with no override means "apply policy", which
    // grants the speculative credit with no hard limit.
    let explicit = gas_override_for_limit(0);
    assert!(explicit.is_none());
    let gas = effective_get_method_gas(&explicit);
    assert_eq!(gas.credit, 10000);
    assert_eq!(gas.limit, 0);
    assert_eq!(gas.max, 1000000);
    assert_eq!(gas.price, 1000 << 16);
}

#[test]
fn explicit_limit_overrides_policy_and_disables_credit() {
    let explicit = gas_override_for_limit(5000);
    assert_eq!(
        explicit,
        Some(GasValues { max: MAX_GAS, limit: 5000, credit: 0, price: BASE_GAS_PRICE })
    );
    let gas = effective_get_method_gas(&explicit);
    assert_eq!(gas.limit, 5000);
    assert_eq!(gas.credit, 0);
}

#[test]
fn set_gas_limit_values() {
    let gas = gas_for_explicit_limit(777);
    assert_eq!(gas, GasValues { max: 1000000, limit: 777, credit: 0, price: 65536000 });
}

#[test]
fn internal_send_converts_value_to_limit() {
    let gas = gas_for_message(true, 7);
    assert_eq!(gas.limit, 7000);
    assert_eq!(gas.credit, 0);
    assert_eq!(gas.max, MAX_GAS);
}

#[test]
fn internal_send_limit_saturates() {
    let gas = gas_for_message(true, u64::MAX / 2);
    assert_eq!(gas.limit, u64::MAX);
    assert_eq!(gas.credit, 0);
}

#[test]
fn external_send_runs_on_speculative_credit_only() {
    let gas = gas_for_message(false, 123456);
    assert_eq!(gas.limit, 0);
    assert_eq!(gas.credit, SPECULATIVE_CREDIT);
    assert_eq!(gas.max, MAX_GAS);
}
