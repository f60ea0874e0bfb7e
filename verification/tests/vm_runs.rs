use tycho_types::cell::{Cell, CellBuilder, CellFamily, HashBytes};
use tycho_vm::SmcInfo;
use tycho_vm::StackValue;
use tycho_types::dict::Dict;
use tycho_types::models::{GlobalCapabilities, GlobalVersion, StdAddr, StoragePrices};
use tycho_types::models::BlockchainConfigParams;

use tvm_emu::config::ParsedConfig;
use tvm_emu::context::{build_smc_info, unpack_config_view, BuiltSmcInfo, Tier};
use tvm_emu::engine::{CommittedPair, RawVmOutcome};
use tvm_emu::tvm::{classify_vm_outcome, TvmEmulator};

fn empty_cell() -> Cell {
    CellBuilder::new().build().unwrap()
}

fn data_cell(tag: u32) -> Cell {
    let mut b = CellBuilder::new();
    b.store_u32(tag).unwrap();
    b.build().unwrap()
}

fn test_config(version: u32) -> ParsedConfig {
    let mut dict = Dict::<u32, Cell>::new();
    let global = GlobalVersion { version, capabilities: GlobalCapabilities::new(0) };
    dict.set(8, CellBuilder::build_from(global).unwrap()).unwrap();
    let mut params = BlockchainConfigParams::from_raw(dict.into_root().unwrap());
    params
        .set_storage_prices(&[StoragePrices {
            utime_since: 0,
            bit_price_ps: 1,
            cell_price_ps: 500,
            mc_bit_price_ps: 1000,
            mc_cell_price_ps: 500000,
        }])
        .unwrap();
    ParsedConfig::try_from_root(params.as_dict().root().clone().unwrap()).unwrap()
}

#[test]
fn context_tier_base_without_config() {
    let (info, plan) = build_smc_info(
        &Some(100),
        &None,
        5,
        &Default::default(),
        &None,
        &None,
        &None,
        None,
        empty_cell(),
    );
    assert_eq!(plan.tier, Tier::Base);
    assert_eq!(plan.version, 1);
    assert_eq!(plan.now, 100);
    assert_eq!(plan.balance, 5);
    assert!(!plan.includes_code);
    assert!(matches!(info, BuiltSmcInfo::Base(_)));
}

#[test]
fn context_tiers_follow_declared_version() {
    for (version, tier) in
        [(0, Tier::Base), (3, Tier::Base), (4, Tier::V4), (5, Tier::V4), (6, Tier::V6),
            (9, Tier::V6), (10, Tier::V6), (11, Tier::V11), (12, Tier::V11)]
    {
        let config = Some(test_config(version));
        let unpacked = unpack_config_view(&config, &None);
        let (info, plan) = build_smc_info(
            &None,
            &None,
            0,
            &Default::default(),
            &None,
            &config,
            &None,
            unpacked,
            empty_cell(),
        );
        assert_eq!(plan.version, version);
        assert_eq!(plan.tier, tier, "version {version}");
        match tier {
            Tier::Base => assert!(matches!(info, BuiltSmcInfo::Base(_))),
            Tier::V4 => assert!(matches!(info, BuiltSmcInfo::V4(_))),
            Tier::V6 => assert!(matches!(info, BuiltSmcInfo::V6(_))),
            Tier::V11 => assert!(matches!(info, BuiltSmcInfo::V11(_))),
        }
    }
}

#[test]
fn context_fields_grow_additively() {
    // The code slot is filled from tier 4 on; the unpacked
    // configuration view appears from tier 6 on.
    let config4 = Some(test_config(4));
    let unpacked = unpack_config_view(&config4, &Some(1000));
    assert!(unpacked.is_none(), "below version 6 no view is unpacked");
    let (info, plan) = build_smc_info(
        &Some(1000),
        &None,
        0,
        &Default::default(),
        &None,
        &config4,
        &None,
        unpacked,
        data_cell(1),
    );
    assert!(plan.includes_code);
    assert!(!plan.includes_unpacked_config);
    match info {
        BuiltSmcInfo::V4(v4) => {
            assert_eq!(v4.code, Some(data_cell(1)));
            assert_eq!(v4.base.now, 1000);
        }
        other => panic!("expected the version-4 tier, got another ({})", tier_name(&other)),
    }

    let config11 = Some(test_config(11));
    let unpacked = unpack_config_view(&config11, &Some(1000));
    assert!(unpacked.is_some(), "from version 6 on the view is unpacked");
    let (info, plan) = build_smc_info(
        &Some(1000),
        &None,
        0,
        &Default::default(),
        &None,
        &config11,
        &None,
        unpacked,
        data_cell(1),
    );
    assert!(plan.includes_code);
    assert!(plan.includes_unpacked_config);
    match info {
        BuiltSmcInfo::V11(v11) => {
            assert_eq!(v11.base.base.code, Some(data_cell(1)));
            assert!(v11.base.unpacked_config.is_some());
            assert!(v11.in_msg.is_none());
        }
        other => panic!("expected the version-11 tier, got another ({})", tier_name(&other)),
    }
}

fn tier_name(info: &BuiltSmcInfo) -> &'static str {
    match info {
        BuiltSmcInfo::Base(_) => "base",
        BuiltSmcInfo::V4(_) => "v4",
        BuiltSmcInfo::V6(_) => "v6",
        BuiltSmcInfo::V11(_) => "v11",
        BuiltSmcInfo::Custom(_) => "custom",
    }
}

#[test]
fn classify_acceptance_follows_credit() {
    let code = data_cell(10);
    let data = data_cell(20);
    let raw = RawVmOutcome {
        stack: tycho_vm::Stack::default(),
        exit_code_raw: -1,
        gas_used: 500,
        credit_remaining: 0,
        committed: None,
        missing_library: None,
    };
    let ans = classify_vm_outcome(raw, code.clone(), data.clone(), String::new());
    assert!(ans.accepted);
    assert_eq!(ans.exit_code, 0);
    assert_eq!(ans.gas_used, 500);
    assert_eq!(ans.data, data);
    assert!(ans.actions.is_none());

    let raw = RawVmOutcome {
        stack: tycho_vm::Stack::default(),
        exit_code_raw: -1,
        gas_used: 9999,
        credit_remaining: 1,
        committed: Some(CommittedPair { c4: data_cell(30), c5: data_cell(40) }),
        missing_library: None,
    };
    let ans = classify_vm_outcome(raw, code.clone(), data.clone(), String::new());
    // Leftover credit: not accepted, so committed output is discarded.
    assert!(!ans.accepted);
    assert_eq!(ans.data, data);
    assert!(ans.actions.is_none());

    let raw = RawVmOutcome {
        stack: tycho_vm::Stack::default(),
        exit_code_raw: !5,
        gas_used: 800,
        credit_remaining: 0,
        committed: Some(CommittedPair { c4: data_cell(30), c5: data_cell(40) }),
        missing_library: None,
    };
    let ans = classify_vm_outcome(raw, code, data, String::new());
    assert!(ans.accepted);
    assert_eq!(ans.exit_code, 5);
    assert_eq!(ans.data, data_cell(30));
    assert_eq!(ans.actions, Some(data_cell(40)));
}

#[test]
fn get_method_repeated_calls_are_identical() {
    // An implicit return on empty code: the run is deterministic, so
    // two identical calls report identical stack, gas and exit code.
    let emulator = TvmEmulator::new(empty_cell(), data_cell(1), 0);
    let first = emulator.run_get_method(0, tycho_vm::Stack::default());
    let second = emulator.run_get_method(0, tycho_vm::Stack::default());
    assert_eq!(first.exit_code, second.exit_code);
    assert_eq!(first.gas_used, second.gas_used);
    assert_eq!(first.accepted, second.accepted);
    assert_eq!(
        CellBuilder::build_from(&first.stack).unwrap(),
        CellBuilder::build_from(&second.stack).unwrap()
    );
}

#[test]
fn get_method_without_acceptance_keeps_handle_state() {
    let code = empty_cell();
    let data = data_cell(2);
    let mut emulator = TvmEmulator::new(code.clone(), data.clone(), 0);
    // The speculative default credit is never consumed by empty code,
    // so nothing is accepted and nothing is persisted.
    let ans = emulator.send_external_message(data_cell(3)).unwrap();
    assert!(!ans.accepted);
    assert_eq!(emulator.code, code);
    assert_eq!(emulator.data, data);
    // The gas override state is restored after the send.
    assert!(emulator.args.gas_params.is_none());
}

#[test]
fn set_c7_keeps_config_when_none_given() {
    let mut emulator = TvmEmulator::new(empty_cell(), empty_cell(), 0);
    let config = test_config(9);
    emulator.set_c7(StdAddr::new(0, HashBytes([1; 32])), 11, 22, &HashBytes([2; 32]), Some(config));
    assert_eq!(emulator.args.now, Some(11));
    assert_eq!(emulator.args.balance, 22);
    assert!(emulator.args.config.is_some());

    emulator.set_c7(StdAddr::new(0, HashBytes([3; 32])), 33, 44, &HashBytes([4; 32]), None);
    assert_eq!(emulator.args.now, Some(33));
    assert!(emulator.args.config.is_some(), "an absent configuration keeps the previous one");
    assert_eq!(emulator.args.address, Some(StdAddr::new(0, HashBytes([3; 32]))));
}

#[test]
fn explicit_gas_limit_is_stored() {
    let mut emulator = TvmEmulator::new(empty_cell(), empty_cell(), 0);
    emulator.set_gas_limit(4242);
    let gas = emulator.args.gas_params.unwrap();
    assert_eq!(gas.limit, 4242);
    assert_eq!(gas.credit, 0);
    assert_eq!(gas.max, 1000000);
}

#[test]
fn accepting_code_consumes_its_credit() {
    // A code cell holding the single acceptance instruction: the run
    // drives its speculative credit to zero, so the call is accepted.
    let mut b = CellBuilder::new();
    b.store_u16(0xf800).unwrap();
    let code = b.build().unwrap();

    let mut emulator = TvmEmulator::new(code.clone(), data_cell(7), 0);
    let ans = emulator.send_external_message(data_cell(8)).unwrap();
    assert!(ans.accepted, "exit code {}", ans.exit_code);
    assert!(ans.gas_used > 0);
    // Acceptance without committed output still leaves the handle's
    // data untouched.
    assert_eq!(emulator.data, data_cell(7));
    assert_eq!(emulator.code, code);
}

#[test]
fn raw_context_bypasses_tiering() {
    // A register context built directly, as a caller would supply it.
    let smc = tycho_vm::SmcInfoBase::new()
        .with_now(123)
        .with_block_lt(0)
        .with_tx_lt(0)
        .with_account_addr(StdAddr::new(0, HashBytes([1; 32])).into())
        .build_c7();
    let c7_stack = tycho_vm::Stack { items: vec![tycho_vm::SafeRc::into_dyn_value(smc)] };
    let c7_cell = CellBuilder::build_from(c7_stack).unwrap();

    let mut emulator = TvmEmulator::new(empty_cell(), empty_cell(), 0);
    emulator.set_raw_context_from_stack(&c7_cell).unwrap();
    assert!(emulator.args.raw_c7.is_some());
    let ans = emulator.run_get_method(0, tycho_vm::Stack::default());
    assert!(!ans.accepted);

    // A stack whose first slot holds no tuple is rejected and changes
    // nothing.
    let bad_stack = tycho_vm::Stack {
        items: vec![tycho_vm::RcStackValue::new_dyn_value(num_bigint::BigInt::from(1))],
    };
    let bad_cell = CellBuilder::build_from(bad_stack).unwrap();
    assert!(emulator.set_raw_context_from_stack(&bad_cell).is_err());
}

#[test]
fn internal_send_gas_comes_from_carried_amount() {
    // The acceptance instruction costs gas.  An internal send runs on
    // a limit converted from its carried amount alone: with no amount
    // the run starves, with a funded amount it completes normally.
    let mut b = CellBuilder::new();
    b.store_u16(0xf800).unwrap();
    let code = b.build().unwrap();

    let mut emulator = TvmEmulator::new(code.clone(), data_cell(7), 0);
    let starved = emulator.send_internal_message(data_cell(8), 0).unwrap();
    let funded = emulator.send_internal_message(data_cell(8), 1).unwrap();
    assert_ne!(starved.exit_code, 0, "a zero amount leaves no gas to run on");
    assert_eq!(funded.exit_code, 0, "one value unit funds a thousand gas units");
    assert!(funded.gas_used > 0);
}

#[test]
fn tvm_prev_blocks_install_and_clear() {
    let mut emulator = TvmEmulator::new(empty_cell(), empty_cell(), 0);
    assert!(emulator.set_prev_blocks_info(None).is_ok());
    assert!(emulator.args.prev_blocks_info.is_none());

    // A decoded tuple is installed in the slot.
    let tuple: tycho_vm::Tuple =
        vec![tycho_vm::RcStackValue::new_dyn_value(num_bigint::BigInt::from(1))];
    let mut b = CellBuilder::new();
    tuple.store_as_stack_value(&mut b, Cell::empty_context()).unwrap();
    let tuple_cell = b.build().unwrap();
    assert!(emulator.set_prev_blocks_info(Some(tuple_cell)).is_ok());
    assert!(emulator.args.prev_blocks_info.is_some());

    // The decoded null value clears it again.
    let mut b = CellBuilder::new();
    tycho_vm::Stack::make_null().as_ref().store_as_stack_value(&mut b, Cell::empty_context()).unwrap();
    let null_cell = b.build().unwrap();
    assert!(emulator.set_prev_blocks_info(Some(null_cell)).is_ok());
    assert!(emulator.args.prev_blocks_info.is_none());
}
