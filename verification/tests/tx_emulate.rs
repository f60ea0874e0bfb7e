use tycho_types::cell::{Cell, CellBuilder, CellFamily, HashBytes};
use tycho_vm::StackValue;
use tycho_types::dict::Dict;
use tycho_types::models::{
    GasLimitsPrices, GlobalCapabilities, GlobalVersion, MsgForwardPrices, OptionalAccount,
    StdAddr, StoragePrices, WorkchainDescription, WorkchainFormat, WorkchainFormatBasic,
};
use tycho_types::models::{BlockchainConfigParams, ShardAccount};
use tycho_types::cell::Lazy;

use tvm_emu::config::ConfigError;
use tvm_emu::errors::InputError;
use tvm_emu::tx::{
    classify_tx_outcome, resolve_address, validate_input_shape, AddrShape, ExecOutcome,
    MsgSummary, TxEmulator, TxInput, TxOutcome,
};

fn addr(tag: u8) -> StdAddr {
    StdAddr::new(0, HashBytes([tag; 32]))
}

#[test]
fn account_state_address_always_wins() {
    // An account with existing state resolves to its own address,
    // whatever destination the message states.
    let own = addr(1);
    let stated = addr(2);
    let resolved = resolve_address(
        &Some(AddrShape::Std(own.clone())),
        &Some(MsgSummary::Int { dst: AddrShape::Std(stated) }),
    );
    assert_eq!(resolved, Ok(own));
}

#[test]
fn message_destination_decides_only_without_state() {
    let stated = addr(2);
    let resolved =
        resolve_address(&None, &Some(MsgSummary::ExtIn { dst: AddrShape::Std(stated.clone()) }));
    assert_eq!(resolved, Ok(stated));
}

#[test]
fn var_addr_is_always_fatal() {
    assert_eq!(
        resolve_address(&Some(AddrShape::Var), &None),
        Err(InputError::VarAddrUnsupported)
    );
    assert_eq!(
        resolve_address(&None, &Some(MsgSummary::Int { dst: AddrShape::Var })),
        Err(InputError::VarAddrUnsupported)
    );
}

#[test]
fn outbound_message_is_rejected() {
    assert_eq!(
        resolve_address(&None, &Some(MsgSummary::ExtOut)),
        Err(InputError::OnlyInboundAccepted)
    );
}

#[test]
fn tick_tock_on_account_none_is_fatal() {
    let err = resolve_address(&None, &None).unwrap_err();
    assert_eq!(err, InputError::TickTockOnEmptyAccount);
    assert!(err.message().contains("account_none"));
}

#[test]
fn skipped_external_is_not_accepted_with_exit_code() {
    let out = classify_tx_outcome(ExecOutcome::Skipped { exit_code: Some(-13) }, true);
    assert!(matches!(out, TxOutcome::NotAccepted { exit_code: -13 }));
    let out = classify_tx_outcome(ExecOutcome::Skipped { exit_code: None }, true);
    assert!(matches!(out, TxOutcome::NotAccepted { exit_code: 0 }));
}

#[test]
fn skipped_non_external_is_fatal() {
    // An internal message or a trigger is never silently dropped.
    let out = classify_tx_outcome(ExecOutcome::Skipped { exit_code: Some(0) }, false);
    assert!(matches!(out, TxOutcome::Fatal { .. }));
}

#[test]
fn fatal_outcome_stays_fatal() {
    let out = classify_tx_outcome(ExecOutcome::Fatal { message: "boom".to_string() }, true);
    match out {
        TxOutcome::Fatal { message } => assert_eq!(message, "boom"),
        other => panic!("expected a fatal outcome, got {}", outcome_name(&other)),
    }
}

fn outcome_name(out: &TxOutcome) -> &'static str {
    match out {
        TxOutcome::Success { .. } => "success",
        TxOutcome::NotAccepted { .. } => "not accepted",
        TxOutcome::Fatal { .. } => "fatal",
    }
}

fn params_without_address() -> BlockchainConfigParams {
    let mut dict = Dict::<u32, Cell>::new();
    let global = GlobalVersion { version: 11, capabilities: GlobalCapabilities::new(0) };
    dict.set(8, CellBuilder::build_from(global).unwrap()).unwrap();
    let mut params = BlockchainConfigParams::from_raw(dict.into_root().unwrap());
    params
        .set_storage_prices(&[StoragePrices {
            utime_since: 0,
            bit_price_ps: 1,
            cell_price_ps: 500,
            mc_bit_price_ps: 1000,
            mc_cell_price_ps: 500000,
        }])
        .unwrap();
    let gas = GasLimitsPrices {
        gas_price: 65536000,
        gas_limit: 1000000,
        special_gas_limit: 100000000,
        gas_credit: 10000,
        block_gas_limit: 10000000,
        freeze_due_limit: 100000000,
        delete_due_limit: 1000000000,
        flat_gas_limit: 100,
        flat_gas_price: 1000000,
    };
    params.set_gas_prices(true, &gas).unwrap();
    params.set_gas_prices(false, &gas).unwrap();
    let fwd = MsgForwardPrices {
        lump_price: 400000,
        bit_price: 26214400,
        cell_price: 2621440000,
        ihr_price_factor: 98304,
        first_frac: 21845,
        next_frac: 21845,
    };
    params.set_msg_forward_prices(true, &fwd).unwrap();
    params.set_msg_forward_prices(false, &fwd).unwrap();
    let mut workchains = Dict::<i32, WorkchainDescription>::new();
    workchains
        .set(0, WorkchainDescription {
            enabled_since: 0,
            actual_min_split: 0,
            min_split: 0,
            max_split: 0,
            active: true,
            accept_msgs: true,
            zerostate_root_hash: HashBytes::ZERO,
            zerostate_file_hash: HashBytes::ZERO,
            version: 0,
            format: WorkchainFormat::Basic(WorkchainFormatBasic { vm_mode: 0, vm_version: 0 }),
        })
        .unwrap();
    params.set_workchains(&workchains).unwrap();
    params.set_fundamental_addresses(&[]).unwrap();
    params
}

fn full_params() -> BlockchainConfigParams {
    let mut params = params_without_address();
    params.set_raw(0, CellBuilder::build_from(HashBytes([0x55; 32])).unwrap()).unwrap();
    params
}

fn empty_account() -> ShardAccount {
    ShardAccount {
        account: Lazy::new(&OptionalAccount(None)).unwrap(),
        last_trans_hash: HashBytes::ZERO,
        last_trans_lt: 0,
    }
}

#[test]
fn missing_config_address_is_rejected() {
    let err = match TxEmulator::new(params_without_address(), 0) {
        Err(e) => e,
        Ok(_) => panic!("a configuration without parameter 0 must be rejected"),
    };
    assert_eq!(err, ConfigError::NoConfigAddress);
}

#[test]
fn handle_starts_with_documented_defaults() {
    let emulator = TxEmulator::new(full_params(), 0).unwrap();
    assert_eq!(emulator.block_unixtime, 0);
    assert_eq!(emulator.lt, 0);
    assert!(emulator.libraries.is_none());
    assert!(emulator.prev_blocks_info.is_none());
    assert!(!emulator.debug_enabled);
    assert!(!emulator.vm_modifiers.chksig_always_succeed);
    assert_eq!(emulator.rand_seed, HashBytes::ZERO);
}

#[test]
fn tick_tock_on_empty_account_fails_before_running() {
    let mut emulator = TxEmulator::new(full_params(), 0).unwrap();
    emulator.set_unixtime(1700000000);
    let err = match emulator.emulate(&empty_account(), TxInput::TickTock { is_tock: false }) {
        Err(e) => e,
        Ok(_) => panic!("a trigger on a nonexistent account must be rejected"),
    };
    assert_eq!(err, InputError::TickTockOnEmptyAccount);
    assert!(err.message().contains("account_none"));
}

#[test]
fn internal_value_transfer_creates_account_state() {
    // An internal message carrying value to a previously empty account
    // whose address resolves via the message: the transaction commits
    // and the account exists afterwards.
    let mut emulator = TxEmulator::new(full_params(), 0).unwrap();
    emulator.set_unixtime(1700000000);
    emulator.set_lt(1000000);

    // A non-bounceable transfer: a bounceable one to an empty account
    // would return the value to its sender instead.
    let destination = addr(9);
    let info = tycho_types::models::MsgInfo::Int(tycho_types::models::IntMsgInfo {
        ihr_disabled: true,
        bounce: false,
        bounced: false,
        src: tycho_types::models::IntAddr::Std(StdAddr::new(-1, HashBytes::ZERO)),
        dst: tycho_types::models::IntAddr::Std(destination.clone()),
        value: tycho_types::models::CurrencyCollection::new(5_000_000_000),
        extra_flags: Default::default(),
        fwd_fee: tycho_types::num::Tokens::ZERO,
        created_lt: 0,
        created_at: 0,
    });
    let body = CellBuilder::new().build().unwrap();
    let msg = CellBuilder::build_from(tycho_types::models::OwnedMessage {
        info,
        init: None,
        body: body.into(),
        layout: None,
    })
    .unwrap();

    let answer = emulator.emulate(&empty_account(), TxInput::Ordinary(msg)).unwrap();
    match answer.outcome {
        TxOutcome::Success { new_state, transaction, .. } => {
            let account = new_state.load_account().unwrap();
            let account = account.expect("the account must exist after receiving value");
            assert!(account.balance.tokens.into_inner() > 0);
            assert!(transaction.bit_len() > 0);
        }
        other => panic!("expected a committed transaction, got {}", outcome_name(&other)),
    }
}

#[test]
fn external_message_to_empty_account_is_not_accepted() {
    // No contract state can accept the external message, so the
    // executor skips it and the outcome is the expected "not accepted"
    // terminal state, not an error.
    let mut emulator = TxEmulator::new(full_params(), 0).unwrap();
    emulator.set_unixtime(1700000000);

    let destination = addr(9);
    let body = CellBuilder::new().build().unwrap();
    let plan = tvm_emu::message::synthesize_external_message(&destination, body);
    let msg = tvm_emu::message::encode_external_message(&plan).unwrap();

    let answer = emulator.emulate(&empty_account(), TxInput::Ordinary(msg)).unwrap();
    assert!(matches!(answer.outcome, TxOutcome::NotAccepted { .. }));
}

#[test]
fn libraries_reset_when_set_to_absent() {
    // Setting libraries to absent resets to the empty set rather than
    // keeping the previous one.
    let mut emulator = TxEmulator::new(full_params(), 0).unwrap();
    let libs_root = CellBuilder::build_from(42u64).unwrap();
    emulator.set_libraries(Some(libs_root));
    assert!(emulator.libraries.is_some());
    emulator.set_libraries(None);
    assert!(emulator.libraries.is_none());
}

fn stack_value_cell(value: &dyn StackValue) -> Cell {
    let mut b = CellBuilder::new();
    value.store_as_stack_value(&mut b, Cell::empty_context()).unwrap();
    b.build().unwrap()
}

#[test]
fn prev_blocks_info_accepts_null_and_rejects_non_tuples() {
    let mut emulator = TxEmulator::new(full_params(), 0).unwrap();

    // An absent cell changes nothing.
    assert!(emulator.set_prev_blocks_info(None).is_ok());
    assert!(emulator.prev_blocks_info.is_none());

    // A cell that decodes to a tuple installs it.
    let tuple: tycho_vm::Tuple =
        vec![tycho_vm::RcStackValue::new_dyn_value(num_bigint::BigInt::from(7))];
    let tuple_cell = stack_value_cell(&tuple);
    assert!(emulator.set_prev_blocks_info(Some(tuple_cell)).is_ok());
    assert!(emulator.prev_blocks_info.is_some());

    // A cell that holds neither a tuple nor null is rejected, keeping
    // the installed value.
    let not_a_value = CellBuilder::build_from(3u8).unwrap();
    let err = emulator.set_prev_blocks_info(Some(not_a_value)).unwrap_err();
    assert_eq!(err, InputError::PrevBlocksNotATuple);
    assert!(emulator.prev_blocks_info.is_some());

    // A cell that decodes to the null value clears it.
    let null_cell = stack_value_cell(tycho_vm::Stack::make_null().as_ref());
    assert!(emulator.set_prev_blocks_info(Some(null_cell)).is_ok());
    assert!(emulator.prev_blocks_info.is_none());
}

#[test]
fn set_config_preserves_mutable_state() {
    let mut emulator = TxEmulator::new(full_params(), 0).unwrap();
    emulator.set_unixtime(123);
    emulator.set_lt(456);
    emulator.set_debug_enabled(true);
    emulator.set_ignore_chksig(true);

    let config =
        tvm_emu::config::ParsedConfig::try_from_root(
            full_params().as_dict().root().clone().unwrap(),
        )
        .unwrap();
    emulator.set_config(&config).unwrap();

    assert_eq!(emulator.block_unixtime, 123);
    assert_eq!(emulator.lt, 456);
    assert!(emulator.debug_enabled);
    assert!(emulator.vm_modifiers.chksig_always_succeed);
}

#[test]
fn input_shape_consistency() {
    // A closing trigger without the trigger flag is inconsistent.
    assert_eq!(
        validate_input_shape(false, false, true),
        Err(InputError::InconsistentTickTockFlags)
    );
    // A trigger call carries no inbound message.
    assert_eq!(validate_input_shape(true, true, false), Err(InputError::MessageWithTickTock));
    // An ordinary transaction demands a message.
    assert_eq!(validate_input_shape(false, false, false), Err(InputError::MessageRequired));
    // Both well-formed shapes pass.
    assert_eq!(validate_input_shape(true, false, false), Ok(()));
    assert_eq!(validate_input_shape(false, true, true), Ok(()));
}

#[test]
fn executor_plan_fixes_behaviour_switches() {
    let mut emulator = TxEmulator::new(full_params(), 3).unwrap();
    emulator.set_lt(777);
    let plan = emulator.make_params(1700000001);
    assert_eq!(plan.block_unixtime, 1700000001);
    assert_eq!(plan.block_lt, 777);
    assert!(plan.disable_delete_frozen_accounts);
    assert!(plan.charge_action_fees_on_fail);
    assert!(plan.full_body_in_bounced);
    assert!(plan.strict_extra_currency);
    assert!(plan.authority_marks_enabled);
    assert_eq!(plan.modifiers, emulator.vm_modifiers);
}

#[test]
fn input_error_messages() {
    assert_eq!(
        InputError::InconsistentTickTockFlags.message(),
        "Inconsistent parameters is_tick_tock=false, is_tock=true"
    );
    assert_eq!(
        InputError::MessageRequired.message(),
        "Inbound message is required for ordinary transactions"
    );
    assert_eq!(
        InputError::OnlyInboundAccepted.message(),
        "Only internal and external inbound messages are accepted"
    );
    assert_eq!(InputError::VarAddrUnsupported.message(), "var_addr is not supported");
}
