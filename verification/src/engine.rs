//! The boundary to the bytecode engine.
//!
//! The library assembles a fully specified invocation — stack, code,
//! data, context, gas, behaviour modifiers, libraries — through the
//! builder wrappers here, runs it once, and gets back a
//! [`RawVmOutcome`] of plain values.  Everything the engine itself does
//! is outside the library; what is made of its outcome is verified in
//! the callers.

use vstd::prelude::*;

use tycho_types::cell::Cell;
use tycho_types::cell::HashBytes;
use tycho_types::dict::Dict;
use tycho_types::models::SimpleLib;
use tycho_vm::Stack;
use tycho_vm::VmStateBuilder;

use crate::context::BuiltSmcInfo;
use crate::gas::GasValues;

verus! {

/// A VM state builder under assembly.
#[verifier::external_type_specification]
#[verifier::external_body]
pub struct ExVmStateBuilder<'a>(VmStateBuilder<'a>);

/// Behaviour modifiers for one engine run, as plain values.
#[derive(Clone, Copy, Debug, PartialEq, Eq, Structural)]
pub struct ModifiersPlan {
    /// Stop at the acceptance point instead of running to completion.
    pub stop_on_accept: bool,
    /// Treat every signature check as passed.
    pub chksig_always_succeed: bool,
    /// Apply signature domains to signed data.
    pub enable_signature_domains: bool,
    /// The global id mixed into signatures, where demanded.
    pub signature_with_id: Option<i32>,
    /// Which VM aspects to log (see [`crate::logbuf`]).
    pub log_mask_bits: u8,
}

/// The contract data and action list a run committed.
pub struct CommittedPair {
    /// Committed contract data (register c4).
    pub c4: Cell,
    /// Committed action list (register c5).
    pub c5: Cell,
}

/// What one engine run reported, as plain values.
pub struct RawVmOutcome {
    /// The value stack as the run left it.
    pub stack: Stack,
    /// The engine's raw result; the exit code is its bitwise negation.
    pub exit_code_raw: i32,
    /// Gas consumed by the run.
    pub gas_used: u64,
    /// Speculative credit left after the run; zero means the contract
    /// accepted.
    pub credit_remaining: u64,
    /// Data and actions committed by the run, if any.
    pub committed: Option<CommittedPair>,
    /// The library the run was missing, if it stopped for one.
    pub missing_library: Option<HashBytes>,
}

// === Trusted wrappers around the engine ===

/// Relies on `tycho_vm::VmState::builder`: a fresh all-default
/// builder.
#[verifier::external_body]
pub fn vmb_new<'a>() -> VmStateBuilder<'a> {
    tycho_vm::VmState::builder()
}

/// Relies on `VmStateBuilder::with_raw_stack`: installs the initial
/// value stack.
#[verifier::external_body]
pub fn vmb_stack<'a>(b: VmStateBuilder<'a>, stack: Stack) -> VmStateBuilder<'a> {
    b.with_raw_stack(tycho_vm::SafeRc::new(stack))
}

/// Relies on `VmStateBuilder::with_code`: installs the code cell.
#[verifier::external_body]
pub fn vmb_code<'a>(b: VmStateBuilder<'a>, code: &Cell) -> VmStateBuilder<'a> {
    b.with_code(code.clone())
}

/// Relies on `VmStateBuilder::with_data`: installs the data cell.
#[verifier::external_body]
pub fn vmb_data<'a>(b: VmStateBuilder<'a>, data: &Cell) -> VmStateBuilder<'a> {
    b.with_data(data.clone())
}

/// Relies on `VmStateBuilder::with_libraries`: installs the library
/// set; an absent set provides no libraries.
#[verifier::external_body]
pub fn vmb_libraries<'a>(
    b: VmStateBuilder<'a>,
    libraries: &'a Option<Dict<HashBytes, SimpleLib>>,
) -> VmStateBuilder<'a> {
    b.with_libraries(libraries)
}

/// Relies on `VmStateBuilder::with_gas`: installs the gas parameters,
/// copied field for field.
#[verifier::external_body]
pub fn vmb_gas<'a>(b: VmStateBuilder<'a>, gas: &GasValues) -> VmStateBuilder<'a> {
    b.with_gas(tycho_vm::GasParams {
        max: gas.max,
        limit: gas.limit,
        credit: gas.credit,
        price: gas.price,
    })
}

/// Relies on `VmStateBuilder::with_init_selector`: selects whether the
/// run starts through the code's selector (never, for an emulated
/// call).
#[verifier::external_body]
pub fn vmb_init_selector<'a>(b: VmStateBuilder<'a>, push0: bool) -> VmStateBuilder<'a> {
    b.with_init_selector(push0)
}

/// Relies on `VmStateBuilder::with_modifiers` and
/// `VmLogMask::from_bits_truncate`: installs the behaviour modifiers,
/// copied field for field.
#[verifier::external_body]
pub fn vmb_modifiers<'a>(b: VmStateBuilder<'a>, mods: &ModifiersPlan) -> VmStateBuilder<'a> {
    b.with_modifiers(tycho_vm::BehaviourModifiers {
        stop_on_accept: mods.stop_on_accept,
        chksig_always_succeed: mods.chksig_always_succeed,
        enable_signature_domains: mods.enable_signature_domains,
        signature_with_id: mods.signature_with_id,
        log_mask: tycho_vm::VmLogMask::from_bits_truncate(mods.log_mask_bits),
    })
}

/// Relies on `VmStateBuilder::with_smc_info`: installs the execution
/// context, whichever tier was built.
#[verifier::external_body]
pub fn vmb_smc_info<'a>(b: VmStateBuilder<'a>, info: BuiltSmcInfo) -> VmStateBuilder<'a> {
    match info {
        BuiltSmcInfo::Base(i) => b.with_smc_info(i),
        BuiltSmcInfo::V4(i) => b.with_smc_info(i),
        BuiltSmcInfo::V6(i) => b.with_smc_info(i),
        BuiltSmcInfo::V11(i) => b.with_smc_info(i),
        BuiltSmcInfo::Custom(i) => b.with_smc_info(i),
    }
}

/// Relies on `VmStateBuilder::with_debug`: directs the contract's
/// debug primitives into the given buffer.
#[verifier::external_body]
pub fn vmb_debug<'a>(b: VmStateBuilder<'a>, out: &'a mut String) -> VmStateBuilder<'a> {
    b.with_debug(out)
}

/// Relies on `VmStateBuilder::build`, `VmState::run` and the state's
/// gas and commit accessors: runs the assembled invocation once and
/// reports what the engine did, each outcome field read from its
/// accessor.  Of the credit nothing more is promised than its type
/// allows: it is never negative.
#[verifier::external_body]
pub fn vm_run(b: VmStateBuilder<'_>) -> RawVmOutcome {
    let mut vm = b.build();
    let exit_code_raw = vm.run();
    let committed = vm.committed_state.take();
    RawVmOutcome {
        stack: (*vm.stack).clone(),
        exit_code_raw,
        gas_used: vm.gas.consumed(),
        credit_remaining: vm.gas.credit(),
        committed: committed.map(|c| CommittedPair { c4: c.c4, c5: c.c5 }),
        missing_library: vm.gas.missing_library(),
    }
}

/// Relies on `Stack::items::push`, `SafeRc::new_dyn_value` and
/// `num_bigint::BigInt::from`: appends the method selector to the
/// stack as an integer value.
#[verifier::external_body]
pub fn stack_push_method_id(stack: Stack, method_id: i32) -> Stack {
    let mut stack = stack;
    stack.items.push(tycho_vm::SafeRc::new_dyn_value(num_bigint::BigInt::from(method_id)));
    stack
}

} // verus!
