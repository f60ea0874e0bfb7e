//! The bytecode-level emulation handle.
//!
//! A [`TvmEmulator`] holds the contract's current code and data plus
//! the mutable per-call arguments.  A get-method call runs the engine
//! once against a context built from those arguments; a message send
//! synthesizes the inbound envelope and stack first, then runs the same
//! way and persists committed code and data back into the handle.  Only
//! an accepted run with committed output updates the handle's data;
//! everything else leaves it untouched.

use vstd::prelude::*;

use tycho_types::cell::Cell;
use tycho_types::cell::HashBytes;
use tycho_types::dict::Dict;
use tycho_types::models::SimpleLib;
use tycho_types::models::StdAddr;
use tycho_vm::Stack;

use crate::config::ParsedConfig;
use crate::errors::InputError;
use crate::context::build_smc_info;
use crate::context::raw_context_info;
use crate::context::unpack_config_view;
use crate::engine::ModifiersPlan;
use crate::engine::RawVmOutcome;
use crate::engine::stack_push_method_id;
use crate::engine::vm_run;
use crate::engine::vmb_code;
use crate::engine::vmb_debug;
use crate::engine::vmb_data;
use crate::engine::vmb_gas;
use crate::engine::vmb_init_selector;
use crate::engine::vmb_libraries;
use crate::engine::vmb_modifiers;
use crate::engine::vmb_new;
use crate::engine::vmb_smc_info;
use crate::engine::vmb_stack;
use crate::gas::GasValues;
use crate::gas::accepted_of_credit;
use crate::gas::effective_get_method_gas;
use crate::gas::gas_for_explicit_limit;
use crate::gas::gas_for_message;
use crate::interop::VmTuple;
use crate::interop::clone_cell;
use crate::interop::parse_raw_context_stack;
use crate::interop::parse_tuple_cell;
use crate::interop::clone_std_addr;
use crate::interop::copy_hash;
use crate::interop::std_addr_zero;
use crate::logbuf::log_mask_spec;
use crate::logbuf::make_vm_log_mask;
use crate::message::build_message_stack;
use crate::message::encode_external_message;
use crate::message::encode_internal_message;
use crate::message::make_message_stack;
use crate::message::synthesize_external_message;
use crate::message::synthesize_internal_message;

verus! {

/// Mutable per-call arguments of a [`TvmEmulator`]; setters apply
/// immediately and affect only the next call.
pub struct Args {
    /// Explicit gas override; absent means "apply policy".
    pub gas_params: Option<GasValues>,
    /// Raw register context overriding tiering entirely.
    pub raw_c7: Option<VmTuple>,
    /// Unix time for the context.
    pub now: Option<u32>,
    /// Random seed for the context.
    pub rand_seed: Option<HashBytes>,
    /// Treat every signature check as passed.
    pub ignore_chksig: bool,
    /// Account balance for the context and the message stack.
    pub balance: u64,
    /// Extra currencies held beside the native balance.
    pub extra: tycho_types::models::ExtraCurrencyCollection,
    /// Verbosity level driving the log mask and capacity.
    pub verbosity: i32,
    /// Whether the contract's debug primitives are collected.
    pub debug_enabled: bool,
    /// The account's address.
    pub address: Option<StdAddr>,
    /// The validated configuration.
    pub config: Option<ParsedConfig>,
    /// Contract libraries visible to the run.
    pub libraries: Option<Dict<HashBytes, SimpleLib>>,
    /// Previous-blocks info for the context (tiers from 4 on).
    pub prev_blocks_info: Option<VmTuple>,
}

impl Default for Args {
    /// All arguments start absent, zero or off.
    fn default() -> (r: Args)
        ensures
            r.gas_params is None,
            r.raw_c7 is None,
            r.now is None,
            r.rand_seed is None,
            !r.ignore_chksig,
            r.balance == 0,
            r.verbosity == 0,
            !r.debug_enabled,
            r.address is None,
            r.config is None,
            r.libraries is None,
            r.prev_blocks_info is None,
    {
        Args {
            gas_params: None,
            raw_c7: None,
            now: None,
            rand_seed: None,
            ignore_chksig: false,
            balance: 0,
            extra: extra_currencies_empty(),
            verbosity: 0,
            debug_enabled: false,
            address: None,
            config: None,
            libraries: None,
            prev_blocks_info: None,
        }
    }
}

/// What one run answered: the engine's outputs plus the code and data
/// the handle should persist.
pub struct Answer {
    /// Code after the run (a run never changes it).
    pub code: Cell,
    /// Data after the run: committed data on acceptance, the old data
    /// otherwise.
    pub data: Cell,
    /// Whether the contract accepted (drove its credit to zero).
    pub accepted: bool,
    /// The value stack as the run left it.
    pub stack: Stack,
    /// The committed action list, on acceptance with committed output.
    pub actions: Option<Cell>,
    /// The run's exit code.
    pub exit_code: i32,
    /// Gas the run consumed.
    pub gas_used: u64,
    /// Output of the contract's debug primitives.
    pub debug_log: String,
    /// The library the run was missing, if it stopped for one.
    pub missing_library: Option<HashBytes>,
}

/// Classifies a raw engine outcome against the code and data the run
/// started from.
///
/// Acceptance means the credit was driven to zero.  Data and actions
/// change only on acceptance with committed output; the code is always
/// carried through unchanged.  The exit code is the bitwise negation of
/// the engine's raw result.
pub fn classify_vm_outcome(raw: RawVmOutcome, code: Cell, data: Cell, debug_log: String) -> (ans:
    Answer)
    ensures
        ans.accepted == accepted_of_credit(raw.credit_remaining),
        ans.exit_code == -1 - raw.exit_code_raw,
        ans.gas_used == raw.gas_used,
        ans.stack == raw.stack,
        ans.missing_library == raw.missing_library,
        ans.debug_log == debug_log,
        ans.code == code,
        ans.accepted && raw.committed is Some ==> ans.data == raw.committed->Some_0.c4
            && ans.actions == Some(raw.committed->Some_0.c5),
        !ans.accepted || raw.committed is None ==> ans.data == data && ans.actions is None,
{
    let accepted = raw.credit_remaining == 0;
    let exit_code: i32 = -1 - raw.exit_code_raw;
    let mut new_data = data;
    let mut actions: Option<Cell> = None;
    if accepted {
        match raw.committed {
            Some(committed) => {
                new_data = committed.c4;
                actions = Some(committed.c5);
            },
            None => {},
        }
    }
    Answer {
        code,
        data: new_data,
        accepted,
        stack: raw.stack,
        actions,
        exit_code,
        gas_used: raw.gas_used,
        debug_log,
        missing_library: raw.missing_library,
    }
}

/// Derives the behaviour modifiers for a get-method run: the signature
/// flags come from the configuration (off with none attached), the
/// signature-check bypass from the handle, and the log mask from the
/// verbosity, without the action-register dump.
pub fn modifiers_for_get_method(config: &Option<ParsedConfig>, ignore_chksig: bool, verbosity: i32)
    -> (r: ModifiersPlan)
    ensures
        !r.stop_on_accept,
        r.chksig_always_succeed == ignore_chksig,
        config matches Some(c) ==> r.enable_signature_domains == c.enable_signature_domains
            && r.signature_with_id == c.signature_with_id,
        config is None ==> !r.enable_signature_domains && r.signature_with_id is None,
        r.log_mask_bits == log_mask_spec(verbosity as int, false),
{
    let (enable_signature_domains, signature_with_id) = match config {
        Some(c) => (c.enable_signature_domains, c.signature_with_id),
        None => (false, None),
    };
    ModifiersPlan {
        stop_on_accept: false,
        chksig_always_succeed: ignore_chksig,
        enable_signature_domains,
        signature_with_id,
        log_mask_bits: make_vm_log_mask(verbosity, false),
    }
}

/// The bytecode-level emulation handle: current code and data plus the
/// per-call arguments.  Code and data are overwritten after every
/// accepted send.
pub struct TvmEmulator {
    /// The contract's current code.
    pub code: Cell,
    /// The contract's current data.
    pub data: Cell,
    /// Mutable per-call arguments.
    pub args: Args,
}

impl TvmEmulator {
    /// A fresh handle over a code and data pair, with default arguments
    /// at the given verbosity.
    pub fn new(code: Cell, data: Cell, verbosity: i32) -> (r: TvmEmulator)
        ensures
            r.code == code,
            r.data == data,
            r.args.verbosity == verbosity,
            r.args.gas_params is None,
            r.args.raw_c7 is None,
            r.args.now is None,
            r.args.rand_seed is None,
            !r.args.ignore_chksig,
            r.args.balance == 0,
            !r.args.debug_enabled,
            r.args.address is None,
            r.args.config is None,
            r.args.libraries is None,
            r.args.prev_blocks_info is None,
    {
        let mut args = Args::default();
        args.verbosity = verbosity;
        TvmEmulator { code, data, args }
    }

    /// Sets the context values for the next calls: address, time,
    /// balance and random seed always; the configuration only when one
    /// is given, keeping the previous one otherwise.
    pub fn set_c7(
        &mut self,
        address: StdAddr,
        unixtime: u32,
        balance: u64,
        rand_seed: &HashBytes,
        config: Option<ParsedConfig>,
    )
        ensures
            final(self).args.address == Some(address),
            final(self).args.now == Some(unixtime),
            final(self).args.balance == balance,
            final(self).args.rand_seed == Some(*rand_seed),
            config is Some ==> final(self).args.config == config,
            config is None ==> final(self).args.config == old(self).args.config,
            final(self).code == old(self).code,
            final(self).data == old(self).data,
            final(self).args.gas_params == old(self).args.gas_params,
            final(self).args.libraries == old(self).args.libraries,
            final(self).args.prev_blocks_info == old(self).args.prev_blocks_info,
            final(self).args.debug_enabled == old(self).args.debug_enabled,
            final(self).args.verbosity == old(self).args.verbosity,
            final(self).args.ignore_chksig == old(self).args.ignore_chksig,
            final(self).args.raw_c7 == old(self).args.raw_c7,
            final(self).args.extra == old(self).args.extra,
    {
        self.args.address = Some(address);
        self.args.now = Some(unixtime);
        self.args.balance = balance;
        self.args.rand_seed = Some(copy_hash(rand_seed));
        if config.is_some() {
            self.args.config = config;
        }
    }

    /// Installs an explicit gas limit for the next calls, overriding
    /// policy and disabling credit.
    pub fn set_gas_limit(&mut self, gas_limit: u64)
        ensures
            final(self).args.gas_params == Some(
                GasValues {
                    max: crate::gas::MAX_GAS,
                    limit: gas_limit,
                    credit: 0,
                    price: crate::gas::BASE_GAS_PRICE,
                },
            ),
            final(self).code == old(self).code,
            final(self).data == old(self).data,
            final(self).args.raw_c7 == old(self).args.raw_c7,
            final(self).args.now == old(self).args.now,
            final(self).args.rand_seed == old(self).args.rand_seed,
            final(self).args.ignore_chksig == old(self).args.ignore_chksig,
            final(self).args.balance == old(self).args.balance,
            final(self).args.extra == old(self).args.extra,
            final(self).args.verbosity == old(self).args.verbosity,
            final(self).args.debug_enabled == old(self).args.debug_enabled,
            final(self).args.address == old(self).args.address,
            final(self).args.config == old(self).args.config,
            final(self).args.libraries == old(self).args.libraries,
            final(self).args.prev_blocks_info == old(self).args.prev_blocks_info,
    {
        self.args.gas_params = Some(gas_for_explicit_limit(gas_limit));
    }

    /// Runs one get-method invocation without touching the handle.
    ///
    /// The method selector is pushed onto the given stack, the context
    /// is built from the handle's arguments (or taken raw when one was
    /// supplied), the gas comes from the explicit override or the
    /// policy default, and the raw outcome is classified: the answer
    /// carries the handle's code unchanged, and its data differs from
    /// the handle's only on acceptance with committed output.
    pub fn run_get_method(&self, method_id: i32, stack: Stack) -> (r: Answer)
        ensures
            r.code == self.code,
            !r.accepted ==> r.data == self.data && r.actions is None,
            r.actions is None ==> r.data == self.data,
            !self.args.debug_enabled ==> r.debug_log@.len() == 0,
    {
        let stack = stack_push_method_id(stack, method_id);
        let mods = modifiers_for_get_method(
            &self.args.config,
            self.args.ignore_chksig,
            self.args.verbosity,
        );
        let info = match &self.args.raw_c7 {
            Some(c7) => raw_context_info(c7),
            None => {
                let unpacked = unpack_config_view(&self.args.config, &self.args.now);
                let built = build_smc_info(
                    &self.args.now,
                    &self.args.rand_seed,
                    self.args.balance,
                    &self.args.extra,
                    &self.args.address,
                    &self.args.config,
                    &self.args.prev_blocks_info,
                    unpacked,
                    clone_cell(&self.code),
                );
                built.0
            },
        };
        let gas = effective_get_method_gas(&self.args.gas_params);

        let mut b = vmb_new();
        b = vmb_stack(b, stack);
        b = vmb_code(b, &self.code);
        b = vmb_data(b, &self.data);
        b = vmb_smc_info(b, info);
        b = vmb_libraries(b, &self.args.libraries);
        b = vmb_gas(b, &gas);
        b = vmb_init_selector(b, false);
        b = vmb_modifiers(b, &mods);

        let mut debug_log = String::new();
        if self.args.debug_enabled {
            b = vmb_debug(b, &mut debug_log);
        }
        let raw = vm_run(b);
        classify_vm_outcome(raw, clone_cell(&self.code), clone_cell(&self.data), debug_log)
    }

    /// Runs a synthesized message and persists the answer's code and
    /// data into the handle.
    ///
    /// With no explicit gas override, message policy applies for the
    /// run: an internal send (selector zero) converts the message's
    /// carried amount into a spendable limit with no credit, an
    /// external send runs on speculative credit alone.  The override
    /// state is restored afterwards either way.  The handle's code
    /// never changes; its data changes only when the run was accepted
    /// with committed output.
    fn run_method(&mut self, method_id: i32, amount: u64, stack: Stack) -> (r: Answer)
        ensures
            !old(self).args.debug_enabled ==> r.debug_log@.len() == 0,
            r.code == old(self).code,
            final(self).code == old(self).code,
            final(self).data == r.data,
            !r.accepted ==> r.data == old(self).data && final(self).data == old(self).data
                && r.actions is None,
            r.actions is None ==> r.data == old(self).data && final(self).data == old(self).data,
            final(self).args.gas_params == old(self).args.gas_params,
            final(self).args.raw_c7 == old(self).args.raw_c7,
            final(self).args.now == old(self).args.now,
            final(self).args.rand_seed == old(self).args.rand_seed,
            final(self).args.ignore_chksig == old(self).args.ignore_chksig,
            final(self).args.balance == old(self).args.balance,
            final(self).args.extra == old(self).args.extra,
            final(self).args.verbosity == old(self).args.verbosity,
            final(self).args.debug_enabled == old(self).args.debug_enabled,
            final(self).args.address == old(self).args.address,
            final(self).args.config == old(self).args.config,
            final(self).args.libraries == old(self).args.libraries,
            final(self).args.prev_blocks_info == old(self).args.prev_blocks_info,
    {
        let prev_gas_params = self.args.gas_params;
        if self.args.gas_params.is_none() {
            let is_internal = method_id == 0;
            self.args.gas_params = Some(gas_for_message(is_internal, amount));
        }

        let res = self.run_get_method(method_id, stack);
        self.args.gas_params = prev_gas_params;
        self.code = clone_cell(&res.code);
        self.data = clone_cell(&res.data);
        res
    }

    /// Simulates receiving an external inbound message with the given
    /// body: the envelope and stack are synthesized, the run uses
    /// speculative credit unless a gas override is set, and committed
    /// state is persisted only on acceptance.  A body the codec cannot
    /// attach to an envelope is rejected before anything runs.
    pub fn send_external_message(&mut self, body: Cell) -> (r: Result<Answer, InputError>)
        ensures
            r matches Err(e) ==> e == InputError::MessageUnencodable && *final(self) == *old(
                self,
            ),
            r matches Ok(ans) ==> {
                &&& (!old(self).args.debug_enabled ==> ans.debug_log@.len() == 0)
                &&& ans.code == old(self).code
                &&& final(self).code == old(self).code
                &&& final(self).data == ans.data
                &&& (!ans.accepted ==> ans.data == old(self).data && final(self).data == old(
                    self,
                ).data && ans.actions is None)
                &&& (ans.actions is None ==> ans.data == old(self).data && final(self).data == old(
                    self,
                ).data)
                &&& final(self).args.gas_params == old(self).args.gas_params
            },
    {
        let dst = match &self.args.address {
            Some(a) => clone_std_addr(a),
            None => std_addr_zero(),
        };
        let plan = synthesize_external_message(&dst, clone_cell(&body));
        let message = match encode_external_message(&plan) {
            Ok(cell) => cell,
            Err(_) => {
                return Err(InputError::MessageUnencodable);
            },
        };
        let stack_plan = build_message_stack(self.args.balance, 0, message, body);
        let stack = make_message_stack(&stack_plan);
        Ok(self.run_method(-1, 0, stack))
    }

    /// Simulates receiving an internal inbound message carrying
    /// `amount` with the given body: the envelope bounces, hypercube
    /// routing is disabled, the carried amount funds the run's gas
    /// limit unless a gas override is set, and committed state is
    /// persisted only on acceptance.  A body the codec cannot attach to
    /// an envelope is rejected before anything runs.
    pub fn send_internal_message(&mut self, body: Cell, amount: u64) -> (r: Result<
        Answer,
        InputError,
    >)
        ensures
            r matches Err(e) ==> e == InputError::MessageUnencodable && *final(self) == *old(
                self,
            ),
            r matches Ok(ans) ==> {
                &&& (!old(self).args.debug_enabled ==> ans.debug_log@.len() == 0)
                &&& ans.code == old(self).code
                &&& final(self).code == old(self).code
                &&& final(self).data == ans.data
                &&& (!ans.accepted ==> ans.data == old(self).data && final(self).data == old(
                    self,
                ).data && ans.actions is None)
                &&& (ans.actions is None ==> ans.data == old(self).data && final(self).data == old(
                    self,
                ).data)
                &&& final(self).args.gas_params == old(self).args.gas_params
            },
    {
        let dst = match &self.args.address {
            Some(a) => clone_std_addr(a),
            None => std_addr_zero(),
        };
        let plan = synthesize_internal_message(&dst, amount, clone_cell(&body));
        let message = match encode_internal_message(&plan) {
            Ok(cell) => cell,
            Err(_) => {
                return Err(InputError::MessageUnencodable);
            },
        };
        let stack_plan = build_message_stack(self.args.balance, amount, message, body);
        let stack = make_message_stack(&stack_plan);
        Ok(self.run_method(0, amount, stack))
    }

    /// Applies a decoded previous-blocks value: a tuple is installed,
    /// the decoded null value clears the slot, and a decode failure is
    /// rejected and changes nothing.
    pub fn apply_prev_blocks_value(
        &mut self,
        parsed: Result<Option<VmTuple>, tycho_types::error::Error>,
    ) -> (r: Result<(), InputError>)
        ensures
            parsed matches Ok(value) ==> r == Ok::<(), InputError>(())
                && final(self).args.prev_blocks_info == value,
            parsed is Err ==> r == Err::<(), InputError>(InputError::PrevBlocksNotATuple)
                && *final(self) == *old(self),
            final(self).code == old(self).code,
            final(self).data == old(self).data,
            final(self).args.gas_params == old(self).args.gas_params,
            final(self).args.raw_c7 == old(self).args.raw_c7,
            final(self).args.now == old(self).args.now,
            final(self).args.rand_seed == old(self).args.rand_seed,
            final(self).args.ignore_chksig == old(self).args.ignore_chksig,
            final(self).args.balance == old(self).args.balance,
            final(self).args.extra == old(self).args.extra,
            final(self).args.verbosity == old(self).args.verbosity,
            final(self).args.debug_enabled == old(self).args.debug_enabled,
            final(self).args.address == old(self).args.address,
            final(self).args.config == old(self).args.config,
            final(self).args.libraries == old(self).args.libraries,
    {
        match parsed {
            Ok(value) => {
                self.args.prev_blocks_info = value;
                Ok(())
            },
            Err(_) => Err(InputError::PrevBlocksNotATuple),
        }
    }

    /// Replaces the previous-blocks info from its serialized cell: the
    /// null value clears it, a tuple installs it, anything else is
    /// rejected and changes nothing.  An absent cell also changes
    /// nothing.  What each decoded value does to the slot is stated by
    /// [`Self::apply_prev_blocks_value`].
    pub fn set_prev_blocks_info(&mut self, info: Option<Cell>) -> (r: Result<(), InputError>)
        ensures
            info is None ==> r is Ok && final(self).args.prev_blocks_info == old(
                self,
            ).args.prev_blocks_info,
            r is Err ==> final(self).args.prev_blocks_info == old(self).args.prev_blocks_info && r
                == Err::<(), InputError>(InputError::PrevBlocksNotATuple),
            final(self).code == old(self).code,
            final(self).data == old(self).data,
            final(self).args.gas_params == old(self).args.gas_params,
            final(self).args.config == old(self).args.config,
            final(self).args.libraries == old(self).args.libraries,
    {
        let cell = match info {
            Some(cell) => cell,
            None => {
                return Ok(());
            },
        };
        self.apply_prev_blocks_value(parse_tuple_cell(&cell))
    }

    /// Applies a decoded raw register context: a decoded tuple is
    /// installed as the override, and a decode failure is rejected and
    /// changes nothing.
    pub fn apply_raw_context_value(
        &mut self,
        parsed: Result<VmTuple, tycho_types::error::Error>,
    ) -> (r: Result<(), InputError>)
        ensures
            parsed matches Ok(tuple) ==> r == Ok::<(), InputError>(())
                && final(self).args.raw_c7 == Some(tuple),
            parsed is Err ==> r == Err::<(), InputError>(InputError::RawContextUnreadable)
                && *final(self) == *old(self),
            final(self).code == old(self).code,
            final(self).data == old(self).data,
            final(self).args.gas_params == old(self).args.gas_params,
            final(self).args.prev_blocks_info == old(self).args.prev_blocks_info,
            final(self).args.now == old(self).args.now,
            final(self).args.rand_seed == old(self).args.rand_seed,
            final(self).args.ignore_chksig == old(self).args.ignore_chksig,
            final(self).args.balance == old(self).args.balance,
            final(self).args.extra == old(self).args.extra,
            final(self).args.verbosity == old(self).args.verbosity,
            final(self).args.debug_enabled == old(self).args.debug_enabled,
            final(self).args.address == old(self).args.address,
            final(self).args.config == old(self).args.config,
            final(self).args.libraries == old(self).args.libraries,
    {
        match parsed {
            Ok(tuple) => {
                self.args.raw_c7 = Some(tuple);
                Ok(())
            },
            Err(_) => Err(InputError::RawContextUnreadable),
        }
    }

    /// Installs a raw register context, taken from the first slot of a
    /// serialized stack; it bypasses tiering entirely on the next
    /// calls.  A stack whose first slot holds no tuple is rejected and
    /// changes nothing.  What the decoded tuple does to the override is
    /// stated by [`Self::apply_raw_context_value`].
    pub fn set_raw_context_from_stack(&mut self, c7_stack: &Cell) -> (r: Result<(), InputError>)
        ensures
            r is Ok ==> final(self).args.raw_c7 is Some,
            r is Err ==> final(self).args.raw_c7 == old(self).args.raw_c7 && r == Err::<
                (),
                InputError,
            >(InputError::RawContextUnreadable),
            final(self).code == old(self).code,
            final(self).data == old(self).data,
            final(self).args.gas_params == old(self).args.gas_params,
            final(self).args.libraries == old(self).args.libraries,
    {
        self.apply_raw_context_value(parse_raw_context_stack(c7_stack))
    }
}

/// Relies on `ExtraCurrencyCollection::new`: the empty collection.
#[verifier::external_body]
fn extra_currencies_empty() -> tycho_types::models::ExtraCurrencyCollection {
    tycho_types::models::ExtraCurrencyCollection::new()
}

} // verus!
