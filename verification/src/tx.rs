//! The transaction-level emulation handle.
//!
//! A [`TxEmulator`] carries a pre-parsed configuration, a random seed,
//! behaviour modifiers and per-call overrides; phase sequencing is
//! delegated entirely to the outside transaction executor.  The handle
//! resolves the subject address (an existing account's own address
//! always wins), hands the executor a fully specified parameter set,
//! and classifies the raw result: a "skipped" transaction is the
//! expected terminal state for an external message and a fatal error
//! for anything else, which the chain never silently drops.

use vstd::prelude::*;

use tycho_types::cell::Cell;
use tycho_types::cell::HashBytes;
use tycho_types::dict::Dict;
use tycho_types::models::LibDescr;
use tycho_types::models::ShardAccount;
use tycho_types::models::IntAddr;
use tycho_types::models::MsgInfo;
use tycho_types::models::StdAddr;
use tycho_types::models::TickTock;
use tycho_executor::phase::ComputePhaseSmcInfo;
use tycho_executor::Executor;
use tycho_executor::ExecutorInspector;
use tycho_executor::ExecutorParams;
use tycho_executor::TxError;
use tycho_executor::UncommittedTransaction;

use crate::config::ConfigError;
use crate::config::ParsedConfig;
use crate::errors::InputError;
use crate::config::cfg_global_version;
use crate::config::cfg_global_id;
use crate::config::cfg_has_param;
use crate::config::cfg_param0_address;
use crate::config::cfg_set_size_limits;
use crate::config::default_size_limits;
use crate::config::derive_tx_signature_with_id;
use crate::config::exec_parse_config;
use crate::engine::ModifiersPlan;
use crate::interop::ExecConfig;
use crate::interop::VmTuple;
use crate::interop::clone_cell;
use crate::interop::clone_std_addr;
use crate::interop::hash_zero;
use crate::interop::parse_tuple_cell;
use crate::logbuf::log_mask_spec;
use crate::logbuf::make_vm_log_mask;
use crate::util::now_sec_u64;

verus! {

/// The shape of a resolved internal address: standard, or one of the
/// variable-length forms this layer rejects.
pub enum AddrShape {
    /// A standard workchain-plus-hash address.
    Std(StdAddr),
    /// A variable-length address.
    Var,
}

/// What address resolution needs to know of an inbound message: its
/// direction and its stated destination.
pub enum MsgSummary {
    /// An internal message.
    Int {
        /// Stated destination.
        dst: AddrShape,
    },
    /// An external inbound message.
    ExtIn {
        /// Stated destination.
        dst: AddrShape,
    },
    /// An external outbound message: never a valid emulation input.
    ExtOut,
}

/// Resolves the address an emulation runs against.
///
/// An account with existing state always resolves to its own address,
/// whatever destination the message states.  Only with no existing
/// state does the message's destination decide; a trigger-style call on
/// a nonexistent account is fatal, and a non-standard address shape is
/// always fatal.
pub fn resolve_address(account_addr: &Option<AddrShape>, msg: &Option<MsgSummary>) -> (r: Result<
    StdAddr,
    InputError,
>)
    ensures
        account_addr matches Some(AddrShape::Std(a)) ==> r == Ok::<StdAddr, InputError>(*a),
        account_addr matches Some(AddrShape::Var) ==> r == Err::<StdAddr, InputError>(
            InputError::VarAddrUnsupported,
        ),
        account_addr is None ==> {
            &&& (msg matches Some(MsgSummary::Int { dst: AddrShape::Std(d) }) ==> r == Ok::<
                StdAddr,
                InputError,
            >(*d))
            &&& (msg matches Some(MsgSummary::ExtIn { dst: AddrShape::Std(d) }) ==> r == Ok::<
                StdAddr,
                InputError,
            >(*d))
            &&& (msg matches Some(MsgSummary::Int { dst: AddrShape::Var }) ==> r == Err::<
                StdAddr,
                InputError,
            >(InputError::VarAddrUnsupported))
            &&& (msg matches Some(MsgSummary::ExtIn { dst: AddrShape::Var }) ==> r == Err::<
                StdAddr,
                InputError,
            >(InputError::VarAddrUnsupported))
            &&& (msg matches Some(MsgSummary::ExtOut) ==> r == Err::<StdAddr, InputError>(
                InputError::OnlyInboundAccepted,
            ))
            &&& (msg is None ==> r == Err::<StdAddr, InputError>(
                InputError::TickTockOnEmptyAccount,
            ))
        },
{
    match account_addr {
        Some(AddrShape::Std(a)) => Ok(clone_std_addr(a)),
        Some(AddrShape::Var) => Err(InputError::VarAddrUnsupported),
        None => match msg {
            Some(MsgSummary::Int { dst: AddrShape::Std(d) }) => Ok(clone_std_addr(d)),
            Some(MsgSummary::ExtIn { dst: AddrShape::Std(d) }) => Ok(clone_std_addr(d)),
            Some(MsgSummary::Int { dst: AddrShape::Var }) => Err(InputError::VarAddrUnsupported),
            Some(MsgSummary::ExtIn { dst: AddrShape::Var }) => Err(InputError::VarAddrUnsupported),
            Some(MsgSummary::ExtOut) => Err(InputError::OnlyInboundAccepted),
            None => Err(InputError::TickTockOnEmptyAccount),
        },
    }
}

/// Checks the consistency of an emulation request's shape before
/// anything runs: a closing (tock) trigger demands the trigger flag; a
/// trigger call carries no inbound message; an ordinary transaction
/// demands one.  The checks apply in that order.
pub fn validate_input_shape(has_message: bool, is_tick_tock: bool, is_tock: bool) -> (r: Result<
    (),
    InputError,
>)
    ensures
        !is_tick_tock && is_tock ==> r == Err::<(), InputError>(
            InputError::InconsistentTickTockFlags,
        ),
        is_tick_tock && has_message ==> r == Err::<(), InputError>(InputError::MessageWithTickTock),
        !is_tick_tock && !is_tock && !has_message ==> r == Err::<(), InputError>(
            InputError::MessageRequired,
        ),
        is_tick_tock && !has_message ==> r == Ok::<(), InputError>(()),
        !is_tick_tock && !is_tock && has_message ==> r == Ok::<(), InputError>(()),
{
    if !is_tick_tock && is_tock {
        return Err(InputError::InconsistentTickTockFlags);
    }
    if is_tick_tock && has_message {
        return Err(InputError::MessageWithTickTock);
    }
    if !is_tick_tock && !has_message {
        return Err(InputError::MessageRequired);
    }
    Ok(())
}

/// What the executor reported, converted to plain values.
pub enum ExecOutcome {
    /// The transaction committed.
    Committed {
        /// The transaction record.
        transaction: Cell,
        /// The account state after the transaction.
        new_state: ShardAccount,
        /// The compute phase's action list, if one was produced.
        actions: Option<Cell>,
        /// The compute phase's exit code, if one was reported.
        exit_code: Option<i32>,
    },
    /// The executor skipped the transaction.
    Skipped {
        /// The compute phase's exit code, if one was reported.
        exit_code: Option<i32>,
    },
    /// The executor failed outright.
    Fatal {
        /// The executor's error rendered as text.
        message: String,
    },
}

/// A classified emulation outcome.
pub enum TxOutcome {
    /// The transaction committed: the new account state, the
    /// transaction record, and the action list if one was produced.
    Success {
        /// The transaction record.
        transaction: Cell,
        /// The account state after the transaction.
        new_state: ShardAccount,
        /// The compute phase's action list, absent if none was
        /// produced.
        actions: Option<Cell>,
    },
    /// The external message was not accepted by the contract: an
    /// expected terminal state, not an error.
    NotAccepted {
        /// The compute phase's exit code (zero when none was
        /// reported).
        exit_code: i32,
    },
    /// Any other executor failure; never mutates the handle's
    /// persisted state.
    Fatal {
        /// A human-readable description.
        message: String,
    },
}

/// Classifies a raw executor outcome.
///
/// A skipped transaction is the expected "not accepted" terminal state
/// exactly when the input was an external inbound message; a skipped
/// transaction for any other input is a fatal error, because the chain
/// never silently drops those.  A committed transaction is a success;
/// any other failure is fatal.
pub fn classify_tx_outcome(raw: ExecOutcome, is_external: bool) -> (r: TxOutcome)
    ensures
        (r is NotAccepted <==> (raw is Skipped && is_external)),
        raw matches ExecOutcome::Committed { transaction, new_state, actions, .. } ==> r
            == (TxOutcome::Success { transaction, new_state, actions }),
        raw matches ExecOutcome::Skipped { exit_code } ==> (is_external ==> r == (
        TxOutcome::NotAccepted {
            exit_code: (match exit_code {
                Some(c) => c,
                None => 0i32,
            }),
        })),
        raw is Skipped && !is_external ==> (r matches TxOutcome::Fatal { message } && message@
            == "Fatal executor error: transaction skipped"@),
        raw matches ExecOutcome::Fatal { message } ==> r == (TxOutcome::Fatal { message }),
{
    match raw {
        ExecOutcome::Committed { transaction, new_state, actions, .. } => TxOutcome::Success {
            transaction,
            new_state,
            actions,
        },
        ExecOutcome::Skipped { exit_code } => {
            if is_external {
                let code: i32 = match exit_code {
                    Some(c) => c,
                    None => 0,
                };
                TxOutcome::NotAccepted { exit_code: code }
            } else {
                TxOutcome::Fatal {
                    message: "Fatal executor error: transaction skipped".to_string(),
                }
            }
        },
        ExecOutcome::Fatal { message } => TxOutcome::Fatal { message },
    }
}

/// The executor parameters this layer fixes for every call, as plain
/// values.
#[derive(Clone, Copy, Debug, PartialEq, Eq, Structural)]
pub struct ExecutorPlan {
    /// Unix time of the emulated block.
    pub block_unixtime: u32,
    /// Logical time of the emulated block.
    pub block_lt: u64,
    /// Frozen accounts are never deleted during emulation.
    pub disable_delete_frozen_accounts: bool,
    /// Action fees are charged even when the action phase fails.
    pub charge_action_fees_on_fail: bool,
    /// Bounced messages carry the full original body.
    pub full_body_in_bounced: bool,
    /// Extra currencies follow the strict, gas-predictable rules.
    pub strict_extra_currency: bool,
    /// Authority marks may suspend accounts.
    pub authority_marks_enabled: bool,
    /// VM behaviour modifiers for the compute phase.
    pub modifiers: ModifiersPlan,
}

/// The emulation input: an ordinary inbound message, or a periodic
/// trigger.
pub enum TxInput {
    /// An ordinary transaction driven by an inbound message cell.
    Ordinary(Cell),
    /// A periodic trigger on a designated system contract.
    TickTock {
        /// Whether this is the closing (tock) trigger.
        is_tock: bool,
    },
}

/// A classified outcome together with the debug output collected
/// during the run.
pub struct TxAnswer {
    /// The classified outcome.
    pub outcome: TxOutcome,
    /// Output of the contract's debug primitives.
    pub debug_log: String,
}

/// The transaction-level emulation handle.
pub struct TxEmulator {
    /// The executor's pre-parsed configuration.
    pub config: ExecConfig,
    /// Random seed handed to the executor.
    pub rand_seed: HashBytes,
    /// Verbosity level driving the log mask.
    pub verbosity: i32,
    /// VM behaviour modifiers for the compute phase.
    pub vm_modifiers: ModifiersPlan,
    /// Unix time of the emulated block; zero means "use the current
    /// time".
    pub block_unixtime: u32,
    /// Logical time of the emulated block.
    pub lt: u64,
    /// Public libraries visible to the run; absent means empty.
    pub libraries: Option<Dict<HashBytes, LibDescr>>,
    /// Previous-blocks info injected into the executor's context.
    pub prev_blocks_info: Option<VmTuple>,
    /// Whether the contract's debug primitives are collected.
    pub debug_enabled: bool,
}

impl TxEmulator {
    /// Builds a handle from raw configuration parameters.
    ///
    /// Missing size limits (parameter 43) are filled with the
    /// documented defaults; the configuration account address
    /// (parameter 0) is mandatory; the executor must accept the
    /// parameters; and a global id is mandatory when the with-id
    /// signature capability is on.  Signature checking starts strict
    /// and domains are not applied at this level.
    pub fn new(params: tycho_types::models::BlockchainConfigParams, verbosity: i32) -> (r: Result<
        TxEmulator,
        ConfigError,
    >)
        ensures
            r matches Ok(emu) ==> {
                &&& emu.verbosity == verbosity
                &&& !emu.vm_modifiers.stop_on_accept
                &&& !emu.vm_modifiers.chksig_always_succeed
                &&& !emu.vm_modifiers.enable_signature_domains
                &&& emu.vm_modifiers.log_mask_bits == log_mask_spec(verbosity as int, true)
                &&& emu.block_unixtime == 0
                &&& emu.lt == 0
                &&& emu.libraries is None
                &&& emu.prev_blocks_info is None
                &&& !emu.debug_enabled
            },
            r matches Err(e) ==> (e == ConfigError::SizeLimitsRejected || e
                == ConfigError::DictAccessFailed || e == ConfigError::NoConfigAddress || e
                == ConfigError::ExecutorRejected || e == ConfigError::NoGlobalVersion || e
                == ConfigError::NoGlobalId),
    {
        let mut params = params;
        match cfg_has_param(&params, 43) {
            Ok(true) => {},
            Ok(false) => {
                let limits = default_size_limits();
                if cfg_set_size_limits(&mut params, &limits).is_err() {
                    return Err(ConfigError::SizeLimitsRejected);
                }
            },
            Err(_) => {
                return Err(ConfigError::DictAccessFailed);
            },
        }

        let address = match cfg_param0_address(&params) {
            Ok(Some(a)) => a,
            Ok(None) => {
                return Err(ConfigError::NoConfigAddress);
            },
            Err(_) => {
                return Err(ConfigError::DictAccessFailed);
            },
        };

        let config = match exec_parse_config(&params, address, 0) {
            Ok(c) => c,
            Err(_) => {
                return Err(ConfigError::ExecutorRejected);
            },
        };

        let capabilities = match cfg_global_version(&params) {
            Ok((_version, caps)) => caps,
            Err(_) => {
                return Err(ConfigError::NoGlobalVersion);
            },
        };

        let global_id = match cfg_global_id(&params) {
            Ok(id) => Some(id),
            Err(_) => None,
        };

        let signature_with_id = match derive_tx_signature_with_id(capabilities, global_id) {
            Ok(id) => id,
            Err(e) => {
                return Err(e);
            },
        };

        Ok(TxEmulator {
            config,
            rand_seed: hash_zero(),
            verbosity,
            vm_modifiers: ModifiersPlan {
                stop_on_accept: false,
                chksig_always_succeed: false,
                enable_signature_domains: false,
                signature_with_id,
                log_mask_bits: make_vm_log_mask(verbosity, true),
            },
            block_unixtime: 0,
            lt: 0,
            libraries: None,
            prev_blocks_info: None,
            debug_enabled: false,
        })
    }

    /// Replaces the configuration, rebuilding the derived executor
    /// parameters (global id, signature-with-id) while preserving all
    /// other mutable state; a rejected configuration changes nothing.
    pub fn set_config(&mut self, config: &ParsedConfig) -> (r: Result<(), ConfigError>)
        ensures
            r is Err ==> *final(self) == *old(self),
            final(self).vm_modifiers.stop_on_accept == old(self).vm_modifiers.stop_on_accept,
            final(self).vm_modifiers.chksig_always_succeed == old(
                self,
            ).vm_modifiers.chksig_always_succeed,
            final(self).vm_modifiers.enable_signature_domains == old(
                self,
            ).vm_modifiers.enable_signature_domains,
            final(self).vm_modifiers.log_mask_bits == old(self).vm_modifiers.log_mask_bits,
            final(self).rand_seed == old(self).rand_seed,
            final(self).verbosity == old(self).verbosity,
            final(self).block_unixtime == old(self).block_unixtime,
            final(self).lt == old(self).lt,
            final(self).libraries == old(self).libraries,
            final(self).prev_blocks_info == old(self).prev_blocks_info,
            final(self).debug_enabled == old(self).debug_enabled,
    {
        let rebuilt = match TxEmulator::new(
            crate::interop::clone_config_params(&config.params),
            self.verbosity,
        ) {
            Ok(emu) => emu,
            Err(e) => {
                return Err(e);
            },
        };
        self.config = rebuilt.config;
        self.vm_modifiers.signature_with_id = rebuilt.vm_modifiers.signature_with_id;
        Ok(())
    }

    /// Sets the block unix time for the next calls; zero means "use
    /// the current time".
    pub fn set_unixtime(&mut self, unixtime: u32)
        ensures
            final(self).block_unixtime == unixtime,
            final(self).lt == old(self).lt,
            final(self).libraries == old(self).libraries,
            final(self).prev_blocks_info == old(self).prev_blocks_info,
            final(self).debug_enabled == old(self).debug_enabled,
            final(self).vm_modifiers == old(self).vm_modifiers,
            final(self).rand_seed == old(self).rand_seed,
            final(self).config == old(self).config,
            final(self).verbosity == old(self).verbosity,
    {
        self.block_unixtime = unixtime;
    }

    /// Sets the block logical time for the next calls.
    pub fn set_lt(&mut self, lt: u64)
        ensures
            final(self).lt == lt,
            final(self).block_unixtime == old(self).block_unixtime,
            final(self).libraries == old(self).libraries,
            final(self).prev_blocks_info == old(self).prev_blocks_info,
            final(self).debug_enabled == old(self).debug_enabled,
            final(self).vm_modifiers == old(self).vm_modifiers,
            final(self).rand_seed == old(self).rand_seed,
            final(self).config == old(self).config,
            final(self).verbosity == old(self).verbosity,
    {
        self.lt = lt;
    }

    /// Sets the random seed for the next calls.
    pub fn set_rand_seed(&mut self, rand_seed: HashBytes)
        ensures
            final(self).rand_seed == rand_seed,
            final(self).block_unixtime == old(self).block_unixtime,
            final(self).lt == old(self).lt,
            final(self).libraries == old(self).libraries,
            final(self).prev_blocks_info == old(self).prev_blocks_info,
            final(self).debug_enabled == old(self).debug_enabled,
            final(self).vm_modifiers == old(self).vm_modifiers,
            final(self).config == old(self).config,
            final(self).verbosity == old(self).verbosity,
    {
        self.rand_seed = rand_seed;
    }

    /// Sets whether every signature check is treated as passed.
    pub fn set_ignore_chksig(&mut self, ignore_chksig: bool)
        ensures
            final(self).vm_modifiers.chksig_always_succeed == ignore_chksig,
            final(self).vm_modifiers.stop_on_accept == old(self).vm_modifiers.stop_on_accept,
            final(self).vm_modifiers.enable_signature_domains == old(
                self,
            ).vm_modifiers.enable_signature_domains,
            final(self).vm_modifiers.signature_with_id == old(self).vm_modifiers.signature_with_id,
            final(self).vm_modifiers.log_mask_bits == old(self).vm_modifiers.log_mask_bits,
            final(self).block_unixtime == old(self).block_unixtime,
            final(self).lt == old(self).lt,
            final(self).libraries == old(self).libraries,
            final(self).prev_blocks_info == old(self).prev_blocks_info,
            final(self).debug_enabled == old(self).debug_enabled,
            final(self).rand_seed == old(self).rand_seed,
            final(self).config == old(self).config,
            final(self).verbosity == old(self).verbosity,
    {
        self.vm_modifiers.chksig_always_succeed = ignore_chksig;
    }

    /// Replaces the library set from its dictionary root cell; setting
    /// it to absent resets to the empty set rather than keeping the
    /// previous one.  The root is taken as already holding shared
    /// library descriptors; no publisher sentinel is synthesized.
    pub fn set_libraries(&mut self, root: Option<Cell>)
        ensures
            root is None ==> final(self).libraries is None,
            root is Some ==> final(self).libraries is Some,
            final(self).block_unixtime == old(self).block_unixtime,
            final(self).lt == old(self).lt,
            final(self).prev_blocks_info == old(self).prev_blocks_info,
            final(self).debug_enabled == old(self).debug_enabled,
            final(self).vm_modifiers == old(self).vm_modifiers,
            final(self).rand_seed == old(self).rand_seed,
            final(self).config == old(self).config,
            final(self).verbosity == old(self).verbosity,
    {
        self.libraries = match root {
            Some(cell) => Some(lib_dict_from_root(cell)),
            None => None,
        };
    }

    /// Sets whether the contract's debug primitives are collected.
    pub fn set_debug_enabled(&mut self, debug_enabled: bool)
        ensures
            final(self).debug_enabled == debug_enabled,
            final(self).block_unixtime == old(self).block_unixtime,
            final(self).lt == old(self).lt,
            final(self).libraries == old(self).libraries,
            final(self).prev_blocks_info == old(self).prev_blocks_info,
            final(self).vm_modifiers == old(self).vm_modifiers,
            final(self).rand_seed == old(self).rand_seed,
            final(self).config == old(self).config,
            final(self).verbosity == old(self).verbosity,
    {
        self.debug_enabled = debug_enabled;
    }

    /// Applies a decoded previous-blocks value: a tuple is installed,
    /// the decoded null value clears the slot, and a decode failure is
    /// rejected and changes nothing.
    pub fn apply_prev_blocks_value(
        &mut self,
        parsed: Result<Option<VmTuple>, tycho_types::error::Error>,
    ) -> (r: Result<(), InputError>)
        ensures
            parsed matches Ok(value) ==> r == Ok::<(), InputError>(())
                && final(self).prev_blocks_info == value,
            parsed is Err ==> r == Err::<(), InputError>(InputError::PrevBlocksNotATuple)
                && *final(self) == *old(self),
            final(self).block_unixtime == old(self).block_unixtime,
            final(self).lt == old(self).lt,
            final(self).libraries == old(self).libraries,
            final(self).debug_enabled == old(self).debug_enabled,
            final(self).vm_modifiers == old(self).vm_modifiers,
            final(self).rand_seed == old(self).rand_seed,
            final(self).config == old(self).config,
            final(self).verbosity == old(self).verbosity,
    {
        match parsed {
            Ok(value) => {
                self.prev_blocks_info = value;
                Ok(())
            },
            Err(_) => Err(InputError::PrevBlocksNotATuple),
        }
    }

    /// Replaces the previous-blocks info from its serialized cell: the
    /// null value clears it, a tuple installs it, anything else is
    /// rejected and changes nothing.  An absent cell also changes
    /// nothing.  What each decoded value does to the slot is stated by
    /// [`Self::apply_prev_blocks_value`].
    pub fn set_prev_blocks_info(&mut self, info: Option<Cell>) -> (r: Result<(), InputError>)
        ensures
            info is None ==> r is Ok && *final(self) == *old(self),
            r is Err ==> *final(self) == *old(self) && r == Err::<(), InputError>(
                InputError::PrevBlocksNotATuple,
            ),
            final(self).block_unixtime == old(self).block_unixtime,
            final(self).lt == old(self).lt,
            final(self).libraries == old(self).libraries,
            final(self).debug_enabled == old(self).debug_enabled,
            final(self).vm_modifiers == old(self).vm_modifiers,
            final(self).rand_seed == old(self).rand_seed,
            final(self).config == old(self).config,
            final(self).verbosity == old(self).verbosity,
    {
        let cell = match info {
            Some(cell) => cell,
            None => {
                return Ok(());
            },
        };
        self.apply_prev_blocks_value(parse_tuple_cell(&cell))
    }

    /// The executor parameters for one call at the given block time:
    /// every behaviour switch this layer fixes is on, and the
    /// modifiers are the handle's.
    pub fn make_params(&self, block_unixtime: u32) -> (r: ExecutorPlan)
        ensures
            r == (ExecutorPlan {
                block_unixtime,
                block_lt: self.lt,
                disable_delete_frozen_accounts: true,
                charge_action_fees_on_fail: true,
                full_body_in_bounced: true,
                strict_extra_currency: true,
                authority_marks_enabled: true,
                modifiers: self.vm_modifiers,
            }),
    {
        ExecutorPlan {
            block_unixtime,
            block_lt: self.lt,
            disable_delete_frozen_accounts: true,
            charge_action_fees_on_fail: true,
            full_body_in_bounced: true,
            strict_extra_currency: true,
            authority_marks_enabled: true,
            modifiers: self.vm_modifiers,
        }
    }

    /// Emulates one transaction against an account state.
    ///
    /// The subject address is resolved with the account's own address
    /// taking precedence; a zero block time is replaced by the current
    /// time; the storage prices are refreshed for that time; and the
    /// raw executor outcome is classified, with "skipped" accepted
    /// only for external inbound messages.
    pub fn emulate(&mut self, account: &ShardAccount, input: TxInput) -> (r: Result<
        TxAnswer,
        InputError,
    >)
        ensures
            r matches Ok(ans) ==> (ans.outcome is NotAccepted ==> input is Ordinary),
            final(self).lt == old(self).lt,
            final(self).block_unixtime == old(self).block_unixtime,
            final(self).libraries == old(self).libraries,
            final(self).prev_blocks_info == old(self).prev_blocks_info,
            final(self).debug_enabled == old(self).debug_enabled,
            final(self).vm_modifiers == old(self).vm_modifiers,
            final(self).rand_seed == old(self).rand_seed,
            final(self).verbosity == old(self).verbosity,
    {
        let (msg, is_external) = match &input {
            TxInput::Ordinary(cell) => {
                match parse_msg_summary(cell) {
                    Ok(summary) => {
                        let is_external = matches!(summary, MsgSummary::ExtIn { .. });
                        (Some(summary), is_external)
                    },
                    Err(_) => {
                        return Err(InputError::MsgInfoUnreadable);
                    },
                }
            },
            TxInput::TickTock { .. } => (None, false),
        };

        let account_addr = match account_address(account) {
            Ok(a) => a,
            Err(_) => {
                return Err(InputError::AccountUnreadable);
            },
        };

        let address = match resolve_address(&account_addr, &msg) {
            Ok(a) => a,
            Err(e) => {
                return Err(e);
            },
        };

        let block_unixtime: u32 = if self.block_unixtime == 0 {
            #[verifier::truncate]
            (now_sec_u64() as u32)
        } else {
            self.block_unixtime
        };

        if exec_update_storage_prices(&mut self.config, block_unixtime).is_err() {
            return Err(InputError::StoragePricesUnreadable);
        }

        let plan = self.make_params(block_unixtime);
        let modifiers = to_behaviour_modifiers(&plan.modifiers);
        let exec_params = to_executor_params(&plan, &self.rand_seed, &self.libraries, modifiers);

        let (res, inspected) = match &input {
            TxInput::Ordinary(cell) => exec_begin_ordinary(
                &exec_params,
                &self.config,
                plan.block_lt,
                &address,
                is_external,
                clone_cell(cell),
                account,
                self.debug_enabled,
                &self.prev_blocks_info,
            ),
            TxInput::TickTock { is_tock } => exec_begin_tick_tock(
                &exec_params,
                &self.config,
                plan.block_lt,
                &address,
                *is_tock,
                account,
                self.debug_enabled,
                &self.prev_blocks_info,
            ),
        };

        let raw = match res {
            Ok(tx) => {
                match commit_tx(tx) {
                    Ok((transaction, new_state)) => ExecOutcome::Committed {
                        transaction,
                        new_state,
                        actions: inspected.actions,
                        exit_code: inspected.exit_code,
                    },
                    Err(message) => ExecOutcome::Fatal { message },
                }
            },
            Err(e) => {
                let (skipped, message) = tx_error_kind(e);
                if skipped {
                    ExecOutcome::Skipped { exit_code: inspected.exit_code }
                } else {
                    ExecOutcome::Fatal { message }
                }
            },
        };

        Ok(TxAnswer {
            outcome: classify_tx_outcome(raw, is_external),
            debug_log: inspected.debug_log,
        })
    }
}

/// What the executor's inspector gathered during one run.
pub struct InspectorOut {
    /// The compute phase's action list, if one was produced.
    pub actions: Option<Cell>,
    /// The compute phase's exit code, if one was reported.
    pub exit_code: Option<i32>,
    /// Output of the contract's debug primitives.
    pub debug_log: String,
}

// === Trusted wrappers around the transaction executor ===

/// Relies on `Dict::from_raw`: wraps a dictionary root cell as the
/// library set.
#[verifier::external_body]
fn lib_dict_from_root(root: Cell) -> Dict<HashBytes, LibDescr> {
    Dict::from_raw(Some(root))
}

/// Relies on `Cell::parse::<MsgInfo>`: decodes the message header and
/// reduces it to its direction and destination shape, one arm per
/// variant.
#[verifier::external_body]
fn parse_msg_summary(msg: &Cell) -> Result<MsgSummary, tycho_types::error::Error> {
    Ok(match msg.parse::<MsgInfo>()? {
        MsgInfo::Int(info) => MsgSummary::Int {
            dst: match info.dst {
                IntAddr::Std(a) => AddrShape::Std(a),
                IntAddr::Var(_) => AddrShape::Var,
            },
        },
        MsgInfo::ExtIn(info) => MsgSummary::ExtIn {
            dst: match info.dst {
                IntAddr::Std(a) => AddrShape::Std(a),
                IntAddr::Var(_) => AddrShape::Var,
            },
        },
        MsgInfo::ExtOut(_) => MsgSummary::ExtOut,
    })
}

/// Relies on `ShardAccount::load_account`: the stored account's own
/// address shape, or absent for a nonexistent account.
#[verifier::external_body]
fn account_address(account: &ShardAccount) -> Result<
    Option<AddrShape>,
    tycho_types::error::Error,
> {
    Ok(account.load_account()?.map(|acc| match acc.address {
        IntAddr::Std(a) => AddrShape::Std(a),
        IntAddr::Var(_) => AddrShape::Var,
    }))
}

/// Relies on `tycho_executor::ParsedConfig::update_storage_prices`:
/// refreshes the parsed storage prices for the block time.
#[verifier::external_body]
fn exec_update_storage_prices(
    config: &mut ExecConfig,
    now: u32,
) -> Result<(), tycho_types::error::Error> {
    config.inner.update_storage_prices(now)
}

/// Relies on `tycho_vm::BehaviourModifiers` and
/// `VmLogMask::from_bits_truncate`: the modifiers copied field for
/// field.
#[verifier::external_body]
fn to_behaviour_modifiers(m: &ModifiersPlan) -> tycho_vm::BehaviourModifiers {
    tycho_vm::BehaviourModifiers {
        stop_on_accept: m.stop_on_accept,
        chksig_always_succeed: m.chksig_always_succeed,
        enable_signature_domains: m.enable_signature_domains,
        signature_with_id: m.signature_with_id,
        log_mask: tycho_vm::VmLogMask::from_bits_truncate(m.log_mask_bits),
    }
}

/// Relies on `tycho_executor::ExecutorParams`: the parameters copied
/// field for field; the previous masterchain block id stays absent
/// (the context hook injects previous-blocks info instead), and an
/// absent library set becomes the empty dictionary.
#[verifier::external_body]
fn to_executor_params(
    plan: &ExecutorPlan,
    rand_seed: &HashBytes,
    libraries: &Option<Dict<HashBytes, LibDescr>>,
    vm_modifiers: tycho_vm::BehaviourModifiers,
) -> ExecutorParams {
    ExecutorParams {
        libraries: match libraries { Some(d) => d.clone(), None => Dict::new() },
        rand_seed: *rand_seed,
        block_unixtime: plan.block_unixtime,
        block_lt: plan.block_lt,
        prev_mc_block_id: None,
        vm_modifiers,
        disable_delete_frozen_accounts: plan.disable_delete_frozen_accounts,
        charge_action_fees_on_fail: plan.charge_action_fees_on_fail,
        full_body_in_bounced: plan.full_body_in_bounced,
        strict_extra_currency: plan.strict_extra_currency,
        authority_marks_enabled: plan.authority_marks_enabled,
    }
}

/// Relies on `tycho_executor::Executor::{new, with_min_lt,
/// begin_ordinary_ext}` and `ExecutorInspector`: starts one ordinary
/// transaction, collecting the inspector's actions, exit code and
/// debug output; when previous-blocks info is configured, a hook
/// injects it into the executor's internally built context (otherwise
/// the executor's own default stands).
#[verifier::external_body]
fn exec_begin_ordinary<'a, 's>(
    params: &'a tycho_executor::ExecutorParams,
    config: &'a ExecConfig,
    min_lt: u64,
    address: &StdAddr,
    is_external: bool,
    msg: Cell,
    account: &'s ShardAccount,
    debug_enabled: bool,
    prev_blocks: &Option<VmTuple>,
) -> (Result<UncommittedTransaction<'a, 's>, TxError>, InspectorOut) {
    let mut debug_log = String::new();
    let mut prev = prev_blocks.as_ref().map(|t| t.inner.clone());
    let mut hook = move |smc: &mut ComputePhaseSmcInfo| { if prev.is_some() { smc.base.base.prev_blocks_info = prev.take() } Ok(()) };
    let mut inspector = ExecutorInspector {
        debug: if debug_enabled { Some(&mut debug_log) } else { None },
        modify_smc_info: Some(&mut hook),
        ..Default::default()
    };
    let res = Executor::new(params, &config.inner)
        .with_min_lt(min_lt)
        .begin_ordinary_ext(address, is_external, msg, account, Some(&mut inspector));
    let (actions, exit_code) = (inspector.actions.take(), inspector.exit_code);
    (res, InspectorOut { actions, exit_code, debug_log })
}

/// Relies on `tycho_executor::Executor::{new, with_min_lt,
/// begin_tick_tock_ext}` and `ExecutorInspector`: starts one periodic
/// trigger, collecting the inspector's actions, exit code and debug
/// output; when previous-blocks info is configured, a hook injects it
/// into the executor's internally built context (otherwise the
/// executor's own default stands).
#[verifier::external_body]
fn exec_begin_tick_tock<'a, 's>(
    params: &'a tycho_executor::ExecutorParams,
    config: &'a ExecConfig,
    min_lt: u64,
    address: &StdAddr,
    is_tock: bool,
    account: &'s ShardAccount,
    debug_enabled: bool,
    prev_blocks: &Option<VmTuple>,
) -> (Result<UncommittedTransaction<'a, 's>, TxError>, InspectorOut) {
    let mut debug_log = String::new();
    let mut prev = prev_blocks.as_ref().map(|t| t.inner.clone());
    let mut hook = move |smc: &mut ComputePhaseSmcInfo| { if prev.is_some() { smc.base.base.prev_blocks_info = prev.take() } Ok(()) };
    let mut inspector = ExecutorInspector {
        debug: if debug_enabled { Some(&mut debug_log) } else { None },
        modify_smc_info: Some(&mut hook),
        ..Default::default()
    };
    let kind = if is_tock { TickTock::Tock } else { TickTock::Tick };
    let res = Executor::new(params, &config.inner)
        .with_min_lt(min_lt)
        .begin_tick_tock_ext(address, kind, account, Some(&mut inspector));
    let actions = inspector.actions.take();
    let exit_code = inspector.exit_code;
    (res, InspectorOut { actions, exit_code, debug_log })
}

/// Relies on `UncommittedTransaction::commit` and `Lazy::into_inner`:
/// finalizes the transaction into its record cell and the new account
/// state, or the commit error rendered as text.
#[verifier::external_body]
fn commit_tx(tx: UncommittedTransaction<'_, '_>) -> Result<(Cell, ShardAccount), String> {
    match tx.commit() {
        Ok(out) => Ok((out.transaction.into_inner(), out.new_state)),
        Err(e) => Err(format!("Failed to commit transaction: {e:?}")),
    }
}

/// Relies on `tycho_executor::TxError`: tells the skipped case apart
/// from a fatal failure, rendering the latter as text.
#[verifier::external_body]
fn tx_error_kind(e: TxError) -> (bool, String) {
    match e {
        TxError::Skipped => (true, String::new()),
        TxError::Fatal(err) => (false, format!("Fatal executor error: {err:?}")),
    }
}

/// Relies on the declared external type for
/// `tycho_executor::UncommittedTransaction`.
#[verifier::external_type_specification]
#[verifier::external_body]
pub struct ExUncommittedTransaction<'a, 's>(UncommittedTransaction<'a, 's>);

} // verus!
