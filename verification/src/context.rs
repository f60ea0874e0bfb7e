//! The tiered execution context ("c7") handed to the VM.
//!
//! The context is strictly additive by protocol version: the base tier
//! (time, logical times, random seed, balance, address, raw
//! configuration) is always present; version 4 adds the code reference,
//! message-balance and storage-fee placeholders and the optional
//! previous-blocks info; version 6 adds the due-payment placeholder and
//! an eagerly unpacked configuration view; version 11 adds the unpacked
//! inbound-message summary slot.  Tier selection depends solely on the
//! configuration's declared version; an absent configuration yields the
//! base tier only.  A raw caller-supplied context bypasses tiering
//! entirely (see [`raw_context_info`]).

use vstd::prelude::*;

use crate::config::ParsedConfig;
use crate::config::vm_unpack_config;
use crate::interop::VmTuple;
use crate::interop::clone_std_addr;
use crate::interop::copy_hash;
use crate::interop::hash_zero;
use crate::interop::std_addr_zero;

verus! {

/// The capability tier a context is built for.
#[derive(Clone, Copy, Debug, PartialEq, Eq, Structural)]
pub enum Tier {
    /// Versions below 4.
    Base,
    /// Versions 4 and 5.
    V4,
    /// Versions 6 through 10.
    V6,
    /// Versions 11 and above.
    V11,
}

/// The tier selected for a declared protocol version.
pub open spec fn tier_of_version(version: u32) -> Tier {
    if version < 4 {
        Tier::Base
    } else if version < 6 {
        Tier::V4
    } else if version < 11 {
        Tier::V6
    } else {
        Tier::V11
    }
}

/// A tier's rank in the additive chain.
pub open spec fn tier_rank(t: Tier) -> int {
    match t {
        Tier::Base => 0,
        Tier::V4 => 1,
        Tier::V6 => 2,
        Tier::V11 => 3,
    }
}

/// How many context slots a tier's register tuple holds.  The base
/// tier writes ten slots (magic, actions, messages sent, time, block
/// and transaction logical times, random seed, balance, address, raw
/// configuration); version 4 adds the code, inbound-message value and
/// storage-fee slots and the previous-blocks slot; version 6 adds the
/// unpacked configuration, due-payment and precompiled-gas slots;
/// version 11 adds the inbound-message summary slot.
pub open spec fn c7_item_count(t: Tier) -> int {
    match t {
        Tier::Base => 10,
        Tier::V4 => 14,
        Tier::V6 => 17,
        Tier::V11 => 18,
    }
}

/// The set of context slots a tier exposes.
pub open spec fn c7_fields(t: Tier) -> Set<int> {
    Set::new(|i: int| 0 <= i < c7_item_count(t))
}

/// Tiering is additive: each tier's slots strictly include the
/// previous tier's.
pub proof fn lemma_tier_fields_strictly_additive(lo: Tier, hi: Tier)
    requires
        tier_rank(lo) < tier_rank(hi),
    ensures
        c7_fields(lo) <= c7_fields(hi),
        c7_fields(lo) != c7_fields(hi),
{
    assert(c7_item_count(lo) < c7_item_count(hi));
    assert(forall|i: int| c7_fields(lo).contains(i) ==> c7_fields(hi).contains(i));
    assert(c7_fields(hi).contains(c7_item_count(lo)));
    assert(!c7_fields(lo).contains(c7_item_count(lo)));
}

/// Tiering monotonicity over versions: the context built for version
/// 11 or above exposes a strict superset of the slots for versions
/// 6 through 10, which strictly include those for versions 4 and 5,
/// which strictly include the base slots.
pub proof fn lemma_tiering_monotonic(v_base: u32, v4: u32, v6: u32, v11: u32)
    requires
        v_base < 4,
        4 <= v4 < 6,
        6 <= v6 < 11,
        11 <= v11,
    ensures
        c7_fields(tier_of_version(v_base)) <= c7_fields(tier_of_version(v4)),
        c7_fields(tier_of_version(v_base)) != c7_fields(tier_of_version(v4)),
        c7_fields(tier_of_version(v4)) <= c7_fields(tier_of_version(v6)),
        c7_fields(tier_of_version(v4)) != c7_fields(tier_of_version(v6)),
        c7_fields(tier_of_version(v6)) <= c7_fields(tier_of_version(v11)),
        c7_fields(tier_of_version(v6)) != c7_fields(tier_of_version(v11)),
{
    lemma_tier_fields_strictly_additive(Tier::Base, Tier::V4);
    lemma_tier_fields_strictly_additive(Tier::V4, Tier::V6);
    lemma_tier_fields_strictly_additive(Tier::V6, Tier::V11);
}

/// Selects the tier for a declared protocol version.
pub fn tier_for_version(version: u32) -> (t: Tier)
    ensures
        t == tier_of_version(version),
{
    if version < 4 {
        Tier::Base
    } else if version < 6 {
        Tier::V4
    } else if version < 11 {
        Tier::V6
    } else {
        Tier::V11
    }
}

/// A built execution context, one variant per tier, plus the raw
/// caller-supplied form that bypasses tiering.
pub enum BuiltSmcInfo {
    /// Base tier only.
    Base(tycho_vm::SmcInfoBase),
    /// Through version 4.
    V4(tycho_vm::SmcInfoTonV4),
    /// Through version 6.
    V6(tycho_vm::SmcInfoTonV6),
    /// Through version 11.
    V11(tycho_vm::SmcInfoTonV11),
    /// A raw context taken as-is from the caller.
    Custom(tycho_vm::CustomSmcInfo),
}

/// The decisions taken while building a context, as plain values.
#[derive(Clone, Copy, Debug, PartialEq, Eq, Structural)]
pub struct ContextPlan {
    /// The protocol version the tier was selected from: the
    /// configuration's declared version, or 1 with no configuration.
    pub version: u32,
    /// The selected tier.
    pub tier: Tier,
    /// Unix time written into the context.
    pub now: u32,
    /// Block logical time (always zero for an emulated call).
    pub block_lt: u64,
    /// Transaction logical time (always zero for an emulated call).
    pub tx_lt: u64,
    /// Account balance written into the context.
    pub balance: u64,
    /// Whether a configuration was attached.
    pub has_config: bool,
    /// Whether the code reference slot was filled (tiers from 4 on).
    pub includes_code: bool,
    /// Whether previous-blocks info was attached.
    pub includes_prev_blocks: bool,
    /// Whether the eagerly unpacked configuration view was attached.
    pub includes_unpacked_config: bool,
}

/// The view carried forward from one unpack attempt: a successfully
/// unpacked tuple is kept, a failure leaves the view absent.
pub fn unpacked_view_of(parsed: Result<VmTuple, tycho_types::error::Error>) -> (r: Option<VmTuple>)
    ensures
        parsed matches Ok(t) ==> r == Some(t),
        parsed is Err ==> r is None,
{
    match parsed {
        Ok(t) => Some(t),
        Err(_) => None,
    }
}

/// Unpacks the configuration view that the context exposes from
/// version 6 on: absent below that version or without a configuration,
/// and omitted in the unreachable case that a configuration valid at
/// parse time fails to unpack at run time.  What each unpack result
/// yields is stated by [`unpacked_view_of`].
pub fn unpack_config_view(config: &Option<ParsedConfig>, now: &Option<u32>) -> (r: Option<VmTuple>)
    ensures
        config is None ==> r is None,
        config matches Some(c) && c.version < 6 ==> r is None,
{
    let c = match config {
        Some(c) => c,
        None => {
            return None;
        },
    };
    if c.version < 6 {
        return None;
    }
    let now_value: u32 = match now {
        Some(n) => *n,
        None => 0,
    };
    unpacked_view_of(vm_unpack_config(&c.params, now_value))
}

/// Builds the tiered execution context for one invocation.
///
/// Absent values fall back to their protocol defaults: time zero, the
/// all-zero random seed and the zero address.  The tier comes solely
/// from the configuration's declared version; with no configuration
/// only the base tier is built.  From version 4 on the code reference
/// and any previous-blocks info are attached; the caller-supplied
/// unpacked configuration view (see [`unpack_config_view`]) is
/// attached exactly from version 6 on.
pub fn build_smc_info(
    now: &Option<u32>,
    rand_seed: &Option<tycho_types::cell::HashBytes>,
    balance: u64,
    extra: &tycho_types::models::ExtraCurrencyCollection,
    address: &Option<tycho_types::models::StdAddr>,
    config: &Option<ParsedConfig>,
    prev_blocks_info: &Option<VmTuple>,
    unpacked_config: Option<VmTuple>,
    code: tycho_types::cell::Cell,
) -> (r: (BuiltSmcInfo, ContextPlan))
    ensures
        ({
            let plan = r.1;
            &&& (config matches Some(c) ==> plan.version == c.version)
            &&& (config is None ==> plan.version == 1)
            &&& plan.tier == tier_of_version(plan.version)
            &&& (now matches Some(n) ==> plan.now == n)
            &&& (now is None ==> plan.now == 0)
            &&& plan.block_lt == 0
            &&& plan.tx_lt == 0
            &&& plan.balance == balance
            &&& plan.has_config == (config is Some)
            &&& plan.includes_code == (plan.tier != Tier::Base)
            &&& plan.includes_prev_blocks == (plan.tier != Tier::Base
                && prev_blocks_info is Some)
            &&& plan.includes_unpacked_config == (tier_rank(plan.tier) >= 2
                && unpacked_config is Some)
            &&& (r.0 is Base <==> plan.tier is Base)
            &&& (r.0 is V4 <==> plan.tier is V4)
            &&& (r.0 is V6 <==> plan.tier is V6)
            &&& (r.0 is V11 <==> plan.tier is V11)
        }),
{
    let version: u32 = match config {
        Some(c) => c.version,
        None => 1,
    };
    let tier = tier_for_version(version);
    let now_value: u32 = match now {
        Some(n) => *n,
        None => 0,
    };
    let seed = match rand_seed {
        Some(h) => copy_hash(h),
        None => hash_zero(),
    };
    let addr = match address {
        Some(a) => clone_std_addr(a),
        None => std_addr_zero(),
    };

    let mut base = smc_base_new();
    base = smc_with_now(base, now_value);
    base = smc_with_block_lt(base, 0);
    base = smc_with_tx_lt(base, 0);
    base = smc_with_raw_rand_seed(base, seed);
    base = smc_with_account_balance(base, balance, extra);
    base = smc_with_account_addr(base, addr);

    match config {
        Some(c) => {
            base = smc_with_config(base, &c.params);
        },
        None => {},
    }

    if version < 4 {
        let plan = ContextPlan {
            version,
            tier,
            now: now_value,
            block_lt: 0,
            tx_lt: 0,
            balance,
            has_config: matches!(config, Some(_)),
            includes_code: false,
            includes_prev_blocks: false,
            includes_unpacked_config: false,
        };
        return (BuiltSmcInfo::Base(base), plan);
    }

    let mut v4 = smc_require_v4(base);
    v4 = smc_v4_with_code(v4, code);
    let mut includes_prev_blocks = false;
    match prev_blocks_info {
        Some(pb) => {
            v4 = smc_v4_with_prev_blocks(v4, pb);
            includes_prev_blocks = true;
        },
        None => {},
    }

    if version < 6 {
        let plan = ContextPlan {
            version,
            tier,
            now: now_value,
            block_lt: 0,
            tx_lt: 0,
            balance,
            has_config: matches!(config, Some(_)),
            includes_code: true,
            includes_prev_blocks,
            includes_unpacked_config: false,
        };
        return (BuiltSmcInfo::V4(v4), plan);
    }

    let mut v6 = smc_v4_require_v6(v4);
    let mut includes_unpacked_config = false;
    match unpacked_config {
        Some(u) => {
            v6 = smc_v6_with_unpacked_config(v6, u);
            includes_unpacked_config = true;
        },
        None => {},
    }

    let plan = ContextPlan {
        version,
        tier,
        now: now_value,
        block_lt: 0,
        tx_lt: 0,
        balance,
        has_config: matches!(config, Some(_)),
        includes_code: true,
        includes_prev_blocks,
        includes_unpacked_config,
    };

    if version < 11 {
        return (BuiltSmcInfo::V6(v6), plan);
    }

    (BuiltSmcInfo::V11(smc_v6_require_v11(v6)), plan)
}

/// Wraps a raw caller-supplied register tuple as a context, bypassing
/// tiering entirely; meant for direct cross-validation against the VM.
pub fn raw_context_info(c7: &VmTuple) -> (r: BuiltSmcInfo)
    ensures
        r is Custom,
{
    BuiltSmcInfo::Custom(smc_custom(c7))
}

// === Trusted wrappers around the context builder ===

/// Relies on `tycho_vm::SmcInfoBase::new`: the all-default base
/// context.
#[verifier::external_body]
fn smc_base_new() -> tycho_vm::SmcInfoBase {
    tycho_vm::SmcInfoBase::new()
}

/// Relies on `SmcInfoBase::with_now`: sets the unix timestamp.
#[verifier::external_body]
fn smc_with_now(b: tycho_vm::SmcInfoBase, now: u32) -> tycho_vm::SmcInfoBase {
    b.with_now(now)
}

/// Relies on `SmcInfoBase::with_block_lt`: sets the block logical
/// time.
#[verifier::external_body]
fn smc_with_block_lt(b: tycho_vm::SmcInfoBase, block_lt: u64) -> tycho_vm::SmcInfoBase {
    b.with_block_lt(block_lt)
}

/// Relies on `SmcInfoBase::with_tx_lt`: sets the transaction logical
/// time.
#[verifier::external_body]
fn smc_with_tx_lt(b: tycho_vm::SmcInfoBase, tx_lt: u64) -> tycho_vm::SmcInfoBase {
    b.with_tx_lt(tx_lt)
}

/// Relies on `SmcInfoBase::with_raw_rand_seed`: sets the random seed.
#[verifier::external_body]
fn smc_with_raw_rand_seed(
    b: tycho_vm::SmcInfoBase,
    seed: tycho_types::cell::HashBytes,
) -> tycho_vm::SmcInfoBase {
    b.with_raw_rand_seed(seed)
}

/// Relies on `SmcInfoBase::with_account_balance`: sets the balance,
/// native amount plus extra currencies.
#[verifier::external_body]
fn smc_with_account_balance(
    b: tycho_vm::SmcInfoBase,
    balance: u64,
    extra: &tycho_types::models::ExtraCurrencyCollection,
) -> tycho_vm::SmcInfoBase {
    b.with_account_balance(tycho_types::models::CurrencyCollection {
        tokens: tycho_types::num::Tokens::new(balance as u128),
        other: extra.clone(),
    })
}

/// Relies on `SmcInfoBase::with_account_addr`: sets the account
/// address.
#[verifier::external_body]
fn smc_with_account_addr(
    b: tycho_vm::SmcInfoBase,
    addr: tycho_types::models::StdAddr,
) -> tycho_vm::SmcInfoBase {
    b.with_account_addr(addr.into())
}

/// Relies on `SmcInfoBase::with_config`: attaches the raw
/// configuration dictionary.
#[verifier::external_body]
fn smc_with_config(
    b: tycho_vm::SmcInfoBase,
    params: &tycho_types::models::BlockchainConfigParams,
) -> tycho_vm::SmcInfoBase {
    b.with_config(params.clone())
}

/// Relies on `SmcInfoBase::require_ton_v4`: extends the context to the
/// version-4 tier (code, message-balance and storage-fee placeholders
/// start out empty and zero).
#[verifier::external_body]
fn smc_require_v4(b: tycho_vm::SmcInfoBase) -> tycho_vm::SmcInfoTonV4 {
    b.require_ton_v4()
}

/// Relies on `SmcInfoTonV4::with_code`: sets the code reference.
#[verifier::external_body]
fn smc_v4_with_code(
    b: tycho_vm::SmcInfoTonV4,
    code: tycho_types::cell::Cell,
) -> tycho_vm::SmcInfoTonV4 {
    b.with_code(code)
}

/// Relies on `SmcInfoTonV4::with_prev_blocks_info`: attaches the
/// previous-blocks tuple.
#[verifier::external_body]
fn smc_v4_with_prev_blocks(
    b: tycho_vm::SmcInfoTonV4,
    prev_blocks: &VmTuple,
) -> tycho_vm::SmcInfoTonV4 {
    b.with_prev_blocks_info(prev_blocks.inner.clone())
}

/// Relies on `SmcInfoTonV4::require_ton_v6`: extends the context to
/// the version-6 tier (the due-payment placeholder starts out zero).
#[verifier::external_body]
fn smc_v4_require_v6(b: tycho_vm::SmcInfoTonV4) -> tycho_vm::SmcInfoTonV6 {
    b.require_ton_v6()
}

/// Relies on `SmcInfoTonV6::with_unpacked_config`: attaches the
/// eagerly unpacked configuration view.
#[verifier::external_body]
fn smc_v6_with_unpacked_config(
    b: tycho_vm::SmcInfoTonV6,
    unpacked: VmTuple,
) -> tycho_vm::SmcInfoTonV6 {
    b.with_unpacked_config(unpacked.inner)
}

/// Relies on `SmcInfoTonV6::require_ton_v11`: extends the context to
/// the version-11 tier (the inbound-message summary slot starts out
/// empty).
#[verifier::external_body]
fn smc_v6_require_v11(b: tycho_vm::SmcInfoTonV6) -> tycho_vm::SmcInfoTonV11 {
    b.require_ton_v11()
}

/// Relies on `tycho_vm::CustomSmcInfo`: wraps a raw register tuple
/// under the latest VM version.
#[verifier::external_body]
fn smc_custom(c7: &VmTuple) -> tycho_vm::CustomSmcInfo {
    tycho_vm::CustomSmcInfo {
        version: tycho_vm::VmVersion::LATEST_TON,
        c7: c7.inner.clone(),
    }
}

} // verus!
