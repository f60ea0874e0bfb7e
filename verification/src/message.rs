//! Synthesis of inbound message envelopes.
//!
//! The "simulate receiving this body" entry points build a fully formed
//! internal or external inbound envelope from a raw body and an amount,
//! addressed to the handle's configured address.  Protocol-mandated
//! fields are zeroed except the semantically required ones: an internal
//! envelope bounces and has hypercube routing disabled; an external
//! envelope carries no source and no import fee.

use vstd::prelude::*;

use tycho_types::cell::Cell;
use tycho_types::cell::CellSliceParts;
use tycho_types::cell::HashBytes;
use tycho_types::models::CurrencyCollection;
use tycho_types::models::ExtInMsgInfo;
use tycho_types::models::IntMsgInfo;
use tycho_types::models::MsgInfo;
use tycho_types::models::OwnedMessage;
use tycho_types::models::StdAddr;
use tycho_types::num::Tokens;
use tycho_types::prelude::CellBuilder;

use crate::interop::clone_std_addr;

verus! {

/// Source workchain of a synthesized internal envelope: the
/// masterchain, with the all-zero account id.
pub const SYNTHETIC_SRC_WORKCHAIN: i8 = -1;

/// Stack balance substituted when the handle has none configured.
pub const DEFAULT_STACK_BALANCE: u64 = 10000000000;

/// A fully specified internal inbound envelope.  The source address is
/// the all-zero account of `src_workchain`.
pub struct InternalMessagePlan {
    /// Hypercube routing disabled (always, for a synthetic envelope).
    pub ihr_disabled: bool,
    /// Bounce back on failure (always, for a synthetic envelope).
    pub bounce: bool,
    /// Whether this envelope is itself a bounce (never).
    pub bounced: bool,
    /// Source workchain; the source account id is all-zero.
    pub src_workchain: i8,
    /// Destination: the handle's configured address.
    pub dst: StdAddr,
    /// Carried amount in native currency.
    pub amount: u64,
    /// Forwarding fee (zeroed).
    pub fwd_fee: u64,
    /// Creation logical time (zeroed).
    pub created_lt: u64,
    /// Creation unix time (zeroed).
    pub created_at: u32,
    /// Message body.
    pub body: Cell,
}

/// A fully specified external inbound envelope.  It carries no source
/// address.
pub struct ExternalMessagePlan {
    /// Destination: the handle's configured address.
    pub dst: StdAddr,
    /// Import fee (zeroed: none is charged for an emulated call).
    pub import_fee: u64,
    /// Message body.
    pub body: Cell,
}

/// Builds the internal envelope for a body carrying `amount`: bounce
/// on, hypercube routing off, not itself a bounce, sourced from the
/// masterchain zero account, and every protocol fee and timestamp
/// zeroed.
pub fn synthesize_internal_message(dst: &StdAddr, amount: u64, body: Cell) -> (r:
    InternalMessagePlan)
    ensures
        r.ihr_disabled,
        r.bounce,
        !r.bounced,
        r.src_workchain == SYNTHETIC_SRC_WORKCHAIN,
        r.dst == dst,
        r.amount == amount,
        r.fwd_fee == 0,
        r.created_lt == 0,
        r.created_at == 0,
        r.body == body,
{
    InternalMessagePlan {
        ihr_disabled: true,
        bounce: true,
        bounced: false,
        src_workchain: SYNTHETIC_SRC_WORKCHAIN,
        dst: clone_std_addr(dst),
        amount,
        fwd_fee: 0,
        created_lt: 0,
        created_at: 0,
        body,
    }
}

/// Builds the external envelope for a body: no source, no import fee.
pub fn synthesize_external_message(dst: &StdAddr, body: Cell) -> (r: ExternalMessagePlan)
    ensures
        r.dst == dst,
        r.import_fee == 0,
        r.body == body,
{
    ExternalMessagePlan { dst: clone_std_addr(dst), import_fee: 0, body }
}

/// The initial VM stack for a message send: the account balance (with
/// a default substituted when none is configured), the carried amount,
/// the encoded envelope, and the raw body.
pub struct MessageStackPlan {
    /// Balance entry pushed first.
    pub balance_entry: u64,
    /// Amount entry pushed second.
    pub amount: u64,
    /// The encoded envelope cell.
    pub message: Cell,
    /// The raw body, pushed as a slice.
    pub body: Cell,
}

/// Assembles the stack plan for a message send: a zero configured
/// balance is replaced by the default stack balance, everything else
/// is passed through.
pub fn build_message_stack(balance: u64, amount: u64, message: Cell, body: Cell) -> (r:
    MessageStackPlan)
    ensures
        balance > 0 ==> r.balance_entry == balance,
        balance == 0 ==> r.balance_entry == DEFAULT_STACK_BALANCE,
        r.amount == amount,
        r.message == message,
        r.body == body,
{
    let balance_entry: u64 = if balance > 0 {
        balance
    } else {
        DEFAULT_STACK_BALANCE
    };
    MessageStackPlan { balance_entry, amount, message, body }
}

// === Trusted wrappers around the message codec ===

/// Relies on `CellBuilder::build_from` over `OwnedMessage` with an
/// internal-message header: encodes the envelope, copying each plan
/// field into its header field; the source account id is all-zero and
/// the extra flags stay at their default.  Encoding fails with the
/// codec's error when the body exceeds a codec limit (a body at the
/// maximum cell depth cannot be attached).
#[verifier::external_body]
pub fn encode_internal_message(
    plan: &InternalMessagePlan,
) -> Result<Cell, tycho_types::error::Error> {
    let info = MsgInfo::Int(IntMsgInfo {
        ihr_disabled: plan.ihr_disabled, bounce: plan.bounce, bounced: plan.bounced,
        src: StdAddr::new(plan.src_workchain, HashBytes::ZERO).into(),
        dst: plan.dst.clone().into(),
        value: CurrencyCollection::new(plan.amount as u128),
        extra_flags: Default::default(),
        fwd_fee: Tokens::new(plan.fwd_fee as u128),
        created_lt: plan.created_lt, created_at: plan.created_at,
    });
    let msg = OwnedMessage { info, init: None, body: plan.body.clone().into(), layout: None };
    CellBuilder::build_from(msg)
}

/// Relies on `CellBuilder::build_from` over `OwnedMessage` with an
/// external-inbound header: encodes the envelope, with no source
/// address and the plan's import fee.  Encoding fails with the codec's
/// error when the body exceeds a codec limit (a body at the maximum
/// cell depth cannot be attached).
#[verifier::external_body]
pub fn encode_external_message(
    plan: &ExternalMessagePlan,
) -> Result<Cell, tycho_types::error::Error> {
    let info = MsgInfo::ExtIn(ExtInMsgInfo {
        src: None,
        dst: plan.dst.clone().into(),
        import_fee: Tokens::new(plan.import_fee as u128),
    });
    let msg = OwnedMessage { info, init: None, body: plan.body.clone().into(), layout: None };
    CellBuilder::build_from(msg)
}

/// Relies on `tycho_vm::RcStackValue::new_dyn_value` and
/// `tycho_vm::OwnedCellSlice`: builds the VM stack holding the balance
/// and amount integers, the envelope cell and the body slice, in that
/// order.
#[verifier::external_body]
pub fn make_message_stack(plan: &MessageStackPlan) -> tycho_vm::Stack {
    let mut items: Vec<tycho_vm::RcStackValue> = Vec::with_capacity(4);
    items.push(tycho_vm::RcStackValue::new_dyn_value(num_bigint::BigInt::from(
        plan.balance_entry,
    )));
    items.push(tycho_vm::RcStackValue::new_dyn_value(num_bigint::BigInt::from(plan.amount)));
    items.push(tycho_vm::SafeRc::into_dyn_value(tycho_vm::SafeRc::new(plan.message.clone())));
    let body = tycho_vm::OwnedCellSlice::from(CellSliceParts::from(plan.body.clone()));
    items.push(tycho_vm::RcStackValue::new_dyn_value(body));
    tycho_vm::Stack { items }
}

} // verus!
