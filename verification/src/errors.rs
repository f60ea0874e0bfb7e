//! Input rejection: why an emulation request was refused before any
//! execution happened.

use vstd::prelude::*;

verus! {

/// Why an emulation input was rejected before anything ran.  Such
/// errors are always surfaced, never retried, and never mutate the
/// handle's persisted state.
#[derive(Clone, Copy, Debug, PartialEq, Eq, Structural)]
pub enum InputError {
    /// The inbound message's header does not decode.
    MsgInfoUnreadable,
    /// The account state entry does not decode.
    AccountUnreadable,
    /// The message is an external outbound one, which can never be an
    /// emulation input.
    OnlyInboundAccepted,
    /// A periodic trigger was asked of a nonexistent account.
    TickTockOnEmptyAccount,
    /// The resolved address is variable-length, which is unsupported.
    VarAddrUnsupported,
    /// The previous-blocks cell holds neither a tuple nor null.
    PrevBlocksNotATuple,
    /// The configuration's storage prices do not decode for the block
    /// time.
    StoragePricesUnreadable,
    /// The raw register context holds no tuple in its first slot.
    RawContextUnreadable,
    /// The trigger flags disagree: a closing trigger was asked for
    /// without the trigger call itself.
    InconsistentTickTockFlags,
    /// A periodic trigger cannot carry an inbound message.
    MessageWithTickTock,
    /// An ordinary transaction needs an inbound message.
    MessageRequired,
    /// The synthesized envelope does not encode (the body exceeds a
    /// codec limit).
    MessageUnencodable,
}

impl InputError {
    /// A human-readable description of the rejection.
    pub fn message(&self) -> (r: String)
        ensures
            *self is MsgInfoUnreadable ==> r@ == "Failed to unpack message info"@,
            *self is AccountUnreadable ==> r@ == "Failed to unpack account"@,
            *self is OnlyInboundAccepted ==> r@
                == "Only internal and external inbound messages are accepted"@,
            *self is TickTockOnEmptyAccount ==> r@
                == "Can't run tick-tock transaction on account_none"@,
            *self is VarAddrUnsupported ==> r@ == "var_addr is not supported"@,
            *self is PrevBlocksNotATuple ==> r@
                == "Failed to set previous blocks tuple: not a tuple"@,
            *self is StoragePricesUnreadable ==> r@ == "Failed to unpack storage prices"@,
            *self is RawContextUnreadable ==> r@ == "Failed to deserialize context tuple"@,
            *self is InconsistentTickTockFlags ==> r@
                == "Inconsistent parameters is_tick_tock=false, is_tock=true"@,
            *self is MessageWithTickTock ==> r@
                == "Tick-tock transactions cannot have an inbound message"@,
            *self is MessageRequired ==> r@
                == "Inbound message is required for ordinary transactions"@,
            *self is MessageUnencodable ==> r@ == "Failed to encode message"@,
    {
        match self {
            InputError::MsgInfoUnreadable => "Failed to unpack message info".to_string(),
            InputError::AccountUnreadable => "Failed to unpack account".to_string(),
            InputError::OnlyInboundAccepted => "Only internal and external inbound messages are accepted".to_string(),
            InputError::TickTockOnEmptyAccount => "Can't run tick-tock transaction on account_none".to_string(),
            InputError::VarAddrUnsupported => "var_addr is not supported".to_string(),
            InputError::PrevBlocksNotATuple => "Failed to set previous blocks tuple: not a tuple".to_string(),
            InputError::StoragePricesUnreadable => "Failed to unpack storage prices".to_string(),
            InputError::RawContextUnreadable => "Failed to deserialize context tuple".to_string(),
            InputError::InconsistentTickTockFlags => "Inconsistent parameters is_tick_tock=false, is_tock=true".to_string(),
            InputError::MessageWithTickTock => "Tick-tock transactions cannot have an inbound message".to_string(),
            InputError::MessageRequired => "Inbound message is required for ordinary transactions".to_string(),
            InputError::MessageUnencodable => "Failed to encode message".to_string(),
        }
    }
}

} // verus!
