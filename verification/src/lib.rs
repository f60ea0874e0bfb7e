//! Off-chain emulation of TON-style smart-contract execution.
//!
//! The crate turns blockchain domain objects (account state, inbound
//! message, configuration) into a fully specified virtual-machine
//! invocation, selects the gas policy for the call shape, dispatches to
//! the execution engine, and classifies the raw outcome.  The bytecode
//! interpreter, the cell codec and the transaction executor's phase
//! sequencing are consumed as opaque capabilities of outside crates.

pub mod config;
pub mod context;
pub mod engine;
pub mod errors;
pub mod gas;
pub mod interop;
pub mod logbuf;
pub mod message;
pub mod tvm;
pub mod tx;
pub mod util;
