//! Declarations of the outside crates' types that the library carries
//! through its logic, together with small trusted glue around them.
//!
//! Every value of one of these types is opaque to the verifier: the
//! library moves such values around but never looks inside them.  Each
//! wrapper's doc comment names the outside item relied on.

use vstd::prelude::*;

use tycho_vm::TupleExt;

verus! {

// === tycho_types ===

/// Content-addressed tree blob; the serialized form of every domain
/// object.  Carried through the library opaquely, never inspected.
#[verifier::external_type_specification]
#[verifier::external_body]
pub struct ExCell(tycho_types::cell::Cell);

/// A 256-bit hash (account id, random seed, library hash).
#[verifier::external_type_specification]
#[verifier::external_body]
pub struct ExHashBytes(tycho_types::cell::HashBytes);

/// Standard internal address: workchain plus fixed-length hash.
#[verifier::external_type_specification]
#[verifier::external_body]
pub struct ExStdAddr(tycho_types::models::StdAddr);

/// Dictionary cell keyed by a fixed-width type.
#[verifier::external_type_specification]
#[verifier::external_body]
#[verifier::reject_recursive_types(K)]
#[verifier::reject_recursive_types(V)]
pub struct ExDict<K, V>(tycho_types::dict::Dict<K, V>);

/// A published contract library (root cell plus visibility flag).
#[verifier::external_type_specification]
#[verifier::external_body]
pub struct ExSimpleLib(tycho_types::models::SimpleLib);

/// A shared contract library with its publisher set.
#[verifier::external_type_specification]
#[verifier::external_body]
pub struct ExLibDescr(tycho_types::models::LibDescr);

/// An account state entry together with its last-transaction pointer.
#[verifier::external_type_specification]
#[verifier::external_body]
pub struct ExShardAccount(tycho_types::models::ShardAccount);

/// The raw configuration dictionary (number-keyed parameters).
#[verifier::external_type_specification]
#[verifier::external_body]
pub struct ExBlockchainConfigParams(tycho_types::models::BlockchainConfigParams);

/// The codec's error type.
#[verifier::external_type_specification]
#[verifier::external_body]
pub struct ExTypesError(tycho_types::error::Error);

/// Amounts held in currencies other than the native one.
#[verifier::external_type_specification]
#[verifier::external_body]
pub struct ExExtraCurrencyCollection(tycho_types::models::ExtraCurrencyCollection);

// === tycho_vm ===

/// A VM value stack.
#[verifier::external_type_specification]
#[verifier::external_body]
pub struct ExStack(tycho_vm::Stack);

/// The VM's behaviour switches.
#[verifier::external_type_specification]
#[verifier::external_body]
pub struct ExBehaviourModifiers(tycho_vm::BehaviourModifiers);

/// Base execution-context values (always present).
#[verifier::external_type_specification]
#[verifier::external_body]
pub struct ExSmcInfoBase(tycho_vm::SmcInfoBase);

/// Execution context extended for protocol version 4.
#[verifier::external_type_specification]
#[verifier::external_body]
pub struct ExSmcInfoTonV4(tycho_vm::SmcInfoTonV4);

/// Execution context extended for protocol version 6.
#[verifier::external_type_specification]
#[verifier::external_body]
pub struct ExSmcInfoTonV6(tycho_vm::SmcInfoTonV6);

/// Execution context extended for protocol version 11.
#[verifier::external_type_specification]
#[verifier::external_body]
pub struct ExSmcInfoTonV11(tycho_vm::SmcInfoTonV11);

/// A raw, caller-supplied execution context that bypasses tiering.
#[verifier::external_type_specification]
#[verifier::external_body]
pub struct ExCustomSmcInfo(tycho_vm::CustomSmcInfo);

/// Holds a reference-counted VM tuple (`tycho_vm::SafeRc<tycho_vm::Tuple>`).
/// The tuple's items are trait objects, so the reference-counted type
/// cannot be declared to the verifier; the value is carried opaquely in
/// this private field instead.
#[verifier::external_body]
pub struct VmTuple {
    pub(crate) inner: tycho_vm::SafeRc<tycho_vm::Tuple>,
}

// === tycho_executor ===

/// Holds the executor's pre-parsed configuration
/// (`tycho_executor::ParsedConfig`).  That type shares its name with
/// this crate's own parsed-configuration type, so it cannot be declared
/// to the verifier and is carried opaquely in this private field
/// instead.
#[verifier::external_body]
pub struct ExecConfig {
    pub(crate) inner: tycho_executor::ParsedConfig,
}

/// The executor's invocation parameters.
#[verifier::external_type_specification]
#[verifier::external_body]
pub struct ExExecutorParams(tycho_executor::ExecutorParams);

/// The executor's error type: a transaction is either skipped or fails
/// fatally.
#[verifier::external_type_specification]
#[verifier::external_body]
pub struct ExTxError(tycho_executor::TxError);

// === Trusted glue ===

/// Relies on the derived `Clone` for `tycho_types::cell::Cell`: cloning
/// bumps a reference count and yields the same cell.
#[verifier::external_body]
pub fn clone_cell(c: &tycho_types::cell::Cell) -> (r: tycho_types::cell::Cell)
    ensures
        r == *c,
{
    c.clone()
}

/// Relies on the derived `Clone` for `tycho_types::models::StdAddr`:
/// the clone carries the same workchain, hash and anycast info.
#[verifier::external_body]
pub fn clone_std_addr(a: &tycho_types::models::StdAddr) -> (r: tycho_types::models::StdAddr)
    ensures
        r == *a,
{
    a.clone()
}

/// Relies on `Copy` for `tycho_types::cell::HashBytes` (a 32-byte
/// array): the copy is the same hash.
#[verifier::external_body]
pub fn copy_hash(h: &tycho_types::cell::HashBytes) -> (r: tycho_types::cell::HashBytes)
    ensures
        r == *h,
{
    *h
}

/// Relies on the derived `Clone` for
/// `tycho_types::models::BlockchainConfigParams` (a dictionary cell
/// handle): the clone is the same dictionary.
#[verifier::external_body]
pub fn clone_config_params(
    p: &tycho_types::models::BlockchainConfigParams,
) -> (r: tycho_types::models::BlockchainConfigParams)
    ensures
        r == *p,
{
    p.clone()
}

/// Relies on `HashBytes::ZERO`: the all-zero hash, the default for
/// absent seeds and addresses.
#[verifier::external_body]
pub fn hash_zero() -> tycho_types::cell::HashBytes {
    tycho_types::cell::HashBytes::ZERO
}

/// Relies on `StdAddr::new`: the zero address of the base workchain,
/// used when no address was configured.
#[verifier::external_body]
pub fn std_addr_zero() -> tycho_types::models::StdAddr {
    tycho_types::models::StdAddr::new(0, tycho_types::cell::HashBytes::ZERO)
}

/// Relies on `Cell::parse::<tycho_vm::Stack>` and
/// `TupleExt::try_get_owned`: decodes a serialized stack and takes the
/// tuple in its first slot, or the codec's error when the cell decodes
/// to no such stack.
#[verifier::external_body]
pub fn parse_raw_context_stack(
    cell: &tycho_types::cell::Cell,
) -> Result<VmTuple, tycho_types::error::Error> {
    let stack = cell.parse::<tycho_vm::Stack>()?;
    match stack.items.try_get_owned::<tycho_vm::Tuple>(0) {
        Ok(tuple) => Ok(VmTuple { inner: tuple }),
        Err(_) => Err(tycho_types::error::Error::InvalidData),
    }
}

/// Relies on `tycho_vm::Stack::load_stack_value_from_cell` and
/// `StackValue::into_tuple`: decodes a serialized stack value and
/// returns the tuple it holds, `None` for the null value, or the
/// codec's error when the cell holds neither.
#[verifier::external_body]
pub fn parse_tuple_cell(
    cell: &tycho_types::cell::Cell,
) -> Result<Option<VmTuple>, tycho_types::error::Error> {
    let value = tycho_vm::Stack::load_stack_value_from_cell(cell.as_ref())?;
    if value.is_null() {
        return Ok(None);
    }
    match value.into_tuple() {
        Ok(tuple) => Ok(Some(VmTuple { inner: tuple })),
        Err(_) => Err(tycho_types::error::Error::InvalidData),
    }
}

} // verus!
