//! Configuration loading and validation.
//!
//! A raw configuration dictionary is validated once, up front: it must
//! unpack under the highest supported tier (fail fast rather than
//! mid-emulation), and it must carry a global version.  The protocol
//! version and the signature-related capability flags are extracted
//! into a [`ParsedConfig`] that is then shared read-only.
//!
//! Missing size limits (parameter 43) are filled with the documented
//! defaults rather than rejected; this is the one policy choice the
//! historical variants disagree on, and defaulting keeps otherwise
//! valid configurations usable.

use vstd::prelude::*;

use crate::interop::ExecConfig;
use crate::interop::VmTuple;
use crate::interop::clone_config_params;

verus! {

/// Capability bit: prepend signatures with the global id.
pub const CAP_SIGNATURE_WITH_ID: u64 = 0x4000000;

/// Capability bit: apply a signature domain to signed data (newer form
/// of [`CAP_SIGNATURE_WITH_ID`], higher priority when both are set).
pub const CAP_SIGNATURE_DOMAIN: u64 = 0x800000000;

/// Why a configuration was rejected.  Construction fails outright; a
/// configuration is never partially applied.
#[derive(Clone, Copy, Debug, PartialEq, Eq, Structural)]
pub enum ConfigError {
    /// The parameters do not unpack under the highest supported tier.
    UnpackFailed,
    /// The global version (parameter 8) is missing or unreadable.
    NoGlobalVersion,
    /// The global id (parameter 19) is mandatory for the enabled
    /// signature capabilities but missing.
    NoGlobalId,
    /// The configuration account address (parameter 0) is missing.
    NoConfigAddress,
    /// The default size limits (parameter 43) could not be written.
    SizeLimitsRejected,
    /// The parameter dictionary itself is unreadable.
    DictAccessFailed,
    /// The transaction executor rejected the parameters.
    ExecutorRejected,
}

impl ConfigError {
    /// A human-readable description of the rejection.
    pub fn message(&self) -> (r: String)
        ensures
            *self is UnpackFailed ==> r@ == "Failed to unpack config params"@,
            *self is NoGlobalVersion ==> r@ == "Failed to get global version"@,
            *self is NoGlobalId ==> r@ == "Global id is mandatory (param 19)"@,
            *self is NoConfigAddress ==> r@ == "Config account address is mandatory in config (param 0)"@,
            *self is SizeLimitsRejected ==> r@ == "Failed to set default size limits (param 43)"@,
            *self is DictAccessFailed ==> r@ == "Failed to read config params"@,
            *self is ExecutorRejected ==> r@ == "Failed to unpack config params"@,
    {
        match self {
            ConfigError::UnpackFailed => "Failed to unpack config params".to_string(),
            ConfigError::NoGlobalVersion => "Failed to get global version".to_string(),
            ConfigError::NoGlobalId => "Global id is mandatory (param 19)".to_string(),
            ConfigError::NoConfigAddress => "Config account address is mandatory in config (param 0)".to_string(),
            ConfigError::SizeLimitsRejected => "Failed to set default size limits (param 43)".to_string(),
            ConfigError::DictAccessFailed => "Failed to read config params".to_string(),
            ConfigError::ExecutorRejected => "Failed to unpack config params".to_string(),
        }
    }
}

/// A validated, versioned configuration, created once per configuration
/// blob and shared read-only afterwards.
#[derive(Debug)]
pub struct ParsedConfig {
    /// The raw parameter dictionary.
    pub params: tycho_types::models::BlockchainConfigParams,
    /// Declared protocol capability version.
    pub version: u32,
    /// Whether the signature-domain capability is enabled.
    pub enable_signature_domains: bool,
    /// The global id to mix into signatures, where a capability demands
    /// one.
    pub signature_with_id: Option<i32>,
}

impl ParsedConfig {
    /// A parsed configuration always carries the global id when the
    /// signature-domain capability is on.
    pub open spec fn wf(&self) -> bool {
        self.enable_signature_domains ==> self.signature_with_id is Some
    }
}

/// The signature flags derived from a capability set: the domain flag
/// is enabled by its capability bit; an id is required (and therefore
/// mandatory) whenever either signature capability is on.
pub open spec fn spec_signature_flags(capabilities: u64, global_id: Option<i32>) -> Result<
    (bool, Option<i32>),
    ConfigError,
> {
    let domains = capabilities & CAP_SIGNATURE_DOMAIN != 0;
    let with_id = capabilities & CAP_SIGNATURE_WITH_ID != 0;
    if domains || with_id {
        match global_id {
            Some(id) => Ok((domains, Some(id))),
            None => Err(ConfigError::NoGlobalId),
        }
    } else {
        Ok((domains, None))
    }
}

/// Derives the signature flags for the get-method emulator: the
/// signature-domain flag comes straight from its capability bit, and a
/// global id is mandatory exactly when either signature capability is
/// enabled.
pub fn derive_signature_flags(capabilities: u64, global_id: Option<i32>) -> (r: Result<
    (bool, Option<i32>),
    ConfigError,
>)
    ensures
        r == spec_signature_flags(capabilities, global_id),
{
    let domains = capabilities & CAP_SIGNATURE_DOMAIN != 0;
    let with_id = capabilities & CAP_SIGNATURE_WITH_ID != 0;
    if domains || with_id {
        match global_id {
            Some(id) => Ok((domains, Some(id))),
            None => Err(ConfigError::NoGlobalId),
        }
    } else {
        Ok((domains, None))
    }
}

/// Derives the signature id for the transaction executor: only the
/// with-id capability demands it there, and it is mandatory when that
/// capability is on.
pub fn derive_tx_signature_with_id(capabilities: u64, global_id: Option<i32>) -> (r: Result<
    Option<i32>,
    ConfigError,
>)
    ensures
        capabilities & CAP_SIGNATURE_WITH_ID != 0 && global_id is Some ==> r == Ok::<
            Option<i32>,
            ConfigError,
        >(global_id),
        capabilities & CAP_SIGNATURE_WITH_ID != 0 && global_id is None ==> r == Err::<
            Option<i32>,
            _,
        >(ConfigError::NoGlobalId),
        capabilities & CAP_SIGNATURE_WITH_ID == 0 ==> r == Ok::<Option<i32>, ConfigError>(
            None::<i32>,
        ),
{
    if capabilities & CAP_SIGNATURE_WITH_ID != 0 {
        match global_id {
            Some(id) => Ok(Some(id)),
            None => Err(ConfigError::NoGlobalId),
        }
    } else {
        Ok(None)
    }
}

impl ParsedConfig {
    /// Parses and validates a configuration from its raw root cell.
    ///
    /// The parameters must unpack under the highest supported context
    /// tier and must declare a global version; the signature flags are
    /// derived from the declared capabilities, demanding a global id
    /// where one is required.
    pub fn try_from_root(root: tycho_types::cell::Cell) -> (r: Result<ParsedConfig, ConfigError>)
        ensures
            r matches Ok(c) ==> c.wf(),
            r matches Err(e) ==> (e == ConfigError::UnpackFailed || e
                == ConfigError::NoGlobalVersion || e == ConfigError::NoGlobalId),
    {
        let params = cfg_from_raw(root);

        // Unpack once now so that a bad configuration fails here, not
        // in the middle of an emulation.
        if vm_unpack_config(&params, 0).is_err() {
            return Err(ConfigError::UnpackFailed);
        }

        let (version, capabilities) = match cfg_global_version(&params) {
            Ok(v) => v,
            Err(_) => {
                return Err(ConfigError::NoGlobalVersion);
            },
        };

        let global_id = match cfg_global_id(&params) {
            Ok(id) => Some(id),
            Err(_) => None,
        };

        let (enable_signature_domains, signature_with_id) = match derive_signature_flags(
            capabilities,
            global_id,
        ) {
            Ok(flags) => flags,
            Err(e) => {
                return Err(e);
            },
        };

        Ok(ParsedConfig { params, version, enable_signature_domains, signature_with_id })
    }

    /// A copy sharing the same underlying dictionary.
    pub fn duplicate(&self) -> (r: ParsedConfig)
        ensures
            r == *self,
    {
        ParsedConfig {
            params: clone_config_params(&self.params),
            version: self.version,
            enable_signature_domains: self.enable_signature_domains,
            signature_with_id: self.signature_with_id,
        }
    }
}

/// Size limits written into a configuration that lacks them.
#[derive(Clone, Copy, Debug, PartialEq, Eq, Structural)]
pub struct SizeLimits {
    /// Max number of bits in a message.
    pub max_msg_bits: u32,
    /// Max number of cells in a message.
    pub max_msg_cells: u32,
    /// Max number of cells in a library.
    pub max_library_cells: u32,
    /// Max cell tree depth for VM data.
    pub max_vm_data_depth: u16,
    /// Max number of bytes of an encoded external message.
    pub max_ext_msg_size: u32,
    /// Max cell tree depth of an external message.
    pub max_ext_msg_depth: u16,
    /// Max number of cells per account.
    pub max_acc_state_cells: u32,
    /// Max number of bits per account.
    pub max_acc_state_bits: u32,
    /// Max number of public libraries per account.
    pub max_acc_public_libraries: u32,
    /// Size limit of a deferred out-messages queue.
    pub defer_out_queue_size_limit: u32,
}

/// The documented defaults for size limits (parameter 43), applied when
/// a configuration omits them.
pub fn default_size_limits() -> (r: SizeLimits)
    ensures
        r == (SizeLimits {
            max_msg_bits: 2097152,
            max_msg_cells: 8192,
            max_library_cells: 1000,
            max_vm_data_depth: 512,
            max_ext_msg_size: 65535,
            max_ext_msg_depth: 512,
            max_acc_state_cells: 65536,
            max_acc_state_bits: 67043328,
            max_acc_public_libraries: 256,
            defer_out_queue_size_limit: 256,
        }),
{
    SizeLimits {
        max_msg_bits: 2097152,
        max_msg_cells: 8192,
        max_library_cells: 1000,
        max_vm_data_depth: 512,
        max_ext_msg_size: 65535,
        max_ext_msg_depth: 512,
        max_acc_state_cells: 65536,
        max_acc_state_bits: 67043328,
        max_acc_public_libraries: 256,
        defer_out_queue_size_limit: 256,
    }
}

// === Trusted wrappers around the configuration dictionary ===

/// Relies on `BlockchainConfigParams::from_raw`: wraps a root cell as a
/// parameter dictionary (no validation happens there).
#[verifier::external_body]
pub fn cfg_from_raw(
    root: tycho_types::cell::Cell,
) -> tycho_types::models::BlockchainConfigParams {
    tycho_types::models::BlockchainConfigParams::from_raw(root)
}

/// Relies on `tycho_vm::SmcInfoTonV6::unpack_config`: unpacks the
/// parameters into the context tuple used by the highest tier, failing
/// on a malformed configuration.
#[verifier::external_body]
pub fn vm_unpack_config(
    params: &tycho_types::models::BlockchainConfigParams,
    now: u32,
) -> Result<VmTuple, tycho_types::error::Error> {
    match tycho_vm::SmcInfoTonV6::unpack_config(params, now) {
        Ok(tuple) => Ok(VmTuple { inner: tuple }),
        Err(e) => Err(e),
    }
}

/// Relies on `BlockchainConfigParams::get_global_version` (parameter
/// 8): returns the declared version and the raw capability bit set.
#[verifier::external_body]
pub fn cfg_global_version(
    params: &tycho_types::models::BlockchainConfigParams,
) -> Result<(u32, u64), tycho_types::error::Error> {
    match params.get_global_version() {
        Ok(global) => Ok((global.version, global.capabilities.into_inner())),
        Err(e) => Err(e),
    }
}

/// Relies on `BlockchainConfigParams::get_global_id` (parameter 19).
#[verifier::external_body]
pub fn cfg_global_id(
    params: &tycho_types::models::BlockchainConfigParams,
) -> Result<i32, tycho_types::error::Error> {
    params.get_global_id()
}

/// Relies on `Dict::contains_key` over the parameter dictionary.
#[verifier::external_body]
pub fn cfg_has_param(
    params: &tycho_types::models::BlockchainConfigParams,
    id: u32,
) -> Result<bool, tycho_types::error::Error> {
    params.as_dict().contains_key(id)
}

/// Relies on `BlockchainConfigParams::set_size_limits` (parameter 43):
/// writes the given limits into the dictionary.
#[verifier::external_body]
pub fn cfg_set_size_limits(
    params: &mut tycho_types::models::BlockchainConfigParams,
    limits: &SizeLimits,
) -> Result<bool, tycho_types::error::Error> {
    params.set_size_limits(&tycho_types::models::SizeLimitsConfig {
        max_msg_bits: limits.max_msg_bits,
        max_msg_cells: limits.max_msg_cells,
        max_library_cells: limits.max_library_cells,
        max_vm_data_depth: limits.max_vm_data_depth,
        max_ext_msg_size: limits.max_ext_msg_size,
        max_ext_msg_depth: limits.max_ext_msg_depth,
        max_acc_state_cells: limits.max_acc_state_cells,
        max_acc_state_bits: limits.max_acc_state_bits,
        max_acc_public_libraries: limits.max_acc_public_libraries,
        defer_out_queue_size_limit: limits.defer_out_queue_size_limit,
    })
}

/// Relies on `BlockchainConfigParams::get::<ConfigParam0>`: the address
/// of the configuration account, when present.
#[verifier::external_body]
pub fn cfg_param0_address(
    params: &tycho_types::models::BlockchainConfigParams,
) -> Result<Option<tycho_types::cell::HashBytes>, tycho_types::error::Error> {
    params.get::<tycho_types::models::ConfigParam0>()
}

/// Relies on `tycho_executor::ParsedConfig::parse`: pre-parses the
/// configuration for the transaction executor, failing on malformed or
/// missing mandatory parameters.
#[verifier::external_body]
pub fn exec_parse_config(
    params: &tycho_types::models::BlockchainConfigParams,
    address: tycho_types::cell::HashBytes,
    now: u32,
) -> Result<ExecConfig, tycho_types::error::Error> {
    match tycho_executor::ParsedConfig::parse(
        tycho_types::models::BlockchainConfig { address, params: params.clone() },
        now,
    ) {
        Ok(parsed) => Ok(ExecConfig { inner: parsed }),
        Err(e) => Err(e),
    }
}

} // verus!
