use tycho_types::cell::{Cell, CellBuilder, HashBytes};
use tycho_types::dict::Dict;
use tycho_types::models::{GlobalCapabilities, GlobalVersion, StoragePrices};
use tycho_types::models::BlockchainConfigParams;

use tvm_emu::config::{
    default_size_limits, derive_signature_flags, derive_tx_signature_with_id, ConfigError,
    ParsedConfig, CAP_SIGNATURE_DOMAIN, CAP_SIGNATURE_WITH_ID,
};

fn base_params(version: u32, capabilities: u64) -> BlockchainConfigParams {
    let mut dict = Dict::<u32, Cell>::new();
    let global = GlobalVersion { version, capabilities: GlobalCapabilities::new(capabilities) };
    dict.set(8, CellBuilder::build_from(global).unwrap()).unwrap();
    let mut params = BlockchainConfigParams::from_raw(dict.into_root().unwrap());
    params
        .set_storage_prices(&[StoragePrices {
            utime_since: 0,
            bit_price_ps: 1,
            cell_price_ps: 500,
            mc_bit_price_ps: 1000,
            mc_cell_price_ps: 500000,
        }])
        .unwrap();
    params
}

fn root_of(params: &BlockchainConfigParams) -> Cell {
    params.as_dict().root().clone().unwrap()
}

#[test]
fn parse_minimal_config() {
    let params = base_params(9, 0);
    let config = ParsedConfig::try_from_root(root_of(&params)).unwrap();
    assert_eq!(config.version, 9);
    assert!(!config.enable_signature_domains);
    assert_eq!(config.signature_with_id, None);
}

#[test]
fn missing_global_version_is_rejected() {
    // Storage prices alone: parameter 8 is absent.
    let mut dict = Dict::<u32, Cell>::new();
    dict.set(99, CellBuilder::new().build().unwrap()).unwrap();
    let mut params = BlockchainConfigParams::from_raw(dict.into_root().unwrap());
    params
        .set_storage_prices(&[StoragePrices {
            utime_since: 0,
            bit_price_ps: 1,
            cell_price_ps: 500,
            mc_bit_price_ps: 1000,
            mc_cell_price_ps: 500000,
        }])
        .unwrap();
    let err = ParsedConfig::try_from_root(root_of(&params)).unwrap_err();
    assert_eq!(err, ConfigError::NoGlobalVersion);
}

#[test]
fn missing_storage_prices_fails_fast() {
    // Parameter 18 is mandatory for the highest-tier unpack, which is
    // attempted up front.
    let mut dict = Dict::<u32, Cell>::new();
    let global = GlobalVersion { version: 6, capabilities: GlobalCapabilities::new(0) };
    dict.set(8, CellBuilder::build_from(global).unwrap()).unwrap();
    let params = BlockchainConfigParams::from_raw(dict.into_root().unwrap());
    let err = ParsedConfig::try_from_root(root_of(&params)).unwrap_err();
    assert_eq!(err, ConfigError::UnpackFailed);
}

#[test]
fn signature_domain_capability_demands_global_id() {
    let params = base_params(11, CAP_SIGNATURE_DOMAIN);
    let err = ParsedConfig::try_from_root(root_of(&params)).unwrap_err();
    assert_eq!(err, ConfigError::NoGlobalId);

    let mut params = base_params(11, CAP_SIGNATURE_DOMAIN);
    params.set_global_id(-3).unwrap();
    let config = ParsedConfig::try_from_root(root_of(&params)).unwrap();
    assert!(config.enable_signature_domains);
    assert_eq!(config.signature_with_id, Some(-3));
}

#[test]
fn signature_with_id_capability_demands_global_id() {
    let mut params = base_params(9, CAP_SIGNATURE_WITH_ID);
    params.set_global_id(77).unwrap();
    let config = ParsedConfig::try_from_root(root_of(&params)).unwrap();
    assert!(!config.enable_signature_domains);
    assert_eq!(config.signature_with_id, Some(77));
}

#[test]
fn derive_flags_without_signature_capabilities() {
    assert_eq!(derive_signature_flags(0, Some(5)), Ok((false, None)));
    assert_eq!(derive_signature_flags(0, None), Ok((false, None)));
}

#[test]
fn derive_flags_errors_exactly_when_id_missing() {
    assert_eq!(derive_signature_flags(CAP_SIGNATURE_DOMAIN, None), Err(ConfigError::NoGlobalId));
    assert_eq!(derive_signature_flags(CAP_SIGNATURE_WITH_ID, None), Err(ConfigError::NoGlobalId));
    assert_eq!(
        derive_signature_flags(CAP_SIGNATURE_DOMAIN | CAP_SIGNATURE_WITH_ID, Some(1)),
        Ok((true, Some(1)))
    );
}

#[test]
fn tx_flags_ignore_domain_capability() {
    // The transaction executor derives its id from the with-id
    // capability only.
    assert_eq!(derive_tx_signature_with_id(CAP_SIGNATURE_DOMAIN, None), Ok(None));
    assert_eq!(derive_tx_signature_with_id(CAP_SIGNATURE_WITH_ID, Some(9)), Ok(Some(9)));
    assert_eq!(
        derive_tx_signature_with_id(CAP_SIGNATURE_WITH_ID, None),
        Err(ConfigError::NoGlobalId)
    );
}

#[test]
fn documented_size_limit_defaults() {
    let limits = default_size_limits();
    assert_eq!(limits.max_msg_bits, 1 << 21);
    assert_eq!(limits.max_msg_cells, 1 << 13);
    assert_eq!(limits.max_library_cells, 1000);
    assert_eq!(limits.max_vm_data_depth, 512);
    assert_eq!(limits.max_ext_msg_size, 65535);
    assert_eq!(limits.max_ext_msg_depth, 512);
    assert_eq!(limits.max_acc_state_cells, 1 << 16);
    assert_eq!(limits.max_acc_state_bits, (1 << 16) * 1023);
    assert_eq!(limits.max_acc_public_libraries, 256);
    assert_eq!(limits.defer_out_queue_size_limit, 256);
}

#[test]
fn duplicate_shares_the_same_values() {
    let params = base_params(6, 0);
    let config = ParsedConfig::try_from_root(root_of(&params)).unwrap();
    let copy = config.duplicate();
    assert_eq!(copy.version, config.version);
    assert_eq!(copy.enable_signature_domains, config.enable_signature_domains);
    assert_eq!(copy.signature_with_id, config.signature_with_id);
}
