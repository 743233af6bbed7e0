use manta::{
    AssetCreation, AssetStorageMetadata, AssetsCall, CreationStep, MantaAssetConfig,
    MantaAssetRegistry,
};

const MANAGER: [u8; 32] = [7u8; 32];

fn metadata() -> AssetStorageMetadata {
    AssetStorageMetadata {
        name: b"Kusama".to_vec(),
        symbol: b"KSM".to_vec(),
        decimals: 12,
        is_frozen: false,
    }
}

#[test]
fn registration_creates_first() {
    let (call, _state) = MantaAssetRegistry::create_asset(MANAGER, 8, metadata(), 1, true);
    match call {
        AssetsCall::ForceCreate { id, owner, is_sufficient, min_balance } => {
            assert_eq!(id, 8);
            assert_eq!(owner, MANAGER);
            assert!(is_sufficient);
            assert_eq!(min_balance, 1);
        }
        _ => panic!("expected the creation call"),
    }
}

#[test]
fn failed_creation_is_reported_and_nothing_follows() {
    let (_call, state) = MantaAssetRegistry::create_asset(MANAGER, 8, metadata(), 1, true);
    match state.resume::<&str>(Err("InUse")) {
        CreationStep::Finished(r) => assert_eq!(r, Err("InUse")),
        _ => panic!("expected the registration to end"),
    }
}

#[test]
fn successful_creation_sets_metadata_then_reports_its_outcome() {
    let (_call, state) = MantaAssetRegistry::create_asset(MANAGER, 9, metadata(), 1, false);
    let next = match state.resume::<&str>(Ok(())) {
        CreationStep::Dispatch(call, next) => {
            match call {
                AssetsCall::ForceSetMetadata { id, name, symbol, decimals, is_frozen } => {
                    assert_eq!(id, 9);
                    assert_eq!(name, b"Kusama".to_vec());
                    assert_eq!(symbol, b"KSM".to_vec());
                    assert_eq!(decimals, 12);
                    assert!(!is_frozen);
                }
                _ => panic!("expected the metadata call"),
            }
            next
        }
        _ => panic!("expected a further call"),
    };
    assert!(matches!(next, AssetCreation::AwaitingMetadata));
    match next.resume::<&str>(Err("BadMetadata")) {
        CreationStep::Finished(r) => assert_eq!(r, Err("BadMetadata")),
        _ => panic!("expected the registration to end"),
    }
}

#[test]
fn registration_succeeds_when_both_calls_do() {
    let (_call, state) = MantaAssetRegistry::create_asset(MANAGER, 10, metadata(), 5, true);
    let next = match state.resume::<()>(Ok(())) {
        CreationStep::Dispatch(_, next) => next,
        _ => panic!("expected a further call"),
    };
    assert!(matches!(next.resume::<()>(Ok(())), CreationStep::Finished(Ok(()))));
}

#[test]
fn update_metadata_is_one_metadata_call() {
    match MantaAssetRegistry::update_asset_metadata(&3, metadata()) {
        AssetsCall::ForceSetMetadata { id, name, symbol, decimals, is_frozen } => {
            assert_eq!(id, 3);
            assert_eq!(name, b"Kusama".to_vec());
            assert_eq!(symbol, b"KSM".to_vec());
            assert_eq!(decimals, 12);
            assert!(!is_frozen);
        }
        _ => panic!("expected the metadata call"),
    }
}

#[test]
fn asset_config_values() {
    assert_eq!(MantaAssetConfig::dummy_asset_id(), 0);
    assert_eq!(MantaAssetConfig::native_asset_id(), 1);
    assert_eq!(MantaAssetConfig::start_non_native_asset_id(), 8);
    assert_eq!(MantaAssetConfig::native_asset_location(), (1, 1024));
    let m = MantaAssetConfig::native_asset_metadata();
    assert_eq!(m.metadata.name, b"Dolphin".to_vec());
    assert_eq!(m.metadata.symbol, b"DOL".to_vec());
    assert_eq!(m.metadata.decimals, 18);
    assert!(!m.metadata.is_frozen);
    assert_eq!(m.min_balance, 1);
    assert!(m.is_sufficient);
    assert!(MantaAssetConfig == MantaAssetConfig.clone());
}
