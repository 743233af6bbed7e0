//! Weights of the Dolphin runtime's XCM instructions and the Manta SBT
//! asset-registry helpers, with their behaviour stated and proved.

mod asset_registry;
mod benchmark;
mod mock_params;
mod weight;
mod xcm_weights;

pub use weight::{saturating_product, Weight};
pub use xcm_weights::{
    capped, filter_count, holding_cap, lemma_capped_bounds, lemma_definite_filter_weighs_as_set,
    lemma_empty_weighs_as_one, lemma_proof_size_ignored, lemma_unsupported_is_heaviest,
    lemma_weigh_at_least_base, lemma_weigh_is_saturated_product, lemma_weigh_monotone,
    lemma_wild_weighs_as_max_assets, unsupported, weigh_count, DolphinXcmWeight, MultiAssetFilter,
    MultiAssets, XcmFungibleWeight, XcmGeneric, MAX_ASSETS,
};
pub use asset_registry::{
    creation_next, dolphin_name, dolphin_symbol, lemma_metadata_call_carries_metadata,
    lemma_registration_protocol, lemma_registration_sets_given_metadata, set_metadata_call,
    AssetCreation, AssetRegistryMetadata, AssetStorageMetadata, AssetsCall, Balance, CreationStep,
    MantaAssetConfig, MantaAssetRegistry, StandardAssetId,
};
pub use benchmark::{
    alice, alice_seed, big_endian_value, is_secret_key, keccak_256_hash, secp256k1_order, try_alice,
    SecretKey, SecretKeyError,
};
pub use mock_params::{
    alice_account, is_non_pausable, minimum_weight_remain_in_block, non_pausable_names,
    non_pausable_pallets, APPROVAL_DEPOSIT, ASSETS_STRING_LIMIT, ASSET_ACCOUNT_DEPOSIT, ASSET_DEPOSIT,
    BLOCK_HASH_COUNT, COLLECTION_DEPOSIT, DB_READ_WEIGHT, DB_WRITE_WEIGHT, EXISTENTIAL_DEPOSIT,
    ITEM_DEPOSIT, KEY_LIMIT, MAX_CALL_NAMES, MAX_CONSUMERS, MAX_LOCKS, MAX_RESERVES,
    METADATA_DEPOSIT_BASE, METADATA_DEPOSIT_PER_BYTE, MINIMUM_PERIOD, MINIMUM_REF_TIME_REMAIN_IN_BLOCK,
    MINTS_PER_RESERVE, REGISTRY_BOUND, REMOVE_ITEMS_LIMIT, RESERVE_PRICE, SBT_METADATA_BOUND,
    VALUE_LIMIT,
};
