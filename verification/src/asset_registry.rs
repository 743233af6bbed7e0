//! The asset registry that the Manta SBT test runtime hands to its asset
//! manager, and the asset configuration of that runtime.
//!
//! Registering an asset takes two calls into the assets pallet, made with root
//! origin: one that creates the asset, owned by the asset manager's account,
//! then, only if that succeeded, one that sets its metadata. The registry decides which call to make next and what
//! the registration returns; whoever runs the runtime dispatches the calls and
//! hands their outcomes back.
use vstd::prelude::*;

verus! {

/// The identifier of an asset.
pub type StandardAssetId = u128;

/// An amount of an asset.
pub type Balance = u128;

/// The metadata that the assets pallet stores for an asset.
#[derive(Clone, Debug)]
pub struct AssetStorageMetadata {
    pub name: Vec<u8>,
    pub symbol: Vec<u8>,
    pub decimals: u8,
    pub is_frozen: bool,
}

/// The metadata with which an asset is registered.
#[derive(Clone, Debug)]
pub struct AssetRegistryMetadata {
    pub metadata: AssetStorageMetadata,
    pub min_balance: Balance,
    pub is_sufficient: bool,
}

/// A call into the assets pallet, dispatched with root origin.
#[derive(Clone, Debug)]
pub enum AssetsCall {
    /// `force_create`, owned by the account `owner`.
    ForceCreate {
        id: StandardAssetId,
        owner: [u8; 32],
        is_sufficient: bool,
        min_balance: Balance,
    },
    /// `force_set_metadata`.
    ForceSetMetadata {
        id: StandardAssetId,
        name: Vec<u8>,
        symbol: Vec<u8>,
        decimals: u8,
        is_frozen: bool,
    },
}

/// Where a registration stands between two calls.
#[derive(Debug)]
pub enum AssetCreation {
    /// The creation call is out; the metadata is still to be set.
    AwaitingCreation { id: StandardAssetId, metadata: AssetStorageMetadata },
    /// The metadata call is out.
    AwaitingMetadata,
}

/// What a registration does next.
#[derive(Debug)]
pub enum CreationStep<E> {
    /// Dispatch the call, then resume from the given state with its outcome.
    Dispatch(AssetsCall, AssetCreation),
    /// The registration is over, with this result.
    Finished(Result<(), E>),
}

/// The call that sets `metadata` on asset `id`.
pub open spec fn set_metadata_call(id: StandardAssetId, metadata: AssetStorageMetadata) -> AssetsCall {
    AssetsCall::ForceSetMetadata {
        id,
        name: metadata.name,
        symbol: metadata.symbol,
        decimals: metadata.decimals,
        is_frozen: metadata.is_frozen,
    }
}

/// The step that follows a call's outcome: a failed creation ends the
/// registration with its error; a successful one sets the metadata; the
/// metadata call's outcome is the registration's result.
pub open spec fn creation_next<E>(state: AssetCreation, outcome: Result<(), E>) -> CreationStep<E> {
    match state {
        AssetCreation::AwaitingCreation { id, metadata } => match outcome {
            Ok(()) => CreationStep::Dispatch(
                set_metadata_call(id, metadata),
                AssetCreation::AwaitingMetadata,
            ),
            Err(e) => CreationStep::Finished(Err(e)),
        },
        AssetCreation::AwaitingMetadata => CreationStep::Finished(outcome),
    }
}

/// The asset registry of the test runtime, backed by its assets pallet.
#[derive(Clone, Copy, Debug)]
pub struct MantaAssetRegistry;

impl MantaAssetRegistry {
    /// Starts registering asset `asset_id`: the first call to dispatch, which
    /// creates the asset owned by `asset_manager` (the asset manager's
    /// account), and the state to resume from with its outcome.
    pub fn create_asset(
        asset_manager: [u8; 32],
        asset_id: StandardAssetId,
        metadata: AssetStorageMetadata,
        min_balance: Balance,
        is_sufficient: bool,
    ) -> (r: (AssetsCall, AssetCreation))
        ensures
            r.0 == (AssetsCall::ForceCreate {
                id: asset_id,
                owner: asset_manager,
                is_sufficient,
                min_balance,
            }),
            r.1 == (AssetCreation::AwaitingCreation { id: asset_id, metadata }),
    {
        (
            AssetsCall::ForceCreate { id: asset_id, owner: asset_manager, is_sufficient, min_balance },
            AssetCreation::AwaitingCreation { id: asset_id, metadata },
        )
    }

    /// The call that replaces the metadata of asset `asset_id`; its outcome is
    /// the update's result.
    pub fn update_asset_metadata(asset_id: &StandardAssetId, metadata: AssetStorageMetadata) -> (r:
        AssetsCall)
        ensures
            r == set_metadata_call(*asset_id, metadata),
            r == (AssetsCall::ForceSetMetadata {
                id: *asset_id,
                name: metadata.name,
                symbol: metadata.symbol,
                decimals: metadata.decimals,
                is_frozen: metadata.is_frozen,
            }),
    {
        AssetsCall::ForceSetMetadata {
            id: *asset_id,
            name: metadata.name,
            symbol: metadata.symbol,
            decimals: metadata.decimals,
            is_frozen: metadata.is_frozen,
        }
    }
}

impl AssetCreation {
    /// The step after the outstanding call came back with `outcome`.
    pub fn resume<E>(self, outcome: Result<(), E>) -> (r: CreationStep<E>)
        ensures
            r == creation_next(self, outcome),
            self matches AssetCreation::AwaitingCreation { id, metadata } ==> (outcome is Ok <==> r
                == CreationStep::<E>::Dispatch(
                AssetsCall::ForceSetMetadata {
                    id,
                    name: metadata.name,
                    symbol: metadata.symbol,
                    decimals: metadata.decimals,
                    is_frozen: metadata.is_frozen,
                },
                AssetCreation::AwaitingMetadata,
            )),
            self matches AssetCreation::AwaitingCreation { .. } ==> (outcome matches Err(e) ==> r
                == CreationStep::<E>::Finished(Err(e))),
            self is AwaitingMetadata ==> r == CreationStep::<E>::Finished(outcome),
    {
        match self {
            AssetCreation::AwaitingCreation { id, metadata } => match outcome {
                Ok(()) => CreationStep::Dispatch(
                    MantaAssetRegistry::update_asset_metadata(&id, metadata),
                    AssetCreation::AwaitingMetadata,
                ),
                Err(e) => CreationStep::Finished(Err(e)),
            },
            AssetCreation::AwaitingMetadata => CreationStep::Finished(outcome),
        }
    }
}

/// A registration runs as the runtime asks: the asset is created first; a
/// failed creation is reported as is and nothing more is dispatched; after a
/// successful one exactly the metadata call follows, and its outcome is the
/// registration's result. So a registration succeeds if and only if both
/// calls do.
pub proof fn lemma_registration_protocol<E>(
    asset_id: StandardAssetId,
    metadata: AssetStorageMetadata,
    created: Result<(), E>,
    metadata_set: Result<(), E>,
)
    ensures
        ({
            let start = AssetCreation::AwaitingCreation { id: asset_id, metadata };
            match created {
                Err(e) => creation_next(start, created) == CreationStep::<E>::Finished(Err(e)),
                Ok(()) => creation_next(start, created) == CreationStep::<E>::Dispatch(
                    set_metadata_call(asset_id, metadata),
                    AssetCreation::AwaitingMetadata,
                ) && creation_next(AssetCreation::AwaitingMetadata, metadata_set)
                    == CreationStep::<E>::Finished(metadata_set),
            }
        }),
{
}

/// The metadata call for asset `id` carries exactly the given metadata: the
/// same id, name, symbol, decimals and freeze flag.
pub proof fn lemma_metadata_call_carries_metadata(id: StandardAssetId, metadata: AssetStorageMetadata)
    ensures
        set_metadata_call(id, metadata) matches AssetsCall::ForceSetMetadata {
            id: call_id,
            name,
            symbol,
            decimals,
            is_frozen,
        } && call_id == id && name == metadata.name && symbol == metadata.symbol && decimals
            == metadata.decimals && is_frozen == metadata.is_frozen,
{
}

/// A registration's second call is the very call an update with the same id
/// and metadata dispatches, and it carries the given metadata field by field.
pub proof fn lemma_registration_sets_given_metadata<E>(
    id: StandardAssetId,
    metadata: AssetStorageMetadata,
)
    ensures
        creation_next(
            AssetCreation::AwaitingCreation { id, metadata },
            Ok::<(), E>(()),
        ) matches CreationStep::Dispatch(
            AssetsCall::ForceSetMetadata { id: call_id, name, symbol, decimals, is_frozen },
            next,
        ) && next is AwaitingMetadata && call_id == id && name == metadata.name && symbol
            == metadata.symbol && decimals == metadata.decimals && is_frozen == metadata.is_frozen,
{
}

/// The asset configuration of the test runtime.
#[derive(Clone, Copy, Debug, PartialEq, Eq, Structural)]
pub struct MantaAssetConfig;

/// The bytes of `"Dolphin"`.
pub open spec fn dolphin_name() -> Seq<u8> {
    seq![68u8, 111u8, 108u8, 112u8, 104u8, 105u8, 110u8]
}

/// The bytes of `"DOL"`.
pub open spec fn dolphin_symbol() -> Seq<u8> {
    seq![68u8, 79u8, 76u8]
}

impl MantaAssetConfig {
    /// The identifier that stands for no asset.
    pub fn dummy_asset_id() -> (r: StandardAssetId)
        ensures
            r == 0,
    {
        0
    }

    /// The identifier of the native asset.
    pub fn native_asset_id() -> (r: StandardAssetId)
        ensures
            r == 1,
    {
        1
    }

    /// The first identifier given to a non-native asset.
    pub fn start_non_native_asset_id() -> (r: StandardAssetId)
        ensures
            r == 8,
    {
        8
    }

    /// The native asset's location: parachain 1024, seen from a sibling (one
    /// level up), as `(parents, parachain)`.
    pub fn native_asset_location() -> (r: (u8, u32))
        ensures
            r == (1u8, 1024u32),
    {
        (1, 1024)
    }

    /// The native asset's metadata: Dolphin (DOL), 18 decimals, not frozen,
    /// minimum balance 1, sufficient.
    pub fn native_asset_metadata() -> (r: AssetRegistryMetadata)
        ensures
            r.metadata.name@ == dolphin_name(),
            r.metadata.symbol@ == dolphin_symbol(),
            r.metadata.decimals == 18,
            !r.metadata.is_frozen,
            r.min_balance == 1,
            r.is_sufficient,
    {
        let name: Vec<u8> = vec![68u8, 111u8, 108u8, 112u8, 104u8, 105u8, 110u8];
        let symbol: Vec<u8> = vec![68u8, 79u8, 76u8];
        AssetRegistryMetadata {
            metadata: AssetStorageMetadata { name, symbol, decimals: 18, is_frozen: false },
            min_balance: 1,
            is_sufficient: true,
        }
    }
}

} // verus!
