//! The weigher of the Dolphin runtime's XCM instructions.
//!
//! An instruction that moves assets weighs its benchmarked base weight once per
//! asset it names (and at least once); a wildcard filter counts as
//! `MAX_ASSETS` assets. Instructions that work on the holding register are
//! capped at a fixed weight, and instructions the executor does not support
//! weigh `u64::MAX`, which no block can hold.
use core::marker::PhantomData;
use vstd::prelude::*;

use crate::weight::Weight;

verus! {

/// The number of assets a wildcard filter is weighed as.
pub const MAX_ASSETS: u32 = 100;

/// A set of assets, as far as weighing sees it: the number of assets it holds.
#[derive(Clone, Copy, Debug)]
pub struct MultiAssets {
    len: usize,
}

impl View for MultiAssets {
    type V = nat;

    /// The number of assets in the set.
    closed spec fn view(&self) -> nat {
        self.len as nat
    }
}

impl MultiAssets {
    /// A set holding `len` assets.
    pub fn from_len(len: usize) -> (r: MultiAssets)
        ensures
            r@ == len,
    {
        MultiAssets { len }
    }

    /// The number of assets in the set.
    pub fn len(&self) -> (r: usize)
        ensures
            r == self@,
    {
        self.len
    }
}

/// A filter on assets: either a definite set, or a wildcard.
#[derive(Clone, Copy, Debug)]
pub enum MultiAssetFilter {
    Definite(MultiAssets),
    Wild,
}

/// The weight, in execution time, of `count` assets of base weight `base`:
/// the base execution time times `max(count, 1)`, saturating at `u64::MAX`.
pub open spec fn weigh_count(base: Weight, count: nat) -> u64 {
    let n: int = if count == 0 { 1 } else { count as int };
    if base.ref_time * n > u64::MAX {
        u64::MAX
    } else {
        (base.ref_time * n) as u64
    }
}

/// The number of assets a filter is weighed as.
pub open spec fn filter_count(filter: MultiAssetFilter) -> nat {
    match filter {
        MultiAssetFilter::Definite(assets) => assets@,
        MultiAssetFilter::Wild => MAX_ASSETS as nat,
    }
}

/// The number of assets that a weighing counts: `max(len, 1)`.
fn counted_assets(len: usize) -> (r: u64)
    ensures
        r == (if len == 0 { 1 } else { len as int }),
{
    let n: usize = len.max(1);
    n as u64
}

impl MultiAssets {
    /// The execution time of an instruction of base weight `weight` on these assets.
    pub fn weigh_multi_assets(&self, weight: Weight) -> (r: u64)
        ensures
            r == weigh_count(weight, self@),
    {
        weight.saturating_mul(counted_assets(self.len)).ref_time()
    }
}

impl MultiAssetFilter {
    /// The execution time of an instruction of base weight `weight` on the
    /// assets this filter selects; a wildcard is weighed as `MAX_ASSETS` assets.
    pub fn weigh_multi_assets(&self, weight: Weight) -> (r: u64)
        ensures
            r == weigh_count(weight, filter_count(*self)),
    {
        let weight = match self {
            MultiAssetFilter::Definite(assets) => weight.saturating_mul(counted_assets(assets.len)),
            MultiAssetFilter::Wild => weight.saturating_mul(MAX_ASSETS as u64),
        };
        weight.ref_time()
    }
}


/// More assets never weigh less: the weight of `count` assets grows with `count`.
pub proof fn lemma_weigh_monotone(base: Weight, fewer: nat, more: nat)
    requires
        fewer <= more,
        more <= u64::MAX,
    ensures
        weigh_count(base, fewer) <= weigh_count(base, more),
{
    let a = base.ref_time;
    let x: int = if fewer == 0 { 1 } else { fewer as int };
    let y: int = if more == 0 { 1 } else { more as int };
    assert(x <= y);
    assert(a * x <= a * y) by (nonlinear_arith)
        requires
            x <= y,
    ;
}

/// An empty set weighs as one asset does: exactly the base execution time.
pub proof fn lemma_empty_weighs_as_one(base: Weight)
    ensures
        weigh_count(base, 0) == base.ref_time,
        weigh_count(base, 1) == base.ref_time,
{
    assert(base.ref_time * 1 == base.ref_time);
}

/// However many assets, the weight is at least the base execution time.
pub proof fn lemma_weigh_at_least_base(base: Weight, count: nat)
    requires
        count <= u64::MAX,
    ensures
        base.ref_time <= weigh_count(base, count),
{
    lemma_weigh_monotone(base, 0, count);
    lemma_empty_weighs_as_one(base);
}

/// Where the product fits in a `u64`, the weight is the base execution time
/// times the number of assets (at least one); otherwise it is `u64::MAX`.
pub proof fn lemma_weigh_is_saturated_product(base: Weight, count: nat)
    requires
        1 <= count <= u64::MAX,
    ensures
        base.ref_time * count <= u64::MAX ==> weigh_count(base, count) == base.ref_time * count,
        base.ref_time * count > u64::MAX ==> weigh_count(base, count) == u64::MAX,
{
}

/// Only the execution time of the base weight counts, not its proof size.
pub proof fn lemma_proof_size_ignored(base: Weight, other: Weight, count: nat)
    requires
        base.ref_time == other.ref_time,
    ensures
        weigh_count(base, count) == weigh_count(other, count),
{
}

/// A definite filter weighs what its set of assets weighs.
pub proof fn lemma_definite_filter_weighs_as_set(base: Weight, assets: MultiAssets)
    ensures
        weigh_count(base, filter_count(MultiAssetFilter::Definite(assets))) == weigh_count(
            base,
            assets@,
        ),
{
}

/// A wildcard weighs what a definite set of `MAX_ASSETS` assets weighs, and
/// no less than any definite set of at most `MAX_ASSETS` assets.
pub proof fn lemma_wild_weighs_as_max_assets(base: Weight, assets: MultiAssets)
    ensures
        assets@ == MAX_ASSETS ==> weigh_count(base, filter_count(MultiAssetFilter::Wild))
            == weigh_count(base, filter_count(MultiAssetFilter::Definite(assets))),
        assets@ <= MAX_ASSETS ==> weigh_count(base, filter_count(MultiAssetFilter::Definite(assets)))
            <= weigh_count(base, filter_count(MultiAssetFilter::Wild)),
{
    if assets@ <= MAX_ASSETS {
        lemma_weigh_monotone(base, assets@, MAX_ASSETS as nat);
    }
}

/// A capped weight is at most the cap and at most the uncapped weight, and is
/// the uncapped weight where that is below the cap.
pub proof fn lemma_capped_bounds(w: u64)
    ensures
        capped(w) <= holding_cap(),
        capped(w) <= w,
        w <= holding_cap() ==> capped(w) == w,
{
}

/// An unsupported instruction weighs at least as much as any other.
pub proof fn lemma_unsupported_is_heaviest(w: u64)
    ensures
        w <= unsupported(),
{
}

/// The benchmarked base weights of the fungible-asset XCM instructions.
#[derive(Clone, Copy, Debug)]
pub struct XcmFungibleWeight {
    pub withdraw_asset: Weight,
    pub transfer_asset: Weight,
    pub transfer_reserve_asset: Weight,
    pub reserve_asset_deposited: Weight,
    pub deposit_asset: Weight,
    pub deposit_reserve_asset: Weight,
    pub initiate_teleport: Weight,
}

/// The benchmarked base weights of the generic XCM instructions.
#[derive(Clone, Copy, Debug)]
pub struct XcmGeneric {
    pub query_response: Weight,
    pub transact: Weight,
    pub clear_origin: Weight,
    pub descend_origin: Weight,
    pub report_error: Weight,
    pub initiate_reserve_withdraw: Weight,
    pub query_holding: Weight,
    pub buy_execution: Weight,
    pub refund_surplus: Weight,
    pub set_error_handler: Weight,
    pub set_appendix: Weight,
    pub clear_error: Weight,
    pub claim_asset: Weight,
    pub trap: Weight,
    pub subscribe_version: Weight,
    pub unsubscribe_version: Weight,
}

/// The execution time at which the instructions that work on the holding
/// register are capped.
pub open spec fn holding_cap() -> u64 {
    1_000_000_000u64
}

/// `w` capped at `holding_cap()`.
pub open spec fn capped(w: u64) -> u64 {
    if w < holding_cap() { w } else { holding_cap() }
}

/// The weight of an instruction that the executor does not support.
pub open spec fn unsupported() -> u64 {
    u64::MAX
}

/// The weigher of the Dolphin runtime's XCM instructions, over the
/// benchmarked base weights it was made with.
pub struct DolphinXcmWeight<Call> {
    pub fungible: XcmFungibleWeight,
    pub generic: XcmGeneric,
    pub call: PhantomData<Call>,
}

/// `Weight::from_ref_time(1_000_000_000).ref_time()`.
fn hardcoded_holding_weight() -> (r: u64)
    ensures
        r == holding_cap(),
{
    Weight::from_ref_time(1_000_000_000u64).ref_time()
}

/// `Weight::MAX.ref_time()`.
fn max_ref_time() -> (r: u64)
    ensures
        r == unsupported(),
{
    Weight::max_weight().ref_time()
}

impl<Call> DolphinXcmWeight<Call> {
    /// A weigher over the given benchmarked base weights.
    pub fn new(fungible: XcmFungibleWeight, generic: XcmGeneric) -> (r: Self)
        ensures
            r.fungible == fungible,
            r.generic == generic,
    {
        DolphinXcmWeight { fungible, generic, call: PhantomData }
    }

    pub fn withdraw_asset(&self, assets: &MultiAssets) -> (r: u64)
        ensures
            r == weigh_count(self.fungible.withdraw_asset, assets@),
    {
        assets.weigh_multi_assets(self.fungible.withdraw_asset)
    }

    pub fn reserve_asset_deposited(&self, assets: &MultiAssets) -> (r: u64)
        ensures
            r == weigh_count(self.fungible.reserve_asset_deposited, assets@),
    {
        assets.weigh_multi_assets(self.fungible.reserve_asset_deposited)
    }

    /// Teleports are disabled: they weigh `u64::MAX`.
    pub fn receive_teleported_asset(&self, _assets: &MultiAssets) -> (r: u64)
        ensures
            r == unsupported(),
    {
        max_ref_time()
    }

    pub fn query_response(&self, _query_id: &u64, _max_weight: &u64) -> (r: u64)
        ensures
            r == self.generic.query_response.ref_time,
    {
        self.generic.query_response.ref_time()
    }

    pub fn transfer_asset(&self, assets: &MultiAssets) -> (r: u64)
        ensures
            r == weigh_count(self.fungible.transfer_asset, assets@),
    {
        assets.weigh_multi_assets(self.fungible.transfer_asset)
    }

    pub fn transfer_reserve_asset(&self, assets: &MultiAssets) -> (r: u64)
        ensures
            r == weigh_count(self.fungible.transfer_reserve_asset, assets@),
    {
        assets.weigh_multi_assets(self.fungible.transfer_reserve_asset)
    }

    pub fn transact(&self, _require_weight_at_most: &u64) -> (r: u64)
        ensures
            r == self.generic.transact.ref_time,
    {
        self.generic.transact.ref_time()
    }

    /// The executor does not support HRMP channel operations.
    pub fn hrmp_new_channel_open_request(
        &self,
        _sender: &u32,
        _max_message_size: &u32,
        _max_capacity: &u32,
    ) -> (r: u64)
        ensures
            r == unsupported(),
    {
        max_ref_time()
    }

    /// The executor does not support HRMP channel operations.
    pub fn hrmp_channel_accepted(&self, _recipient: &u32) -> (r: u64)
        ensures
            r == unsupported(),
    {
        max_ref_time()
    }

    /// The executor does not support HRMP channel operations.
    pub fn hrmp_channel_closing(&self, _initiator: &u32, _sender: &u32, _recipient: &u32) -> (r: u64)
        ensures
            r == unsupported(),
    {
        max_ref_time()
    }

    pub fn clear_origin(&self) -> (r: u64)
        ensures
            r == self.generic.clear_origin.ref_time,
    {
        self.generic.clear_origin.ref_time()
    }

    pub fn descend_origin(&self) -> (r: u64)
        ensures
            r == self.generic.descend_origin.ref_time,
    {
        self.generic.descend_origin.ref_time()
    }

    pub fn report_error(&self, _query_id: &u64, _max_response_weight: &u64) -> (r: u64)
        ensures
            r == self.generic.report_error.ref_time,
    {
        self.generic.report_error.ref_time()
    }

    /// Capped at `holding_cap()` for the holding register's worst case.
    pub fn deposit_asset(&self, assets: &MultiAssetFilter, _max_assets: &u32) -> (r: u64)
        ensures
            r == capped(weigh_count(self.fungible.deposit_asset, filter_count(*assets))),
    {
        let hardcoded_weight = hardcoded_holding_weight();
        let weight = assets.weigh_multi_assets(self.fungible.deposit_asset);
        hardcoded_weight.min(weight)
    }

    /// Capped at `holding_cap()` for the holding register's worst case.
    pub fn deposit_reserve_asset(&self, assets: &MultiAssetFilter, _max_assets: &u32) -> (r: u64)
        ensures
            r == capped(weigh_count(self.fungible.deposit_reserve_asset, filter_count(*assets))),
    {
        let hardcoded_weight = hardcoded_holding_weight();
        let weight = assets.weigh_multi_assets(self.fungible.deposit_reserve_asset);
        hardcoded_weight.min(weight)
    }

    /// Asset exchange is not supported.
    pub fn exchange_asset(&self, _give: &MultiAssetFilter, _receive: &MultiAssets) -> (r: u64)
        ensures
            r == unsupported(),
    {
        max_ref_time()
    }

    /// Capped at `holding_cap()` for the holding register's worst case.
    pub fn initiate_reserve_withdraw(&self, assets: &MultiAssetFilter) -> (r: u64)
        ensures
            r == capped(weigh_count(self.generic.initiate_reserve_withdraw, filter_count(*assets))),
    {
        let hardcoded_weight = hardcoded_holding_weight();
        let weight = assets.weigh_multi_assets(self.generic.initiate_reserve_withdraw);
        hardcoded_weight.min(weight)
    }

    /// Capped at `holding_cap()` for the holding register's worst case.
    pub fn initiate_teleport(&self, assets: &MultiAssetFilter) -> (r: u64)
        ensures
            r == capped(weigh_count(self.fungible.initiate_teleport, filter_count(*assets))),
    {
        let hardcoded_weight = hardcoded_holding_weight();
        let weight = assets.weigh_multi_assets(self.fungible.initiate_teleport);
        hardcoded_weight.min(weight)
    }

    /// Capped at `holding_cap()` for the holding register's worst case.
    pub fn query_holding(
        &self,
        _query_id: &u64,
        _assets: &MultiAssetFilter,
        _max_response_weight: &u64,
    ) -> (r: u64)
        ensures
            r == capped(self.generic.query_holding.ref_time),
    {
        let hardcoded_weight = hardcoded_holding_weight();
        let weight = self.generic.query_holding.ref_time();
        hardcoded_weight.min(weight)
    }

    pub fn buy_execution(&self) -> (r: u64)
        ensures
            r == self.generic.buy_execution.ref_time,
    {
        self.generic.buy_execution.ref_time()
    }

    pub fn refund_surplus(&self) -> (r: u64)
        ensures
            r == self.generic.refund_surplus.ref_time,
    {
        self.generic.refund_surplus.ref_time()
    }

    pub fn set_error_handler(&self) -> (r: u64)
        ensures
            r == self.generic.set_error_handler.ref_time,
    {
        self.generic.set_error_handler.ref_time()
    }

    pub fn set_appendix(&self) -> (r: u64)
        ensures
            r == self.generic.set_appendix.ref_time,
    {
        self.generic.set_appendix.ref_time()
    }

    pub fn clear_error(&self) -> (r: u64)
        ensures
            r == self.generic.clear_error.ref_time,
    {
        self.generic.clear_error.ref_time()
    }

    pub fn claim_asset(&self, _assets: &MultiAssets) -> (r: u64)
        ensures
            r == self.generic.claim_asset.ref_time,
    {
        self.generic.claim_asset.ref_time()
    }

    pub fn trap(&self, _code: &u64) -> (r: u64)
        ensures
            r == self.generic.trap.ref_time,
    {
        self.generic.trap.ref_time()
    }

    pub fn subscribe_version(&self, _query_id: &u64, _max_response_weight: &u64) -> (r: u64)
        ensures
            r == self.generic.subscribe_version.ref_time,
    {
        self.generic.subscribe_version.ref_time()
    }

    pub fn unsubscribe_version(&self) -> (r: u64)
        ensures
            r == self.generic.unsubscribe_version.ref_time,
    {
        self.generic.unsubscribe_version.ref_time()
    }
}

} // verus!
