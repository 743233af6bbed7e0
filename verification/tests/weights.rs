use manta::{
    DolphinXcmWeight, MultiAssetFilter, MultiAssets, Weight, XcmFungibleWeight, XcmGeneric,
    MAX_ASSETS,
};

fn w(ref_time: u64) -> Weight {
    Weight::from_parts(ref_time, 7)
}

fn fungible() -> XcmFungibleWeight {
    XcmFungibleWeight {
        withdraw_asset: w(1_000),
        transfer_asset: w(2_000),
        transfer_reserve_asset: w(3_000),
        reserve_asset_deposited: w(4_000),
        deposit_asset: w(5_000),
        deposit_reserve_asset: w(20_000_000),
        initiate_teleport: w(6_000),
    }
}

fn generic() -> XcmGeneric {
    XcmGeneric {
        query_response: w(11),
        transact: w(12),
        clear_origin: w(13),
        descend_origin: w(14),
        report_error: w(15),
        initiate_reserve_withdraw: w(16),
        query_holding: w(2_000_000_000),
        buy_execution: w(18),
        refund_surplus: w(19),
        set_error_handler: w(20),
        set_appendix: w(21),
        clear_error: w(22),
        claim_asset: w(23),
        trap: w(24),
        subscribe_version: w(25),
        unsubscribe_version: w(26),
    }
}

fn weigher() -> DolphinXcmWeight<()> {
    DolphinXcmWeight::new(fungible(), generic())
}

#[test]
fn saturating_mul_multiplies_both_parts() {
    let r = Weight::from_parts(3, 5).saturating_mul(4);
    assert_eq!(r.ref_time(), 12);
    assert_eq!(r.proof_size(), 20);
}

#[test]
fn saturating_mul_saturates_each_part_alone() {
    let r = Weight::from_parts(u64::MAX / 2 + 1, 5).saturating_mul(2);
    assert_eq!(r.ref_time(), u64::MAX);
    assert_eq!(r.proof_size(), 10);
}

#[test]
fn from_ref_time_and_max() {
    let r = Weight::from_ref_time(1_000_000_000);
    assert_eq!(r.ref_time(), 1_000_000_000);
    assert_eq!(r.proof_size(), 0);
    let m = Weight::max_weight();
    assert_eq!(m.ref_time(), u64::MAX);
    assert_eq!(m.proof_size(), u64::MAX);
}

#[test]
fn weigh_counts_each_asset() {
    let assets = MultiAssets::from_len(3);
    assert_eq!(assets.len(), 3);
    assert_eq!(assets.weigh_multi_assets(w(1_000)), 3_000);
}

#[test]
fn weigh_empty_set_as_one_asset() {
    let none = MultiAssets::from_len(0);
    let one = MultiAssets::from_len(1);
    assert_eq!(none.weigh_multi_assets(w(1_000)), 1_000);
    assert_eq!(one.weigh_multi_assets(w(1_000)), 1_000);
}

#[test]
fn weigh_saturates() {
    let assets = MultiAssets::from_len(3);
    assert_eq!(assets.weigh_multi_assets(w(u64::MAX / 2)), u64::MAX);
}

#[test]
fn weigh_ignores_proof_size() {
    let assets = MultiAssets::from_len(4);
    assert_eq!(
        assets.weigh_multi_assets(Weight::from_parts(10, 0)),
        assets.weigh_multi_assets(Weight::from_parts(10, u64::MAX))
    );
}

#[test]
fn wild_filter_weighs_as_max_assets() {
    assert_eq!(MAX_ASSETS, 100);
    let wild = MultiAssetFilter::Wild;
    let hundred = MultiAssetFilter::Definite(MultiAssets::from_len(100));
    assert_eq!(wild.weigh_multi_assets(w(7)), 700);
    assert_eq!(hundred.weigh_multi_assets(w(7)), 700);
    let few = MultiAssetFilter::Definite(MultiAssets::from_len(2));
    assert!(few.weigh_multi_assets(w(7)) <= wild.weigh_multi_assets(w(7)));
}

#[test]
fn definite_filter_weighs_as_its_set() {
    let assets = MultiAssets::from_len(5);
    let filter = MultiAssetFilter::Definite(assets);
    assert_eq!(filter.weigh_multi_assets(w(9)), assets.weigh_multi_assets(w(9)));
    assert_eq!(filter.weigh_multi_assets(w(9)), 45);
    let empty = MultiAssetFilter::Definite(MultiAssets::from_len(0));
    assert_eq!(empty.weigh_multi_assets(w(9)), 9);
}

#[test]
fn asset_instructions_weigh_per_asset() {
    let x = weigher();
    let two = MultiAssets::from_len(2);
    assert_eq!(x.withdraw_asset(&two), 2_000);
    assert_eq!(x.transfer_asset(&two), 4_000);
    assert_eq!(x.transfer_reserve_asset(&two), 6_000);
    assert_eq!(x.reserve_asset_deposited(&two), 8_000);
}

#[test]
fn unsupported_instructions_weigh_max() {
    let x = weigher();
    let two = MultiAssets::from_len(2);
    assert_eq!(x.receive_teleported_asset(&two), u64::MAX);
    assert_eq!(x.hrmp_new_channel_open_request(&1, &2, &3), u64::MAX);
    assert_eq!(x.hrmp_channel_accepted(&1), u64::MAX);
    assert_eq!(x.hrmp_channel_closing(&1, &2, &3), u64::MAX);
    assert_eq!(x.exchange_asset(&MultiAssetFilter::Wild, &two), u64::MAX);
}

#[test]
fn holding_instructions_are_capped() {
    let x = weigher();
    let two = MultiAssetFilter::Definite(MultiAssets::from_len(2));
    // below the cap: the per-asset weight
    assert_eq!(x.deposit_asset(&two, &1), 10_000);
    assert_eq!(x.initiate_teleport(&two), 12_000);
    assert_eq!(x.initiate_reserve_withdraw(&two), 32);
    // 100 * 20_000_000 is above the cap
    assert_eq!(x.deposit_reserve_asset(&MultiAssetFilter::Wild, &1), 1_000_000_000);
    // 2 * 20_000_000 is below it
    assert_eq!(x.deposit_reserve_asset(&two, &1), 40_000_000);
    assert_eq!(x.query_holding(&0, &two, &0), 1_000_000_000);
}

#[test]
fn other_instructions_weigh_their_base() {
    let x = weigher();
    let two = MultiAssets::from_len(2);
    assert_eq!(x.query_response(&0, &0), 11);
    assert_eq!(x.transact(&0), 12);
    assert_eq!(x.clear_origin(), 13);
    assert_eq!(x.descend_origin(), 14);
    assert_eq!(x.report_error(&0, &0), 15);
    assert_eq!(x.buy_execution(), 18);
    assert_eq!(x.refund_surplus(), 19);
    assert_eq!(x.set_error_handler(), 20);
    assert_eq!(x.set_appendix(), 21);
    assert_eq!(x.clear_error(), 22);
    assert_eq!(x.claim_asset(&two), 23);
    assert_eq!(x.trap(&0), 24);
    assert_eq!(x.subscribe_version(&0, &0), 25);
    assert_eq!(x.unsubscribe_version(), 26);
}
