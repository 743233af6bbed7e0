//! The parameters of the Manta SBT test runtime.
use vstd::prelude::*;

use crate::weight::Weight;

verus! {

/// Number of recent block hashes kept.
pub const BLOCK_HASH_COUNT: u32 = 250;
/// Weight of one database read.
pub const DB_READ_WEIGHT: u64 = 250;
/// Weight of one database write.
pub const DB_WRITE_WEIGHT: u64 = 1000;
/// Most consumers an account may have.
pub const MAX_CONSUMERS: u32 = 16;
/// Smallest balance an account may hold.
pub const EXISTENTIAL_DEPOSIT: u128 = 1;
/// Most balance locks per account.
pub const MAX_LOCKS: u32 = 50;
/// Most named reserves per account.
pub const MAX_RESERVES: u32 = 50;
pub const COLLECTION_DEPOSIT: u128 = 100;
pub const ITEM_DEPOSIT: u128 = 1;
pub const KEY_LIMIT: u32 = 32;
pub const VALUE_LIMIT: u32 = 256;
pub const METADATA_DEPOSIT_BASE: u128 = 1_000;
pub const METADATA_DEPOSIT_PER_BYTE: u128 = 10;
/// Soul-bound tokens minted per reservation.
pub const MINTS_PER_RESERVE: u16 = 5;
/// Price of one reservation.
pub const RESERVE_PRICE: u128 = 1000;
/// Most bytes of metadata per soul-bound token.
pub const SBT_METADATA_BOUND: u32 = 200;
pub const REGISTRY_BOUND: u32 = 200;
/// Execution time that must remain in a block for the pallet to keep working.
pub const MINIMUM_REF_TIME_REMAIN_IN_BLOCK: u64 = 10000;
pub const ASSET_DEPOSIT: u128 = 0;
pub const ASSET_ACCOUNT_DEPOSIT: u128 = 0;
pub const APPROVAL_DEPOSIT: u128 = 0;
/// Longest asset name or symbol, in bytes.
pub const ASSETS_STRING_LIMIT: u32 = 50;
pub const REMOVE_ITEMS_LIMIT: u32 = 1000;
/// Most call names that can be paused.
pub const MAX_CALL_NAMES: u32 = 25;
/// Minimum time between blocks.
pub const MINIMUM_PERIOD: u64 = 5;

/// The weight that must remain in a block for the pallet to keep working:
/// `MINIMUM_REF_TIME_REMAIN_IN_BLOCK` of execution time, no proof size.
pub fn minimum_weight_remain_in_block() -> (r: Weight)
    ensures
        r.ref_time == MINIMUM_REF_TIME_REMAIN_IN_BLOCK,
        r.proof_size == 0,
{
    Weight::from_ref_time(MINIMUM_REF_TIME_REMAIN_IN_BLOCK)
}

/// The account of Alice, the custodial account: 32 zero bytes.
pub fn alice_account() -> (r: [u8; 32])
    ensures
        r@ == Seq::new(32, |i: int| 0u8),
{
    let r: [u8; 32] = [0u8; 32];
    assert(r@ =~= Seq::new(32, |i: int| 0u8));
    r
}

/// The pallets whose calls cannot be paused, by name.
pub open spec fn non_pausable_names() -> Seq<Seq<u8>> {
    seq![
        seq![68u8, 101, 109, 111, 99, 114, 97, 99, 121],
        seq![66u8, 97, 108, 97, 110, 99, 101, 115],
        seq![67u8, 111, 117, 110, 99, 105, 108],
        seq![67u8, 111, 117, 110, 99, 105, 108, 67, 111, 108, 108, 101, 99, 116, 105, 118, 101],
        seq![84u8, 101, 99, 104, 110, 105, 99, 97, 108, 67, 111, 109, 109, 105, 116, 116, 101, 101],
        seq![84u8, 101, 99, 104, 110, 105, 99, 97, 108, 67, 111, 108, 108, 101, 99, 116, 105, 118, 101],
    ]
}

/// The pallets whose calls cannot be paused: Democracy, Balances, Council,
/// CouncilCollective, TechnicalCommittee, TechnicalCollective.
pub fn non_pausable_pallets() -> (r: Vec<Vec<u8>>)
    ensures
        r@.len() == non_pausable_names().len(),
        forall|i: int| 0 <= i < r@.len() ==> #[trigger] r@[i]@ == non_pausable_names()[i],
{
    let democracy: Vec<u8> = vec![68u8, 101, 109, 111, 99, 114, 97, 99, 121];
    let balances: Vec<u8> = vec![66u8, 97, 108, 97, 110, 99, 101, 115];
    let council: Vec<u8> = vec![67u8, 111, 117, 110, 99, 105, 108];
    let council_collective: Vec<u8> = vec![
        67u8, 111, 117, 110, 99, 105, 108, 67, 111, 108, 108, 101, 99, 116, 105, 118, 101,
    ];
    let technical_committee: Vec<u8> = vec![
        84u8, 101, 99, 104, 110, 105, 99, 97, 108, 67, 111, 109, 109, 105, 116, 116, 101, 101,
    ];
    let technical_collective: Vec<u8> = vec![
        84u8, 101, 99, 104, 110, 105, 99, 97, 108, 67, 111, 108, 108, 101, 99, 116, 105, 118, 101,
    ];
    let r: Vec<Vec<u8>> = vec![
        democracy,
        balances,
        council,
        council_collective,
        technical_committee,
        technical_collective,
    ];
    assert forall|i: int| 0 <= i < r@.len() implies #[trigger] r@[i]@ == non_pausable_names()[i] by {
        assert(r@[0]@ =~= non_pausable_names()[0]);
        assert(r@[1]@ =~= non_pausable_names()[1]);
        assert(r@[2]@ =~= non_pausable_names()[2]);
        assert(r@[3]@ =~= non_pausable_names()[3]);
        assert(r@[4]@ =~= non_pausable_names()[4]);
        assert(r@[5]@ =~= non_pausable_names()[5]);
    }
    r
}

/// Whether two byte strings are equal.
fn bytes_equal(a: &Vec<u8>, b: &Vec<u8>) -> (r: bool)
    ensures
        r == (a@ == b@),
{
    if a.len() != b.len() {
        return false;
    }
    let mut i: usize = 0;
    while i < a.len()
        invariant
            a.len() == b.len(),
            i <= a.len(),
            forall|j: int| 0 <= j < i ==> a@[j] == b@[j],
        decreases a.len() - i,
    {
        if a[i] != b[i] {
            return false;
        }
        i += 1;
    }
    assert(a@ =~= b@);
    true
}

/// Whether the calls of the pallet named `pallet` cannot be paused: whether
/// the name is one of `non_pausable_pallets()`.
pub fn is_non_pausable(pallet: &Vec<u8>) -> (r: bool)
    ensures
        r == non_pausable_names().contains(pallet@),
{
    let names = non_pausable_pallets();
    let mut i: usize = 0;
    while i < names.len()
        invariant
            names@.len() == non_pausable_names().len(),
            forall|k: int| 0 <= k < names@.len() ==> #[trigger] names@[k]@ == non_pausable_names()[k],
            i <= names.len(),
            forall|j: int| 0 <= j < i ==> non_pausable_names()[j] != pallet@,
        decreases names.len() - i,
    {
        if bytes_equal(&names[i], pallet) {
            assert(non_pausable_names()[i as int] == pallet@);
            return true;
        }
        i += 1;
    }
    false
}

} // verus!
