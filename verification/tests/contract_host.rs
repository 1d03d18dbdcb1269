//! Contract host scenarios: storage overlay, deposits, transfers, and the
//! deterministic random stream.

use xelis_core::contract::{
    Block, ChainState, ContractDeposit, ContractStorage, MemoryStorage, StorageValue,
};
use xelis_core::crypto::{Bytes32, CompressedPublicKey, Digest, PublicKey};

fn digest(id: u64) -> Digest {
    Digest(Bytes32 { w0: 0, w1: 0, w2: id, w3: 0 })
}

fn block() -> Block {
    Block {
        nonce: 1,
        timestamp: 2,
        height: 3,
        extra_nonce: vec![4u8; 8],
        miner: CompressedPublicKey(Bytes32 { w0: 0, w1: 0, w2: 0, w3: 9 }),
        version: 0,
        tips: vec![digest(7)],
    }
}

fn fresh_state(deposits: Vec<(Digest, ContractDeposit)>) -> ChainState {
    ChainState::new(false, false, digest(1), 10, digest(2), block(), digest(3), deposits)
}

#[test]
fn storage_store_load_delete() {
    let mut state = fresh_state(vec![]);
    let backing = MemoryStorage::new();
    state.storage_store(1, StorageValue::U64(42));
    assert_eq!(state.storage_load(&backing, 1), Some(StorageValue::U64(42)));
    assert!(state.storage_has(&backing, 1));
    state.storage_delete(1);
    assert_eq!(state.storage_load(&backing, 1), None);
    assert!(!state.storage_has(&backing, 1));
}

#[test]
fn tombstone_hides_backing_value() {
    let mut state = fresh_state(vec![]);
    let mut backing = MemoryStorage::new();
    backing.store(1, StorageValue::U64(7));
    // A miss falls through to the backing store.
    assert_eq!(state.storage_load(&backing, 1), Some(StorageValue::U64(7)));
    // A deletion in the overlay hides the committed value.
    state.storage_delete(1);
    assert_eq!(state.storage_load(&backing, 1), None);
    // A later write shadows the tombstone again.
    state.storage_store(1, StorageValue::Bool(true));
    assert_eq!(state.storage_load(&backing, 1), Some(StorageValue::Bool(true)));
}

#[test]
fn deposit_lookup() {
    let asset_a = digest(100);
    let asset_b = digest(101);
    let state = fresh_state(vec![(asset_a, ContractDeposit::Public(50))]);
    assert_eq!(state.get_deposit_for_asset(&asset_a), Some(50));
    assert_eq!(state.get_deposit_for_asset(&asset_b), None);
}

#[test]
fn balance_for_asset_is_unresolved() {
    let state = fresh_state(vec![]);
    assert_eq!(state.get_balance_for_asset(&digest(100)), None);
}

#[test]
fn transfer_queue_keeps_order() {
    let mut state = fresh_state(vec![]);
    let dest = PublicKey { compressed: CompressedPublicKey(Bytes32 { w0: 0, w1: 0, w2: 0, w3: 5 }) };
    assert!(state.transfer(dest, 10, digest(100)));
    assert!(state.transfer(dest, 20, digest(101)));
    assert_eq!(state.transfers.len(), 2);
    assert_eq!(state.transfers[0].amount, 10);
    assert_eq!(state.transfers[1].amount, 20);
}

#[test]
fn random_stream_is_reproducible() {
    let mut a = fresh_state(vec![]);
    let mut b = fresh_state(vec![]);
    let draws_a = [a.random.next_u64(), a.random.next_u64(), a.random.next_u64()];
    let draws_b = [b.random.next_u64(), b.random.next_u64(), b.random.next_u64()];
    assert_eq!(draws_a, draws_b);
}

#[test]
fn random_bool_is_low_bit_of_byte() {
    let mut a = fresh_state(vec![]);
    let mut b = fresh_state(vec![]);
    let byte = a.random.next_u8();
    let bit = b.random.next_bool();
    assert_eq!(bit, byte & 1 == 1);
}

#[test]
fn random_widths_agree_on_leading_bytes() {
    let mut a = fresh_state(vec![]);
    let mut b = fresh_state(vec![]);
    // Each draw consumes one block, so the first draw of each width reads
    // the same block.
    let wide = a.random.next_u64();
    let narrow = b.random.next_u16();
    assert_eq!(narrow as u64, wide & 0xffff);
}

#[test]
fn random_depends_on_the_seed() {
    let mut a = fresh_state(vec![]);
    let mut other = ChainState::new(
        false,
        false,
        digest(999),
        10,
        digest(2),
        block(),
        digest(3),
        vec![],
    );
    assert_ne!(a.random.next_u64(), other.random.next_u64());
}
