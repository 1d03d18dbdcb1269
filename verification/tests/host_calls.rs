//! The native call table: gas costs and dispatch semantics.

use xelis_core::contract::{Block, ChainState, ContractDeposit, MemoryStorage, StorageValue};
use xelis_core::crypto::{Bytes32, CompressedPublicKey, Digest, PublicKey};
use xelis_core::host::{gas_cost, invoke, CallValue, NativeCall};

fn digest(id: u64) -> Digest {
    Digest(Bytes32 { w0: 0, w1: 0, w2: id, w3: 0 })
}

fn fresh_state() -> ChainState {
    let block = Block {
        nonce: 1,
        timestamp: 2,
        height: 3,
        extra_nonce: vec![],
        miner: CompressedPublicKey(Bytes32 { w0: 0, w1: 0, w2: 0, w3: 9 }),
        version: 0,
        tips: vec![],
    };
    ChainState::new(
        false,
        false,
        digest(1),
        10,
        digest(2),
        block,
        digest(3),
        vec![(digest(100), ContractDeposit::Public(50))],
    )
}

#[test]
fn gas_costs_match_the_table() {
    assert_eq!(gas_cost(&NativeCall::Println), 5);
    assert_eq!(gas_cost(&NativeCall::StorageLoad(0)), 50);
    assert_eq!(gas_cost(&NativeCall::StorageHas(0)), 25);
    assert_eq!(gas_cost(&NativeCall::StorageStore(0, StorageValue::U64(0))), 50);
    assert_eq!(gas_cost(&NativeCall::StorageDelete(0)), 50);
    assert_eq!(gas_cost(&NativeCall::GetDepositForAsset(digest(0))), 5);
    assert_eq!(gas_cost(&NativeCall::GetBalanceForAsset(digest(0))), 25);
    let dest = PublicKey { compressed: CompressedPublicKey(Bytes32 { w0: 0, w1: 0, w2: 0, w3: 4 }) };
    assert_eq!(gas_cost(&NativeCall::Transfer(dest, 1, digest(0))), 500);
    assert_eq!(gas_cost(&NativeCall::RandomU64), 5);
}

#[test]
fn dispatch_storage_and_deposits() {
    let mut state = fresh_state();
    let backing = MemoryStorage::new();
    assert_eq!(
        invoke(&mut state, &backing, &NativeCall::StorageStore(1, StorageValue::U64(42))),
        CallValue::Unit
    );
    assert_eq!(
        invoke(&mut state, &backing, &NativeCall::StorageLoad(1)),
        CallValue::OptionalValue(Some(StorageValue::U64(42)))
    );
    assert_eq!(invoke(&mut state, &backing, &NativeCall::StorageHas(1)), CallValue::Bool(true));
    assert_eq!(invoke(&mut state, &backing, &NativeCall::StorageDelete(1)), CallValue::Unit);
    assert_eq!(
        invoke(&mut state, &backing, &NativeCall::StorageLoad(1)),
        CallValue::OptionalValue(None)
    );
    assert_eq!(
        invoke(&mut state, &backing, &NativeCall::GetDepositForAsset(digest(100))),
        CallValue::OptionalU64(Some(50))
    );
    assert_eq!(
        invoke(&mut state, &backing, &NativeCall::GetDepositForAsset(digest(101))),
        CallValue::OptionalU64(None)
    );
    assert_eq!(
        invoke(&mut state, &backing, &NativeCall::GetContractHash),
        CallValue::Opaque(digest(1))
    );
}

#[test]
fn dispatch_is_replayable() {
    let calls = [NativeCall::RandomU64, NativeCall::RandomBool, NativeCall::RandomU256];
    let backing = MemoryStorage::new();
    let mut a = fresh_state();
    let mut b = fresh_state();
    for call in calls.iter() {
        assert_eq!(invoke(&mut a, &backing, call), invoke(&mut b, &backing, call));
    }
    let dest = PublicKey { compressed: CompressedPublicKey(Bytes32 { w0: 0, w1: 0, w2: 0, w3: 4 }) };
    invoke(&mut a, &backing, &NativeCall::Transfer(dest, 7, digest(100)));
    invoke(&mut b, &backing, &NativeCall::Transfer(dest, 7, digest(100)));
    assert_eq!(a.transfers.len(), b.transfers.len());
    assert_eq!(a.transfers[0].amount, 7);
}
