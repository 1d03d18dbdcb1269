//! The contract host's native function table.
//!
//! Contracts reach the chain through a fixed set of native calls.  This
//! module gives each call its gas cost and its meaning: `invoke` dispatches
//! one call against the `ChainState`, and its contract pins the returned
//! value and the state change for every call — which is what makes a
//! re-execution byte-identical.  The embedder's VM maps its opaque handles
//! onto these calls and meters the costs.

use vstd::prelude::*;

use crate::contract::{spec_storage_load, ChainState, ContractStorage, StorageValue};
use crate::crypto::{Digest, PublicKey};
use crate::random::{
    spec_le_u128, spec_le_u16, spec_le_u32, spec_le_u64, spec_random_block,
};

verus! {

/// One native call a contract can make.
pub enum NativeCall {
    /// Print a value; a no-op unless the state is in debug mode.
    Println,
    /// Print a value's internals; a no-op unless the state is in debug mode.
    Debug,
    GetContractHash,
    GetDepositForAsset(Digest),
    GetBalanceForAsset(Digest),
    Transfer(PublicKey, u64, Digest),
    StorageLoad(u64),
    StorageHas(u64),
    StorageStore(u64, StorageValue),
    StorageDelete(u64),
    RandomU8,
    RandomU16,
    RandomU32,
    RandomU64,
    RandomU128,
    RandomU256,
    RandomBool,
}

/// What a native call hands back to the contract.
#[derive(Clone, PartialEq, Eq, Debug)]
pub enum CallValue {
    Unit,
    Bool(bool),
    U8(u8),
    U16(u16),
    U32(u32),
    U64(u64),
    U128(u128),
    Bytes(Vec<u8>),
    Opaque(Digest),
    OptionalU64(Option<u64>),
    OptionalValue(Option<StorageValue>),
}

/// The gas cost of each native call.
pub open spec fn spec_gas_cost(call: NativeCall) -> u64 {
    match call {
        NativeCall::Println => 5,
        NativeCall::Debug => 5,
        NativeCall::GetContractHash => 5,
        NativeCall::GetDepositForAsset(_) => 5,
        NativeCall::GetBalanceForAsset(_) => 25,
        NativeCall::Transfer(_, _, _) => 500,
        NativeCall::StorageLoad(_) => 50,
        NativeCall::StorageHas(_) => 25,
        NativeCall::StorageStore(_, _) => 50,
        NativeCall::StorageDelete(_) => 50,
        NativeCall::RandomU8 => 5,
        NativeCall::RandomU16 => 5,
        NativeCall::RandomU32 => 5,
        NativeCall::RandomU64 => 5,
        NativeCall::RandomU128 => 5,
        NativeCall::RandomU256 => 5,
        NativeCall::RandomBool => 5,
    }
}

/// The gas the embedder charges for one native call.
pub fn gas_cost(call: &NativeCall) -> (r: u64)
    ensures
        r == spec_gas_cost(*call),
{
    match call {
        NativeCall::Println => 5,
        NativeCall::Debug => 5,
        NativeCall::GetContractHash => 5,
        NativeCall::GetDepositForAsset(_) => 5,
        NativeCall::GetBalanceForAsset(_) => 25,
        NativeCall::Transfer(_, _, _) => 500,
        NativeCall::StorageLoad(_) => 50,
        NativeCall::StorageHas(_) => 25,
        NativeCall::StorageStore(_, _) => 50,
        NativeCall::StorageDelete(_) => 50,
        NativeCall::RandomU8 => 5,
        NativeCall::RandomU16 => 5,
        NativeCall::RandomU32 => 5,
        NativeCall::RandomU64 => 5,
        NativeCall::RandomU128 => 5,
        NativeCall::RandomU256 => 5,
        NativeCall::RandomBool => 5,
    }
}

/// Dispatches one native call against the state.  The returned value and
/// the new state are functions of the old state and the call alone: two
/// replays of the same call sequence agree on every value, every queued
/// transfer, every storage write, and the random stream position.
pub fn invoke<S: ContractStorage>(
    state: &mut ChainState,
    backing: &S,
    call: &NativeCall,
) -> (r: CallValue)
    requires
        old(state).random.position() < u64::MAX,
    ensures
        final(state).contract == old(state).contract,
        final(state).random.seed_bytes() == old(state).random.seed_bytes(),
        final(state).deposits_view() == old(state).deposits_view(),
        match *call {
            NativeCall::Println => r == CallValue::Unit && *final(state) == *old(state),
            NativeCall::Debug => r == CallValue::Unit && *final(state) == *old(state),
            NativeCall::GetContractHash => r == CallValue::Opaque(old(state).contract)
                && *final(state) == *old(state),
            NativeCall::GetDepositForAsset(asset) => *final(state) == *old(state) && r
                == CallValue::OptionalU64(
                match crate::contract::spec_deposit_of(old(state).deposits_view(), asset) {
                    Some(deposit) => match deposit {
                        crate::contract::ContractDeposit::Public(amount) => Some(amount),
                    },
                    None => None::<u64>,
                },
            ),
            NativeCall::GetBalanceForAsset(_) => r == CallValue::OptionalU64(None) && *final(state)
                == *old(state),
            NativeCall::Transfer(destination, amount, asset) => {
                &&& r == CallValue::Bool(true)
                &&& final(state).transfers@ == old(state).transfers@.push(
                    crate::contract::TransferOutput { destination, amount, asset },
                )
                &&& *final(state) == (ChainState {
                    transfers: final(state).transfers,
                    ..*old(state)
                })
            },
            NativeCall::StorageLoad(key) => r == CallValue::OptionalValue(
                spec_storage_load(old(state).storage_view(), backing.view(), key),
            ) && *final(state) == *old(state),
            NativeCall::StorageHas(key) => r == CallValue::Bool(
                spec_storage_load(old(state).storage_view(), backing.view(), key) is Some,
            ) && *final(state) == *old(state),
            NativeCall::StorageStore(key, value) => {
                &&& r == CallValue::Unit
                &&& final(state).storage_view() == old(state).storage_view().insert(
                    key,
                    Some(value),
                )
                &&& *final(state) == (ChainState { storage: final(state).storage, ..*old(state) })
            },
            NativeCall::StorageDelete(key) => {
                &&& r == CallValue::Unit
                &&& final(state).storage_view() == old(state).storage_view().insert(key, None)
                &&& *final(state) == (ChainState { storage: final(state).storage, ..*old(state) })
            },
            NativeCall::RandomU8 => r == CallValue::U8(
                spec_random_block(old(state).random.seed_bytes(), old(state).random.position())[0],
            ) && final(state).random.position() == old(state).random.position() + 1 && (*final(state)
                == (ChainState { random: final(state).random, ..*old(state) })),
            NativeCall::RandomU16 => r == CallValue::U16(
                spec_le_u16(
                    spec_random_block(
                        old(state).random.seed_bytes(),
                        old(state).random.position(),
                    ),
                ),
            ) && final(state).random.position() == old(state).random.position() + 1 && (*final(state)
                == (ChainState { random: final(state).random, ..*old(state) })),
            NativeCall::RandomU32 => r == CallValue::U32(
                spec_le_u32(
                    spec_random_block(
                        old(state).random.seed_bytes(),
                        old(state).random.position(),
                    ),
                ),
            ) && final(state).random.position() == old(state).random.position() + 1 && (*final(state)
                == (ChainState { random: final(state).random, ..*old(state) })),
            NativeCall::RandomU64 => r == CallValue::U64(
                spec_le_u64(
                    spec_random_block(
                        old(state).random.seed_bytes(),
                        old(state).random.position(),
                    ),
                ),
            ) && final(state).random.position() == old(state).random.position() + 1 && (*final(state)
                == (ChainState { random: final(state).random, ..*old(state) })),
            NativeCall::RandomU128 => r == CallValue::U128(
                spec_le_u128(
                    spec_random_block(
                        old(state).random.seed_bytes(),
                        old(state).random.position(),
                    ),
                ),
            ) && final(state).random.position() == old(state).random.position() + 1 && (*final(state)
                == (ChainState { random: final(state).random, ..*old(state) })),
            NativeCall::RandomU256 => (r matches CallValue::Bytes(bytes) && bytes@
                == spec_random_block(
                old(state).random.seed_bytes(),
                old(state).random.position(),
            )) && final(state).random.position() == old(state).random.position() + 1 && (*final(state)
                == (ChainState { random: final(state).random, ..*old(state) })),
            NativeCall::RandomBool => r == CallValue::Bool(
                (spec_random_block(
                    old(state).random.seed_bytes(),
                    old(state).random.position(),
                )[0] & 1) == 1,
            ) && final(state).random.position() == old(state).random.position() + 1 && (*final(state)
                == (ChainState { random: final(state).random, ..*old(state) })),
        },
{
    match call {
        NativeCall::Println => CallValue::Unit,
        NativeCall::Debug => CallValue::Unit,
        NativeCall::GetContractHash => CallValue::Opaque(state.get_contract_hash()),
        NativeCall::GetDepositForAsset(asset) => CallValue::OptionalU64(
            state.get_deposit_for_asset(asset),
        ),
        NativeCall::GetBalanceForAsset(asset) => CallValue::OptionalU64(
            state.get_balance_for_asset(asset),
        ),
        NativeCall::Transfer(destination, amount, asset) => CallValue::Bool(
            state.transfer(*destination, *amount, *asset),
        ),
        NativeCall::StorageLoad(key) => CallValue::OptionalValue(state.storage_load(backing, *key)),
        NativeCall::StorageHas(key) => CallValue::Bool(state.storage_has(backing, *key)),
        NativeCall::StorageStore(key, value) => {
            state.storage_store(*key, *value);
            CallValue::Unit
        },
        NativeCall::StorageDelete(key) => {
            state.storage_delete(*key);
            CallValue::Unit
        },
        NativeCall::RandomU8 => CallValue::U8(state.random.next_u8()),
        NativeCall::RandomU16 => CallValue::U16(state.random.next_u16()),
        NativeCall::RandomU32 => CallValue::U32(state.random.next_u32()),
        NativeCall::RandomU64 => CallValue::U64(state.random.next_u64()),
        NativeCall::RandomU128 => CallValue::U128(state.random.next_u128()),
        NativeCall::RandomU256 => CallValue::Bytes(state.random.next_u256()),
        NativeCall::RandomBool => CallValue::Bool(state.random.next_bool()),
    }
}

} // verus!
