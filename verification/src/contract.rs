//! Contract host state.
//!
//! A contract invocation runs against a `ChainState`: the chain context it
//! may read (block, transaction and contract hashes, deposits), the transfer
//! queue it may append to, a deterministic random stream, and a storage
//! overlay that buffers every write until the embedder commits it after a
//! successful execution.  Every operation here is a function of the state
//! and its arguments, which is what makes contract execution replayable
//! across nodes.

use vstd::prelude::*;

use crate::crypto::{CompressedPublicKey, Digest, PublicKey};
use crate::random::DeterministicRandom;

verus! {

/// A transfer a contract asked for; consumed atomically by the embedder
/// after execution: either all queued transfers settle or none do.
pub struct TransferOutput {
    /// The destination key for the transfer.
    pub destination: PublicKey,
    /// The amount to transfer.
    pub amount: u64,
    /// The asset to transfer.
    pub asset: Digest,
}

/// A deposit handed to the contract by the caller.
#[derive(Clone, Copy, PartialEq, Eq, Structural, Debug)]
pub enum ContractDeposit {
    /// A publicly visible amount.
    Public(u64),
}

/// A value a contract keeps in its storage.  The host's value space is
/// wider; these are its plain shapes, and widening the enum changes nothing
/// in the storage semantics, which never look inside a value.
#[derive(Clone, Copy, PartialEq, Eq, Structural, Debug)]
pub enum StorageValue {
    U64(u64),
    Bool(bool),
}

/// The backing store of a contract, implemented by the embedder.  Reads not
/// answered by the in-memory overlay fall through to it.
pub trait ContractStorage {
    /// The committed entries.
    spec fn view(&self) -> Map<u64, StorageValue>;

    /// Reads a committed entry.
    fn load(&self, key: u64) -> (r: Option<StorageValue>)
        ensures
            match r {
                Some(value) => self.view().contains_key(key) && value == self.view()[key],
                None => !self.view().contains_key(key),
            },
    ;

    /// Whether a committed entry exists.
    fn has(&self, key: u64) -> (r: bool)
        ensures
            r == self.view().contains_key(key),
    ;
}

/// An in-memory backing store.
pub struct MemoryStorage {
    entries: Vec<(u64, StorageValue)>,
}

/// The map denoted by an association list, later entries winning.
pub open spec fn storage_map(s: Seq<(u64, StorageValue)>) -> Map<u64, StorageValue>
    decreases s.len(),
{
    if s.len() == 0 {
        Map::empty()
    } else {
        storage_map(s.drop_last()).insert(s.last().0, s.last().1)
    }
}

impl MemoryStorage {
    pub fn new() -> (r: MemoryStorage)
        ensures
            r.view() == Map::<u64, StorageValue>::empty(),
    {
        MemoryStorage { entries: Vec::new() }
    }

    /// Commits an entry.
    pub fn store(&mut self, key: u64, value: StorageValue)
        ensures
            final(self).view() == old(self).view().insert(key, value),
    {
        self.entries.push((key, value));
        proof {
            assert(self.entries@.drop_last() =~= old(self).entries@);
        }
    }
}

impl ContractStorage for MemoryStorage {
    closed spec fn view(&self) -> Map<u64, StorageValue> {
        storage_map(self.entries@)
    }

    fn load(&self, key: u64) -> (r: Option<StorageValue>) {
        let n = self.entries.len();
        proof {
            assert(self.entries@.take(n as int) =~= self.entries@);
        }
        let mut i: usize = n;
        while i > 0
            invariant
                n == self.entries@.len(),
                0 <= i <= n,
                storage_map(self.entries@).contains_key(key) == storage_map(
                    self.entries@.take(i as int),
                ).contains_key(key),
                storage_map(self.entries@).contains_key(key) ==> storage_map(self.entries@)[key]
                    == storage_map(self.entries@.take(i as int))[key],
            decreases i,
        {
            proof {
                assert(self.entries@.take(i as int).last() == self.entries@[i as int - 1]);
                assert(self.entries@.take(i as int).drop_last() =~= self.entries@.take(
                    i as int - 1,
                ));
            }
            if self.entries[i - 1].0 == key {
                return Some(self.entries[i - 1].1);
            }
            i = i - 1;
        }
        proof {
            assert(self.entries@.take(0) =~= Seq::<(u64, StorageValue)>::empty());
        }
        None
    }

    fn has(&self, key: u64) -> (r: bool) {
        match self.load(key) {
            Some(_) => true,
            None => false,
        }
    }
}

/// What a contract read of `key` returns: the overlay answers first, a
/// tombstone (`None` entry) hiding any committed value; a miss falls through
/// to the backing store.
pub open spec fn spec_storage_load(
    overlay: Map<u64, Option<StorageValue>>,
    backing: Map<u64, StorageValue>,
    key: u64,
) -> Option<StorageValue> {
    if overlay.contains_key(key) {
        overlay[key]
    } else if backing.contains_key(key) {
        Some(backing[key])
    } else {
        None
    }
}

/// The overlay map denoted by an association list, later entries winning.
pub open spec fn overlay_map(s: Seq<(u64, Option<StorageValue>)>) -> Map<
    u64,
    Option<StorageValue>,
>
    decreases s.len(),
{
    if s.len() == 0 {
        Map::empty()
    } else {
        overlay_map(s.drop_last()).insert(s.last().0, s.last().1)
    }
}

/// The deposit attached to an asset: the first entry for it, in the
/// caller's insertion order.
pub open spec fn spec_deposit_of(deposits: Seq<(Digest, ContractDeposit)>, asset: Digest) -> Option<
    ContractDeposit,
>
    decreases deposits.len(),
{
    if deposits.len() == 0 {
        None
    } else if deposits[0].0 == asset {
        Some(deposits[0].1)
    } else {
        spec_deposit_of(deposits.drop_first(), asset)
    }
}

/// The block a contract runs in.
pub struct Block {
    pub nonce: u64,
    pub timestamp: u64,
    pub height: u64,
    pub extra_nonce: Vec<u8>,
    pub miner: CompressedPublicKey,
    pub version: u8,
    pub tips: Vec<Digest>,
}

/// Per-invocation scratch state of one contract execution.
pub struct ChainState {
    /// Whether debug printing is a no-op.
    pub debug_mode: bool,
    /// Deterministic random stream, seeded from the three hashes.
    pub random: DeterministicRandom,
    pub mainnet: bool,
    /// The executing contract's hash.
    pub contract: Digest,
    pub topoheight: u64,
    pub block_hash: Digest,
    pub block: Block,
    pub tx_hash: Digest,
    /// Deposits made by the caller, in insertion order (consensus-relevant).
    pub deposits: Vec<(Digest, ContractDeposit)>,
    /// Transfers the contract queued, in order.
    pub transfers: Vec<TransferOutput>,
    /// The storage overlay: every write lands here, a `None` marking a
    /// deletion, and is committed by the embedder after execution.
    pub storage: Vec<(u64, Option<StorageValue>)>,
}

impl ChainState {
    /// The overlay as a map.
    pub open spec fn storage_view(&self) -> Map<u64, Option<StorageValue>> {
        overlay_map(self.storage@)
    }

    /// The deposits in insertion order.
    pub open spec fn deposits_view(&self) -> Seq<(Digest, ContractDeposit)> {
        self.deposits@
    }

    /// A fresh state for one invocation.  The random stream is seeded from
    /// the contract, transaction and block hashes, so a re-execution with
    /// the same context draws the same values.
    pub fn new(
        debug_mode: bool,
        mainnet: bool,
        contract: Digest,
        topoheight: u64,
        block_hash: Digest,
        block: Block,
        tx_hash: Digest,
        deposits: Vec<(Digest, ContractDeposit)>,
    ) -> (r: ChainState)
        ensures
            r.debug_mode == debug_mode,
            r.mainnet == mainnet,
            r.contract == contract,
            r.topoheight == topoheight,
            r.block_hash == block_hash,
            r.tx_hash == tx_hash,
            r.deposits_view() == deposits@,
            r.transfers@ == Seq::<TransferOutput>::empty(),
            r.storage_view() == Map::<u64, Option<StorageValue>>::empty(),
            r.random.seed_bytes() == crate::random::spec_random_seed(contract, tx_hash, block_hash),
            r.random.position() == 0,
    {
        let random = DeterministicRandom::new(&contract, &tx_hash, &block_hash);
        let r = ChainState {
            debug_mode,
            random,
            mainnet,
            contract,
            topoheight,
            block_hash,
            block,
            tx_hash,
            deposits,
            transfers: Vec::new(),
            storage: Vec::new(),
        };
        proof {
            assert(r.transfers@ =~= Seq::<TransferOutput>::empty());
        }
        r
    }

    /// The executing contract's hash.
    pub fn get_contract_hash(&self) -> (r: Digest)
        ensures
            r == self.contract,
    {
        self.contract
    }

    /// The caller's deposit of an asset, as its public amount.
    pub fn get_deposit_for_asset(&self, asset: &Digest) -> (r: Option<u64>)
        ensures
            r == match spec_deposit_of(self.deposits_view(), *asset) {
                Some(deposit) => match deposit {
                    ContractDeposit::Public(amount) => Some(amount),
                },
                None => None::<u64>,
            },
    {
        let n = self.deposits.len();
        proof {
            assert(self.deposits@.skip(0) =~= self.deposits@);
        }
        let mut i: usize = 0;
        while i < n
            invariant
                n == self.deposits@.len(),
                0 <= i <= n,
                spec_deposit_of(self.deposits@, *asset) == spec_deposit_of(
                    self.deposits@.skip(i as int),
                    *asset,
                ),
            decreases n - i,
        {
            proof {
                assert(self.deposits@.skip(i as int)[0] == self.deposits@[i as int]);
                assert(self.deposits@.skip(i as int).drop_first() =~= self.deposits@.skip(
                    i as int + 1,
                ));
            }
            if self.deposits[i].0 == *asset {
                match self.deposits[i].1 {
                    ContractDeposit::Public(amount) => {
                        return Some(amount);
                    },
                }
            }
            i = i + 1;
        }
        None
    }

    /// The contract's balance of an asset.  What a contract should see here
    /// is unresolved in the protocol; no value is returned yet.
    pub fn get_balance_for_asset(&self, asset: &Digest) -> (r: Option<u64>)
        ensures
            r is None,
    {
        None
    }

    /// Queues a transfer; the embedder settles the queue atomically after a
    /// successful execution.
    pub fn transfer(&mut self, destination: PublicKey, amount: u64, asset: Digest) -> (r: bool)
        ensures
            r,
            final(self).transfers@ == old(self).transfers@.push(
                TransferOutput { destination, amount, asset },
            ),
            *final(self) == (ChainState { transfers: final(self).transfers, ..*old(self) }),
    {
        self.transfers.push(TransferOutput { destination, amount, asset });
        true
    }

    /// Writes a value into the overlay.
    pub fn storage_store(&mut self, key: u64, value: StorageValue)
        ensures
            final(self).storage_view() == old(self).storage_view().insert(key, Some(value)),
            *final(self) == (ChainState { storage: final(self).storage, ..*old(self) }),
    {
        self.storage.push((key, Some(value)));
        proof {
            assert(self.storage@.drop_last() =~= old(self).storage@);
        }
    }

    /// Writes a tombstone into the overlay: the key reads as deleted even
    /// when the backing store still holds a value.
    pub fn storage_delete(&mut self, key: u64)
        ensures
            final(self).storage_view() == old(self).storage_view().insert(key, None),
            *final(self) == (ChainState { storage: final(self).storage, ..*old(self) }),
    {
        self.storage.push((key, None));
        proof {
            assert(self.storage@.drop_last() =~= old(self).storage@);
        }
    }

    /// Reads a key: the overlay answers first (a tombstone reads as
    /// nothing), a miss falls through to the backing store.
    pub fn storage_load<S: ContractStorage>(&self, backing: &S, key: u64) -> (r: Option<
        StorageValue,
    >)
        ensures
            r == spec_storage_load(self.storage_view(), backing.view(), key),
    {
        let n = self.storage.len();
        proof {
            assert(self.storage@.take(n as int) =~= self.storage@);
        }
        let mut i: usize = n;
        while i > 0
            invariant
                n == self.storage@.len(),
                0 <= i <= n,
                overlay_map(self.storage@).contains_key(key) == overlay_map(
                    self.storage@.take(i as int),
                ).contains_key(key),
                overlay_map(self.storage@).contains_key(key) ==> overlay_map(self.storage@)[key]
                    == overlay_map(self.storage@.take(i as int))[key],
            decreases i,
        {
            proof {
                assert(self.storage@.take(i as int).last() == self.storage@[i as int - 1]);
                assert(self.storage@.take(i as int).drop_last() =~= self.storage@.take(
                    i as int - 1,
                ));
            }
            if self.storage[i - 1].0 == key {
                return self.storage[i - 1].1;
            }
            i = i - 1;
        }
        proof {
            assert(self.storage@.take(0) =~= Seq::<(u64, Option<StorageValue>)>::empty());
        }
        backing.load(key)
    }

    /// Whether a key reads as present: mirrors `storage_load(..).is_some()`.
    pub fn storage_has<S: ContractStorage>(&self, backing: &S, key: u64) -> (r: bool)
        ensures
            r == (spec_storage_load(self.storage_view(), backing.view(), key) is Some),
    {
        match self.storage_load(backing, key) {
            Some(_) => true,
            None => false,
        }
    }
}

/// The overlay always wins: a stored value reads back, and a tombstone
/// hides the key whatever the backing store holds.
pub proof fn lemma_overlay_semantics(
    overlay: Map<u64, Option<StorageValue>>,
    backing: Map<u64, StorageValue>,
    key: u64,
    value: StorageValue,
)
    ensures
        spec_storage_load(overlay.insert(key, Some(value)), backing, key) == Some(value),
        spec_storage_load(overlay.insert(key, None), backing, key) is None,
{
}

} // verus!
