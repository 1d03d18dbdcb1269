//! In-memory blockchain verification state.
//!
//! The verifier reads and writes per-account data through this state:
//! nonces, per-asset balance ciphertexts, multisig configurations, and the
//! bookkeeping log of sender outputs.  Every mutation made while verifying a
//! batch is visible to the following transactions of the same batch; the
//! batch is the unit of rollback, so a failed verification leaves the state
//! partially advanced and the caller discards it.
//!
//! Entries are appended; a read takes the most recent entry for its key.
//! The abstract view is a map per table, plus the output log in order.

use vstd::prelude::*;

use crate::crypto::{Ciphertext, CompressedPublicKey, Digest};
use crate::transaction::{MultiSigModel, MultiSigPayload};

verus! {

/// The abstract state: one map per table and the output log.
pub struct StateModel {
    pub nonces: Map<CompressedPublicKey, u64>,
    pub balances: Map<(CompressedPublicKey, Digest), u128>,
    pub multisig: Map<CompressedPublicKey, MultiSigModel>,
    pub outputs: Seq<(CompressedPublicKey, Digest, u128)>,
}

/// The map denoted by an association list, later entries winning.
pub open spec fn nonces_map(s: Seq<(CompressedPublicKey, u64)>) -> Map<CompressedPublicKey, u64>
    decreases s.len(),
{
    if s.len() == 0 {
        Map::empty()
    } else {
        nonces_map(s.drop_last()).insert(s.last().0, s.last().1)
    }
}

/// The balance map denoted by an association list, later entries winning.
pub open spec fn balances_map(s: Seq<((CompressedPublicKey, Digest), Ciphertext)>) -> Map<
    (CompressedPublicKey, Digest),
    u128,
>
    decreases s.len(),
{
    if s.len() == 0 {
        Map::empty()
    } else {
        balances_map(s.drop_last()).insert(s.last().0, s.last().1.value)
    }
}

/// The multisig map denoted by an association list, later entries winning.
pub open spec fn multisig_map(s: Seq<(CompressedPublicKey, MultiSigPayload)>) -> Map<
    CompressedPublicKey,
    MultiSigModel,
>
    decreases s.len(),
{
    if s.len() == 0 {
        Map::empty()
    } else {
        multisig_map(s.drop_last()).insert(s.last().0, s.last().1.spec_model())
    }
}

/// The account's nonce: zero until one is recorded.
pub open spec fn spec_nonce_of(st: StateModel, key: CompressedPublicKey) -> u64 {
    if st.nonces.contains_key(key) {
        st.nonces[key]
    } else {
        0
    }
}

/// The account's balance of an asset: zero until one is recorded.
pub open spec fn spec_balance_of(st: StateModel, key: CompressedPublicKey, asset: Digest) -> u128 {
    if st.balances.contains_key((key, asset)) {
        st.balances[(key, asset)]
    } else {
        0
    }
}

/// The account's multisig configuration.  A recorded payload with threshold
/// zero is a cleared configuration and reads back as none.
pub open spec fn spec_multisig_of(st: StateModel, key: CompressedPublicKey) -> Option<
    MultiSigModel,
> {
    if st.multisig.contains_key(key) && st.multisig[key].threshold > 0 {
        Some(st.multisig[key])
    } else {
        None
    }
}

/// In-memory state the verifier runs against.
pub struct MemoryState {
    nonces: Vec<(CompressedPublicKey, u64)>,
    balances: Vec<((CompressedPublicKey, Digest), Ciphertext)>,
    multisig: Vec<(CompressedPublicKey, MultiSigPayload)>,
    outputs: Vec<(CompressedPublicKey, Digest, Ciphertext)>,
}

impl View for MemoryState {
    type V = StateModel;

    closed spec fn view(&self) -> StateModel {
        StateModel {
            nonces: nonces_map(self.nonces@),
            balances: balances_map(self.balances@),
            multisig: multisig_map(self.multisig@),
            outputs: self.outputs@.map_values(|e: (CompressedPublicKey, Digest, Ciphertext)| (e.0, e.1, e.2.value)),
        }
    }
}

impl MemoryState {
    /// A state with no accounts: every nonce and balance reads as zero.
    pub fn new() -> (r: MemoryState)
        ensures
            r@.nonces == Map::<CompressedPublicKey, u64>::empty(),
            r@.balances == Map::<(CompressedPublicKey, Digest), u128>::empty(),
            r@.multisig == Map::<CompressedPublicKey, MultiSigModel>::empty(),
            r@.outputs == Seq::<(CompressedPublicKey, Digest, u128)>::empty(),
    {
        let r = MemoryState {
            nonces: Vec::new(),
            balances: Vec::new(),
            multisig: Vec::new(),
            outputs: Vec::new(),
        };
        proof {
            assert(r@.outputs =~= Seq::<(CompressedPublicKey, Digest, u128)>::empty());
        }
        r
    }

    /// The account's current nonce, zero for an unknown account.
    pub fn get_account_nonce(&self, key: &CompressedPublicKey) -> (r: u64)
        ensures
            r == spec_nonce_of(self@, *key),
    {
        let n = self.nonces.len();
        proof {
            assert(self.nonces@.take(n as int) =~= self.nonces@);
        }
        let mut i: usize = n;
        while i > 0
            invariant
                n == self.nonces@.len(),
                0 <= i <= n,
                forall|k: int| i <= k < n ==> (#[trigger] self.nonces@[k]).0 != *key,
                nonces_map(self.nonces@).contains_key(*key) == nonces_map(
                    self.nonces@.take(i as int),
                ).contains_key(*key),
                nonces_map(self.nonces@).contains_key(*key) ==> nonces_map(self.nonces@)[*key]
                    == nonces_map(self.nonces@.take(i as int))[*key],
            decreases i,
        {
            let entry = &self.nonces[i - 1];
            proof {
                assert(self.nonces@.take(i as int).last() == self.nonces@[i as int - 1]);
                assert(self.nonces@.take(i as int).drop_last() =~= self.nonces@.take(i as int - 1));
            }
            if entry.0 == *key {
                return entry.1;
            }
            i = i - 1;
        }
        proof {
            assert(self.nonces@.take(0) =~= Seq::<(CompressedPublicKey, u64)>::empty());
        }
        0
    }

    /// Records the account's nonce.
    pub fn update_account_nonce(&mut self, key: &CompressedPublicKey, nonce: u64)
        ensures
            final(self)@ == (StateModel {
                nonces: old(self)@.nonces.insert(*key, nonce),
                ..old(self)@
            }),
    {
        self.nonces.push((*key, nonce));
        proof {
            assert(self.nonces@.drop_last() =~= old(self).nonces@);
        }
    }

    /// The account's balance ciphertext for an asset, zero for an unknown
    /// pair.  The senders' historical snapshot and the receivers' live
    /// balance coincide in memory.
    pub fn get_balance(&self, key: &CompressedPublicKey, asset: &Digest) -> (r: Ciphertext)
        ensures
            r.value == spec_balance_of(self@, *key, *asset),
    {
        let n = self.balances.len();
        proof {
            assert(self.balances@.take(n as int) =~= self.balances@);
        }
        let mut i: usize = n;
        while i > 0
            invariant
                n == self.balances@.len(),
                0 <= i <= n,
                balances_map(self.balances@).contains_key((*key, *asset)) == balances_map(
                    self.balances@.take(i as int),
                ).contains_key((*key, *asset)),
                balances_map(self.balances@).contains_key((*key, *asset)) ==> balances_map(
                    self.balances@,
                )[(*key, *asset)] == balances_map(self.balances@.take(i as int))[(*key, *asset)],
            decreases i,
        {
            let entry = &self.balances[i - 1];
            proof {
                assert(self.balances@.take(i as int).last() == self.balances@[i as int - 1]);
                assert(self.balances@.take(i as int).drop_last() =~= self.balances@.take(
                    i as int - 1,
                ));
            }
            if entry.0.0 == *key && entry.0.1 == *asset {
                return entry.1;
            }
            i = i - 1;
        }
        proof {
            assert(self.balances@.take(0) =~= Seq::<
                ((CompressedPublicKey, Digest), Ciphertext),
            >::empty());
        }
        Ciphertext::zero()
    }

    /// Records the account's balance ciphertext for an asset.
    pub fn set_balance(&mut self, key: &CompressedPublicKey, asset: &Digest, ciphertext: Ciphertext)
        ensures
            final(self)@ == (StateModel {
                balances: old(self)@.balances.insert((*key, *asset), ciphertext.value),
                ..old(self)@
            }),
    {
        self.balances.push(((*key, *asset), ciphertext));
        proof {
            assert(self.balances@.drop_last() =~= old(self).balances@);
        }
    }

    /// Appends an output ciphertext to the bookkeeping log.
    pub fn add_sender_output(
        &mut self,
        key: &CompressedPublicKey,
        asset: &Digest,
        output: Ciphertext,
    )
        ensures
            final(self)@ == (StateModel {
                outputs: old(self)@.outputs.push((*key, *asset, output.value)),
                ..old(self)@
            }),
    {
        self.outputs.push((*key, *asset, output));
        proof {
            assert(self.outputs@.drop_last() =~= old(self).outputs@);
            assert(final(self)@.outputs =~= old(self)@.outputs.push((*key, *asset, output.value)));
        }
    }

    /// The account's multisig configuration; a cleared configuration
    /// (threshold zero) reads as none.
    pub fn get_multisig_state(&self, key: &CompressedPublicKey) -> (r: Option<&MultiSigPayload>)
        ensures
            match r {
                Some(payload) => spec_multisig_of(self@, *key) == Some(payload.spec_model()),
                None => spec_multisig_of(self@, *key) is None,
            },
    {
        let n = self.multisig.len();
        proof {
            assert(self.multisig@.take(n as int) =~= self.multisig@);
        }
        let mut i: usize = n;
        while i > 0
            invariant
                n == self.multisig@.len(),
                0 <= i <= n,
                multisig_map(self.multisig@).contains_key(*key) == multisig_map(
                    self.multisig@.take(i as int),
                ).contains_key(*key),
                multisig_map(self.multisig@).contains_key(*key) ==> multisig_map(
                    self.multisig@,
                )[*key] == multisig_map(self.multisig@.take(i as int))[*key],
            decreases i,
        {
            proof {
                assert(self.multisig@.take(i as int).last() == self.multisig@[i as int - 1]);
                assert(self.multisig@.take(i as int).drop_last() =~= self.multisig@.take(
                    i as int - 1,
                ));
            }
            if self.multisig[i - 1].0 == *key {
                if self.multisig[i - 1].1.threshold > 0 {
                    return Some(&self.multisig[i - 1].1);
                } else {
                    return None;
                }
            }
            i = i - 1;
        }
        proof {
            assert(self.multisig@.take(0) =~= Seq::<(CompressedPublicKey, MultiSigPayload)>::empty());
        }
        None
    }

    /// Records the account's multisig configuration.  A payload with
    /// threshold zero clears it.
    pub fn set_multisig_state(&mut self, key: &CompressedPublicKey, payload: MultiSigPayload)
        ensures
            final(self)@ == (StateModel {
                multisig: old(self)@.multisig.insert(*key, payload.spec_model()),
                ..old(self)@
            }),
    {
        self.multisig.push((*key, payload));
        proof {
            assert(self.multisig@.drop_last() =~= old(self).multisig@);
        }
    }
}

} // verus!
