//! Wire form of a transaction.
//!
//! Field order: version, source key, nonce, fee, payload (tag then body),
//! source commitments, reference, range proof, optional multisig section,
//! final signature.  Integers are big-endian.  The final signature covers
//! everything before it; the multisig co-signatures cover everything before
//! the multisig section.

use vstd::prelude::*;

use crate::bytes::{u128_be, u64_be, write_u128_be, write_u64_be};
use crate::crypto::SIGNATURE_SIZE;
use crate::transaction::{
    MultiSig, MultiSigPayload, SigId, SourceCommitment, Transaction, TransactionType,
    TransferPayload, TxVersion,
};

verus! {

/// Wire bytes of one transfer.
pub open spec fn spec_transfer_bytes(t: TransferPayload) -> Seq<u8> {
    t.asset.to_seq() + t.destination.to_seq() + match t.extra_data {
        Some(data) => seq![1u8] + u64_be(data@.len() as u64) + data@,
        None => seq![0u8],
    } + u128_be(t.commitment.value) + t.sender_handle.key.to_seq() + t.receiver_handle.key.to_seq()
}

/// Wire bytes of the first `n` transfers, concatenated.
pub open spec fn spec_transfers_list_bytes(transfers: Seq<TransferPayload>, n: int) -> Seq<u8>
    decreases n,
{
    if n <= 0 {
        Seq::<u8>::empty()
    } else {
        spec_transfers_list_bytes(transfers, n - 1) + spec_transfer_bytes(transfers[n - 1])
    }
}

/// Wire bytes of the payload body, after its tag.
pub open spec fn spec_data_bytes(data: TransactionType) -> Seq<u8> {
    match data {
        TransactionType::Transfers(transfers) => seq![0u8, transfers@.len() as u8]
            + spec_transfers_list_bytes(transfers@, transfers@.len() as int),
        TransactionType::Burn(payload) => seq![1u8] + payload.asset.to_seq() + u64_be(
            payload.amount,
        ),
        TransactionType::MultiSig(payload) => seq![2u8, payload.threshold, payload.participants@.len() as u8]
            + spec_participants_bytes(payload.participants@, payload.participants@.len() as int),
    }
}

/// Wire bytes of the first `n` multisig participants, concatenated.
pub open spec fn spec_participants_bytes(
    participants: Seq<crate::crypto::CompressedPublicKey>,
    n: int,
) -> Seq<u8>
    decreases n,
{
    if n <= 0 {
        Seq::<u8>::empty()
    } else {
        spec_participants_bytes(participants, n - 1) + participants[n - 1].to_seq()
    }
}

/// Wire bytes of one source commitment.
pub open spec fn spec_source_commitment_bytes(c: SourceCommitment) -> Seq<u8> {
    c.asset.to_seq() + u128_be(c.commitment.value)
}

/// Wire bytes of the first `n` source commitments, concatenated.
pub open spec fn spec_commitments_list_bytes(commitments: Seq<SourceCommitment>, n: int) -> Seq<u8>
    decreases n,
{
    if n <= 0 {
        Seq::<u8>::empty()
    } else {
        spec_commitments_list_bytes(commitments, n - 1) + spec_source_commitment_bytes(
            commitments[n - 1],
        )
    }
}

/// Wire bytes of the first `n` co-signatures, concatenated; each is the
/// participant index followed by the 64-byte signature.
pub open spec fn spec_sig_ids_bytes(sigs: Seq<SigId>, n: int) -> Seq<u8>
    decreases n,
{
    if n <= 0 {
        Seq::<u8>::empty()
    } else {
        spec_sig_ids_bytes(sigs, n - 1) + seq![sigs[n - 1].id] + sigs[n - 1].signature.to_seq()
    }
}

/// Wire bytes of the optional multisig section, presence byte included.
pub open spec fn spec_multisig_section_bytes(multisig: Option<MultiSig>) -> Seq<u8> {
    match multisig {
        Some(ms) => seq![1u8, ms.signatures@.len() as u8] + spec_sig_ids_bytes(
            ms.signatures@,
            ms.signatures@.len() as int,
        ),
        None => seq![0u8],
    }
}

impl Transaction {
    /// Everything the multisig co-signatures cover: all fields before the
    /// multisig section.
    pub open spec fn spec_multisig_signable_bytes(&self) -> Seq<u8> {
        seq![self.version.spec_as_u64() as u8] + self.source.to_seq() + u64_be(self.nonce) + u64_be(
            self.fee,
        ) + spec_data_bytes(self.data) + seq![self.source_commitments@.len() as u8]
            + spec_commitments_list_bytes(
            self.source_commitments@,
            self.source_commitments@.len() as int,
        ) + self.reference.hash.to_seq() + u64_be(self.reference.topoheight)
    }

    /// Everything the final signature covers: all fields before it.
    pub open spec fn spec_signable_bytes(&self) -> Seq<u8> {
        self.spec_multisig_signable_bytes() + spec_multisig_section_bytes(self.multisig)
    }

    /// The whole wire form.
    pub open spec fn spec_to_bytes(&self) -> Seq<u8> {
        self.spec_signable_bytes() + self.signature.to_seq()
    }

    #[verifier::rlimit(60)]
    fn write_data(&self, out: &mut Vec<u8>)
        ensures
            final(out)@ == old(out)@ + spec_data_bytes(self.data),
    {
        match &self.data {
            TransactionType::Transfers(transfers) => {
                out.push(0u8);
                out.push(#[verifier::truncate] (transfers.len() as u8));
                let n = transfers.len();
                let mut i: usize = 0;
                while i < n
                    invariant
                        n == transfers@.len(),
                        0 <= i <= n,
                        out@ == old(out)@ + seq![0u8, transfers@.len() as u8]
                            + spec_transfers_list_bytes(transfers@, i as int),
                    decreases n - i,
                {
                    let t = &transfers[i];
                    t.asset.write_to(out);
                    t.destination.write_to(out);
                    match &t.extra_data {
                        Some(data) => {
                            out.push(1u8);
                            write_u64_be(data.len() as u64, out);
                            let mut k: usize = 0;
                            let dn = data.len();
                            let ghost mid = out@;
                            while k < dn
                                invariant
                                    dn == data@.len(),
                                    0 <= k <= dn,
                                    out@ == mid + data@.take(k as int),
                                decreases dn - k,
                            {
                                out.push(data[k]);
                                proof {
                                    assert(out@ =~= mid + data@.take(k as int + 1));
                                }
                                k = k + 1;
                            }
                            proof {
                                assert(data@.take(dn as int) =~= data@);
                            }
                        },
                        None => {
                            out.push(0u8);
                        },
                    }
                    write_u128_be(t.commitment.value, out);
                    t.sender_handle.key.write_to(out);
                    t.receiver_handle.key.write_to(out);
                    proof {
                        assert(out@ =~= old(out)@ + seq![0u8, transfers@.len() as u8]
                            + spec_transfers_list_bytes(transfers@, i as int + 1));
                    }
                    i = i + 1;
                }
                proof {
                    assert(final(out)@ =~= old(out)@ + spec_data_bytes(self.data));
                }
            },
            TransactionType::Burn(payload) => {
                out.push(1u8);
                payload.asset.write_to(out);
                write_u64_be(payload.amount, out);
                proof {
                    assert(final(out)@ =~= old(out)@ + spec_data_bytes(self.data));
                }
            },
            TransactionType::MultiSig(payload) => {
                out.push(2u8);
                out.push(payload.threshold);
                out.push(#[verifier::truncate] (payload.participants.len() as u8));
                let n = payload.participants.len();
                let mut i: usize = 0;
                while i < n
                    invariant
                        n == payload.participants@.len(),
                        0 <= i <= n,
                        out@ == old(out)@ + seq![
                            2u8,
                            payload.threshold,
                            payload.participants@.len() as u8,
                        ] + spec_participants_bytes(payload.participants@, i as int),
                    decreases n - i,
                {
                    payload.participants[i].write_to(out);
                    proof {
                        assert(out@ =~= old(out)@ + seq![
                            2u8,
                            payload.threshold,
                            payload.participants@.len() as u8,
                        ] + spec_participants_bytes(payload.participants@, i as int + 1));
                    }
                    i = i + 1;
                }
                proof {
                    assert(final(out)@ =~= old(out)@ + spec_data_bytes(self.data));
                }
            },
        }
    }

    /// Serializes every field the multisig co-signatures cover.
    pub fn multisig_signable_bytes(&self) -> (r: Vec<u8>)
        ensures
            r@ == self.spec_multisig_signable_bytes(),
    {
        let mut out: Vec<u8> = Vec::new();
        out.push(#[verifier::truncate] (self.version.as_u64() as u8));
        self.source.write_to(&mut out);
        write_u64_be(self.nonce, &mut out);
        write_u64_be(self.fee, &mut out);
        self.write_data(&mut out);
        out.push(#[verifier::truncate] (self.source_commitments.len() as u8));
        let n = self.source_commitments.len();
        let ghost mid = out@;
        let mut i: usize = 0;
        while i < n
            invariant
                n == self.source_commitments@.len(),
                0 <= i <= n,
                out@ == mid + spec_commitments_list_bytes(self.source_commitments@, i as int),
            decreases n - i,
        {
            let c = &self.source_commitments[i];
            c.asset.write_to(&mut out);
            write_u128_be(c.commitment.value, &mut out);
            proof {
                assert(out@ =~= mid + spec_commitments_list_bytes(
                    self.source_commitments@,
                    i as int + 1,
                ));
            }
            i = i + 1;
        }
        self.reference.hash.write_to(&mut out);
        write_u64_be(self.reference.topoheight, &mut out);
        proof {
            assert(out@ =~= self.spec_multisig_signable_bytes());
        }
        out
    }

    /// Serializes every field the final signature covers.
    pub fn signable_bytes(&self) -> (r: Vec<u8>)
        ensures
            r@ == self.spec_signable_bytes(),
    {
        let mut out = self.multisig_signable_bytes();
        match &self.multisig {
            Some(ms) => {
                out.push(1u8);
                out.push(#[verifier::truncate] (ms.signatures.len() as u8));
                let n = ms.signatures.len();
                let ghost mid = out@;
                let mut i: usize = 0;
                while i < n
                    invariant
                        n == ms.signatures@.len(),
                        0 <= i <= n,
                        out@ == mid + spec_sig_ids_bytes(ms.signatures@, i as int),
                    decreases n - i,
                {
                    out.push(ms.signatures[i].id);
                    ms.signatures[i].signature.write_to(&mut out);
                    proof {
                        assert(out@ =~= mid + spec_sig_ids_bytes(ms.signatures@, i as int + 1));
                    }
                    i = i + 1;
                }
            },
            None => {
                out.push(0u8);
            },
        }
        proof {
            assert(out@ =~= self.spec_signable_bytes());
        }
        out
    }

    /// The whole wire form of the transaction.
    pub fn to_bytes(&self) -> (r: Vec<u8>)
        ensures
            r@ == self.spec_to_bytes(),
    {
        let mut out = self.signable_bytes();
        self.signature.write_to(&mut out);
        proof {
            assert(out@ =~= self.spec_to_bytes());
        }
        out
    }
}

/// The multisig-signable prefix is at least as long as the smallest fixed
/// fields: the multisig body-hash tail arithmetic can never reach past it.
pub proof fn lemma_multisig_signable_min_len(tx: Transaction)
    ensures
        tx.spec_multisig_signable_bytes().len() >= 90,
{
    assert(tx.source.to_seq().len() == 32);
    assert(tx.reference.hash.to_seq().len() == 32);
}

/// Length of the wire form past the multisig-signable prefix, when the
/// multisig section holds `n` co-signatures: presence byte, count byte, the
/// co-signatures, and the final signature.
pub proof fn lemma_wire_tail_len(tx: Transaction)
    requires
        tx.multisig is Some,
    ensures
        tx.spec_to_bytes().len() == tx.spec_multisig_signable_bytes().len() + 2 + 65
            * tx.multisig->0.signatures@.len() + SIGNATURE_SIZE,
{
    let sigs = tx.multisig->0.signatures@;
    lemma_sig_ids_len(sigs, sigs.len() as int);
    assert(tx.signature.to_seq().len() == 64);
}

/// Each encoded co-signature takes 65 bytes.
pub proof fn lemma_sig_ids_len(sigs: Seq<SigId>, n: int)
    requires
        0 <= n <= sigs.len(),
    ensures
        spec_sig_ids_bytes(sigs, n).len() == 65 * n,
    decreases n,
{
    if n > 0 {
        lemma_sig_ids_len(sigs, n - 1);
        assert(sigs[n - 1].signature.to_seq().len() == 64);
    }
}

} // verus!
