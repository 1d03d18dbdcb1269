//! Sigma and range proofs under the transparent model.
//!
//! A proof object carries no data of its own here: its claim is a relation
//! between the values it is verified against, and "verifying" the proof is
//! checking that relation.  Claims are collected into a batch and decided in
//! one step, mirroring the batched multiscalar check of the real system.

use vstd::prelude::*;

use crate::crypto::{Ciphertext, DecryptHandle, PedersenCommitment, PublicKey};
use crate::transcript::VerifyTranscript;

verus! {

/// Why a proof (or a decompression feeding one) was rejected.
#[derive(Clone, Copy, PartialEq, Eq, Structural, Debug)]
pub enum ProofVerificationError {
    /// The batched sigma check failed.
    GenericProof,
    /// A malformed proof or commitment vector.
    Format,
    /// A group element failed to decompress.
    Decompression,
}

/// The largest committed amount any range proof covers: amounts must lie in
/// `[0, 2^64)`.
pub open spec fn spec_range_bound() -> u128 {
    0x1_0000_0000_0000_0000u128
}

/// Collects the claims of every sigma proof of a batch; `verify` decides
/// them all at once.  Order of collection does not matter: the batch holds
/// exactly the conjunction of its claims.
pub struct BatchCollector {
    pub ok: bool,
}

impl BatchCollector {
    /// An empty batch, which verifies.
    pub fn new() -> (r: BatchCollector)
        ensures
            r.ok,
    {
        BatchCollector { ok: true }
    }

    /// Decides every collected claim in one step.
    pub fn verify(&self) -> (r: Result<(), ProofVerificationError>)
        ensures
            r is Ok <==> self.ok,
    {
        if self.ok {
            Ok(())
        } else {
            Err(ProofVerificationError::GenericProof)
        }
    }
}

/// Sigma proof that a new source commitment commits to the same amount as
/// the sender's balance ciphertext after the outputs are removed.
pub struct CommitmentEqProof {}

impl CommitmentEqProof {
    /// The claim this proof makes against the given values.
    pub open spec fn spec_claim(
        source_ciphertext: Ciphertext,
        commitment: PedersenCommitment,
    ) -> bool {
        commitment.value == source_ciphertext.value
    }

    /// Feeds the proof's claim to the batch: the commitment and the updated
    /// balance ciphertext agree.  The transcript has already absorbed the
    /// domain separator, asset and commitment for this proof.
    pub fn pre_verify(
        &self,
        owner: &PublicKey,
        source_ciphertext: &Ciphertext,
        commitment: &PedersenCommitment,
        transcript: &mut VerifyTranscript,
        batch: &mut BatchCollector,
    )
        ensures
            final(batch).ok == (old(batch).ok && Self::spec_claim(*source_ciphertext, *commitment)),
            final(transcript).entries() == old(transcript).entries(),
    {
        batch.ok = batch.ok && commitment.value == source_ciphertext.value;
    }
}

/// Sigma proof that a transfer ciphertext is well-formed under the declared
/// receiver key.
pub struct CtValidityProof {}

impl CtValidityProof {
    /// The claim this proof makes against the given values.
    pub open spec fn spec_claim(receiver: PublicKey, receiver_handle: DecryptHandle) -> bool {
        receiver_handle.key == receiver.compressed
    }

    /// Feeds the proof's claim to the batch: the receiver handle binds the
    /// amount to the declared receiver.  The transcript has already absorbed
    /// the domain separator and the transfer's elements.
    pub fn pre_verify(
        &self,
        commitment: &PedersenCommitment,
        receiver: &PublicKey,
        receiver_handle: &DecryptHandle,
        transcript: &mut VerifyTranscript,
        batch: &mut BatchCollector,
    )
        ensures
            final(batch).ok == (old(batch).ok && Self::spec_claim(*receiver, *receiver_handle)),
            final(transcript).entries() == old(transcript).entries(),
    {
        batch.ok = batch.ok && receiver_handle.key == receiver.compressed;
    }
}

/// Aggregated range proof: every committed amount in the vector lies in
/// `[0, 2^64)`.
pub struct RangeProof {}

/// The range-proof relation over one commitment vector.
pub open spec fn spec_range_ok(
    commitments: Seq<(PedersenCommitment, crate::crypto::CompressedCommitment)>,
) -> bool {
    forall|i: int|
        0 <= i < commitments.len() ==> (#[trigger] commitments[i]).0.value < spec_range_bound()
}

impl RangeProof {
    /// Decides the range relation over one transaction's commitment vector.
    pub fn verify(
        &self,
        commitments: &Vec<(PedersenCommitment, crate::crypto::CompressedCommitment)>,
    ) -> (r: bool)
        ensures
            r == spec_range_ok(commitments@),
    {
        let n = commitments.len();
        let mut i: usize = 0;
        while i < n
            invariant
                n == commitments@.len(),
                0 <= i <= n,
                forall|k: int|
                    0 <= k < i ==> (#[trigger] commitments@[k]).0.value < spec_range_bound(),
            decreases n - i,
        {
            if commitments[i].0.value >= 0x1_0000_0000_0000_0000u128 {
                return false;
            }
            i = i + 1;
        }
        true
    }
}

} // verus!
