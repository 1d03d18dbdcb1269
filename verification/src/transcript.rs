//! Proof transcript discipline.
//!
//! Every sigma proof of a transaction is bound to the transaction through a
//! Merlin transcript.  The order and labels of the absorbed data are
//! consensus-critical: the contracts here track them as a ghost log of
//! labelled entries, so the verifier can state exactly which data was bound,
//! in which order, for a given transaction.

use vstd::prelude::*;
use vstd::string::StringSliceAdditionalSpecFns;

use crate::bytes::{u128_be, write_u128_be};
use crate::crypto::{CompressedCommitment, CompressedHandle, CompressedPublicKey, Digest};

verus! {

#[verifier::external_type_specification]
#[verifier::external_body]
pub struct ExTranscript(merlin::Transcript);

/// Relies on `merlin::Transcript::new`: starts a transcript under a domain
/// label.
#[verifier::external_body]
fn transcript_new(label: &'static [u8]) -> merlin::Transcript {
    merlin::Transcript::new(label)
}

/// Relies on `merlin::Transcript::append_message`: absorbs a labelled byte
/// string into the transcript state.  Merlin length-prefixes the message
/// with a 32-bit count and asserts that the length fits, so longer messages
/// are excluded here.
#[verifier::external_body]
fn transcript_append_message(t: &mut merlin::Transcript, label: &'static [u8], message: &[u8])
    requires
        message@.len() <= 0xffff_ffff,
{
    t.append_message(label, message)
}

/// Relies on `merlin::Transcript::append_u64`: absorbs a labelled 64-bit
/// integer (as its little-endian bytes) into the transcript state.
#[verifier::external_body]
fn transcript_append_u64(t: &mut merlin::Transcript, label: &'static [u8], x: u64) {
    t.append_u64(label, x)
}

/// The label under which a piece of data is absorbed.  Each variant stands
/// for one fixed byte-string label handed to Merlin.
#[derive(Clone, Copy, PartialEq, Eq, Structural, Debug)]
pub enum TranscriptLabel {
    /// The initial protocol label of the whole transcript.
    Protocol,
    Version,
    SourcePubkey,
    Fee,
    Nonce,
    /// Domain separator preceding each commitment-equality proof.
    CommitmentEqSep,
    NewSourceCommitmentAsset,
    NewSourceCommitment,
    /// Domain separator preceding each transfer validity proof.
    TransferSep,
    DestPubkey,
    AmountCommitment,
    AmountSenderHandle,
    AmountReceiverHandle,
    /// Domain separator preceding a multisig configuration.
    MultisigSep,
    MultisigThreshold,
    MultisigParticipant,
}

/// One absorbed transcript entry: a label and the data bound under it.
pub enum TranscriptEntry {
    U64(TranscriptLabel, u64),
    Bytes(TranscriptLabel, Seq<u8>),
    Sep(TranscriptLabel),
}

/// A Merlin transcript together with the ghost log of everything absorbed
/// into it, in order.
pub struct VerifyTranscript {
    inner: merlin::Transcript,
    log: Ghost<Seq<TranscriptEntry>>,
}

impl VerifyTranscript {
    /// The entries absorbed so far, oldest first.
    pub closed spec fn entries(&self) -> Seq<TranscriptEntry> {
        self.log@
    }

    /// Starts the transaction-proof transcript.
    pub fn new() -> (r: VerifyTranscript)
        ensures
            r.entries() == seq![TranscriptEntry::Sep(TranscriptLabel::Protocol)],
    {
        let log: Ghost<Seq<TranscriptEntry>> = Ghost(
            Seq::empty().push(TranscriptEntry::Sep(TranscriptLabel::Protocol)),
        );
        let r = VerifyTranscript { inner: transcript_new("transaction-proof".as_bytes()), log };
        proof {
            assert(r.entries() =~= seq![TranscriptEntry::Sep(TranscriptLabel::Protocol)]);
        }
        r
    }

    fn absorb_u64(&mut self, label: &'static [u8], entry_label: Ghost<TranscriptLabel>, x: u64)
        ensures
            final(self).entries() == old(self).entries().push(
                TranscriptEntry::U64(entry_label@, x),
            ),
    {
        transcript_append_u64(&mut self.inner, label, x);
        self.log = Ghost(self.log@.push(TranscriptEntry::U64(entry_label@, x)));
    }

    fn absorb_message(
        &mut self,
        label: &'static [u8],
        entry_label: Ghost<TranscriptLabel>,
        message: &[u8],
    )
        requires
            message@.len() <= 0xffff_ffff,
        ensures
            final(self).entries() == old(self).entries().push(
                TranscriptEntry::Bytes(entry_label@, message@),
            ),
    {
        transcript_append_message(&mut self.inner, label, message);
        self.log = Ghost(self.log@.push(TranscriptEntry::Bytes(entry_label@, message@)));
    }

    fn absorb_sep(&mut self, label: &'static [u8], entry_label: Ghost<TranscriptLabel>)
        ensures
            final(self).entries() == old(self).entries().push(
                TranscriptEntry::Sep(entry_label@),
            ),
    {
        // The separator's name is the label; the message is empty, so the
        // length bound of `transcript_append_message` holds trivially.
        let empty_message = "".as_bytes();
        proof {
            reveal_strlit("");
            assert(""@ =~= Seq::<char>::empty());
            assert("".spec_bytes() =~= Seq::<u8>::empty());
        }
        transcript_append_message(&mut self.inner, label, empty_message);
        self.log = Ghost(self.log@.push(TranscriptEntry::Sep(entry_label@)));
    }

    pub fn append_version(&mut self, version: u64)
        ensures
            final(self).entries() == old(self).entries().push(
                TranscriptEntry::U64(TranscriptLabel::Version, version),
            ),
    {
        self.absorb_u64("version".as_bytes(), Ghost(TranscriptLabel::Version), version);
    }

    pub fn append_fee(&mut self, fee: u64)
        ensures
            final(self).entries() == old(self).entries().push(
                TranscriptEntry::U64(TranscriptLabel::Fee, fee),
            ),
    {
        self.absorb_u64("fee".as_bytes(), Ghost(TranscriptLabel::Fee), fee);
    }

    pub fn append_nonce(&mut self, nonce: u64)
        ensures
            final(self).entries() == old(self).entries().push(
                TranscriptEntry::U64(TranscriptLabel::Nonce, nonce),
            ),
    {
        self.absorb_u64("nonce".as_bytes(), Ghost(TranscriptLabel::Nonce), nonce);
    }

    pub fn append_multisig_threshold(&mut self, threshold: u64)
        ensures
            final(self).entries() == old(self).entries().push(
                TranscriptEntry::U64(TranscriptLabel::MultisigThreshold, threshold),
            ),
    {
        self.absorb_u64("multisig_threshold".as_bytes(), Ghost(TranscriptLabel::MultisigThreshold), threshold);
    }

    fn absorb_public_key(
        &mut self,
        label: &'static [u8],
        entry_label: Ghost<TranscriptLabel>,
        key: &CompressedPublicKey,
    )
        ensures
            final(self).entries() == old(self).entries().push(
                TranscriptEntry::Bytes(entry_label@, key.to_seq()),
            ),
    {
        let mut bytes: Vec<u8> = Vec::new();
        key.write_to(&mut bytes);
        self.absorb_message(label, entry_label, bytes.as_slice());
    }

    pub fn append_source_pubkey(&mut self, key: &CompressedPublicKey)
        ensures
            final(self).entries() == old(self).entries().push(
                TranscriptEntry::Bytes(TranscriptLabel::SourcePubkey, key.to_seq()),
            ),
    {
        self.absorb_public_key("source_pubkey".as_bytes(), Ghost(TranscriptLabel::SourcePubkey), key);
    }

    pub fn append_dest_pubkey(&mut self, key: &CompressedPublicKey)
        ensures
            final(self).entries() == old(self).entries().push(
                TranscriptEntry::Bytes(TranscriptLabel::DestPubkey, key.to_seq()),
            ),
    {
        self.absorb_public_key("dest_pubkey".as_bytes(), Ghost(TranscriptLabel::DestPubkey), key);
    }

    pub fn append_multisig_participant(&mut self, key: &CompressedPublicKey)
        ensures
            final(self).entries() == old(self).entries().push(
                TranscriptEntry::Bytes(TranscriptLabel::MultisigParticipant, key.to_seq()),
            ),
    {
        self.absorb_public_key(
            "multisig_participant".as_bytes(),
            Ghost(TranscriptLabel::MultisigParticipant),
            key,
        );
    }

    pub fn append_commitment_asset(&mut self, asset: &Digest)
        ensures
            final(self).entries() == old(self).entries().push(
                TranscriptEntry::Bytes(TranscriptLabel::NewSourceCommitmentAsset, asset.to_seq()),
            ),
    {
        let bytes = asset.to_vec();
        self.absorb_message(
            "new_source_commitment_asset".as_bytes(),
            Ghost(TranscriptLabel::NewSourceCommitmentAsset),
            bytes.as_slice(),
        );
    }

    fn absorb_commitment(
        &mut self,
        label: &'static [u8],
        entry_label: Ghost<TranscriptLabel>,
        commitment: &CompressedCommitment,
    )
        ensures
            final(self).entries() == old(self).entries().push(
                TranscriptEntry::Bytes(entry_label@, u128_be(commitment.value)),
            ),
    {
        let mut bytes: Vec<u8> = Vec::new();
        write_u128_be(commitment.value, &mut bytes);
        self.absorb_message(label, entry_label, bytes.as_slice());
    }

    pub fn append_new_source_commitment(&mut self, commitment: &CompressedCommitment)
        ensures
            final(self).entries() == old(self).entries().push(
                TranscriptEntry::Bytes(
                    TranscriptLabel::NewSourceCommitment,
                    u128_be(commitment.value),
                ),
            ),
    {
        self.absorb_commitment(
            "new_source_commitment".as_bytes(),
            Ghost(TranscriptLabel::NewSourceCommitment),
            commitment,
        );
    }

    pub fn append_amount_commitment(&mut self, commitment: &CompressedCommitment)
        ensures
            final(self).entries() == old(self).entries().push(
                TranscriptEntry::Bytes(
                    TranscriptLabel::AmountCommitment,
                    u128_be(commitment.value),
                ),
            ),
    {
        self.absorb_commitment(
            "amount_commitment".as_bytes(),
            Ghost(TranscriptLabel::AmountCommitment),
            commitment,
        );
    }

    pub fn append_sender_handle(&mut self, handle: &CompressedHandle)
        ensures
            final(self).entries() == old(self).entries().push(
                TranscriptEntry::Bytes(TranscriptLabel::AmountSenderHandle, handle.key.to_seq()),
            ),
    {
        self.absorb_public_key(
            "amount_sender_handle".as_bytes(),
            Ghost(TranscriptLabel::AmountSenderHandle),
            &handle.key,
        );
    }

    pub fn append_receiver_handle(&mut self, handle: &CompressedHandle)
        ensures
            final(self).entries() == old(self).entries().push(
                TranscriptEntry::Bytes(TranscriptLabel::AmountReceiverHandle, handle.key.to_seq()),
            ),
    {
        self.absorb_public_key(
            "amount_receiver_handle".as_bytes(),
            Ghost(TranscriptLabel::AmountReceiverHandle),
            &handle.key,
        );
    }

    /// Domain separator preceding each commitment-equality proof.
    pub fn new_commitment_eq_proof_domain_separator(&mut self)
        ensures
            final(self).entries() == old(self).entries().push(
                TranscriptEntry::Sep(TranscriptLabel::CommitmentEqSep),
            ),
    {
        self.absorb_sep("new-commitment-eq-proof".as_bytes(), Ghost(TranscriptLabel::CommitmentEqSep));
    }

    /// Domain separator preceding each transfer validity proof.
    pub fn transfer_proof_domain_separator(&mut self)
        ensures
            final(self).entries() == old(self).entries().push(
                TranscriptEntry::Sep(TranscriptLabel::TransferSep),
            ),
    {
        self.absorb_sep("transfer-proof".as_bytes(), Ghost(TranscriptLabel::TransferSep));
    }

    /// Domain separator preceding a multisig configuration.
    pub fn multisig_proof_domain_separator(&mut self)
        ensures
            final(self).entries() == old(self).entries().push(
                TranscriptEntry::Sep(TranscriptLabel::MultisigSep),
            ),
    {
        self.absorb_sep("multisig".as_bytes(), Ghost(TranscriptLabel::MultisigSep));
    }
}

} // verus!
