//! The transaction verifier.
//!
//! `pre_verify` runs the staged checks of one transaction against the state
//! — format gate, nonce, commitment-asset invariants, payload rules,
//! signature, multisig, sigma-proof claims — mutating the state as it goes
//! and collecting the proof claims into a shared batch.  `verify_batch`
//! drives it over a batch and then decides the collected sigma claims and
//! the aggregated range proofs.  The whole outcome, errors included, is a
//! function of the transaction and the starting state: the contracts here
//! pin it down stage by stage.

use vstd::prelude::*;

use crate::crypto::{
    hash_of, sig_valid, Ciphertext, CompressedCommitment, CompressedPublicKey, Digest,
    PedersenCommitment, PublicKey,
};
use crate::proofs::{spec_range_ok, BatchCollector, ProofVerificationError};
use crate::state::{spec_balance_of, spec_multisig_of, spec_nonce_of, MemoryState, StateModel};
use crate::transaction::{
    spec_native_asset, TxVersion, DecompressedTransferCt, Role, SigId, Transaction, TransactionType,
    TransferPayload, EXTRA_DATA_LIMIT_SIZE, EXTRA_DATA_LIMIT_SUM_SIZE, MAX_MULTISIG_PARTICIPANTS,
    MAX_TRANSFER_COUNT,
};
use crate::transcript::{TranscriptEntry, TranscriptLabel, VerifyTranscript};

verus! {

/// Why a transaction was rejected.  `State` wraps an error of the state
/// adapter; the other variants are validation failures.
#[derive(Clone, Debug, PartialEq, Eq)]
pub enum VerificationError<T> {
    State(T),
    /// Account nonce and transaction nonce differ: (got, expected).
    InvalidNonce(u64, u64),
    SenderIsReceiver,
    InvalidSignature,
    Proof(ProofVerificationError),
    TransferExtraDataSize,
    TransactionExtraDataSize,
    TransferCount,
    Commitments,
    MultiSigParticipants,
    MultiSigThreshold,
    MultiSigNotConfigured,
    MultiSigNotFound,
    InvalidFormat,
}

/// First failure among the transfers, scanned in order: a self-send, then an
/// oversized extra data, per transfer.
pub open spec fn spec_transfer_scan_err<E>(
    transfers: Seq<TransferPayload>,
    source: CompressedPublicKey,
) -> Option<VerificationError<E>>
    decreases transfers.len(),
{
    if transfers.len() == 0 {
        None
    } else if transfers[0].destination == source {
        Some(VerificationError::SenderIsReceiver)
    } else if transfers[0].spec_extra_data_size() > EXTRA_DATA_LIMIT_SIZE {
        Some(VerificationError::TransferExtraDataSize)
    } else {
        spec_transfer_scan_err(transfers.drop_first(), source)
    }
}

/// Total extra-data size of the transfers.
pub open spec fn spec_extra_data_sum(transfers: Seq<TransferPayload>, n: int) -> int
    decreases n,
{
    if n <= 0 {
        0
    } else {
        spec_extra_data_sum(transfers, n - 1) + transfers[n - 1].spec_extra_data_size()
    }
}

/// The payload checks that run before any proof work: transfer bounds,
/// self-send, extra-data limits and decompression; the burn overflow check.
pub open spec fn spec_data_check_err<E>(tx: Transaction) -> Option<VerificationError<E>> {
    match tx.data {
        TransactionType::Transfers(transfers) => {
            if transfers@.len() > MAX_TRANSFER_COUNT || transfers@.len() == 0 {
                Some(VerificationError::TransferCount)
            } else if spec_transfer_scan_err::<E>(transfers@, tx.source) is Some {
                spec_transfer_scan_err(transfers@, tx.source)
            } else if spec_extra_data_sum(transfers@, transfers@.len() as int)
                > EXTRA_DATA_LIMIT_SUM_SIZE {
                Some(VerificationError::TransactionExtraDataSize)
            } else if exists|i: int|
                0 <= i < transfers@.len() && !DecompressedTransferCt::spec_decompressible(
                    #[trigger] transfers@[i],
                ) {
                Some(VerificationError::Proof(ProofVerificationError::Decompression))
            } else {
                None
            }
        },
        TransactionType::Burn(payload) => {
            if tx.fee + payload.amount > u64::MAX {
                Some(VerificationError::InvalidFormat)
            } else {
                None
            }
        },
        TransactionType::MultiSig(_) => None,
    }
}

/// First failure among the multisig co-signatures, scanned in order: an
/// out-of-range participant index, a participant key that does not
/// decompress, then the signature check over the body digest.
pub open spec fn spec_multisig_sigs_err<E>(
    sigs: Seq<SigId>,
    participants: Seq<CompressedPublicKey>,
    msg: Seq<u8>,
) -> Option<VerificationError<E>>
    decreases sigs.len(),
{
    if sigs.len() == 0 {
        None
    } else if sigs[0].id >= participants.len() {
        Some(VerificationError::MultiSigParticipants)
    } else if !participants[sigs[0].id as int].is_canonical() {
        Some(VerificationError::Proof(ProofVerificationError::Decompression))
    } else if !sig_valid(
        sigs[0].signature,
        msg,
        PublicKey { compressed: participants[sigs[0].id as int] },
    ) {
        Some(VerificationError::InvalidSignature)
    } else {
        spec_multisig_sigs_err(sigs.drop_first(), participants, msg)
    }
}

/// The multisig stage: with a configuration present the transaction must
/// carry exactly `threshold` co-signatures, each verifying over the digest
/// of the wire form without the multisig section and final signature;
/// without one, it must carry none.
pub open spec fn spec_multisig_err<E>(tx: Transaction, st: StateModel) -> Option<
    VerificationError<E>,
> {
    match spec_multisig_of(st, tx.source) {
        Some(config) => {
            match tx.multisig {
                Some(ms) => {
                    if config.threshold != ms.signatures@.len() || ms.signatures@.len()
                        > MAX_MULTISIG_PARTICIPANTS {
                        Some(VerificationError::MultiSigParticipants)
                    } else {
                        spec_multisig_sigs_err(
                            ms.signatures@,
                            config.participants,
                            hash_of(tx.spec_multisig_signable_bytes()),
                        )
                    }
                },
                None => Some(VerificationError::MultiSigNotFound),
            }
        },
        None => {
            if tx.multisig is Some {
                Some(VerificationError::MultiSigNotConfigured)
            } else {
                None
            }
        },
    }
}

/// The checks of the payload-apply stage, which runs after the sender
/// commitments are processed: transfer receiver keys must decompress, a burn
/// amount must be positive, and a multisig payload must respect the
/// participant bound, the threshold bound and the reset rule.
pub open spec fn spec_apply_stage_err<E>(tx: Transaction, st: StateModel) -> Option<
    VerificationError<E>,
> {
    match tx.data {
        TransactionType::Transfers(transfers) => {
            if exists|i: int|
                0 <= i < transfers@.len() && !(#[trigger] transfers@[i]).destination.is_canonical() {
                Some(VerificationError::Proof(ProofVerificationError::Decompression))
            } else {
                None
            }
        },
        TransactionType::Burn(payload) => {
            if payload.amount == 0 {
                Some(VerificationError::InvalidFormat)
            } else {
                None
            }
        },
        TransactionType::MultiSig(payload) => {
            if payload.participants@.len() > MAX_MULTISIG_PARTICIPANTS {
                Some(VerificationError::MultiSigParticipants)
            } else if payload.threshold > payload.participants@.len() {
                Some(VerificationError::MultiSigThreshold)
            } else if payload.spec_is_reset() && spec_multisig_of(st, tx.source) is None {
                Some(VerificationError::MultiSigNotConfigured)
            } else {
                None
            }
        },
    }
}

/// The verdict of `pre_verify`: the first failure of the staged checks, or
/// none when the transaction passes them all.  Stage order is part of the
/// contract: it decides which error a transaction failing several checks
/// reports.
pub open spec fn spec_pre_verify_err<E>(tx: Transaction, st: StateModel) -> Option<
    VerificationError<E>,
> {
    if !tx.spec_valid_version_format() {
        Some(VerificationError::InvalidFormat)
    } else if spec_nonce_of(st, tx.source) != tx.nonce {
        Some(VerificationError::InvalidNonce(spec_nonce_of(st, tx.source), tx.nonce))
    } else if !tx.spec_commitment_assets_ok() {
        Some(VerificationError::Commitments)
    } else if spec_data_check_err::<E>(tx) is Some {
        spec_data_check_err(tx)
    } else if !tx.source.is_canonical() {
        Some(VerificationError::Proof(ProofVerificationError::Decompression))
    } else if !sig_valid(
        tx.signature,
        tx.spec_signable_bytes(),
        PublicKey { compressed: tx.source },
    ) {
        Some(VerificationError::InvalidSignature)
    } else if spec_multisig_err::<E>(tx, st) is Some {
        spec_multisig_err(tx, st)
    } else if spec_apply_stage_err::<E>(tx, st) is Some {
        spec_apply_stage_err(tx, st)
    } else if spec_next_pow2(spec_commitment_count(tx)) > usize::MAX as int {
        // The padded commitment vector would not fit in a machine word.
        Some(VerificationError::Proof(ProofVerificationError::Format))
    } else {
        None
    }
}

/// The state after the first `n` sender commitments are applied: for each,
/// the sender's balance of the asset drops by the asset's output value and
/// the output is logged.
pub open spec fn spec_apply_commitments(tx: Transaction, st: StateModel, n: int) -> StateModel
    decreases n,
{
    if n <= 0 {
        st
    } else {
        let prev = spec_apply_commitments(tx, st, n - 1);
        let sc = tx.source_commitments@[n - 1];
        let output = tx.spec_sender_output_value(sc.asset);
        let new_balance = spec_balance_of(prev, tx.source, sc.asset).wrapping_sub(output);
        StateModel {
            balances: prev.balances.insert((tx.source, sc.asset), new_balance),
            outputs: prev.outputs.push((tx.source, sc.asset, output)),
            ..prev
        }
    }
}

/// The commitment-equality claims: each new source commitment commits to
/// the sender's balance of its asset after the outputs are removed.
pub open spec fn spec_eq_claims(tx: Transaction, st: StateModel, n: int) -> bool
    decreases n,
{
    if n <= 0 {
        true
    } else {
        let prev = spec_apply_commitments(tx, st, n - 1);
        let sc = tx.source_commitments@[n - 1];
        let output = tx.spec_sender_output_value(sc.asset);
        let new_balance = spec_balance_of(prev, tx.source, sc.asset).wrapping_sub(output);
        spec_eq_claims(tx, st, n - 1) && sc.commitment.value == new_balance
    }
}

/// The ciphertext-validity claims: each transfer's receiver handle binds the
/// amount to the declared destination.
pub open spec fn spec_validity_claims(tx: Transaction) -> bool {
    match tx.data {
        TransactionType::Transfers(transfers) => forall|i: int|
            0 <= i < transfers@.len() ==> (#[trigger] transfers@[i]).receiver_handle.key
                == transfers@[i].destination,
        _ => true,
    }
}

/// All sigma claims a passing `pre_verify` feeds to the batch.
pub open spec fn spec_all_claims(tx: Transaction, st: StateModel) -> bool {
    spec_eq_claims(tx, spec_bump_nonce(tx, st), tx.source_commitments@.len() as int)
        && spec_validity_claims(tx)
}

/// The state with the sender's nonce advanced past this transaction.
pub open spec fn spec_bump_nonce(tx: Transaction, st: StateModel) -> StateModel {
    StateModel { nonces: st.nonces.insert(tx.source, (tx.nonce + 1) as u64), ..st }
}

/// The state after the first `n` transfers credit their receivers.
pub open spec fn spec_apply_transfers(tx: Transaction, st: StateModel, n: int) -> StateModel
    decreases n,
{
    match tx.data {
        TransactionType::Transfers(transfers) => {
            if n <= 0 {
                st
            } else {
                let prev = spec_apply_transfers(tx, st, n - 1);
                let t = transfers@[n - 1];
                let new_balance = spec_balance_of(prev, t.destination, t.asset).wrapping_add(
                    t.commitment.value,
                );
                StateModel {
                    balances: prev.balances.insert((t.destination, t.asset), new_balance),
                    ..prev
                }
            }
        },
        _ => st,
    }
}

/// The state after the payload-apply stage.
pub open spec fn spec_apply_data(tx: Transaction, st: StateModel) -> StateModel {
    match tx.data {
        TransactionType::Transfers(transfers) => spec_apply_transfers(
            tx,
            st,
            transfers@.len() as int,
        ),
        TransactionType::Burn(payload) => {
            let new_balance = spec_balance_of(st, tx.source, payload.asset).wrapping_add(
                payload.amount as u128,
            );
            StateModel {
                balances: st.balances.insert((tx.source, payload.asset), new_balance),
                ..st
            }
        },
        TransactionType::MultiSig(payload) => StateModel {
            multisig: st.multisig.insert(tx.source, payload.spec_model()),
            ..st
        },
    }
}

/// The state after a passing `pre_verify`: nonce advanced, sender balances
/// debited per commitment with the outputs logged, then the payload applied
/// (receivers credited, the burner's own balance credited back, or the
/// multisig configuration recorded).
pub open spec fn spec_state_after(tx: Transaction, st: StateModel) -> StateModel {
    spec_apply_data(
        tx,
        spec_apply_commitments(
            tx,
            spec_bump_nonce(tx, st),
            tx.source_commitments@.len() as int,
        ),
    )
}

/// The smallest power of two no smaller than `n`, reached by doubling `p`.
pub open spec fn spec_next_pow2_from(p: int, n: int) -> int
    decreases 2 * n - p,
{
    if p >= n || p <= 0 {
        p
    } else {
        spec_next_pow2_from(2 * p, n)
    }
}

/// The smallest power of two no smaller than `n`.
pub open spec fn spec_next_pow2(n: int) -> int {
    spec_next_pow2_from(1, n)
}

/// Whether `x` is a power of two.
pub open spec fn spec_is_pow2(x: int) -> bool
    decreases x,
{
    if x <= 0 {
        false
    } else if x == 1 {
        true
    } else {
        x % 2 == 0 && spec_is_pow2(x / 2)
    }
}

/// Doubling from a power of two lands on a power of two at least `n`.
pub proof fn lemma_next_pow2_from(p: int, n: int)
    requires
        spec_is_pow2(p),
    ensures
        spec_is_pow2(spec_next_pow2_from(p, n)),
        spec_next_pow2_from(p, n) >= p,
        p >= n ==> spec_next_pow2_from(p, n) == p,
        spec_next_pow2_from(p, n) >= n || p >= n,
    decreases 2 * n - p,
{
    if p < n {
        assert(spec_is_pow2(2 * p)) by {
            assert((2 * p) % 2 == 0);
            assert((2 * p) / 2 == p);
        }
        lemma_next_pow2_from(2 * p, n);
    }
}

/// The value-commitment vector is padded to a power of two.
pub proof fn lemma_next_pow2(n: int)
    requires
        n >= 1,
    ensures
        spec_is_pow2(spec_next_pow2(n)),
        spec_next_pow2(n) >= n,
{
    lemma_next_pow2_from(1, n);
}

/// The pairs contributed by the first `n` source commitments: each new
/// commitment in decompressed and wire form.
pub open spec fn spec_source_pairs(tx: Transaction, n: int) -> Seq<
    (PedersenCommitment, CompressedCommitment),
>
    decreases n,
{
    if n <= 0 {
        Seq::empty()
    } else {
        spec_source_pairs(tx, n - 1).push(
            (
                PedersenCommitment { value: tx.source_commitments@[n - 1].commitment.value },
                tx.source_commitments@[n - 1].commitment,
            ),
        )
    }
}

/// The pairs contributed by the first `n` transfers.
pub open spec fn spec_transfer_pairs(transfers: Seq<TransferPayload>, n: int) -> Seq<
    (PedersenCommitment, CompressedCommitment),
>
    decreases n,
{
    if n <= 0 {
        Seq::empty()
    } else {
        spec_transfer_pairs(transfers, n - 1).push(
            (
                PedersenCommitment { value: transfers[n - 1].commitment.value },
                transfers[n - 1].commitment,
            ),
        )
    }
}

/// How many commitments this transaction carries before padding.
pub open spec fn spec_commitment_count(tx: Transaction) -> int {
    tx.source_commitments@.len() + match tx.data {
        TransactionType::Transfers(transfers) => transfers@.len() as int,
        _ => 0,
    }
}

/// The identity pair used as padding.
pub open spec fn spec_identity_pair() -> (PedersenCommitment, CompressedCommitment) {
    (PedersenCommitment { value: 0 }, CompressedCommitment { value: 0 })
}

/// The value-commitment vector handed to the range proof: the source pairs,
/// then the transfer pairs, padded with identity pairs up to the next power
/// of two.
pub open spec fn spec_value_commitments(tx: Transaction) -> Seq<
    (PedersenCommitment, CompressedCommitment),
> {
    let bare = spec_source_pairs(tx, tx.source_commitments@.len() as int) + match tx.data {
        TransactionType::Transfers(transfers) => spec_transfer_pairs(
            transfers@,
            transfers@.len() as int,
        ),
        _ => Seq::empty(),
    };
    bare + Seq::new(
        (spec_next_pow2(spec_commitment_count(tx)) - spec_commitment_count(tx)) as nat,
        |i: int| spec_identity_pair(),
    )
}

/// The transcript entries of the fixed header.
pub open spec fn spec_header_entries(tx: Transaction) -> Seq<TranscriptEntry> {
    seq![
        TranscriptEntry::Sep(TranscriptLabel::Protocol),
        TranscriptEntry::U64(TranscriptLabel::Version, tx.version.spec_as_u64()),
        TranscriptEntry::Bytes(TranscriptLabel::SourcePubkey, tx.source.to_seq()),
        TranscriptEntry::U64(TranscriptLabel::Fee, tx.fee),
        TranscriptEntry::U64(TranscriptLabel::Nonce, tx.nonce),
    ]
}

/// The transcript entries absorbed by the first `n` sender commitments.
pub open spec fn spec_commitment_entries(tx: Transaction, n: int) -> Seq<TranscriptEntry>
    decreases n,
{
    if n <= 0 {
        Seq::empty()
    } else {
        let sc = tx.source_commitments@[n - 1];
        spec_commitment_entries(tx, n - 1) + seq![
            TranscriptEntry::Sep(TranscriptLabel::CommitmentEqSep),
            TranscriptEntry::Bytes(TranscriptLabel::NewSourceCommitmentAsset, sc.asset.to_seq()),
            TranscriptEntry::Bytes(
                TranscriptLabel::NewSourceCommitment,
                crate::bytes::u128_be(sc.commitment.value),
            ),
        ]
    }
}

/// The transcript entries absorbed by the first `n` transfers.
pub open spec fn spec_transfer_entries(transfers: Seq<TransferPayload>, n: int) -> Seq<
    TranscriptEntry,
>
    decreases n,
{
    if n <= 0 {
        Seq::empty()
    } else {
        let t = transfers[n - 1];
        spec_transfer_entries(transfers, n - 1) + seq![
            TranscriptEntry::Sep(TranscriptLabel::TransferSep),
            TranscriptEntry::Bytes(TranscriptLabel::DestPubkey, t.destination.to_seq()),
            TranscriptEntry::Bytes(
                TranscriptLabel::AmountCommitment,
                crate::bytes::u128_be(t.commitment.value),
            ),
            TranscriptEntry::Bytes(TranscriptLabel::AmountSenderHandle, t.sender_handle.key.to_seq()),
            TranscriptEntry::Bytes(
                TranscriptLabel::AmountReceiverHandle,
                t.receiver_handle.key.to_seq(),
            ),
        ]
    }
}

/// The transcript entries absorbed by the first `n` multisig participants.
pub open spec fn spec_participant_entries(
    participants: Seq<CompressedPublicKey>,
    n: int,
) -> Seq<TranscriptEntry>
    decreases n,
{
    if n <= 0 {
        Seq::empty()
    } else {
        spec_participant_entries(participants, n - 1).push(
            TranscriptEntry::Bytes(
                TranscriptLabel::MultisigParticipant,
                participants[n - 1].to_seq(),
            ),
        )
    }
}

/// The transcript entries absorbed by the payload-apply stage.
pub open spec fn spec_data_entries(tx: Transaction) -> Seq<TranscriptEntry> {
    match tx.data {
        TransactionType::Transfers(transfers) => spec_transfer_entries(
            transfers@,
            transfers@.len() as int,
        ),
        TransactionType::Burn(_) => Seq::empty(),
        TransactionType::MultiSig(payload) => seq![
            TranscriptEntry::Sep(TranscriptLabel::MultisigSep),
            TranscriptEntry::U64(TranscriptLabel::MultisigThreshold, payload.threshold as u64),
        ] + spec_participant_entries(
            payload.participants@,
            payload.participants@.len() as int,
        ),
    }
}

/// The whole transcript of a passing `pre_verify`: header, then the sender
/// commitments, then the payload entries, in exactly that order.
pub open spec fn spec_transcript_entries(tx: Transaction) -> Seq<TranscriptEntry> {
    spec_header_entries(tx) + spec_commitment_entries(tx, tx.source_commitments@.len() as int)
        + spec_data_entries(tx)
}

/// Applying the sender commitments touches balances and the output log only.
pub proof fn lemma_apply_commitments_frame(tx: Transaction, st: StateModel, n: int)
    ensures
        spec_apply_commitments(tx, st, n).multisig == st.multisig,
        spec_apply_commitments(tx, st, n).nonces == st.nonces,
    decreases n,
{
    if n > 0 {
        lemma_apply_commitments_frame(tx, st, n - 1);
    }
}

/// The smallest power of two no smaller than `n`, or the format error when
/// it does not fit in a machine word.
fn next_power_of_two(n: usize) -> (r: Result<usize, ProofVerificationError>)
    requires
        n >= 1,
    ensures
        match r {
            Ok(p) => p == spec_next_pow2(n as int) && spec_next_pow2(n as int) <= usize::MAX as int,
            Err(e) => spec_next_pow2(n as int) > usize::MAX as int && e
                == ProofVerificationError::Format,
        },
{
    let mut p: usize = 1;
    while p < n
        invariant
            1 <= p,
            n <= usize::MAX,
            spec_is_pow2(p as int),
            spec_next_pow2(n as int) == spec_next_pow2_from(p as int, n as int),
        decreases 2 * (n as int) - p,
    {
        let doubled = match p.checked_mul(2) {
            Some(doubled) => doubled,
            None => {
                proof {
                    assert(spec_is_pow2(2 * p as int)) by {
                        assert((2 * p as int) % 2 == 0);
                        assert((2 * p as int) / 2 == p as int);
                    }
                    lemma_next_pow2_from(2 * p as int, n as int);
                }
                return Err(ProofVerificationError::Format);
            },
        };
        p = doubled;
    }
    proof {
        lemma_next_pow2_from(p as int, n as int);
    }
    Ok(p)
}
impl Transaction {
    /// Starts a transcript and absorbs the fixed header: version, source
    /// key, fee and nonce, in that order.
    pub fn prepare_transcript(
        version: TxVersion,
        source_pubkey: &CompressedPublicKey,
        fee: u64,
        nonce: u64,
    ) -> (r: VerifyTranscript)
        ensures
            r.entries() == seq![
                TranscriptEntry::Sep(TranscriptLabel::Protocol),
                TranscriptEntry::U64(TranscriptLabel::Version, version.spec_as_u64()),
                TranscriptEntry::Bytes(TranscriptLabel::SourcePubkey, source_pubkey.to_seq()),
                TranscriptEntry::U64(TranscriptLabel::Fee, fee),
                TranscriptEntry::U64(TranscriptLabel::Nonce, nonce),
            ],
    {
        let mut transcript = VerifyTranscript::new();
        transcript.append_version(version.as_u64());
        transcript.append_source_pubkey(source_pubkey);
        transcript.append_fee(fee);
        transcript.append_nonce(nonce);
        proof {
            assert(transcript.entries() =~= seq![
                TranscriptEntry::Sep(TranscriptLabel::Protocol),
                TranscriptEntry::U64(TranscriptLabel::Version, version.spec_as_u64()),
                TranscriptEntry::Bytes(TranscriptLabel::SourcePubkey, source_pubkey.to_seq()),
                TranscriptEntry::U64(TranscriptLabel::Fee, fee),
                TranscriptEntry::U64(TranscriptLabel::Nonce, nonce),
            ]);
        }
        transcript
    }

    /// Payload validation: transfer count bounds, self-send, the per- and
    /// whole-transaction extra-data limits, decompression of the transfer
    /// ciphertexts, and the burn fee overflow check.
    #[verifier::loop_isolation(false)]
    fn validate_payload<E>(&self) -> (r: Result<
        Vec<DecompressedTransferCt>,
        VerificationError<E>,
    >)
        ensures
            match r {
                Ok(decompressed) => spec_data_check_err::<E>(*self) is None && match self.data {
                    TransactionType::Transfers(transfers) => decompressed@.len()
                        == transfers@.len() && forall|k: int|
                        0 <= k < transfers@.len() ==> (
                        #[trigger] decompressed@[k]).spec_matches(transfers@[k]),
                    _ => decompressed@.len() == 0,
                },
                Err(e) => spec_data_check_err::<E>(*self) == Some(e),
            },
    {
        let mut transfers_decompressed: Vec<DecompressedTransferCt> = Vec::new();
        match &self.data {
            TransactionType::Transfers(transfers) => {
                let n = transfers.len();
                if n > MAX_TRANSFER_COUNT || n == 0 {
                    return Err(VerificationError::TransferCount);
                }
                proof {
                    assert(transfers@.skip(0) =~= transfers@);
                }
                let mut extra_data_size: usize = 0;
                let mut i: usize = 0;
                while i < n
                    invariant
                        0 <= i <= n,
                        spec_transfer_scan_err::<E>(transfers@, self.source)
                            == spec_transfer_scan_err::<E>(transfers@.skip(i as int), self.source),
                        extra_data_size == spec_extra_data_sum(transfers@, i as int),
                        extra_data_size <= i * EXTRA_DATA_LIMIT_SIZE,
                    decreases n - i,
                {
                    proof {
                        assert(transfers@.skip(i as int)[0] == transfers@[i as int]);
                        assert(transfers@.skip(i as int).drop_first() =~= transfers@.skip(
                            i as int + 1,
                        ));
                    }
                    let transfer = &transfers[i];
                    if transfer.destination == self.source {
                        return Err(VerificationError::SenderIsReceiver);
                    }
                    match &transfer.extra_data {
                        Some(extra) => {
                            if extra.len() > EXTRA_DATA_LIMIT_SIZE {
                                return Err(VerificationError::TransferExtraDataSize);
                            }
                            extra_data_size = extra_data_size + extra.len();
                        },
                        None => {},
                    }
                    i = i + 1;
                }
                if extra_data_size > EXTRA_DATA_LIMIT_SUM_SIZE {
                    return Err(VerificationError::TransactionExtraDataSize);
                }
                let mut j: usize = 0;
                while j < n
                    invariant
                        0 <= j <= n,
                        transfers_decompressed@.len() == j,
                        forall|k: int|
                            0 <= k < j ==> DecompressedTransferCt::spec_decompressible(
                                #[trigger] transfers@[k],
                            ),
                        forall|k: int|
                            0 <= k < j ==> (#[trigger] transfers_decompressed@[k]).spec_matches(
                                transfers@[k],
                            ),
                    decreases n - j,
                {
                    match DecompressedTransferCt::decompress(&transfers[j]) {
                        Ok(decompressed) => {
                            transfers_decompressed.push(decompressed);
                        },
                        Err(_) => {
                            return Err(
                                VerificationError::Proof(ProofVerificationError::Decompression),
                            );
                        },
                    }
                    j = j + 1;
                }
            },
            TransactionType::Burn(payload) => {
                match self.fee.checked_add(payload.amount) {
                    Some(_) => {},
                    None => {
                        return Err(VerificationError::InvalidFormat);
                    },
                }
            },
            TransactionType::MultiSig(_) => {},
        }
        Ok(transfers_decompressed)
    }

    /// Multisig stage: with a configuration, the transaction must carry
    /// exactly `threshold` co-signatures, each verifying over the digest of
    /// the wire form up to the multisig section; without one, it must carry
    /// none.  (That signable prefix is never empty, so the tail arithmetic
    /// of the body digest cannot reach past the start of the buffer.)
    #[verifier::loop_isolation(false)]
    #[verifier::rlimit(100)]
    fn verify_multisig<E>(&self, state: &MemoryState) -> (r: Result<(), VerificationError<E>>)
        ensures
            match r {
                Ok(unit) => spec_multisig_err::<E>(*self, state@) is None,
                Err(e) => spec_multisig_err::<E>(*self, state@) == Some(e),
            },
    {
        match state.get_multisig_state(&self.source) {
            Some(config) => {
                match &self.multisig {
                    Some(ms) => {
                        if (config.threshold as usize) != ms.signatures.len()
                            || ms.signatures.len() > MAX_MULTISIG_PARTICIPANTS {
                            return Err(VerificationError::MultiSigParticipants);
                        }
                        proof {
                            // The co-signatures cover the wire form up to
                            // the multisig section; that prefix holds the
                            // fixed header fields, so the tail of the wire
                            // form (the section and the final signature)
                            // never reaches past its start.
                            crate::wire::lemma_multisig_signable_min_len(*self);
                            crate::wire::lemma_wire_tail_len(*self);
                            assert(2 + 65 * ms.signatures@.len() + 64 < self.spec_to_bytes().len());
                        }
                        let ms_bytes = self.multisig_signable_bytes();
                        let body_hash = crate::crypto::hash_bytes(ms_bytes.as_slice());
                        let hash_vec = body_hash.to_vec();
                        proof {
                            assert(ms.signatures@.skip(0) =~= ms.signatures@);
                        }
                        let k = ms.signatures.len();
                        let mut s: usize = 0;
                        while s < k
                            invariant
                                0 <= s <= k,
                                spec_multisig_sigs_err::<E>(
                                    ms.signatures@,
                                    config.participants@,
                                    hash_vec@,
                                ) == spec_multisig_sigs_err::<E>(
                                    ms.signatures@.skip(s as int),
                                    config.participants@,
                                    hash_vec@,
                                ),
                            decreases k - s,
                        {
                            proof {
                                assert(ms.signatures@.skip(s as int)[0]
                                    == ms.signatures@[s as int]);
                                assert(ms.signatures@.skip(s as int).drop_first()
                                    =~= ms.signatures@.skip(s as int + 1));
                            }
                            let sig = &ms.signatures[s];
                            let index = sig.id as usize;
                            if index >= config.participants.len() {
                                return Err(VerificationError::MultiSigParticipants);
                            }
                            let participant = config.participants[index];
                            let decompressed = match participant.decompress() {
                                Ok(decompressed) => decompressed,
                                Err(_) => {
                                    return Err(
                                        VerificationError::Proof(
                                            ProofVerificationError::Decompression,
                                        ),
                                    );
                                },
                            };
                            if !sig.signature.verify(hash_vec.as_slice(), &decompressed) {
                                return Err(VerificationError::InvalidSignature);
                            }
                            s = s + 1;
                        }
                        Ok(())
                    },
                    None => Err(VerificationError::MultiSigNotFound),
                }
            },
            None => {
                if self.multisig.is_some() {
                    Err(VerificationError::MultiSigNotConfigured)
                } else {
                    Ok(())
                }
            },
        }
    }

    /// The commitment-equality stage: per source commitment, debit the
    /// sender's balance of the asset by the asset's outputs, log the output,
    /// absorb the commitment into the transcript, and feed the equality
    /// claim to the batch.
    #[verifier::loop_isolation(false)]
    fn process_source_commitments(
        &self,
        owner: &PublicKey,
        transfers_decompressed: &Vec<DecompressedTransferCt>,
        state: &mut MemoryState,
        transcript: &mut VerifyTranscript,
        sigma_batch_collector: &mut BatchCollector,
    )
        requires
            match self.data {
                TransactionType::Transfers(transfers) => transfers_decompressed@.len()
                    == transfers@.len() && forall|k: int|
                    0 <= k < transfers@.len() ==> (
                    #[trigger] transfers_decompressed@[k]).spec_matches(transfers@[k]),
                _ => true,
            },
        ensures
            final(state)@ == spec_apply_commitments(
                *self,
                old(state)@,
                self.source_commitments@.len() as int,
            ),
            final(sigma_batch_collector).ok == (old(sigma_batch_collector).ok && spec_eq_claims(
                *self,
                old(state)@,
                self.source_commitments@.len() as int,
            )),
            final(transcript).entries() == old(transcript).entries() + spec_commitment_entries(
                *self,
                self.source_commitments@.len() as int,
            ),
    {
        let n_sc = self.source_commitments.len();
        let mut sc_i: usize = 0;
        while sc_i < n_sc
            invariant
                0 <= sc_i <= n_sc,
                state@ == spec_apply_commitments(*self, old(state)@, sc_i as int),
                sigma_batch_collector.ok == (old(sigma_batch_collector).ok && spec_eq_claims(
                    *self,
                    old(state)@,
                    sc_i as int,
                )),
                transcript.entries() == old(transcript).entries() + spec_commitment_entries(
                    *self,
                    sc_i as int,
                ),
            decreases n_sc - sc_i,
        {
            let commitment = &self.source_commitments[sc_i];
            let output = self.get_sender_output_ct(&commitment.asset, transfers_decompressed);
            let mut source_ciphertext = state.get_balance(&self.source, &commitment.asset);
            source_ciphertext.sub_ciphertext(&output);
            state.set_balance(&self.source, &commitment.asset, source_ciphertext);
            transcript.new_commitment_eq_proof_domain_separator();
            transcript.append_commitment_asset(&commitment.asset);
            transcript.append_new_source_commitment(&commitment.commitment);
            let new_source_commitment = commitment.commitment.decompress();
            commitment.proof.pre_verify(
                owner,
                &source_ciphertext,
                &new_source_commitment,
                transcript,
                sigma_batch_collector,
            );
            state.add_sender_output(&self.source, &commitment.asset, output);
            proof {
                assert(transcript.entries() =~= old(transcript).entries()
                    + spec_commitment_entries(*self, sc_i as int + 1));
            }
            sc_i = sc_i + 1;
        }
    }

    /// Credits each transfer's receiver with the transferred amount, absorbs
    /// the transfer into the transcript, and feeds the ciphertext-validity
    /// claim to the batch; returns the transfer commitment pairs.
    #[verifier::loop_isolation(false)]
    #[verifier::rlimit(100)]
    fn credit_receivers<E>(
        &self,
        transfers_decompressed: &Vec<DecompressedTransferCt>,
        state: &mut MemoryState,
        transcript: &mut VerifyTranscript,
        sigma_batch_collector: &mut BatchCollector,
    ) -> (r: Result<Vec<(PedersenCommitment, CompressedCommitment)>, VerificationError<E>>)
        requires
            self.data is Transfers,
            match self.data {
                TransactionType::Transfers(transfers) => transfers_decompressed@.len()
                    == transfers@.len() && forall|k: int|
                    0 <= k < transfers@.len() ==> (
                    #[trigger] transfers_decompressed@[k]).spec_matches(transfers@[k]),
                _ => true,
            },
        ensures
            match r {
                Ok(pairs) => {
                    &&& spec_apply_stage_err::<E>(*self, old(state)@) is None
                    &&& final(state)@ == spec_apply_data(*self, old(state)@)
                    &&& final(sigma_batch_collector).ok == (old(sigma_batch_collector).ok
                        && spec_validity_claims(*self))
                    &&& final(transcript).entries() == old(transcript).entries()
                        + spec_data_entries(*self)
                    &&& pairs@ == match self.data {
                        TransactionType::Transfers(transfers) => spec_transfer_pairs(
                            transfers@,
                            transfers@.len() as int,
                        ),
                        _ => Seq::<(PedersenCommitment, CompressedCommitment)>::empty(),
                    }
                },
                Err(e) => spec_apply_stage_err::<E>(*self, old(state)@) == Some(e),
            },
    {
        let mut value_commitments: Vec<(PedersenCommitment, CompressedCommitment)> = Vec::new();
        match &self.data {
            TransactionType::Transfers(transfers) => {
                let m = transfers.len();
                let mut t_i: usize = 0;
                while t_i < m
                    invariant
                        0 <= t_i <= m,
                        state@ == spec_apply_transfers(*self, old(state)@, t_i as int),
                        sigma_batch_collector.ok == (old(sigma_batch_collector).ok && forall|
                            k: int,
                        |
                            0 <= k < t_i ==> (#[trigger] transfers@[k]).receiver_handle.key
                                == transfers@[k].destination),
                        forall|k: int|
                            0 <= k < t_i ==> (#[trigger] transfers@[k]).destination.is_canonical(),
                        transcript.entries() == old(transcript).entries() + spec_transfer_entries(
                            transfers@,
                            t_i as int,
                        ),
                        value_commitments@ == spec_transfer_pairs(transfers@, t_i as int),
                    decreases m - t_i,
                {
                    let transfer = &transfers[t_i];
                    let receiver = match transfer.destination.decompress() {
                        Ok(receiver) => receiver,
                        Err(_) => {
                            return Err(
                                VerificationError::Proof(ProofVerificationError::Decompression),
                            );
                        },
                    };
                    let mut current_balance = state.get_balance(
                        &transfer.destination,
                        &transfer.asset,
                    );
                    let receiver_ct = transfers_decompressed[t_i].get_ciphertext(Role::Receiver);
                    current_balance.add_ciphertext(&receiver_ct);
                    state.set_balance(&transfer.destination, &transfer.asset, current_balance);
                    transcript.transfer_proof_domain_separator();
                    transcript.append_dest_pubkey(&transfer.destination);
                    transcript.append_amount_commitment(&transfer.commitment);
                    transcript.append_sender_handle(&transfer.sender_handle);
                    transcript.append_receiver_handle(&transfer.receiver_handle);
                    transfer.ct_validity_proof.pre_verify(
                        &transfers_decompressed[t_i].commitment,
                        &receiver,
                        &transfers_decompressed[t_i].receiver_handle,
                        transcript,
                        sigma_batch_collector,
                    );
                    value_commitments.push(
                        (transfers_decompressed[t_i].commitment, transfer.commitment),
                    );
                    proof {
                        assert(transfers_decompressed@[t_i as int].spec_matches(
                            transfers@[t_i as int],
                        ));
                        assert(transcript.entries() =~= old(transcript).entries()
                            + spec_transfer_entries(transfers@, t_i as int + 1));
                        assert(value_commitments@ =~= spec_transfer_pairs(
                            transfers@,
                            t_i as int + 1,
                        ));
                    }
                    t_i = t_i + 1;
                }
            },
            _ => {},
        }
        Ok(value_commitments)
    }

    /// The payload-apply stage: credit each transfer's receiver and collect
    /// its validity claim, credit a burn back to the sender's own balance,
    /// or record the multisig configuration; the transcript absorbs the
    /// payload along the way.  Returns the transfer commitment pairs for the
    /// range proof.
    #[verifier::loop_isolation(false)]
    #[verifier::rlimit(100)]
    fn apply_data_stage<E>(
        &self,
        transfers_decompressed: &Vec<DecompressedTransferCt>,
        state: &mut MemoryState,
        transcript: &mut VerifyTranscript,
        sigma_batch_collector: &mut BatchCollector,
    ) -> (r: Result<Vec<(PedersenCommitment, CompressedCommitment)>, VerificationError<E>>)
        requires
            match self.data {
                TransactionType::Transfers(transfers) => transfers_decompressed@.len()
                    == transfers@.len() && forall|k: int|
                    0 <= k < transfers@.len() ==> (
                    #[trigger] transfers_decompressed@[k]).spec_matches(transfers@[k]),
                _ => true,
            },
        ensures
            match r {
                Ok(pairs) => {
                    &&& spec_apply_stage_err::<E>(*self, old(state)@) is None
                    &&& final(state)@ == spec_apply_data(*self, old(state)@)
                    &&& final(sigma_batch_collector).ok == (old(sigma_batch_collector).ok
                        && spec_validity_claims(*self))
                    &&& final(transcript).entries() == old(transcript).entries()
                        + spec_data_entries(*self)
                    &&& pairs@ == match self.data {
                        TransactionType::Transfers(transfers) => spec_transfer_pairs(
                            transfers@,
                            transfers@.len() as int,
                        ),
                        _ => Seq::<(PedersenCommitment, CompressedCommitment)>::empty(),
                    }
                },
                Err(e) => spec_apply_stage_err::<E>(*self, old(state)@) == Some(e),
            },
    {
        let mut value_commitments: Vec<(PedersenCommitment, CompressedCommitment)> = Vec::new();
        match &self.data {
            TransactionType::Transfers(_) => {
                match self.credit_receivers::<E>(
                    transfers_decompressed,
                    state,
                    transcript,
                    sigma_batch_collector,
                ) {
                    Ok(pairs) => {
                        value_commitments = pairs;
                    },
                    Err(e) => {
                        return Err(e);
                    },
                }            },
            TransactionType::Burn(payload) => {
                if payload.amount == 0 {
                    return Err(VerificationError::InvalidFormat);
                }
                let mut current_balance = state.get_balance(&self.source, &payload.asset);
                current_balance.add_plaintext(payload.amount);
                state.set_balance(&self.source, &payload.asset, current_balance);
            },
            TransactionType::MultiSig(payload) => {
                if payload.participants.len() > MAX_MULTISIG_PARTICIPANTS {
                    return Err(VerificationError::MultiSigParticipants);
                }
                if (payload.threshold as usize) > payload.participants.len() {
                    return Err(VerificationError::MultiSigThreshold);
                }
                let is_reset = payload.threshold == 0 && payload.participants.len() > 0;
                if is_reset {
                    let configured = match state.get_multisig_state(&self.source) {
                        Some(_) => true,
                        None => false,
                    };
                    if !configured {
                        return Err(VerificationError::MultiSigNotConfigured);
                    }
                }
                transcript.multisig_proof_domain_separator();
                transcript.append_multisig_threshold(payload.threshold as u64);
                let p_n = payload.participants.len();
                let mut p_i: usize = 0;
                while p_i < p_n
                    invariant
                        0 <= p_i <= p_n,
                        transcript.entries() == old(transcript).entries() + seq![
                            TranscriptEntry::Sep(TranscriptLabel::MultisigSep),
                            TranscriptEntry::U64(
                                TranscriptLabel::MultisigThreshold,
                                payload.threshold as u64,
                            ),
                        ] + spec_participant_entries(payload.participants@, p_i as int),
                    decreases p_n - p_i,
                {
                    transcript.append_multisig_participant(&payload.participants[p_i]);
                    proof {
                        assert(transcript.entries() =~= old(transcript).entries() + seq![
                            TranscriptEntry::Sep(TranscriptLabel::MultisigSep),
                            TranscriptEntry::U64(
                                TranscriptLabel::MultisigThreshold,
                                payload.threshold as u64,
                            ),
                        ] + spec_participant_entries(payload.participants@, p_i as int + 1));
                    }
                    p_i = p_i + 1;
                }
                state.set_multisig_state(&self.source, payload.duplicate());
            },
        }
        proof {
            assert(final(transcript).entries() =~= old(transcript).entries() + spec_data_entries(
                *self,
            ));
        }
        Ok(value_commitments)
    }

    /// Runs the staged checks of this transaction against the state,
    /// mutating it as the batch semantics demand: the nonce is
    /// advanced and balances move even when a later stage fails, so a failed
    /// transaction leaves the state to be discarded by the caller.
    ///
    /// On success the state equals `spec_state_after`, the batch holds the
    /// transaction's sigma claims, and the returned transcript and
    /// value-commitment vector are exactly the specified ones.  On failure
    /// the error is exactly `spec_pre_verify_err` of the transaction and the
    /// starting state; the format gate alone fails before anything moves,
    /// so it leaves the state and the batch untouched.  The host's own
    /// pre-acceptance hook (rate limiting, banned sources) lives with the
    /// embedder, before this is called.
    #[verifier::loop_isolation(false)]
    #[verifier::rlimit(60)]
    pub fn pre_verify<E>(
        &self,
        state: &mut MemoryState,
        sigma_batch_collector: &mut BatchCollector,
    ) -> (r: Result<
        (VerifyTranscript, Vec<(PedersenCommitment, CompressedCommitment)>),
        VerificationError<E>,
    >)
        requires
            self.nonce < u64::MAX,
        ensures
            match r {
                Ok(payload) => {
                    &&& spec_pre_verify_err::<E>(*self, old(state)@) is None
                    &&& final(state)@ == spec_state_after(*self, old(state)@)
                    &&& final(sigma_batch_collector).ok == (old(sigma_batch_collector).ok
                        && spec_all_claims(*self, old(state)@))
                    &&& payload.0.entries() == spec_transcript_entries(*self)
                    &&& payload.1@ == spec_value_commitments(*self)
                },
                Err(e) => spec_pre_verify_err::<E>(*self, old(state)@) == Some(e),
            },
            !self.spec_valid_version_format() ==> final(state)@ == old(state)@
                && *final(sigma_batch_collector) == *old(sigma_batch_collector),
    {
        let ghost st0 = old(state)@;
        if !self.as_valid_version_format() {
            return Err(VerificationError::InvalidFormat);
        }
        // Nonce: the account's stored nonce must equal the transaction's,
        // and is advanced past it for the following transactions.
        let account_nonce = state.get_account_nonce(&self.source);
        if account_nonce != self.nonce {
            return Err(VerificationError::InvalidNonce(account_nonce, self.nonce));
        }
        state.update_account_nonce(&self.source, self.nonce + 1);
        let ghost st1 = state@;
        proof {
            assert(st1 == spec_bump_nonce(*self, st0));
        }
        if !self.verify_commitment_assets() {
            return Err(VerificationError::Commitments);
        }
        let transfers_decompressed = match self.validate_payload::<E>() {
            Ok(decompressed) => decompressed,
            Err(e) => {
                return Err(e);
            },
        };
        // The source key; every source commitment decompresses by
        // construction of the commitment model.
        let owner = match self.source.decompress() {
            Ok(owner) => owner,
            Err(_) => {
                return Err(VerificationError::Proof(ProofVerificationError::Decompression));
            },
        };
        // Transcript header: protocol label, version, source, fee, nonce.
        let mut transcript = Transaction::prepare_transcript(
            self.version,
            &self.source,
            self.fee,
            self.nonce,
        );
        proof {
            assert(transcript.entries() =~= spec_header_entries(*self));
        }
        // Final signature, over everything before it on the wire.
        let signable = self.signable_bytes();
        if !self.signature.verify(signable.as_slice(), &owner) {
            return Err(VerificationError::InvalidSignature);
        }
        // Multisig co-signatures against the configuration in the state.
        match self.verify_multisig::<E>(state) {
            Ok(_) => {},
            Err(e) => {
                proof {
                    assert(spec_multisig_err::<E>(*self, st1) == spec_multisig_err::<E>(
                        *self,
                        st0,
                    ));
                }
                return Err(e);
            },
        }
        let ghost batch_ok0 = sigma_batch_collector.ok;
        // Commitment-equality proofs: per asset, debit the sender's balance
        // by the asset's outputs and claim the new commitment equals it.
        self.process_source_commitments(
            &owner,
            &transfers_decompressed,
            state,
            &mut transcript,
            sigma_batch_collector,
        );
        let ghost st2 = state@;
        let n_sc = self.source_commitments.len();
        proof {
            lemma_apply_commitments_frame(*self, st1, n_sc as int);
        }
        // Payload application: credit receivers and collect validity claims,
        // credit a burn back to the sender, or record the multisig setup.
        let value_commitments = match self.apply_data_stage::<E>(
            &transfers_decompressed,
            state,
            &mut transcript,
            sigma_batch_collector,
        ) {
            Ok(pairs) => pairs,
            Err(e) => {
                proof {
                    assert(spec_apply_stage_err::<E>(*self, st2) == spec_apply_stage_err::<E>(
                        *self,
                        st0,
                    ));
                }
                return Err(e);
            },
        };
        // Value-commitment vector: the new source commitments, the transfer
        // commitments, and identity padding up to the next power of two.
        let n_transfers = value_commitments.len();
        proof {
            match &self.data {
                TransactionType::Transfers(transfers) => {
                    lemma_transfer_pairs_len(transfers@, transfers@.len() as int);
                },
                _ => {},
            }
            assert(n_sc + n_transfers == spec_commitment_count(*self));
            assert(self.spec_has_commitment_for_asset(crate::transaction::spec_native_asset()));
            assert(self.source_commitments@.len() >= 1);
            lemma_next_pow2(spec_commitment_count(*self));
        }
        let n_total = match n_sc.checked_add(n_transfers) {
            Some(total) => total,
            None => {
                return Err(VerificationError::Proof(ProofVerificationError::Format));
            },
        };
        let target = match next_power_of_two(n_total) {
            Ok(target) => target,
            Err(e) => {
                return Err(VerificationError::Proof(e));
            },
        };
        let mut final_commitments: Vec<(PedersenCommitment, CompressedCommitment)> = Vec::new();
        let mut f_i: usize = 0;
        while f_i < n_sc
            invariant
                0 <= f_i <= n_sc,
                final_commitments@ == spec_source_pairs(*self, f_i as int),
            decreases n_sc - f_i,
        {
            let commitment = &self.source_commitments[f_i];
            final_commitments.push((commitment.commitment.decompress(), commitment.commitment));
            f_i = f_i + 1;
        }
        let mut transfer_pairs = value_commitments;
        final_commitments.append(&mut transfer_pairs);
        let ghost bare = final_commitments@;
        proof {
            lemma_source_pairs_len(*self, n_sc as int);
            assert(bare.len() == n_total);
            lemma_next_pow2(n_total as int);
        }
        let mut pad_i: usize = final_commitments.len();
        while pad_i < target
            invariant
                final_commitments@.len() == pad_i,
                bare.len() <= pad_i <= target,
                final_commitments@ == bare + Seq::new(
                    (pad_i - bare.len()) as nat,
                    |i: int| spec_identity_pair(),
                ),
            decreases target - pad_i,
        {
            final_commitments.push(
                (PedersenCommitment { value: 0 }, CompressedCommitment { value: 0 }),
            );
            proof {
                assert(final_commitments@ =~= bare + Seq::new(
                    (pad_i + 1 - bare.len()) as nat,
                    |i: int| spec_identity_pair(),
                ));
            }
            pad_i = pad_i + 1;
        }
        proof {
            assert(final_commitments@ =~= spec_value_commitments(*self));
            assert(final(state)@ == spec_state_after(*self, st0));
            assert(transcript.entries() =~= spec_transcript_entries(*self));
            assert(spec_pre_verify_err::<E>(*self, st0) is None);
        }
        Ok((transcript, final_commitments))
    }
}

/// Each source commitment contributes one pair.
pub proof fn lemma_source_pairs_len(tx: Transaction, n: int)
    requires
        0 <= n,
    ensures
        spec_source_pairs(tx, n).len() == n,
    decreases n,
{
    if n > 0 {
        lemma_source_pairs_len(tx, n - 1);
    }
}

/// Each transfer contributes one pair.
pub proof fn lemma_transfer_pairs_len(transfers: Seq<TransferPayload>, n: int)
    requires
        0 <= n,
    ensures
        spec_transfer_pairs(transfers, n).len() == n,
    decreases n,
{
    if n > 0 {
        lemma_transfer_pairs_len(transfers, n - 1);
    }
}

/// The state after the first `n` transactions of a batch, each applied in
/// order.
pub open spec fn spec_prefix_state(txs: Seq<Transaction>, st: StateModel, n: int) -> StateModel
    decreases n,
{
    if n <= 0 {
        st
    } else {
        spec_state_after(txs[n - 1], spec_prefix_state(txs, st, n - 1))
    }
}

/// The first failure among the first `n` transactions of a batch, each
/// checked against the state left by its predecessors.
pub open spec fn spec_batch_pre_err<E>(txs: Seq<Transaction>, st: StateModel, n: int) -> Option<
    VerificationError<E>,
>
    decreases n,
{
    if n <= 0 {
        None
    } else {
        match spec_batch_pre_err::<E>(txs, st, n - 1) {
            Some(e) => Some(e),
            None => spec_pre_verify_err::<E>(txs[n - 1], spec_prefix_state(txs, st, n - 1)),
        }
    }
}

/// The conjunction of the sigma claims of the first `n` transactions.
pub open spec fn spec_prefix_claims(txs: Seq<Transaction>, st: StateModel, n: int) -> bool
    decreases n,
{
    if n <= 0 {
        true
    } else {
        spec_prefix_claims(txs, st, n - 1) && spec_all_claims(
            txs[n - 1],
            spec_prefix_state(txs, st, n - 1),
        )
    }
}

/// Once a transaction of the batch fails, the batch verdict is fixed.
pub proof fn lemma_batch_err_stable<E>(txs: Seq<Transaction>, st: StateModel, n: int, m: int)
    requires
        0 <= n <= m <= txs.len(),
        spec_batch_pre_err::<E>(txs, st, n) is Some,
    ensures
        spec_batch_pre_err::<E>(txs, st, m) == spec_batch_pre_err::<E>(txs, st, n),
    decreases m - n,
{
    if n < m {
        lemma_batch_err_stable::<E>(txs, st, n, m - 1);
    }
}

/// The verdict of `verify_batch`: the first `pre_verify` failure, else the
/// batched sigma check, else the batched range proofs.
pub open spec fn spec_verify_batch_err<E>(txs: Seq<Transaction>, st: StateModel) -> Option<
    VerificationError<E>,
> {
    match spec_batch_pre_err::<E>(txs, st, txs.len() as int) {
        Some(e) => Some(e),
        None => {
            if !spec_prefix_claims(txs, st, txs.len() as int) {
                Some(VerificationError::Proof(ProofVerificationError::GenericProof))
            } else if exists|k: int|
                0 <= k < txs.len() && !spec_range_ok(spec_value_commitments(#[trigger] txs[k])) {
                Some(VerificationError::Proof(ProofVerificationError::GenericProof))
            } else {
                None
            }
        },
    }
}

impl Transaction {
    /// Verifies a batch of transactions in order against the state.  Each
    /// transaction sees the mutations of its predecessors; the sigma claims
    /// of the whole batch are decided in one step, then the aggregated range
    /// proofs.  A failure aborts the batch with the state partially
    /// advanced: the caller discards it.
    #[verifier::loop_isolation(false)]
    pub fn verify_batch<E>(txs: &Vec<Transaction>, state: &mut MemoryState) -> (r: Result<
        (),
        VerificationError<E>,
    >)
        requires
            forall|k: int| 0 <= k < txs@.len() ==> (#[trigger] txs@[k]).nonce < u64::MAX,
        ensures
            match r {
                Ok(unit) => spec_verify_batch_err::<E>(txs@, old(state)@) is None && final(state)@
                    == spec_prefix_state(txs@, old(state)@, txs@.len() as int),
                Err(e) => spec_verify_batch_err::<E>(txs@, old(state)@) == Some(e),
            },
    {
        let ghost st0 = old(state)@;
        let mut sigma_batch_collector = BatchCollector::new();
        let mut prepared: Vec<(VerifyTranscript, Vec<(PedersenCommitment, CompressedCommitment)>)> =
            Vec::new();
        let n = txs.len();
        let mut i: usize = 0;
        while i < n
            invariant
                0 <= i <= n,
                state@ == spec_prefix_state(txs@, st0, i as int),
                spec_batch_pre_err::<E>(txs@, st0, i as int) is None,
                sigma_batch_collector.ok == spec_prefix_claims(txs@, st0, i as int),
                prepared@.len() == i,
                forall|k: int|
                    0 <= k < i ==> (#[trigger] prepared@[k]).1@ == spec_value_commitments(txs@[k]),
            decreases n - i,
        {
            match txs[i].pre_verify::<E>(state, &mut sigma_batch_collector) {
                Ok(payload) => {
                    prepared.push(payload);
                },
                Err(e) => {
                    proof {
                        assert(spec_batch_pre_err::<E>(txs@, st0, i as int + 1) == Some(e));
                        lemma_batch_err_stable::<E>(txs@, st0, i as int + 1, n as int);
                    }
                    return Err(e);
                },
            }
            i = i + 1;
        }
        match sigma_batch_collector.verify() {
            Ok(_) => {},
            Err(_) => {
                return Err(VerificationError::Proof(ProofVerificationError::GenericProof));
            },
        }
        let mut k: usize = 0;
        while k < n
            invariant
                0 <= k <= n,
                prepared@.len() == n,
                n == txs@.len(),
                forall|j: int|
                    0 <= j < n ==> (#[trigger] prepared@[j]).1@ == spec_value_commitments(txs@[j]),
                forall|j: int|
                    0 <= j < k ==> spec_range_ok(spec_value_commitments(#[trigger] txs@[j])),
            decreases n - k,
        {
            if !txs[k].range_proof.verify(&prepared[k].1) {
                return Err(VerificationError::Proof(ProofVerificationError::GenericProof));
            }
            k = k + 1;
        }
        Ok(())
    }

    /// Verifies one transaction, deciding its sigma claims and range proof
    /// immediately.  `verify_batch` is the batched form.
    pub fn verify<E>(&self, state: &mut MemoryState) -> (r: Result<(), VerificationError<E>>)
        requires
            self.nonce < u64::MAX,
        ensures
            match r {
                Ok(unit) => {
                    &&& spec_pre_verify_err::<E>(*self, old(state)@) is None
                    &&& spec_all_claims(*self, old(state)@)
                    &&& spec_range_ok(spec_value_commitments(*self))
                    &&& final(state)@ == spec_state_after(*self, old(state)@)
                },
                Err(e) => {
                    spec_pre_verify_err::<E>(*self, old(state)@) == Some(e) || (
                    spec_pre_verify_err::<E>(*self, old(state)@) is None && e
                        == VerificationError::<E>::Proof(ProofVerificationError::GenericProof) && !(
                    spec_all_claims(*self, old(state)@) && spec_range_ok(
                        spec_value_commitments(*self),
                    )))
                },
            },
    {
        let mut sigma_batch_collector = BatchCollector::new();
        let (transcript, commitments) = match self.pre_verify::<E>(
            state,
            &mut sigma_batch_collector,
        ) {
            Ok(payload) => payload,
            Err(e) => {
                return Err(e);
            },
        };
        match sigma_batch_collector.verify() {
            Ok(_) => {},
            Err(_) => {
                return Err(VerificationError::Proof(ProofVerificationError::GenericProof));
            },
        }
        if !self.range_proof.verify(&commitments) {
            return Err(VerificationError::Proof(ProofVerificationError::GenericProof));
        }
        Ok(())
    }
}

/// Decompression failures among the transfers are the only errors of the
/// apply paths.
pub open spec fn spec_apply_err<E>(tx: Transaction) -> Option<VerificationError<E>> {
    match tx.data {
        TransactionType::Transfers(transfers) => {
            if exists|i: int|
                0 <= i < transfers@.len() && !DecompressedTransferCt::spec_decompressible(
                    #[trigger] transfers@[i],
                ) {
                Some(VerificationError::Proof(ProofVerificationError::Decompression))
            } else {
                None
            }
        },
        _ => None,
    }
}

/// The payload effects of the apply paths: receivers credited for
/// transfers, nothing for a burn, the configuration recorded for multisig.
pub open spec fn spec_apply_data_without(tx: Transaction, st: StateModel) -> StateModel {
    match tx.data {
        TransactionType::Transfers(transfers) => spec_apply_transfers(
            tx,
            st,
            transfers@.len() as int,
        ),
        TransactionType::Burn(_) => st,
        TransactionType::MultiSig(payload) => StateModel {
            multisig: st.multisig.insert(tx.source, payload.spec_model()),
            ..st
        },
    }
}

/// The state after `apply_without_verify`: nonce advanced, sender balances
/// debited with outputs logged, then the payload effects.
pub open spec fn spec_apply_state(tx: Transaction, st: StateModel) -> StateModel {
    spec_apply_data_without(
        tx,
        spec_apply_commitments(tx, spec_bump_nonce(tx, st), tx.source_commitments@.len() as int),
    )
}

/// The commitment-equality claims of the partial-verify path, each checked
/// against the starting balances (the state is untouched until all pass).
pub open spec fn spec_partial_claims(tx: Transaction, st: StateModel) -> bool {
    forall|i: int|
        0 <= i < tx.source_commitments@.len() ==> (
        #[trigger] tx.source_commitments@[i]).commitment.value == spec_balance_of(
            st,
            tx.source,
            tx.source_commitments@[i].asset,
        ).wrapping_sub(tx.spec_sender_output_value(tx.source_commitments@[i].asset))
}

/// Why `apply_with_partial_verify` rejects: a transfer that does not
/// decompress, a source key that does not decompress, or a failed
/// commitment-equality claim.
pub open spec fn spec_partial_err<E>(tx: Transaction, st: StateModel) -> Option<
    VerificationError<E>,
> {
    if spec_apply_err::<E>(tx) is Some {
        spec_apply_err::<E>(tx)
    } else if !tx.source.is_canonical() {
        Some(VerificationError::Proof(ProofVerificationError::Decompression))
    } else if !spec_partial_claims(tx, st) {
        Some(VerificationError::Proof(ProofVerificationError::GenericProof))
    } else {
        None
    }
}

/// Committing the first `n` shadow balances of the partial-verify path: each
/// balance is set to the starting balance minus the asset's outputs, and the
/// output is logged.
pub open spec fn spec_partial_commit(tx: Transaction, st: StateModel, n: int) -> StateModel
    decreases n,
{
    if n <= 0 {
        st
    } else {
        let prev = spec_partial_commit(tx, st, n - 1);
        let sc = tx.source_commitments@[n - 1];
        let output = tx.spec_sender_output_value(sc.asset);
        let shadow = spec_balance_of(st, tx.source, sc.asset).wrapping_sub(output);
        StateModel {
            balances: prev.balances.insert((tx.source, sc.asset), shadow),
            outputs: prev.outputs.push((tx.source, sc.asset, output)),
            ..prev
        }
    }
}

/// The state after a passing `apply_with_partial_verify`.  The nonce is not
/// touched: this path trusts the block and only re-checks sender balances.
pub open spec fn spec_partial_state(tx: Transaction, st: StateModel) -> StateModel {
    spec_apply_data_without(tx, spec_partial_commit(tx, st, tx.source_commitments@.len() as int))
}

impl Transaction {
    /// Decompresses the group elements of every transfer.
    #[verifier::loop_isolation(false)]
    fn decompress_transfers<E>(&self) -> (r: Result<
        Vec<DecompressedTransferCt>,
        VerificationError<E>,
    >)
        ensures
            match r {
                Ok(decompressed) => spec_apply_err::<E>(*self) is None && match self.data {
                    TransactionType::Transfers(transfers) => decompressed@.len()
                        == transfers@.len() && forall|k: int|
                        0 <= k < transfers@.len() ==> (
                        #[trigger] decompressed@[k]).spec_matches(transfers@[k]),
                    _ => decompressed@.len() == 0,
                },
                Err(e) => spec_apply_err::<E>(*self) == Some(e),
            },
    {
        let mut transfers_decompressed: Vec<DecompressedTransferCt> = Vec::new();
        match &self.data {
            TransactionType::Transfers(transfers) => {
                let n = transfers.len();
                let mut j: usize = 0;
                while j < n
                    invariant
                        0 <= j <= n,
                        transfers_decompressed@.len() == j,
                        forall|k: int|
                            0 <= k < j ==> DecompressedTransferCt::spec_decompressible(
                                #[trigger] transfers@[k],
                            ),
                        forall|k: int|
                            0 <= k < j ==> (#[trigger] transfers_decompressed@[k]).spec_matches(
                                transfers@[k],
                            ),
                    decreases n - j,
                {
                    match DecompressedTransferCt::decompress(&transfers[j]) {
                        Ok(decompressed) => {
                            transfers_decompressed.push(decompressed);
                        },
                        Err(_) => {
                            return Err(
                                VerificationError::Proof(ProofVerificationError::Decompression),
                            );
                        },
                    }
                    j = j + 1;
                }
            },
            _ => {},
        }
        Ok(transfers_decompressed)
    }

    /// Applies the payload effects shared by the apply paths: credit each
    /// transfer's receiver, leave a burn alone, record a multisig payload.
    #[verifier::loop_isolation(false)]
    fn apply_payload_effects(
        &self,
        transfers_decompressed: &Vec<DecompressedTransferCt>,
        state: &mut MemoryState,
    )
        requires
            match self.data {
                TransactionType::Transfers(transfers) => transfers_decompressed@.len()
                    == transfers@.len() && forall|k: int|
                    0 <= k < transfers@.len() ==> (
                    #[trigger] transfers_decompressed@[k]).spec_matches(transfers@[k]),
                _ => true,
            },
        ensures
            final(state)@ == spec_apply_data_without(*self, old(state)@),
    {
        match &self.data {
            TransactionType::Transfers(transfers) => {
                let m = transfers.len();
                let mut t_i: usize = 0;
                while t_i < m
                    invariant
                        0 <= t_i <= m,
                        state@ == spec_apply_transfers(*self, old(state)@, t_i as int),
                    decreases m - t_i,
                {
                    let transfer = &transfers[t_i];
                    let mut current_balance = state.get_balance(
                        &transfer.destination,
                        &transfer.asset,
                    );
                    let receiver_ct = transfers_decompressed[t_i].get_ciphertext(Role::Receiver);
                    current_balance.add_ciphertext(&receiver_ct);
                    state.set_balance(&transfer.destination, &transfer.asset, current_balance);
                    proof {
                        assert(transfers_decompressed@[t_i as int].spec_matches(
                            transfers@[t_i as int],
                        ));
                    }
                    t_i = t_i + 1;
                }
            },
            TransactionType::Burn(_) => {},
            TransactionType::MultiSig(payload) => {
                state.set_multisig_state(&self.source, payload.duplicate());
            },
        }
    }

    /// Applies this transaction's state mutations without checking any proof
    /// or signature: the nonce bump, the per-asset debits with their output
    /// log entries, and the payload effects.  For blocks whose proofs were
    /// verified elsewhere.
    #[verifier::loop_isolation(false)]
    pub fn apply_without_verify<E>(&self, state: &mut MemoryState) -> (r: Result<
        (),
        VerificationError<E>,
    >)
        requires
            self.nonce < u64::MAX,
        ensures
            match r {
                Ok(unit) => spec_apply_err::<E>(*self) is None && final(state)@ == spec_apply_state(
                    *self,
                    old(state)@,
                ),
                Err(e) => spec_apply_err::<E>(*self) == Some(e),
            },
    {
        state.update_account_nonce(&self.source, self.nonce + 1);
        let ghost st1 = state@;
        let transfers_decompressed = match self.decompress_transfers::<E>() {
            Ok(decompressed) => decompressed,
            Err(e) => {
                return Err(e);
            },
        };
        let n_sc = self.source_commitments.len();
        let mut sc_i: usize = 0;
        while sc_i < n_sc
            invariant
                0 <= sc_i <= n_sc,
                state@ == spec_apply_commitments(*self, st1, sc_i as int),
            decreases n_sc - sc_i,
        {
            let commitment = &self.source_commitments[sc_i];
            let output = self.get_sender_output_ct(&commitment.asset, &transfers_decompressed);
            let mut current_balance = state.get_balance(&self.source, &commitment.asset);
            current_balance.sub_ciphertext(&output);
            state.set_balance(&self.source, &commitment.asset, current_balance);
            state.add_sender_output(&self.source, &commitment.asset, output);
            sc_i = sc_i + 1;
        }
        self.apply_payload_effects(&transfers_decompressed, state);
        Ok(())
    }

    /// Verifies only the commitment-equality claims against the current
    /// balances and, when they all pass, commits the new balances, the
    /// output log entries and the payload effects.  On failure the state is
    /// left untouched.
    #[verifier::loop_isolation(false)]
    #[verifier::rlimit(100)]
    pub fn apply_with_partial_verify<E>(&self, state: &mut MemoryState) -> (r: Result<
        (),
        VerificationError<E>,
    >)
        ensures
            match r {
                Ok(unit) => spec_partial_err::<E>(*self, old(state)@) is None && final(state)@
                    == spec_partial_state(*self, old(state)@),
                Err(e) => spec_partial_err::<E>(*self, old(state)@) == Some(e) && final(state)@
                    == old(state)@,
            },
    {
        let ghost st0 = old(state)@;
        let mut sigma_batch_collector = BatchCollector::new();
        let transfers_decompressed = match self.decompress_transfers::<E>() {
            Ok(decompressed) => decompressed,
            Err(e) => {
                return Err(e);
            },
        };
        let owner = match self.source.decompress() {
            Ok(owner) => owner,
            Err(_) => {
                return Err(VerificationError::Proof(ProofVerificationError::Decompression));
            },
        };
        let mut transcript = Transaction::prepare_transcript(
            self.version,
            &self.source,
            self.fee,
            self.nonce,
        );
        // Shadow phase: compute every new balance against the untouched
        // state and collect the equality claims.
        let mut changes: Vec<(Ciphertext, Ciphertext)> = Vec::new();
        let n_sc = self.source_commitments.len();
        let mut sc_i: usize = 0;
        while sc_i < n_sc
            invariant
                0 <= sc_i <= n_sc,
                state@ == st0,
                changes@.len() == sc_i,
                forall|k: int|
                    0 <= k < sc_i ==> (#[trigger] changes@[k]).0.value == spec_balance_of(
                        st0,
                        self.source,
                        self.source_commitments@[k].asset,
                    ).wrapping_sub(
                        self.spec_sender_output_value(self.source_commitments@[k].asset),
                    ),
                forall|k: int|
                    0 <= k < sc_i ==> (#[trigger] changes@[k]).1.value
                        == self.spec_sender_output_value(self.source_commitments@[k].asset),
                sigma_batch_collector.ok == (forall|k: int|
                    0 <= k < sc_i ==> (#[trigger] self.source_commitments@[k]).commitment.value
                        == spec_balance_of(
                        st0,
                        self.source,
                        self.source_commitments@[k].asset,
                    ).wrapping_sub(
                        self.spec_sender_output_value(self.source_commitments@[k].asset),
                    )),
            decreases n_sc - sc_i,
        {
            let commitment = &self.source_commitments[sc_i];
            let output = self.get_sender_output_ct(&commitment.asset, &transfers_decompressed);
            let mut shadow = state.get_balance(&self.source, &commitment.asset);
            shadow.sub_ciphertext(&output);
            transcript.new_commitment_eq_proof_domain_separator();
            transcript.append_commitment_asset(&commitment.asset);
            transcript.append_new_source_commitment(&commitment.commitment);
            let new_source_commitment = commitment.commitment.decompress();
            commitment.proof.pre_verify(
                &owner,
                &shadow,
                &new_source_commitment,
                &mut transcript,
                &mut sigma_batch_collector,
            );
            changes.push((shadow, output));
            sc_i = sc_i + 1;
        }
        match sigma_batch_collector.verify() {
            Ok(_) => {},
            Err(_) => {
                proof {
                    assert(!spec_partial_claims(*self, st0));
                }
                return Err(VerificationError::Proof(ProofVerificationError::GenericProof));
            },
        }
        // Commit phase: the claims all hold, write the shadow balances back.
        let mut c_i: usize = 0;
        while c_i < n_sc
            invariant
                0 <= c_i <= n_sc,
                changes@.len() == n_sc,
                state@ == spec_partial_commit(*self, st0, c_i as int),
                forall|k: int|
                    0 <= k < n_sc ==> (#[trigger] changes@[k]).0.value == spec_balance_of(
                        st0,
                        self.source,
                        self.source_commitments@[k].asset,
                    ).wrapping_sub(
                        self.spec_sender_output_value(self.source_commitments@[k].asset),
                    ),
                forall|k: int|
                    0 <= k < n_sc ==> (#[trigger] changes@[k]).1.value
                        == self.spec_sender_output_value(self.source_commitments@[k].asset),
            decreases n_sc - c_i,
        {
            let commitment = &self.source_commitments[c_i];
            let shadow = changes[c_i].0;
            let output = changes[c_i].1;
            state.set_balance(&self.source, &commitment.asset, shadow);
            state.add_sender_output(&self.source, &commitment.asset, output);
            c_i = c_i + 1;
        }
        self.apply_payload_effects(&transfers_decompressed, state);
        Ok(())
    }
}

/// Crediting receivers touches balances only.
pub proof fn lemma_apply_transfers_frame(tx: Transaction, st: StateModel, n: int)
    ensures
        spec_apply_transfers(tx, st, n).multisig == st.multisig,
        spec_apply_transfers(tx, st, n).nonces == st.nonces,
        spec_apply_transfers(tx, st, n).outputs == st.outputs,
    decreases n,
{
    if n > 0 {
        lemma_apply_transfers_frame(tx, st, n - 1);
    }
}

/// Nonce monotonicity: after a transaction with nonce `n` passes
/// `pre_verify`, the sender's account nonce reads `n + 1`.
pub proof fn lemma_nonce_monotonic(tx: Transaction, st: StateModel)
    requires
        tx.nonce < u64::MAX,
    ensures
        spec_nonce_of(spec_state_after(tx, st), tx.source) == tx.nonce + 1,
{
    let st1 = spec_bump_nonce(tx, st);
    let st2 = spec_apply_commitments(tx, st1, tx.source_commitments@.len() as int);
    lemma_apply_commitments_frame(tx, st1, tx.source_commitments@.len() as int);
    match tx.data {
        TransactionType::Transfers(transfers) => {
            lemma_apply_transfers_frame(tx, st2, transfers@.len() as int);
        },
        _ => {},
    }
}

/// What this transaction credits to receivers of `asset` over its first `n`
/// transfers, amounts adding modulo 2^128.
pub open spec fn spec_receiver_credit_prefix(
    transfers: Seq<TransferPayload>,
    asset: Digest,
    n: int,
) -> u128
    decreases n,
{
    if n <= 0 {
        0
    } else {
        let prev = spec_receiver_credit_prefix(transfers, asset, n - 1);
        if transfers[n - 1].asset == asset {
            prev.wrapping_add(transfers[n - 1].commitment.value)
        } else {
            prev
        }
    }
}

/// Everything this transaction credits to receivers of `asset`: the
/// matching transfer amounts, or the burner's own bookkeeping credit.
pub open spec fn spec_receiver_credit_value(tx: Transaction, asset: Digest) -> u128 {
    match tx.data {
        TransactionType::Transfers(transfers) => spec_receiver_credit_prefix(
            transfers@,
            asset,
            transfers@.len() as int,
        ),
        TransactionType::Burn(payload) => {
            if payload.asset == asset {
                payload.amount as u128
            } else {
                0
            }
        },
        TransactionType::MultiSig(_) => 0,
    }
}

/// Folding the transfer amounts over the fee base equals the base plus the
/// fold from zero.
proof fn lemma_output_fold_base(tx: Transaction, transfers: Seq<TransferPayload>, asset: Digest, n: int)
    ensures
        tx.spec_transfer_output_prefix(transfers, asset, n) == tx.spec_sender_output_base(
            asset,
        ).wrapping_add(spec_receiver_credit_prefix(transfers, asset, n)),
    decreases n,
{
    if n <= 0 {
    } else {
        lemma_output_fold_base(tx, transfers, asset, n - 1);
    }
}

/// Balance conservation: for every asset other than the native one, what
/// the sender pays out equals what the receivers are credited; for the
/// native asset they differ by exactly the fee.  (Under the homomorphic
/// model amounts add modulo 2^128; a burn credits the burner's own balance
/// as the range proof's bookkeeping symmetry demands.)
pub proof fn lemma_balance_conservation(tx: Transaction, asset: Digest)
    ensures
        asset != spec_native_asset() ==> tx.spec_sender_output_value(asset)
            == spec_receiver_credit_value(tx, asset),
        asset == spec_native_asset() ==> tx.spec_sender_output_value(asset) == (
        tx.fee as u128).wrapping_add(spec_receiver_credit_value(tx, asset)),
{
    match tx.data {
        TransactionType::Transfers(transfers) => {
            lemma_output_fold_base(tx, transfers@, asset, transfers@.len() as int);
        },
        _ => {},
    }
}

/// Asset coverage: a transaction passes `pre_verify` only when every asset
/// its payload touches has a source commitment, the native asset included,
/// with no duplicates.
pub proof fn lemma_asset_coverage<E>(tx: Transaction, st: StateModel)
    requires
        spec_pre_verify_err::<E>(tx, st) is None,
    ensures
        tx.spec_commitment_assets_ok(),
{
}

/// Determinism: the outcome of a batch — the verdict and the post-state —
/// is a function of the transactions and the starting state alone, so two
/// runs on equal inputs agree on both.
pub proof fn lemma_batch_determinism<E>(
    txs_a: Seq<Transaction>,
    st_a: StateModel,
    txs_b: Seq<Transaction>,
    st_b: StateModel,
)
    requires
        txs_a == txs_b,
        st_a == st_b,
    ensures
        spec_verify_batch_err::<E>(txs_a, st_a) == spec_verify_batch_err::<E>(txs_b, st_b),
        spec_prefix_state(txs_a, st_a, txs_a.len() as int) == spec_prefix_state(
            txs_b,
            st_b,
            txs_b.len() as int,
        ),
{
}

/// Commitment-vector padding: the value-commitment vector handed to the
/// range proof always has a power-of-two length.
pub proof fn lemma_commitment_vector_padding(tx: Transaction)
    requires
        spec_commitment_count(tx) >= 1,
    ensures
        spec_is_pow2(spec_value_commitments(tx).len() as int),
        spec_value_commitments(tx).len() == spec_next_pow2(spec_commitment_count(tx)),
{
    lemma_source_pairs_len(tx, tx.source_commitments@.len() as int);
    match tx.data {
        TransactionType::Transfers(transfers) => {
            lemma_transfer_pairs_len(transfers@, transfers@.len() as int);
        },
        _ => {},
    }
    lemma_next_pow2(spec_commitment_count(tx));
}


/// Self-send rejection: a transaction whose transfers all keep their extra
/// data within the per-transfer limit, and one of which names the sender as
/// destination, fails the transfer scan with `SenderIsReceiver`.  (A transfer
/// with oversized extra data standing before the self-send reports its own
/// size error first: the scan checks each transfer in order.)
pub proof fn lemma_self_send_rejected<E>(
    transfers: Seq<TransferPayload>,
    source: CompressedPublicKey,
)
    requires
        forall|i: int|
            0 <= i < transfers.len() ==> (#[trigger] transfers[i]).spec_extra_data_size()
                <= EXTRA_DATA_LIMIT_SIZE,
        exists|i: int|
            0 <= i < transfers.len() && (#[trigger] transfers[i]).destination == source,
    ensures
        spec_transfer_scan_err::<E>(transfers, source) == Some(
            VerificationError::<E>::SenderIsReceiver,
        ),
    decreases transfers.len(),
{
    let w = choose|i: int|
        0 <= i < transfers.len() && (#[trigger] transfers[i]).destination == source;
    if transfers[0].destination == source {
    } else {
        assert(w >= 1);
        assert(transfers.drop_first()[w - 1].destination == source);
        lemma_self_send_rejected::<E>(transfers.drop_first(), source);
    }
}

} // verus!
