//! End-to-end scenarios of the transaction verifier.

use xelis_core::crypto::{
    Bytes32, Ciphertext, CompressedCommitment, CompressedHandle, CompressedPublicKey, Digest,
    Signature,
};
use xelis_core::proofs::{CommitmentEqProof, CtValidityProof, ProofVerificationError, RangeProof};
use xelis_core::state::MemoryState;
use xelis_core::transaction::{
    native_asset, BurnPayload, MultiSig, MultiSigPayload, Reference, SigId, SourceCommitment,
    Transaction, TransactionType, TransferPayload, TxVersion, EXTRA_DATA_LIMIT_SIZE,
};
use xelis_core::verify::VerificationError;

fn digest_of(bytes: &[u8]) -> Digest {
    let h = blake3::hash(bytes);
    let b = h.as_bytes();
    Digest(Bytes32 {
        w0: u64::from_be_bytes(b[0..8].try_into().unwrap()),
        w1: u64::from_be_bytes(b[8..16].try_into().unwrap()),
        w2: u64::from_be_bytes(b[16..24].try_into().unwrap()),
        w3: u64::from_be_bytes(b[24..32].try_into().unwrap()),
    })
}

fn key(id: u64) -> CompressedPublicKey {
    CompressedPublicKey(Bytes32 { w0: 0, w1: 0, w2: 0, w3: id })
}

fn asset(id: u64) -> Digest {
    Digest(Bytes32 { w0: 0, w1: id, w2: 0, w3: 0 })
}

fn reference() -> Reference {
    Reference { hash: asset(0), topoheight: 0 }
}

fn transfer_to(dest: CompressedPublicKey, source: CompressedPublicKey, a: Digest, amount: u128)
    -> TransferPayload {
    TransferPayload {
        asset: a,
        destination: dest,
        extra_data: None,
        commitment: CompressedCommitment { value: amount },
        sender_handle: CompressedHandle { key: source },
        receiver_handle: CompressedHandle { key: dest },
        ct_validity_proof: CtValidityProof {},
    }
}

fn commitment_for(a: Digest, value: u128) -> SourceCommitment {
    SourceCommitment { asset: a, commitment: CompressedCommitment { value }, proof: CommitmentEqProof {} }
}

fn sign(tx: &mut Transaction) {
    let bytes = tx.signable_bytes();
    tx.signature = Signature { key: tx.source, msg_hash: digest_of(&bytes) };
}

fn base_tx(source: CompressedPublicKey, data: TransactionType, fee: u64, nonce: u64,
    commitments: Vec<SourceCommitment>) -> Transaction {
    let mut tx = Transaction {
        version: TxVersion::V1,
        source,
        data,
        fee,
        nonce,
        source_commitments: commitments,
        range_proof: RangeProof {},
        reference: reference(),
        multisig: None,
        signature: Signature { key: source, msg_hash: asset(0) },
    };
    sign(&mut tx);
    tx
}

#[test]
fn single_native_transfer() {
    let sender = key(1);
    let receiver = key(2);
    let mut state = MemoryState::new();
    state.set_balance(&sender, &native_asset(), Ciphertext { value: 100 });
    let tx = base_tx(
        sender,
        TransactionType::Transfers(vec![transfer_to(receiver, sender, native_asset(), 10)]),
        1,
        0,
        vec![commitment_for(native_asset(), 89)],
    );
    let r = tx.verify::<()>(&mut state);
    assert!(r.is_ok());
    assert_eq!(state.get_account_nonce(&sender), 1);
    assert_eq!(state.get_balance(&sender, &native_asset()).value, 89);
    assert_eq!(state.get_balance(&receiver, &native_asset()).value, 10);
}

#[test]
fn self_transfer_rejected() {
    let sender = key(1);
    let mut state = MemoryState::new();
    state.set_balance(&sender, &native_asset(), Ciphertext { value: 100 });
    let tx = base_tx(
        sender,
        TransactionType::Transfers(vec![transfer_to(sender, sender, native_asset(), 10)]),
        1,
        0,
        vec![commitment_for(native_asset(), 89)],
    );
    let r = tx.verify::<()>(&mut state);
    assert_eq!(r, Err(VerificationError::SenderIsReceiver));
}

#[test]
fn replay_in_one_batch() {
    let sender = key(1);
    let receiver = key(2);
    let mut state = MemoryState::new();
    state.set_balance(&sender, &native_asset(), Ciphertext { value: 100 });
    let tx = base_tx(
        sender,
        TransactionType::Transfers(vec![transfer_to(receiver, sender, native_asset(), 10)]),
        1,
        0,
        vec![commitment_for(native_asset(), 89)],
    );
    let tx_again = base_tx(
        sender,
        TransactionType::Transfers(vec![transfer_to(receiver, sender, native_asset(), 10)]),
        1,
        0,
        vec![commitment_for(native_asset(), 89)],
    );
    let r = Transaction::verify_batch::<()>(&vec![tx, tx_again], &mut state);
    assert_eq!(r, Err(VerificationError::InvalidNonce(1, 0)));
}

#[test]
fn missing_commitment_for_second_asset() {
    let sender = key(1);
    let receiver = key(2);
    let asset_a = asset(10);
    let asset_b = asset(11);
    let mut state = MemoryState::new();
    state.set_balance(&sender, &native_asset(), Ciphertext { value: 100 });
    state.set_balance(&sender, &asset_a, Ciphertext { value: 50 });
    state.set_balance(&sender, &asset_b, Ciphertext { value: 50 });
    let tx = base_tx(
        sender,
        TransactionType::Transfers(vec![
            transfer_to(receiver, sender, asset_a, 5),
            transfer_to(receiver, sender, asset_b, 5),
        ]),
        1,
        0,
        vec![commitment_for(native_asset(), 99), commitment_for(asset_a, 45)],
    );
    let r = tx.verify::<()>(&mut state);
    assert_eq!(r, Err(VerificationError::Commitments));
}

#[test]
fn burn_overflow_is_invalid_format() {
    let sender = key(1);
    let mut state = MemoryState::new();
    state.set_balance(&sender, &native_asset(), Ciphertext { value: 100 });
    let fee: u64 = 1;
    let amount = u64::MAX - fee + 1;
    let tx = base_tx(
        sender,
        TransactionType::Burn(BurnPayload { asset: native_asset(), amount }),
        fee,
        0,
        vec![commitment_for(native_asset(), 99)],
    );
    let r = tx.verify::<()>(&mut state);
    assert_eq!(r, Err(VerificationError::InvalidFormat));
}

#[test]
fn burn_of_zero_is_invalid_format() {
    let sender = key(1);
    let mut state = MemoryState::new();
    state.set_balance(&sender, &native_asset(), Ciphertext { value: 100 });
    let tx = base_tx(
        sender,
        TransactionType::Burn(BurnPayload { asset: native_asset(), amount: 0 }),
        1,
        0,
        vec![commitment_for(native_asset(), 99)],
    );
    let r = tx.verify::<()>(&mut state);
    assert_eq!(r, Err(VerificationError::InvalidFormat));
}

#[test]
fn transfer_count_bounds() {
    let sender = key(1);
    let receiver = key(2);
    let mut state = MemoryState::new();
    state.set_balance(&sender, &native_asset(), Ciphertext { value: 100000 });
    let empty = base_tx(
        sender,
        TransactionType::Transfers(vec![]),
        1,
        0,
        vec![commitment_for(native_asset(), 99)],
    );
    assert_eq!(empty.verify::<()>(&mut state), Err(VerificationError::TransferCount));

    let mut state2 = MemoryState::new();
    state2.set_balance(&sender, &native_asset(), Ciphertext { value: 100000 });
    let mut many = Vec::new();
    for _ in 0..256 {
        many.push(transfer_to(receiver, sender, native_asset(), 1));
    }
    let too_many = base_tx(
        sender,
        TransactionType::Transfers(many),
        1,
        0,
        vec![commitment_for(native_asset(), 100000 - 257)],
    );
    assert_eq!(too_many.verify::<()>(&mut state2), Err(VerificationError::TransferCount));
}

#[test]
fn extra_data_at_limit_accepted_and_over_limit_rejected() {
    let sender = key(1);
    let receiver = key(2);
    let mut state = MemoryState::new();
    state.set_balance(&sender, &native_asset(), Ciphertext { value: 100 });
    let mut transfer = transfer_to(receiver, sender, native_asset(), 10);
    transfer.extra_data = Some(vec![7u8; EXTRA_DATA_LIMIT_SIZE]);
    let tx = base_tx(
        sender,
        TransactionType::Transfers(vec![transfer]),
        1,
        0,
        vec![commitment_for(native_asset(), 89)],
    );
    assert!(tx.verify::<()>(&mut state).is_ok());

    let mut state2 = MemoryState::new();
    state2.set_balance(&sender, &native_asset(), Ciphertext { value: 100 });
    let mut transfer2 = transfer_to(receiver, sender, native_asset(), 10);
    transfer2.extra_data = Some(vec![7u8; EXTRA_DATA_LIMIT_SIZE + 1]);
    let tx2 = base_tx(
        sender,
        TransactionType::Transfers(vec![transfer2]),
        1,
        0,
        vec![commitment_for(native_asset(), 89)],
    );
    assert_eq!(tx2.verify::<()>(&mut state2), Err(VerificationError::TransferExtraDataSize));
}

#[test]
fn multisig_clear_and_reset_rules() {
    // Threshold zero with no participants: a normal clear, accepted.
    let sender = key(1);
    let mut state = MemoryState::new();
    state.set_balance(&sender, &native_asset(), Ciphertext { value: 100 });
    let tx = base_tx(
        sender,
        TransactionType::MultiSig(MultiSigPayload { threshold: 0, participants: vec![] }),
        1,
        0,
        vec![commitment_for(native_asset(), 99)],
    );
    assert!(tx.verify::<()>(&mut state).is_ok());
    assert!(state.get_multisig_state(&sender).is_none());

    // Threshold zero with participants and no prior config: rejected.
    let mut state2 = MemoryState::new();
    state2.set_balance(&sender, &native_asset(), Ciphertext { value: 100 });
    let tx2 = base_tx(
        sender,
        TransactionType::MultiSig(MultiSigPayload { threshold: 0, participants: vec![key(5)] }),
        1,
        0,
        vec![commitment_for(native_asset(), 99)],
    );
    assert_eq!(tx2.verify::<()>(&mut state2), Err(VerificationError::MultiSigNotConfigured));
}

fn multisig_cosign(tx: &Transaction, participant: CompressedPublicKey) -> Signature {
    let body = tx.multisig_signable_bytes();
    let body_digest = digest_of(&body);
    let msg = body_digest.to_vec();
    Signature { key: participant, msg_hash: digest_of(&msg) }
}

#[test]
fn multisig_two_of_three() {
    let sender = key(1);
    let p0 = key(10);
    let p1 = key(11);
    let p2 = key(12);
    let mut state = MemoryState::new();
    state.set_balance(&sender, &native_asset(), Ciphertext { value: 100 });
    state.set_multisig_state(
        &sender,
        MultiSigPayload { threshold: 2, participants: vec![p0, p1, p2] },
    );

    // One co-signature where two are required: rejected.
    let mut tx = Transaction {
        version: TxVersion::V1,
        source: sender,
        data: TransactionType::Burn(BurnPayload { asset: native_asset(), amount: 9 }),
        fee: 1,
        nonce: 0,
        source_commitments: vec![commitment_for(native_asset(), 90)],
        range_proof: RangeProof {},
        reference: reference(),
        multisig: None,
        signature: Signature { key: sender, msg_hash: asset(0) },
    };
    let sig0 = multisig_cosign(&tx, p0);
    tx.multisig = Some(MultiSig { signatures: vec![SigId { id: 0, signature: sig0 }] });
    sign(&mut tx);
    assert_eq!(tx.verify::<()>(&mut state), Err(VerificationError::MultiSigParticipants));

    // Two valid co-signatures: accepted.
    let mut state2 = MemoryState::new();
    state2.set_balance(&sender, &native_asset(), Ciphertext { value: 100 });
    state2.set_multisig_state(
        &sender,
        MultiSigPayload { threshold: 2, participants: vec![p0, p1, p2] },
    );
    let mut tx2 = Transaction {
        version: TxVersion::V1,
        source: sender,
        data: TransactionType::Burn(BurnPayload { asset: native_asset(), amount: 9 }),
        fee: 1,
        nonce: 0,
        source_commitments: vec![commitment_for(native_asset(), 90)],
        range_proof: RangeProof {},
        reference: reference(),
        multisig: None,
        signature: Signature { key: sender, msg_hash: asset(0) },
    };
    let sig0 = multisig_cosign(&tx2, p0);
    let sig1 = multisig_cosign(&tx2, p1);
    tx2.multisig = Some(MultiSig {
        signatures: vec![SigId { id: 0, signature: sig0 }, SigId { id: 1, signature: sig1 }],
    });
    sign(&mut tx2);
    assert!(tx2.verify::<()>(&mut state2).is_ok());
    assert_eq!(state2.get_balance(&sender, &native_asset()).value, 90 + 9);
}

#[test]
fn v0_with_multisig_payload_is_invalid_format() {
    let sender = key(1);
    let mut state = MemoryState::new();
    let mut tx = base_tx(
        sender,
        TransactionType::MultiSig(MultiSigPayload { threshold: 0, participants: vec![] }),
        1,
        0,
        vec![commitment_for(native_asset(), 99)],
    );
    tx.version = TxVersion::V0;
    sign(&mut tx);
    assert_eq!(tx.verify::<()>(&mut state), Err(VerificationError::InvalidFormat));
}

#[test]
fn tampered_fee_fails_signature() {
    let sender = key(1);
    let receiver = key(2);
    let mut state = MemoryState::new();
    state.set_balance(&sender, &native_asset(), Ciphertext { value: 100 });
    let mut tx = base_tx(
        sender,
        TransactionType::Transfers(vec![transfer_to(receiver, sender, native_asset(), 10)]),
        1,
        0,
        vec![commitment_for(native_asset(), 89)],
    );
    tx.fee = 2;
    assert_eq!(tx.verify::<()>(&mut state), Err(VerificationError::InvalidSignature));
}

#[test]
fn non_canonical_source_fails_decompression() {
    let sender = CompressedPublicKey(Bytes32 { w0: 0x8000_0000_0000_0001, w1: 0, w2: 0, w3: 0 });
    let mut state = MemoryState::new();
    state.set_balance(&sender, &native_asset(), Ciphertext { value: 100 });
    let tx = base_tx(
        sender,
        TransactionType::Burn(BurnPayload { asset: native_asset(), amount: 9 }),
        1,
        0,
        vec![commitment_for(native_asset(), 90)],
    );
    assert_eq!(
        tx.verify::<()>(&mut state),
        Err(VerificationError::Proof(ProofVerificationError::Decompression))
    );
}

#[test]
fn overdraft_fails_range_proof() {
    let sender = key(1);
    let receiver = key(2);
    let mut state = MemoryState::new();
    state.set_balance(&sender, &native_asset(), Ciphertext { value: 5 });
    // The claimed new commitment matches the wrapped balance, so the sigma
    // claims pass, but the amount lies far outside the 64-bit range.
    let wrapped = 5u128.wrapping_sub(11);
    let tx = base_tx(
        sender,
        TransactionType::Transfers(vec![transfer_to(receiver, sender, native_asset(), 10)]),
        1,
        0,
        vec![commitment_for(native_asset(), wrapped)],
    );
    assert_eq!(
        tx.verify::<()>(&mut state),
        Err(VerificationError::Proof(ProofVerificationError::GenericProof))
    );
}

#[test]
fn wrong_receiver_handle_fails_sigma_batch() {
    let sender = key(1);
    let receiver = key(2);
    let mut state = MemoryState::new();
    state.set_balance(&sender, &native_asset(), Ciphertext { value: 100 });
    let mut transfer = transfer_to(receiver, sender, native_asset(), 10);
    transfer.receiver_handle = CompressedHandle { key: key(9) };
    let tx = base_tx(
        sender,
        TransactionType::Transfers(vec![transfer]),
        1,
        0,
        vec![commitment_for(native_asset(), 89)],
    );
    assert_eq!(
        tx.verify::<()>(&mut state),
        Err(VerificationError::Proof(ProofVerificationError::GenericProof))
    );
}

#[test]
fn wrong_new_commitment_fails_sigma_batch() {
    let sender = key(1);
    let receiver = key(2);
    let mut state = MemoryState::new();
    state.set_balance(&sender, &native_asset(), Ciphertext { value: 100 });
    let tx = base_tx(
        sender,
        TransactionType::Transfers(vec![transfer_to(receiver, sender, native_asset(), 10)]),
        1,
        0,
        vec![commitment_for(native_asset(), 88)],
    );
    assert_eq!(
        tx.verify::<()>(&mut state),
        Err(VerificationError::Proof(ProofVerificationError::GenericProof))
    );
}

#[test]
fn batch_of_two_sequential_transactions() {
    let sender = key(1);
    let receiver = key(2);
    let mut state = MemoryState::new();
    state.set_balance(&sender, &native_asset(), Ciphertext { value: 100 });
    let tx0 = base_tx(
        sender,
        TransactionType::Transfers(vec![transfer_to(receiver, sender, native_asset(), 10)]),
        1,
        0,
        vec![commitment_for(native_asset(), 89)],
    );
    let tx1 = base_tx(
        sender,
        TransactionType::Transfers(vec![transfer_to(receiver, sender, native_asset(), 20)]),
        1,
        1,
        vec![commitment_for(native_asset(), 68)],
    );
    let r = Transaction::verify_batch::<()>(&vec![tx0, tx1], &mut state);
    assert!(r.is_ok());
    assert_eq!(state.get_account_nonce(&sender), 2);
    assert_eq!(state.get_balance(&sender, &native_asset()).value, 68);
    assert_eq!(state.get_balance(&receiver, &native_asset()).value, 30);
}

#[test]
fn apply_without_verify_advances_state() {
    let sender = key(1);
    let receiver = key(2);
    let mut state = MemoryState::new();
    state.set_balance(&sender, &native_asset(), Ciphertext { value: 100 });
    let tx = base_tx(
        sender,
        TransactionType::Transfers(vec![transfer_to(receiver, sender, native_asset(), 10)]),
        1,
        5,
        vec![commitment_for(native_asset(), 89)],
    );
    // No nonce or signature check on this path: only the mutations.
    let r = tx.apply_without_verify::<()>(&mut state);
    assert!(r.is_ok());
    assert_eq!(state.get_account_nonce(&sender), 6);
    assert_eq!(state.get_balance(&sender, &native_asset()).value, 89);
    assert_eq!(state.get_balance(&receiver, &native_asset()).value, 10);
}

#[test]
fn apply_with_partial_verify_checks_commitments() {
    let sender = key(1);
    let receiver = key(2);
    let mut state = MemoryState::new();
    state.set_balance(&sender, &native_asset(), Ciphertext { value: 100 });
    let good = base_tx(
        sender,
        TransactionType::Transfers(vec![transfer_to(receiver, sender, native_asset(), 10)]),
        1,
        0,
        vec![commitment_for(native_asset(), 89)],
    );
    assert!(good.apply_with_partial_verify::<()>(&mut state).is_ok());
    assert_eq!(state.get_balance(&sender, &native_asset()).value, 89);
    // The nonce is untouched on this path.
    assert_eq!(state.get_account_nonce(&sender), 0);

    let mut state2 = MemoryState::new();
    state2.set_balance(&sender, &native_asset(), Ciphertext { value: 100 });
    let bad = base_tx(
        sender,
        TransactionType::Transfers(vec![transfer_to(receiver, sender, native_asset(), 10)]),
        1,
        0,
        vec![commitment_for(native_asset(), 42)],
    );
    assert_eq!(
        bad.apply_with_partial_verify::<()>(&mut state2),
        Err(VerificationError::Proof(ProofVerificationError::GenericProof))
    );
    // And the state is untouched on failure.
    assert_eq!(state2.get_balance(&sender, &native_asset()).value, 100);
}

#[test]
fn signable_bytes_extend_multisig_signable_bytes() {
    let sender = key(1);
    let receiver = key(2);
    let tx = base_tx(
        sender,
        TransactionType::Transfers(vec![transfer_to(receiver, sender, native_asset(), 10)]),
        1,
        0,
        vec![commitment_for(native_asset(), 89)],
    );
    let body = tx.multisig_signable_bytes();
    let signable = tx.signable_bytes();
    let wire = tx.to_bytes();
    assert_eq!(&signable[..body.len()], &body[..]);
    assert_eq!(&wire[..signable.len()], &signable[..]);
    assert_eq!(wire.len(), signable.len() + 64);
}

#[test]
fn multi_asset_transfer_conserves_balances() {
    let sender = key(1);
    let receiver = key(2);
    let asset_a = asset(10);
    let mut state = MemoryState::new();
    state.set_balance(&sender, &native_asset(), Ciphertext { value: 100 });
    state.set_balance(&sender, &asset_a, Ciphertext { value: 50 });
    let tx = base_tx(
        sender,
        TransactionType::Transfers(vec![
            transfer_to(receiver, sender, native_asset(), 10),
            transfer_to(receiver, sender, asset_a, 5),
        ]),
        1,
        0,
        vec![commitment_for(native_asset(), 89), commitment_for(asset_a, 45)],
    );
    assert!(tx.verify::<()>(&mut state).is_ok());
    // The non-native asset moves one-for-one; the native asset also pays
    // the fee.
    assert_eq!(state.get_balance(&sender, &asset_a).value, 45);
    assert_eq!(state.get_balance(&receiver, &asset_a).value, 5);
    assert_eq!(state.get_balance(&sender, &native_asset()).value, 89);
    assert_eq!(state.get_balance(&receiver, &native_asset()).value, 10);
}

#[test]
fn batch_verification_is_deterministic() {
    let sender = key(1);
    let receiver = key(2);
    let build = || {
        let mut state = MemoryState::new();
        state.set_balance(&sender, &native_asset(), Ciphertext { value: 100 });
        let tx = base_tx(
            sender,
            TransactionType::Transfers(vec![transfer_to(receiver, sender, native_asset(), 10)]),
            1,
            0,
            vec![commitment_for(native_asset(), 89)],
        );
        (state, tx)
    };
    let (mut state_a, tx_a) = build();
    let (mut state_b, tx_b) = build();
    let r_a = Transaction::verify_batch::<()>(&vec![tx_a], &mut state_a);
    let r_b = Transaction::verify_batch::<()>(&vec![tx_b], &mut state_b);
    assert_eq!(r_a, r_b);
    assert_eq!(
        state_a.get_balance(&sender, &native_asset()).value,
        state_b.get_balance(&sender, &native_asset()).value
    );
    assert_eq!(state_a.get_account_nonce(&sender), state_b.get_account_nonce(&sender));
}

#[test]
fn commitment_vector_is_padded_to_power_of_two() {
    let sender = key(1);
    let receiver = key(2);
    let asset_a = asset(10);
    let mut state = MemoryState::new();
    state.set_balance(&sender, &native_asset(), Ciphertext { value: 100 });
    state.set_balance(&sender, &asset_a, Ciphertext { value: 50 });
    let tx = base_tx(
        sender,
        TransactionType::Transfers(vec![
            transfer_to(receiver, sender, native_asset(), 10),
        ]),
        1,
        0,
        vec![commitment_for(native_asset(), 89), commitment_for(asset_a, 50)],
    );
    // Two source commitments and one transfer: three pairs, padded to four.
    let mut batch = xelis_core::proofs::BatchCollector::new();
    let (_transcript, commitments) = tx.pre_verify::<()>(&mut state, &mut batch).unwrap();
    assert_eq!(commitments.len(), 4);
}

#[test]
fn configured_account_requires_cosignatures() {
    let sender = key(1);
    let mut state = MemoryState::new();
    state.set_balance(&sender, &native_asset(), Ciphertext { value: 100 });
    state.set_multisig_state(
        &sender,
        MultiSigPayload { threshold: 1, participants: vec![key(10)] },
    );
    let tx = base_tx(
        sender,
        TransactionType::Burn(BurnPayload { asset: native_asset(), amount: 9 }),
        1,
        0,
        vec![commitment_for(native_asset(), 90)],
    );
    assert_eq!(tx.verify::<()>(&mut state), Err(VerificationError::MultiSigNotFound));
}

#[test]
fn threshold_above_participants_is_rejected() {
    let sender = key(1);
    let mut state = MemoryState::new();
    state.set_balance(&sender, &native_asset(), Ciphertext { value: 100 });
    let tx = base_tx(
        sender,
        TransactionType::MultiSig(MultiSigPayload { threshold: 2, participants: vec![key(10)] }),
        1,
        0,
        vec![commitment_for(native_asset(), 99)],
    );
    assert_eq!(tx.verify::<()>(&mut state), Err(VerificationError::MultiSigThreshold));
}

#[test]
fn extra_data_sum_over_limit_is_rejected() {
    let sender = key(1);
    let receiver = key(2);
    let mut state = MemoryState::new();
    state.set_balance(&sender, &native_asset(), Ciphertext { value: 1000 });
    // 33 transfers, each at the per-transfer limit: the sum passes it.
    let mut transfers = Vec::new();
    for _ in 0..33 {
        let mut t = transfer_to(receiver, sender, native_asset(), 1);
        t.extra_data = Some(vec![0u8; EXTRA_DATA_LIMIT_SIZE]);
        transfers.push(t);
    }
    let tx = base_tx(
        sender,
        TransactionType::Transfers(transfers),
        1,
        0,
        vec![commitment_for(native_asset(), 1000 - 34)],
    );
    assert_eq!(tx.verify::<()>(&mut state), Err(VerificationError::TransactionExtraDataSize));
}
