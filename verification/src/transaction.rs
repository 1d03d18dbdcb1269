//! Transaction data model and the pure (stateless) validation rules.

use vstd::prelude::*;

use crate::crypto::{
    Ciphertext, CompressedCommitment, CompressedHandle, CompressedPublicKey, DecompressionError,
    DecryptHandle, Digest, PedersenCommitment, Signature,
};
use crate::proofs::{CommitmentEqProof, CtValidityProof, RangeProof};

verus! {

/// Most transfers one transaction may carry.
pub const MAX_TRANSFER_COUNT: usize = 255;

/// Most participants one multisig configuration may name.
pub const MAX_MULTISIG_PARTICIPANTS: usize = 255;

/// Size limit of the extra data of a single transfer, in bytes.
pub const EXTRA_DATA_LIMIT_SIZE: usize = 1024;

/// Size limit of the extra data of a whole transaction, in bytes.
pub const EXTRA_DATA_LIMIT_SUM_SIZE: usize = 32768;

/// The native asset: the zero hash.  Fees are paid in it alone.
pub open spec fn spec_native_asset() -> Digest {
    Digest(crate::crypto::Bytes32 { w0: 0, w1: 0, w2: 0, w3: 0 })
}

/// Returns the native asset identifier.
pub fn native_asset() -> (r: Digest)
    ensures
        r == spec_native_asset(),
{
    Digest(crate::crypto::Bytes32 { w0: 0, w1: 0, w2: 0, w3: 0 })
}

/// Which side of a transfer a ciphertext view is for.
#[derive(Clone, Copy, PartialEq, Eq, Structural, Debug)]
pub enum Role {
    Sender,
    Receiver,
}

/// Transaction format versions.
#[derive(Clone, Copy, PartialEq, Eq, Structural, Debug)]
pub enum TxVersion {
    V0,
    V1,
}

impl TxVersion {
    /// The wire byte, which also feeds the proof transcript.
    pub open spec fn spec_as_u64(self) -> u64 {
        match self {
            TxVersion::V0 => 0,
            TxVersion::V1 => 1,
        }
    }

    pub fn as_u64(self) -> (r: u64)
        ensures
            r == self.spec_as_u64(),
    {
        match self {
            TxVersion::V0 => 0,
            TxVersion::V1 => 1,
        }
    }
}

/// One confidential transfer inside a transaction.
pub struct TransferPayload {
    pub asset: Digest,
    pub destination: CompressedPublicKey,
    pub extra_data: Option<Vec<u8>>,
    /// Commitment on the transferred amount.
    pub commitment: CompressedCommitment,
    /// Decrypt handle binding the amount to the sender.
    pub sender_handle: CompressedHandle,
    /// Decrypt handle binding the amount to the receiver.
    pub receiver_handle: CompressedHandle,
    /// Sigma proof that the ciphertext is well-formed under the receiver key.
    pub ct_validity_proof: CtValidityProof,
}

impl TransferPayload {
    /// Size of the extra data, zero when absent.
    pub open spec fn spec_extra_data_size(&self) -> int {
        match self.extra_data {
            Some(data) => data@.len() as int,
            None => 0,
        }
    }
}

/// Destruction of an amount of one asset.
pub struct BurnPayload {
    pub asset: Digest,
    pub amount: u64,
}

/// A multisig configuration: `threshold` of the listed participants must
/// co-sign.  Threshold zero with participants present denotes a reset.
pub struct MultiSigPayload {
    pub threshold: u8,
    pub participants: Vec<CompressedPublicKey>,
}

/// The abstract value of a multisig configuration.
pub struct MultiSigModel {
    pub threshold: u8,
    pub participants: Seq<CompressedPublicKey>,
}

impl MultiSigPayload {
    /// Threshold zero together with a non-empty participant list clears an
    /// existing configuration.
    pub open spec fn spec_is_reset(&self) -> bool {
        self.threshold == 0 && self.participants@.len() > 0
    }

    /// The abstract value of this payload.
    pub open spec fn spec_model(&self) -> MultiSigModel {
        MultiSigModel { threshold: self.threshold, participants: self.participants@ }
    }

    /// A fresh copy of this payload.
    pub fn duplicate(&self) -> (r: MultiSigPayload)
        ensures
            r.spec_model() == self.spec_model(),
    {
        let mut participants: Vec<CompressedPublicKey> = Vec::new();
        let n = self.participants.len();
        let mut i: usize = 0;
        while i < n
            invariant
                n == self.participants@.len(),
                0 <= i <= n,
                participants@ == self.participants@.take(i as int),
            decreases n - i,
        {
            participants.push(self.participants[i]);
            proof {
                assert(participants@ =~= self.participants@.take(i as int + 1));
            }
            i = i + 1;
        }
        proof {
            assert(self.participants@.take(n as int) =~= self.participants@);
        }
        MultiSigPayload { threshold: self.threshold, participants }
    }
}

/// The payload of a transaction.
pub enum TransactionType {
    Transfers(Vec<TransferPayload>),
    Burn(BurnPayload),
    MultiSig(MultiSigPayload),
}

/// Per-asset commitment on the sender's balance after this transaction.
pub struct SourceCommitment {
    pub asset: Digest,
    pub commitment: CompressedCommitment,
    /// Sigma proof that `commitment` commits to the balance minus outputs.
    pub proof: CommitmentEqProof,
}

/// Identifies the balance snapshot the transaction was built against.
pub struct Reference {
    pub hash: Digest,
    pub topoheight: u64,
}

/// One co-signature: the participant index and the signature itself.
pub struct SigId {
    pub id: u8,
    pub signature: Signature,
}

/// The multisig section of a transaction.
pub struct MultiSig {
    pub signatures: Vec<SigId>,
}

/// A confidential transaction.
pub struct Transaction {
    pub version: TxVersion,
    pub source: CompressedPublicKey,
    pub data: TransactionType,
    pub fee: u64,
    pub nonce: u64,
    pub source_commitments: Vec<SourceCommitment>,
    pub range_proof: RangeProof,
    pub reference: Reference,
    pub multisig: Option<MultiSig>,
    pub signature: Signature,
}

/// The group elements of one transfer, decompressed for arithmetic.
pub struct DecompressedTransferCt {
    pub commitment: PedersenCommitment,
    pub sender_handle: DecryptHandle,
    pub receiver_handle: DecryptHandle,
}

impl DecompressedTransferCt {
    /// Whether this is the decompression of `transfer`.
    pub open spec fn spec_matches(&self, transfer: TransferPayload) -> bool {
        &&& self.commitment.value == transfer.commitment.value
        &&& self.sender_handle.key == transfer.sender_handle.key
        &&& self.receiver_handle.key == transfer.receiver_handle.key
    }

    /// Whether all three group elements of `transfer` decompress.
    pub open spec fn spec_decompressible(transfer: TransferPayload) -> bool {
        transfer.sender_handle.key.is_canonical() && transfer.receiver_handle.key.is_canonical()
    }

    pub fn decompress(transfer: &TransferPayload) -> (r: Result<
        DecompressedTransferCt,
        DecompressionError,
    >)
        ensures
            match r {
                Ok(d) => Self::spec_decompressible(*transfer) && d.spec_matches(*transfer),
                Err(_) => !Self::spec_decompressible(*transfer),
            },
    {
        let commitment = transfer.commitment.decompress();
        let sender_handle = match transfer.sender_handle.decompress() {
            Ok(h) => h,
            Err(e) => {
                return Err(e);
            },
        };
        let receiver_handle = match transfer.receiver_handle.decompress() {
            Ok(h) => h,
            Err(e) => {
                return Err(e);
            },
        };
        Ok(DecompressedTransferCt { commitment, sender_handle, receiver_handle })
    }

    /// The transferred amount as seen by one side: the commitment paired
    /// with that side's decrypt handle.
    pub fn get_ciphertext(&self, role: Role) -> (r: Ciphertext)
        ensures
            r.value == self.commitment.value,
    {
        let handle = match role {
            Role::Receiver => self.receiver_handle,
            Role::Sender => self.sender_handle,
        };
        Ciphertext::new(self.commitment, handle)
    }
}

impl Transaction {
    /// A V0 transaction may carry neither a multisig section nor a multisig
    /// payload; V1 may carry both.
    pub open spec fn spec_valid_version_format(&self) -> bool {
        match self.version {
            TxVersion::V0 => self.multisig is None && !(self.data is MultiSig),
            TxVersion::V1 => true,
        }
    }

    /// Checks the version/format gate.
    pub fn as_valid_version_format(&self) -> (r: bool)
        ensures
            r == self.spec_valid_version_format(),
    {
        match self.version {
            TxVersion::V0 => {
                if self.multisig.is_some() {
                    return false;
                }
                match &self.data {
                    TransactionType::MultiSig(_) => false,
                    _ => true,
                }
            },
            TxVersion::V1 => true,
        }
    }

    /// Some source commitment carries this asset.
    pub open spec fn spec_has_commitment_for_asset(&self, asset: Digest) -> bool {
        exists|i: int|
            0 <= i < self.source_commitments@.len() && self.source_commitments@[i].asset == asset
    }

    /// No two source commitments carry the same asset.
    pub open spec fn spec_no_duplicate_commitment_assets(&self) -> bool {
        forall|i: int, j: int|
            0 <= i < j < self.source_commitments@.len() ==> self.source_commitments@[i].asset
                != self.source_commitments@[j].asset
    }

    /// Every asset the payload touches has a commitment.
    pub open spec fn spec_data_assets_covered(&self) -> bool {
        match self.data {
            TransactionType::Transfers(transfers) => forall|i: int|
                0 <= i < transfers@.len() ==> self.spec_has_commitment_for_asset(
                    #[trigger] transfers@[i].asset,
                ),
            TransactionType::Burn(payload) => self.spec_has_commitment_for_asset(payload.asset),
            TransactionType::MultiSig(_) => true,
        }
    }

    /// The commitment-asset invariant: the native asset is present (fees),
    /// no asset appears twice, and the payload's assets are covered.
    pub open spec fn spec_commitment_assets_ok(&self) -> bool {
        &&& self.spec_has_commitment_for_asset(spec_native_asset())
        &&& self.spec_no_duplicate_commitment_assets()
        &&& self.spec_data_assets_covered()
    }

    fn has_commitment_for_asset(&self, asset: &Digest) -> (r: bool)
        ensures
            r == self.spec_has_commitment_for_asset(*asset),
    {
        let n = self.source_commitments.len();
        let mut i: usize = 0;
        while i < n
            invariant
                n == self.source_commitments@.len(),
                0 <= i <= n,
                forall|k: int| 0 <= k < i ==> self.source_commitments@[k].asset != *asset,
            decreases n - i,
        {
            if self.source_commitments[i].asset == *asset {
                return true;
            }
            i = i + 1;
        }
        false
    }

    /// Checks the commitment-asset invariant of this transaction.
    pub fn verify_commitment_assets(&self) -> (r: bool)
        ensures
            r == self.spec_commitment_assets_ok(),
    {
        if !self.has_commitment_for_asset(&native_asset()) {
            return false;
        }
        let n = self.source_commitments.len();
        let mut i: usize = 0;
        while i < n
            invariant
                n == self.source_commitments@.len(),
                0 <= i <= n,
                forall|a: int, b: int|
                    0 <= a < b < n && a < i ==> self.source_commitments@[a].asset
                        != self.source_commitments@[b].asset,
            decreases n - i,
        {
            let mut j: usize = i + 1;
            while j < n
                invariant
                    n == self.source_commitments@.len(),
                    0 <= i < j <= n,
                    forall|b: int|
                        i < b < j ==> self.source_commitments@[i as int].asset
                            != self.source_commitments@[b].asset,
                decreases n - j,
            {
                if self.source_commitments[i].asset == self.source_commitments[j].asset {
                    proof {
                        assert(self.source_commitments@[i as int].asset
                            == self.source_commitments@[j as int].asset);
                        assert(!self.spec_no_duplicate_commitment_assets());
                    }
                    return false;
                }
                j = j + 1;
            }
            i = i + 1;
        }
        match &self.data {
            TransactionType::Transfers(transfers) => {
                let m = transfers.len();
                let mut k: usize = 0;
                while k < m
                    invariant
                        self.data == TransactionType::Transfers(*transfers),
                        m == transfers@.len(),
                        0 <= k <= m,
                        forall|t: int|
                            0 <= t < k ==> self.spec_has_commitment_for_asset(
                                #[trigger] transfers@[t].asset,
                            ),
                    decreases m - k,
                {
                    if !self.has_commitment_for_asset(&transfers[k].asset) {
                        proof {
                            assert(self.data == TransactionType::Transfers(*transfers));
                            assert(!self.spec_has_commitment_for_asset(
                                transfers@[k as int].asset,
                            ));
                            assert(!self.spec_data_assets_covered()) by {
                                if self.spec_data_assets_covered() {
                                    assert(self.spec_has_commitment_for_asset(
                                        transfers@[k as int].asset,
                                    ));
                                }
                            }
                        }
                        return false;
                    }
                    k = k + 1;
                }
                true
            },
            TransactionType::Burn(payload) => self.has_commitment_for_asset(&payload.asset),
            TransactionType::MultiSig(_) => true,
        }
    }

    /// Everything the sender pays for `asset` in this transaction: the fee
    /// when the asset is the native one, plus every matching transfer amount,
    /// plus a matching burn amount.  Amounts add modulo 2^128, mirroring the
    /// homomorphic group.
    pub open spec fn spec_sender_output_base(&self, asset: Digest) -> u128 {
        if asset == spec_native_asset() {
            self.fee as u128
        } else {
            0
        }
    }

    /// The sender output after folding the first `n` transfers.
    pub open spec fn spec_transfer_output_prefix(
        &self,
        transfers: Seq<TransferPayload>,
        asset: Digest,
        n: int,
    ) -> u128
        decreases n,
    {
        if n <= 0 {
            self.spec_sender_output_base(asset)
        } else {
            let prev = self.spec_transfer_output_prefix(transfers, asset, n - 1);
            if transfers[n - 1].asset == asset {
                prev.wrapping_add(transfers[n - 1].commitment.value)
            } else {
                prev
            }
        }
    }

    /// The total amount this transaction removes from the sender's balance
    /// of `asset`.
    pub open spec fn spec_sender_output_value(&self, asset: Digest) -> u128 {
        match self.data {
            TransactionType::Transfers(transfers) => self.spec_transfer_output_prefix(
                transfers@,
                asset,
                transfers@.len() as int,
            ),
            TransactionType::Burn(payload) => {
                if payload.asset == asset {
                    self.spec_sender_output_base(asset).wrapping_add(payload.amount as u128)
                } else {
                    self.spec_sender_output_base(asset)
                }
            },
            TransactionType::MultiSig(_) => self.spec_sender_output_base(asset),
        }
    }

    /// Builds the output ciphertext for one asset: what is subtracted from
    /// the sender's balance of that asset.
    pub fn get_sender_output_ct(
        &self,
        asset: &Digest,
        decompressed_transfers: &Vec<DecompressedTransferCt>,
    ) -> (r: Ciphertext)
        requires
            match self.data {
                TransactionType::Transfers(transfers) => decompressed_transfers@.len()
                    == transfers@.len() && forall|i: int|
                    0 <= i < transfers@.len() ==> #[trigger] decompressed_transfers@[i].spec_matches(
                        transfers@[i],
                    ),
                _ => true,
            },
        ensures
            r.value == self.spec_sender_output_value(*asset),
    {
        let mut output = Ciphertext::zero();
        if *asset == native_asset() {
            output.add_plaintext(self.fee);
        }
        match &self.data {
            TransactionType::Transfers(transfers) => {
                let n = transfers.len();
                let mut i: usize = 0;
                while i < n
                    invariant
                        n == transfers@.len(),
                        0 <= i <= n,
                        decompressed_transfers@.len() == transfers@.len(),
                        forall|k: int|
                            0 <= k < n ==> #[trigger] decompressed_transfers@[k].spec_matches(
                                transfers@[k],
                            ),
                        output.value == self.spec_transfer_output_prefix(
                            transfers@,
                            *asset,
                            i as int,
                        ),
                    decreases n - i,
                {
                    proof {
                        assert(decompressed_transfers@[i as int].spec_matches(
                            transfers@[i as int],
                        ));
                    }
                    if transfers[i].asset == *asset {
                        let ct = decompressed_transfers[i].get_ciphertext(Role::Sender);
                        output.add_ciphertext(&ct);
                    }
                    i = i + 1;
                }
            },
            TransactionType::Burn(payload) => {
                if payload.asset == *asset {
                    output.add_plaintext(payload.amount);
                }
            },
            TransactionType::MultiSig(_) => {},
        }
        output
    }
}

} // verus!
