//! Cryptographic data model of the verification core.
//!
//! The verifier's decision logic is what this library proves; the group and
//! proof primitives underneath it are collaborators.  They are modelled
//! transparently: a Pedersen commitment or an ElGamal ciphertext carries the
//! amount it commits to, group addition is addition of amounts modulo 2^128,
//! a decrypt handle carries the public key it binds to, and a signature
//! carries the signer's key together with the digest of the signed message.
//! Digests are real: they come from `blake3`.  With this model every check
//! the verifier performs (balance accounting, proof claims, range bounds,
//! signature binding) is stated and proved exactly, while the hardness
//! assumptions of the underlying curve stay out of scope.

use vstd::prelude::*;

use crate::bytes::{u64_be, lemma_u64_be_round_trip, write_u64_be};

verus! {

/// A 256-bit string held as four big-endian 64-bit words.
#[derive(Clone, Copy, PartialEq, Eq, Structural, Debug)]
pub struct Bytes32 {
    pub w0: u64,
    pub w1: u64,
    pub w2: u64,
    pub w3: u64,
}

impl Bytes32 {
    /// The 32 bytes, most significant word first.
    pub open spec fn to_seq(&self) -> Seq<u8> {
        u64_be(self.w0) + u64_be(self.w1) + u64_be(self.w2) + u64_be(self.w3)
    }

    /// Appends the 32 bytes to `out`.
    pub fn write_to(&self, out: &mut Vec<u8>)
        ensures
            final(out)@ == old(out)@ + self.to_seq(),
    {
        write_u64_be(self.w0, out);
        write_u64_be(self.w1, out);
        write_u64_be(self.w2, out);
        write_u64_be(self.w3, out);
        proof {
            assert(final(out)@ =~= old(out)@ + self.to_seq());
        }
    }

    pub fn to_vec(&self) -> (r: Vec<u8>)
        ensures
            r@ == self.to_seq(),
    {
        let mut out: Vec<u8> = Vec::new();
        self.write_to(&mut out);
        out
    }
}

/// Two words with equal byte strings are equal.
pub proof fn lemma_bytes32_injective(a: Bytes32, b: Bytes32)
    requires
        a.to_seq() == b.to_seq(),
    ensures
        a == b,
{
    assert(u64_be(a.w0) =~= a.to_seq().subrange(0, 8));
    assert(u64_be(a.w1) =~= a.to_seq().subrange(8, 16));
    assert(u64_be(a.w2) =~= a.to_seq().subrange(16, 24));
    assert(u64_be(a.w3) =~= a.to_seq().subrange(24, 32));
    assert(u64_be(b.w0) =~= b.to_seq().subrange(0, 8));
    assert(u64_be(b.w1) =~= b.to_seq().subrange(8, 16));
    assert(u64_be(b.w2) =~= b.to_seq().subrange(16, 24));
    assert(u64_be(b.w3) =~= b.to_seq().subrange(24, 32));
    lemma_u64_be_round_trip(a.w0);
    lemma_u64_be_round_trip(a.w1);
    lemma_u64_be_round_trip(a.w2);
    lemma_u64_be_round_trip(a.w3);
    lemma_u64_be_round_trip(b.w0);
    lemma_u64_be_round_trip(b.w1);
    lemma_u64_be_round_trip(b.w2);
    lemma_u64_be_round_trip(b.w3);
}

/// A 32-byte digest or asset identifier.
#[derive(Clone, Copy, PartialEq, Eq, Structural, Debug)]
pub struct Digest(pub Bytes32);

impl Digest {
    pub open spec fn to_seq(&self) -> Seq<u8> {
        self.0.to_seq()
    }

    pub fn write_to(&self, out: &mut Vec<u8>)
        ensures
            final(out)@ == old(out)@ + self.to_seq(),
    {
        self.0.write_to(out);
    }

    pub fn to_vec(&self) -> (r: Vec<u8>)
        ensures
            r@ == self.to_seq(),
    {
        self.0.to_vec()
    }
}

/// What `blake3::hash` returns on a byte string: a digest that is a function
/// of the input bytes alone, 32 bytes long.
pub uninterp spec fn hash_of(input: Seq<u8>) -> Seq<u8>;

/// Relies on `blake3::hash`: the digest of the input bytes, deterministic
/// across processes and machines.
#[verifier::external_body]
pub fn hash_bytes(input: &[u8]) -> (r: Digest)
    ensures
        r.to_seq() == hash_of(input@),
{
    let b = *blake3::hash(input).as_bytes();
    Digest(
        Bytes32 {
            w0: u64::from_be_bytes(b[0..8].try_into().unwrap()),
            w1: u64::from_be_bytes(b[8..16].try_into().unwrap()),
            w2: u64::from_be_bytes(b[16..24].try_into().unwrap()),
            w3: u64::from_be_bytes(b[24..32].try_into().unwrap()),
        },
    )
}

/// The error of a failed point decompression.
#[derive(Clone, Copy, PartialEq, Eq, Structural, Debug)]
pub struct DecompressionError;

/// A public key in wire form.  In this model an encoding is canonical when
/// the top bit of its leading word is clear; only canonical encodings
/// decompress.
#[derive(Clone, Copy, PartialEq, Eq, Structural, Debug)]
pub struct CompressedPublicKey(pub Bytes32);

impl CompressedPublicKey {
    pub open spec fn is_canonical(&self) -> bool {
        self.0.w0 < 0x8000_0000_0000_0000
    }

    pub open spec fn to_seq(&self) -> Seq<u8> {
        self.0.to_seq()
    }

    pub fn write_to(&self, out: &mut Vec<u8>)
        ensures
            final(out)@ == old(out)@ + self.to_seq(),
    {
        self.0.write_to(out);
    }

    pub fn decompress(&self) -> (r: Result<PublicKey, DecompressionError>)
        ensures
            match r {
                Ok(p) => self.is_canonical() && p.compressed == *self,
                Err(_) => !self.is_canonical(),
            },
    {
        if self.0.w0 < 0x8000_0000_0000_0000 {
            Ok(PublicKey { compressed: *self })
        } else {
            Err(DecompressionError)
        }
    }
}

/// A decompressed public key, usable for signature and proof checks.
#[derive(Clone, Copy, PartialEq, Eq, Structural, Debug)]
pub struct PublicKey {
    pub compressed: CompressedPublicKey,
}

/// A Pedersen commitment in wire form; carries the committed amount.
#[derive(Clone, Copy, PartialEq, Eq, Structural, Debug)]
pub struct CompressedCommitment {
    pub value: u128,
}

impl CompressedCommitment {
    pub fn decompress(&self) -> (r: PedersenCommitment)
        ensures
            r.value == self.value,
    {
        PedersenCommitment { value: self.value }
    }
}

/// A decompressed Pedersen commitment.
#[derive(Clone, Copy, PartialEq, Eq, Structural, Debug)]
pub struct PedersenCommitment {
    pub value: u128,
}

impl PedersenCommitment {
    pub fn compress(&self) -> (r: CompressedCommitment)
        ensures
            r.value == self.value,
    {
        CompressedCommitment { value: self.value }
    }
}

/// A decrypt handle in wire form: binds a ciphertext to a public key.
#[derive(Clone, Copy, PartialEq, Eq, Structural, Debug)]
pub struct CompressedHandle {
    pub key: CompressedPublicKey,
}

impl CompressedHandle {
    pub fn decompress(&self) -> (r: Result<DecryptHandle, DecompressionError>)
        ensures
            match r {
                Ok(h) => self.key.is_canonical() && h.key == self.key,
                Err(_) => !self.key.is_canonical(),
            },
    {
        if self.key.0.w0 < 0x8000_0000_0000_0000 {
            Ok(DecryptHandle { key: self.key })
        } else {
            Err(DecompressionError)
        }
    }
}

/// A decompressed decrypt handle.
#[derive(Clone, Copy, PartialEq, Eq, Structural, Debug)]
pub struct DecryptHandle {
    pub key: CompressedPublicKey,
}

/// An ElGamal ciphertext under the homomorphic model: the encrypted amount,
/// with group addition as amount addition modulo 2^128.  Honest balances stay
/// below 2^64; an overdraft wraps above it and no range proof covers it.
#[derive(Clone, Copy, PartialEq, Eq, Structural, Debug)]
pub struct Ciphertext {
    pub value: u128,
}

impl Ciphertext {
    pub fn zero() -> (r: Ciphertext)
        ensures
            r.value == 0,
    {
        Ciphertext { value: 0 }
    }

    pub fn new(commitment: PedersenCommitment, handle: DecryptHandle) -> (r: Ciphertext)
        ensures
            r.value == commitment.value,
    {
        Ciphertext { value: commitment.value }
    }

    /// Homomorphic addition of another ciphertext.
    pub fn add_ciphertext(&mut self, other: &Ciphertext)
        ensures
            final(self).value == old(self).value.wrapping_add(other.value),
    {
        self.value = self.value.wrapping_add(other.value);
    }

    /// Homomorphic addition of a plaintext amount.
    pub fn add_plaintext(&mut self, amount: u64)
        ensures
            final(self).value == old(self).value.wrapping_add(amount as u128),
    {
        self.value = self.value.wrapping_add(amount as u128);
    }

    /// Homomorphic subtraction of another ciphertext.
    pub fn sub_ciphertext(&mut self, other: &Ciphertext)
        ensures
            final(self).value == old(self).value.wrapping_sub(other.value),
    {
        self.value = self.value.wrapping_sub(other.value);
    }
}

/// A Schnorr signature in wire form: 64 bytes holding the signer's key and
/// the digest of the signed message.  The model makes the binding the
/// signature enforces explicit; forging hardness is out of scope.
#[derive(Clone, Copy, PartialEq, Eq, Structural, Debug)]
pub struct Signature {
    pub key: CompressedPublicKey,
    pub msg_hash: Digest,
}

/// What it means for a signature to check out against a message and key.
pub open spec fn sig_valid(sig: Signature, msg: Seq<u8>, owner: PublicKey) -> bool {
    sig.key == owner.compressed && sig.msg_hash.to_seq() == hash_of(msg)
}

impl Signature {
    pub open spec fn to_seq(&self) -> Seq<u8> {
        self.key.to_seq() + self.msg_hash.to_seq()
    }

    pub fn write_to(&self, out: &mut Vec<u8>)
        ensures
            final(out)@ == old(out)@ + self.to_seq(),
    {
        self.key.write_to(out);
        self.msg_hash.write_to(out);
        proof {
            assert(final(out)@ =~= old(out)@ + self.to_seq());
        }
    }

    /// Checks the signature over `msg` against `owner`.
    pub fn verify(&self, msg: &[u8], owner: &PublicKey) -> (r: bool)
        ensures
            r == sig_valid(*self, msg@, *owner),
    {
        let digest = hash_bytes(msg);
        let key_matches = self.key == owner.compressed;
        let digest_matches = self.msg_hash == digest;
        proof {
            if self.msg_hash.to_seq() == digest.to_seq() {
                lemma_bytes32_injective(self.msg_hash.0, digest.0);
            }
        }
        key_matches && digest_matches
    }
}

/// The size in bytes of a wire signature.
pub const SIGNATURE_SIZE: usize = 64;

} // verus!
