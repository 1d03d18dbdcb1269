//! Deterministic random number generator for contract execution.
//!
//! Consensus requires every node to draw the same "random" values when
//! replaying a contract.  The generator is a hash in counter mode: the seed
//! is the digest of the contract, transaction and block hashes, and each
//! draw hashes the seed together with a counter.  Integers are read from the
//! block little-endian; `next_bool` is the low bit of a byte.

use vstd::prelude::*;

use crate::bytes::{u64_be, write_u64_be};
use crate::crypto::{hash_bytes, hash_of, Digest};

verus! {

/// The seed of the stream: the digest of the contract, transaction and
/// block hashes, concatenated in that order.
pub open spec fn spec_random_seed(contract: Digest, tx_hash: Digest, block_hash: Digest) -> Seq<
    u8,
> {
    hash_of(contract.to_seq() + tx_hash.to_seq() + block_hash.to_seq())
}

/// The 32-byte block of the stream at a counter: the digest of the seed
/// followed by the big-endian counter.
pub open spec fn spec_random_block(seed: Seq<u8>, counter: u64) -> Seq<u8> {
    hash_of(seed + u64_be(counter))
}

/// The little-endian integer denoted by the first bytes of a block.
pub open spec fn spec_le_u16(s: Seq<u8>) -> u16
    recommends
        s.len() >= 2,
{
    (s[0] as u16) | ((s[1] as u16) << 8)
}

/// The little-endian integer denoted by the first bytes of a block.
pub open spec fn spec_le_u32(s: Seq<u8>) -> u32
    recommends
        s.len() >= 4,
{
    (s[0] as u32) | ((s[1] as u32) << 8) | ((s[2] as u32) << 16) | ((s[3] as u32) << 24)
}

/// The little-endian integer denoted by the first bytes of a block.
pub open spec fn spec_le_u64(s: Seq<u8>) -> u64
    recommends
        s.len() >= 8,
{
    (s[0] as u64) | ((s[1] as u64) << 8) | ((s[2] as u64) << 16) | ((s[3] as u64) << 24) | ((
    s[4] as u64) << 32) | ((s[5] as u64) << 40) | ((s[6] as u64) << 48) | ((s[7] as u64) << 56)
}

/// The little-endian integer denoted by the first bytes of a block.
pub open spec fn spec_le_u128(s: Seq<u8>) -> u128
    recommends
        s.len() >= 16,
{
    (spec_le_u64(s) as u128) | ((spec_le_u64(s.skip(8)) as u128) << 64)
}

/// The deterministic stream: a seed digest and the counter of the next
/// block.  Equal seeds and counters give equal draws, on every node.
pub struct DeterministicRandom {
    seed: Digest,
    counter: u64,
}

impl DeterministicRandom {
    /// The seed bytes of the stream.
    pub closed spec fn seed_bytes(&self) -> Seq<u8> {
        self.seed.to_seq()
    }

    /// How many blocks have been drawn.
    pub closed spec fn position(&self) -> u64 {
        self.counter
    }

    /// Seeds the stream from the contract, transaction and block hashes.
    pub fn new(contract: &Digest, tx_hash: &Digest, block_hash: &Digest) -> (r:
        DeterministicRandom)
        ensures
            r.seed_bytes() == spec_random_seed(*contract, *tx_hash, *block_hash),
            r.position() == 0,
    {
        let mut input: Vec<u8> = Vec::new();
        contract.write_to(&mut input);
        tx_hash.write_to(&mut input);
        block_hash.write_to(&mut input);
        proof {
            assert(input@ =~= contract.to_seq() + tx_hash.to_seq() + block_hash.to_seq());
        }
        DeterministicRandom { seed: hash_bytes(input.as_slice()), counter: 0 }
    }

    /// Draws the next 32-byte block and advances the counter.
    fn next_block(&mut self) -> (r: Vec<u8>)
        requires
            old(self).position() < u64::MAX,
        ensures
            r@ == spec_random_block(old(self).seed_bytes(), old(self).position()),
            final(self).seed_bytes() == old(self).seed_bytes(),
            final(self).position() == old(self).position() + 1,
            r@.len() == 32,
    {
        let mut input = self.seed.to_vec();
        write_u64_be(self.counter, &mut input);
        let block = hash_bytes(input.as_slice());
        self.counter = self.counter + 1;
        block.to_vec()
    }

    /// The next byte of the stream.
    pub fn next_u8(&mut self) -> (r: u8)
        requires
            old(self).position() < u64::MAX,
        ensures
            r == spec_random_block(old(self).seed_bytes(), old(self).position())[0],
            final(self).seed_bytes() == old(self).seed_bytes(),
            final(self).position() == old(self).position() + 1,
    {
        let block = self.next_block();
        block[0]
    }

    /// The low bit of the next byte.
    pub fn next_bool(&mut self) -> (r: bool)
        requires
            old(self).position() < u64::MAX,
        ensures
            r == ((spec_random_block(old(self).seed_bytes(), old(self).position())[0] & 1) == 1),
            final(self).seed_bytes() == old(self).seed_bytes(),
            final(self).position() == old(self).position() + 1,
    {
        let byte = self.next_u8();
        (byte & 1) == 1
    }

    /// The next 16-bit integer, little-endian.
    pub fn next_u16(&mut self) -> (r: u16)
        requires
            old(self).position() < u64::MAX,
        ensures
            r == spec_le_u16(spec_random_block(old(self).seed_bytes(), old(self).position())),
            final(self).seed_bytes() == old(self).seed_bytes(),
            final(self).position() == old(self).position() + 1,
    {
        let block = self.next_block();
        (block[0] as u16) | ((block[1] as u16) << 8)
    }

    /// The next 32-bit integer, little-endian.
    pub fn next_u32(&mut self) -> (r: u32)
        requires
            old(self).position() < u64::MAX,
        ensures
            r == spec_le_u32(spec_random_block(old(self).seed_bytes(), old(self).position())),
            final(self).seed_bytes() == old(self).seed_bytes(),
            final(self).position() == old(self).position() + 1,
    {
        let block = self.next_block();
        (block[0] as u32) | ((block[1] as u32) << 8) | ((block[2] as u32) << 16) | ((block[3]
            as u32) << 24)
    }

    /// The next 64-bit integer, little-endian.
    pub fn next_u64(&mut self) -> (r: u64)
        requires
            old(self).position() < u64::MAX,
        ensures
            r == spec_le_u64(spec_random_block(old(self).seed_bytes(), old(self).position())),
            final(self).seed_bytes() == old(self).seed_bytes(),
            final(self).position() == old(self).position() + 1,
    {
        let block = self.next_block();
        (block[0] as u64) | ((block[1] as u64) << 8) | ((block[2] as u64) << 16) | ((block[3]
            as u64) << 24) | ((block[4] as u64) << 32) | ((block[5] as u64) << 40) | ((block[6]
            as u64) << 48) | ((block[7] as u64) << 56)
    }

    /// The next 128-bit integer, little-endian.
    pub fn next_u128(&mut self) -> (r: u128)
        requires
            old(self).position() < u64::MAX,
        ensures
            r == spec_le_u128(spec_random_block(old(self).seed_bytes(), old(self).position())),
            final(self).seed_bytes() == old(self).seed_bytes(),
            final(self).position() == old(self).position() + 1,
    {
        let block = self.next_block();
        let low = (block[0] as u64) | ((block[1] as u64) << 8) | ((block[2] as u64) << 16) | ((
        block[3] as u64) << 24) | ((block[4] as u64) << 32) | ((block[5] as u64) << 40) | ((
        block[6] as u64) << 48) | ((block[7] as u64) << 56);
        let high = (block[8] as u64) | ((block[9] as u64) << 8) | ((block[10] as u64) << 16) | ((
        block[11] as u64) << 24) | ((block[12] as u64) << 32) | ((block[13] as u64) << 40) | ((
        block[14] as u64) << 48) | ((block[15] as u64) << 56);
        proof {
            assert(spec_le_u64(block@.skip(8)) == high);
        }
        (low as u128) | ((high as u128) << 64)
    }

    /// The next 32 bytes of the stream.
    pub fn next_u256(&mut self) -> (r: Vec<u8>)
        requires
            old(self).position() < u64::MAX,
        ensures
            r@ == spec_random_block(old(self).seed_bytes(), old(self).position()),
            r@.len() == 32,
            final(self).seed_bytes() == old(self).seed_bytes(),
            final(self).position() == old(self).position() + 1,
    {
        self.next_block()
    }
}

/// Reproducibility: the stream is a function of the three hashes and the
/// position alone, so two generators seeded from the same contract,
/// transaction and block draw identical values at every position, on every
/// node.
pub proof fn lemma_random_reproducible(
    contract_a: Digest,
    tx_a: Digest,
    block_a: Digest,
    contract_b: Digest,
    tx_b: Digest,
    block_b: Digest,
    counter: u64,
)
    requires
        contract_a == contract_b,
        tx_a == tx_b,
        block_a == block_b,
    ensures
        spec_random_seed(contract_a, tx_a, block_a) == spec_random_seed(
            contract_b,
            tx_b,
            block_b,
        ),
        spec_random_block(spec_random_seed(contract_a, tx_a, block_a), counter)
            == spec_random_block(spec_random_seed(contract_b, tx_b, block_b), counter),
{
}

} // verus!
