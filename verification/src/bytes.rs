//! Byte-level encoding helpers: big-endian integers and a cursor reader.

use vstd::prelude::*;

verus! {

/// Big-endian bytes of a `u64`, most significant byte first.
pub open spec fn u64_be(v: u64) -> Seq<u8> {
    seq![
        (v >> 56) as u8,
        (v >> 48) as u8,
        (v >> 40) as u8,
        (v >> 32) as u8,
        (v >> 24) as u8,
        (v >> 16) as u8,
        (v >> 8) as u8,
        v as u8,
    ]
}

/// The `u64` denoted by eight big-endian bytes.
pub open spec fn u64_from_be(s: Seq<u8>) -> u64
    recommends
        s.len() == 8,
{
    ((s[0] as u64) << 56) | ((s[1] as u64) << 48) | ((s[2] as u64) << 40) | ((s[3] as u64) << 32)
        | ((s[4] as u64) << 24) | ((s[5] as u64) << 16) | ((s[6] as u64) << 8) | (s[7] as u64)
}

/// Decoding inverts encoding.
pub proof fn lemma_u64_be_round_trip(v: u64)
    ensures
        u64_from_be(u64_be(v)) == v,
{
    assert((((v >> 56) as u8 as u64) << 56) | (((v >> 48) as u8 as u64) << 48) | (((v >> 40) as u8
        as u64) << 40) | (((v >> 32) as u8 as u64) << 32) | (((v >> 24) as u8 as u64) << 24) | (((v
        >> 16) as u8 as u64) << 16) | (((v >> 8) as u8 as u64) << 8) | (v as u8 as u64) == v)
        by (bit_vector);
}

/// Big-endian bytes of a `u128`, most significant byte first.
pub open spec fn u128_be(v: u128) -> Seq<u8> {
    u64_be((v >> 64) as u64) + u64_be(v as u64)
}

/// Appends the big-endian bytes of `v` to `out`.
pub fn write_u128_be(v: u128, out: &mut Vec<u8>)
    ensures
        final(out)@ == old(out)@ + u128_be(v),
{
    write_u64_be(#[verifier::truncate] ((v >> 64) as u64), out);
    write_u64_be(#[verifier::truncate] (v as u64), out);
    assert(final(out)@ =~= old(out)@ + u128_be(v));
}

/// Appends the big-endian bytes of `v` to `out`.
pub fn write_u64_be(v: u64, out: &mut Vec<u8>)
    ensures
        final(out)@ == old(out)@ + u64_be(v),
{
    out.push(#[verifier::truncate] ((v >> 56) as u8));
    out.push(#[verifier::truncate] ((v >> 48) as u8));
    out.push(#[verifier::truncate] ((v >> 40) as u8));
    out.push(#[verifier::truncate] ((v >> 32) as u8));
    out.push(#[verifier::truncate] ((v >> 24) as u8));
    out.push(#[verifier::truncate] ((v >> 16) as u8));
    out.push(#[verifier::truncate] ((v >> 8) as u8));
    out.push(#[verifier::truncate] (v as u8));
    assert(final(out)@ =~= old(out)@ + u64_be(v));
}

/// A cursor over a byte buffer, consumed from the front.
pub struct ByteReader {
    pub data: Vec<u8>,
    pub pos: usize,
}

impl ByteReader {
    /// The bytes not yet consumed.
    pub open spec fn remaining(&self) -> Seq<u8> {
        self.data@.skip(self.pos as int)
    }

    pub open spec fn wf(&self) -> bool {
        self.pos <= self.data.len()
    }

    pub fn new(data: Vec<u8>) -> (r: ByteReader)
        ensures
            r.wf(),
            r.remaining() == data@,
    {
        let r = ByteReader { data, pos: 0 };
        proof {
            assert(r.remaining() =~= r.data@);
        }
        r
    }

    /// How many bytes are left to read.
    pub fn size(&self) -> (n: usize)
        requires
            self.wf(),
        ensures
            n == self.remaining().len(),
    {
        self.data.len() - self.pos
    }

    /// Reads one byte, advancing the cursor.
    pub fn read_u8(&mut self) -> (r: Option<u8>)
        requires
            old(self).wf(),
        ensures
            final(self).wf(),
            match r {
                Some(b) => old(self).remaining().len() > 0 && b == old(self).remaining()[0]
                    && final(self).remaining() == old(self).remaining().skip(1),
                None => old(self).remaining().len() == 0 && *final(self) == *old(self),
            },
    {
        if self.pos < self.data.len() {
            let b = self.data[self.pos];
            self.pos = self.pos + 1;
            proof {
                assert(final(self).remaining() =~= old(self).remaining().skip(1));
            }
            Some(b)
        } else {
            None
        }
    }

    /// Reads eight big-endian bytes as a `u64`.
    pub fn read_u64_be(&mut self) -> (r: Option<u64>)
        requires
            old(self).wf(),
        ensures
            final(self).wf(),
            match r {
                Some(v) => old(self).remaining().len() >= 8 && v == u64_from_be(
                    old(self).remaining().take(8),
                ) && final(self).remaining() == old(self).remaining().skip(8),
                None => old(self).remaining().len() < 8 && *final(self) == *old(self),
            },
    {
        if self.data.len() - self.pos >= 8 {
            let b0 = self.data[self.pos];
            let b1 = self.data[self.pos + 1];
            let b2 = self.data[self.pos + 2];
            let b3 = self.data[self.pos + 3];
            let b4 = self.data[self.pos + 4];
            let b5 = self.data[self.pos + 5];
            let b6 = self.data[self.pos + 6];
            let b7 = self.data[self.pos + 7];
            self.pos = self.pos + 8;
            let v = ((b0 as u64) << 56) | ((b1 as u64) << 48) | ((b2 as u64) << 40) | ((b3
                as u64) << 32) | ((b4 as u64) << 24) | ((b5 as u64) << 16) | ((b6 as u64) << 8) | (
            b7 as u64);
            proof {
                assert(final(self).remaining() =~= old(self).remaining().skip(8));
                assert(v == u64_from_be(old(self).remaining().take(8)));
            }
            Some(v)
        } else {
            None
        }
    }
}

} // verus!
