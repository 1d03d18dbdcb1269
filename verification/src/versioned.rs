//! Topoheight-versioned storage elements: a lifecycle tag for loaded
//! versions and a `Versioned<T>` wrapper that chains historical entries
//! backwards through their previous topoheights.

use vstd::prelude::*;

use crate::bytes::{u64_be, u64_from_be, lemma_u64_be_round_trip, write_u64_be, ByteReader};

verus! {

/// Lifecycle of a storage entry relative to the block being processed.
#[derive(Clone, Copy, PartialEq, Eq, Structural, Debug)]
pub enum VersionedState {
    /// The entry did not exist before this block.
    New,
    /// Loaded from the given topoheight, unchanged so far.
    FetchedAt(u64),
    /// Loaded from the given topoheight and mutated since; must be persisted.
    Updated(u64),
}

impl VersionedState {
    /// `mark_updated` as a pure transition.
    pub open spec fn mark_updated_spec(self) -> VersionedState {
        match self {
            VersionedState::FetchedAt(topoheight) => VersionedState::Updated(topoheight),
            VersionedState::Updated(topoheight) => VersionedState::Updated(topoheight),
            VersionedState::New => VersionedState::New,
        }
    }

    /// Whether a version in this state must be written back.
    pub open spec fn should_be_stored_spec(self) -> bool {
        !(self is FetchedAt)
    }

    pub fn is_new(&self) -> (r: bool)
        ensures
            r == (*self is New),
    {
        matches!(self, VersionedState::New)
    }

    pub fn is_fetched_at(&self) -> (r: bool)
        ensures
            r == (*self is FetchedAt),
    {
        matches!(self, VersionedState::FetchedAt(_))
    }

    pub fn is_updated(&self) -> (r: bool)
        ensures
            r == (*self is Updated),
    {
        matches!(self, VersionedState::Updated(_))
    }

    /// Only a version that is merely fetched needs no write-back.
    pub fn should_be_stored(&self) -> (r: bool)
        ensures
            r == self.should_be_stored_spec(),
    {
        !self.is_fetched_at()
    }

    /// The topoheight the version was loaded from, if any.
    pub fn get_topoheight(&self) -> (r: Option<u64>)
        ensures
            r == match *self {
                VersionedState::FetchedAt(topoheight) => Some(topoheight),
                VersionedState::Updated(topoheight) => Some(topoheight),
                VersionedState::New => None::<u64>,
            },
    {
        match self {
            VersionedState::FetchedAt(topoheight) => Some(*topoheight),
            VersionedState::Updated(topoheight) => Some(*topoheight),
            VersionedState::New => None,
        }
    }

    /// Records the first mutation: a fetched version becomes updated, an
    /// already-updated one stays updated, and a new one is left as is.
    pub fn mark_updated(&mut self)
        ensures
            *final(self) == old(self).mark_updated_spec(),
    {
        match self {
            VersionedState::FetchedAt(topoheight) => {
                *self = VersionedState::Updated(*topoheight);
            },
            VersionedState::Updated(_) => {},
            VersionedState::New => {},
        }
    }
}

/// Marking a fetched version updated makes it storable, while marking a new
/// version updated leaves it new: the transition table of `VersionedState`.
pub proof fn lemma_versioned_state_transitions(topoheight: u64)
    ensures
        VersionedState::FetchedAt(topoheight).mark_updated_spec().should_be_stored_spec(),
        VersionedState::New.mark_updated_spec() is New,
        VersionedState::Updated(topoheight).mark_updated_spec() == VersionedState::Updated(
            topoheight,
        ),
{
}

/// A value with a fixed wire form: `enc` is the encoding, `dec` parses a
/// value off the front of a stream, and `lemma_dec_enc` obliges every
/// implementation to parse back exactly what it wrote.
pub trait Serializer: Sized {
    /// The encoded bytes of this value.
    spec fn enc(&self) -> Seq<u8>;

    /// Parses one value from the front of `s`, returning it together with
    /// the number of bytes consumed.
    spec fn dec(s: Seq<u8>) -> Option<(Self, int)>;

    /// Decoding is a left inverse of encoding, whatever follows the value.
    proof fn lemma_dec_enc(v: Self, rest: Seq<u8>)
        ensures
            Self::dec(v.enc() + rest) == Some((v, v.enc().len() as int)),
    ;

    /// Appends the encoding of `self` to `out`.
    fn write(&self, out: &mut Vec<u8>)
        ensures
            final(out)@ == old(out)@ + self.enc(),
    ;

    /// Reads one value, advancing the reader past its encoding.
    fn read(reader: &mut ByteReader) -> (r: Option<Self>)
        requires
            old(reader).wf(),
        ensures
            final(reader).wf(),
            match r {
                Some(v) => Self::dec(old(reader).remaining()) == Some(
                    (v, v.enc().len() as int),
                ) && final(reader).remaining() == old(reader).remaining().skip(
                    v.enc().len() as int,
                ),
                None => Self::dec(old(reader).remaining()) is None && *final(reader) == *old(reader),
            },
    ;

    /// The size in bytes of the encoding.
    fn size(&self) -> (n: usize)
        ensures
            n == self.enc().len(),
    ;
}

impl Serializer for u64 {
    open spec fn enc(&self) -> Seq<u8> {
        u64_be(*self)
    }

    open spec fn dec(s: Seq<u8>) -> Option<(u64, int)> {
        if s.len() >= 8 {
            Some((u64_from_be(s.take(8)), 8int))
        } else {
            None
        }
    }

    proof fn lemma_dec_enc(v: u64, rest: Seq<u8>) {
        assert((u64_be(v) + rest).take(8) =~= u64_be(v));
        lemma_u64_be_round_trip(v);
    }

    fn write(&self, out: &mut Vec<u8>) {
        write_u64_be(*self, out);
    }

    fn read(reader: &mut ByteReader) -> (r: Option<u64>) {
        match reader.read_u64_be() {
            Some(v) => {
                proof {
                    assert(old(reader).remaining().skip(8) == final(reader).remaining());
                }
                Some(v)
            },
            None => None,
        }
    }

    fn size(&self) -> (n: usize) {
        8
    }
}

/// A value versioned by topoheight: the data itself plus a backpointer to
/// the topoheight of the previous version, forming a singly linked list
/// backwards through history.
pub struct Versioned<T> {
    pub data: T,
    pub previous_topoheight: Option<u64>,
}

impl<T> Versioned<T> {
    pub fn new(data: T, previous_topoheight: Option<u64>) -> (r: Versioned<T>)
        ensures
            r.data == data,
            r.previous_topoheight == previous_topoheight,
    {
        Versioned { data, previous_topoheight }
    }

    pub fn get(&self) -> (r: &T)
        ensures
            *r == self.data,
    {
        &self.data
    }

    pub fn set(&mut self, data: T)
        ensures
            final(self).data == data,
            final(self).previous_topoheight == old(self).previous_topoheight,
    {
        self.data = data;
    }

    pub fn get_previous_topoheight(&self) -> (r: Option<u64>)
        ensures
            r == self.previous_topoheight,
    {
        self.previous_topoheight
    }

    pub fn set_previous_topoheight(&mut self, previous_topoheight: Option<u64>)
        ensures
            final(self).data == old(self).data,
            final(self).previous_topoheight == previous_topoheight,
    {
        self.previous_topoheight = previous_topoheight;
    }

    pub fn take(self) -> (r: T)
        ensures
            r == self.data,
    {
        self.data
    }
}

impl<T: Serializer> Versioned<T> {
    /// Wire form: the data, then the previous topoheight only when present.
    /// The encoding is read back from a buffer that ends with it: a reader
    /// with no bytes left after the data takes the backpointer as absent.
    pub open spec fn enc(&self) -> Seq<u8> {
        self.data.enc() + match self.previous_topoheight {
            Some(topoheight) => u64_be(topoheight),
            None => Seq::<u8>::empty(),
        }
    }

    /// Parses a whole buffer as one versioned entry: the data, then either
    /// nothing or at least eight more bytes holding the backpointer.
    pub open spec fn dec_full(s: Seq<u8>) -> Option<Versioned<T>> {
        match T::dec(s) {
            Some((data, n)) => {
                let rest = s.skip(n);
                if rest.len() == 0 {
                    Some(Versioned { data, previous_topoheight: None })
                } else if rest.len() >= 8 {
                    Some(
                        Versioned {
                            data,
                            previous_topoheight: Some(u64_from_be(rest.take(8))),
                        },
                    )
                } else {
                    None
                }
            },
            None => None,
        }
    }

    pub fn write(&self, out: &mut Vec<u8>)
        ensures
            final(out)@ == old(out)@ + self.enc(),
    {
        self.data.write(out);
        match &self.previous_topoheight {
            Some(topoheight) => {
                write_u64_be(*topoheight, out);
            },
            None => {},
        }
        proof {
            assert(final(out)@ =~= old(out)@ + self.enc());
        }
    }

    pub fn read(reader: &mut ByteReader) -> (r: Option<Versioned<T>>)
        requires
            old(reader).wf(),
        ensures
            r == Versioned::<T>::dec_full(old(reader).remaining()),
    {
        let data = match T::read(reader) {
            Some(data) => data,
            None => {
                return None;
            },
        };
        let previous_topoheight = if reader.size() == 0 {
            None
        } else {
            match reader.read_u64_be() {
                Some(topoheight) => Some(topoheight),
                None => {
                    return None;
                },
            }
        };
        Some(Versioned { data, previous_topoheight })
    }

    pub fn size(&self) -> (n: usize)
        requires
            self.data.enc().len() + 8 <= usize::MAX,
        ensures
            n == self.enc().len(),
    {
        self.data.size() + match &self.previous_topoheight {
            Some(_) => 8usize,
            None => 0usize,
        }
    }
}

/// Round trip: reading back the written form of any versioned entry, with
/// either kind of backpointer, yields the entry itself.
pub proof fn lemma_versioned_round_trip<T: Serializer>(v: Versioned<T>)
    ensures
        Versioned::<T>::dec_full(v.enc()) == Some(v),
{
    match v.previous_topoheight {
        Some(topoheight) => {
            T::lemma_dec_enc(v.data, u64_be(topoheight));
            assert(v.enc().skip(v.data.enc().len() as int) =~= u64_be(topoheight));
            assert(u64_be(topoheight).take(8) =~= u64_be(topoheight));
            lemma_u64_be_round_trip(topoheight);
        },
        None => {
            T::lemma_dec_enc(v.data, Seq::<u8>::empty());
            assert(v.enc() =~= v.data.enc() + Seq::<u8>::empty());
            assert(v.enc().skip(v.data.enc().len() as int) =~= Seq::<u8>::empty());
        },
    }
}

} // verus!
