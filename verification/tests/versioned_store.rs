//! Versioned storage elements: lifecycle transitions and wire round trips.

use xelis_core::bytes::ByteReader;
use xelis_core::versioned::{Serializer, Versioned, VersionedState};

#[test]
fn versioned_state_predicates() {
    assert!(VersionedState::New.is_new());
    assert!(!VersionedState::New.is_fetched_at());
    assert!(VersionedState::FetchedAt(3).is_fetched_at());
    assert!(VersionedState::Updated(3).is_updated());
    assert_eq!(VersionedState::FetchedAt(3).get_topoheight(), Some(3));
    assert_eq!(VersionedState::Updated(9).get_topoheight(), Some(9));
    assert_eq!(VersionedState::New.get_topoheight(), None);
}

#[test]
fn should_be_stored_tracks_mutation() {
    // A merely fetched version needs no write-back; marking it updated
    // makes it storable.  A new version is always stored and marking it
    // updated is a no-op.
    let mut fetched = VersionedState::FetchedAt(5);
    assert!(!fetched.should_be_stored());
    fetched.mark_updated();
    assert!(fetched.should_be_stored());
    assert_eq!(fetched, VersionedState::Updated(5));
    fetched.mark_updated();
    assert_eq!(fetched, VersionedState::Updated(5));

    let mut brand_new = VersionedState::New;
    assert!(brand_new.should_be_stored());
    brand_new.mark_updated();
    assert!(brand_new.is_new());
}

#[test]
fn versioned_accessors() {
    let mut v = Versioned::new(7u64, Some(11));
    assert_eq!(*v.get(), 7);
    assert_eq!(v.get_previous_topoheight(), Some(11));
    v.set(8);
    v.set_previous_topoheight(None);
    assert_eq!(*v.get(), 8);
    assert_eq!(v.get_previous_topoheight(), None);
    assert_eq!(v.take(), 8);
}

#[test]
fn round_trip_with_backpointer() {
    let v = Versioned::new(0xdead_beefu64, Some(42));
    let mut out: Vec<u8> = Vec::new();
    v.write(&mut out);
    assert_eq!(out.len(), 16);
    let mut reader = ByteReader::new(out);
    let back = Versioned::<u64>::read(&mut reader).unwrap();
    assert_eq!(*back.get(), 0xdead_beef);
    assert_eq!(back.get_previous_topoheight(), Some(42));
}

#[test]
fn round_trip_without_backpointer() {
    let v = Versioned::new(123u64, None);
    let mut out: Vec<u8> = Vec::new();
    v.write(&mut out);
    assert_eq!(out.len(), 8);
    assert_eq!(v.size(), 8);
    let mut reader = ByteReader::new(out);
    let back = Versioned::<u64>::read(&mut reader).unwrap();
    assert_eq!(*back.get(), 123);
    assert_eq!(back.get_previous_topoheight(), None);
}

#[test]
fn u64_codec_is_big_endian() {
    let mut out: Vec<u8> = Vec::new();
    0x0102_0304_0506_0708u64.write(&mut out);
    assert_eq!(out, vec![1, 2, 3, 4, 5, 6, 7, 8]);
    assert_eq!(0u64.size(), 8);
    let mut reader = ByteReader::new(out);
    assert_eq!(u64::read(&mut reader), Some(0x0102_0304_0506_0708));
}

#[test]
fn truncated_input_is_rejected() {
    let mut reader = ByteReader::new(vec![1, 2, 3]);
    assert_eq!(u64::read(&mut reader), None);
    // A versioned entry whose trailing bytes cannot hold a topoheight is
    // rejected too.
    let mut bad = ByteReader::new(vec![0, 0, 0, 0, 0, 0, 0, 9, 1, 2]);
    assert!(Versioned::<u64>::read(&mut bad).is_none());
}
