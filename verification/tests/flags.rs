use posish::flags::ReadWriteFlags;

#[test]
fn flag_values_are_those_of_libc() {
    assert_eq!(ReadWriteFlags::HIPRI().bits(), libc::RWF_HIPRI);
    assert_eq!(ReadWriteFlags::DSYNC().bits(), libc::RWF_DSYNC);
    assert_eq!(ReadWriteFlags::SYNC().bits(), libc::RWF_SYNC);
    assert_eq!(ReadWriteFlags::NOWAIT().bits(), libc::RWF_NOWAIT);
    assert_eq!(ReadWriteFlags::APPEND().bits(), libc::RWF_APPEND);
    assert_eq!(ReadWriteFlags::HIPRI().bits(), 1);
    assert_eq!(ReadWriteFlags::APPEND().bits(), 16);
}

#[test]
fn empty_and_all() {
    assert_eq!(ReadWriteFlags::empty().bits(), 0);
    assert!(ReadWriteFlags::empty().is_empty());
    assert_eq!(ReadWriteFlags::all().bits(), 31);
    assert!(ReadWriteFlags::all().is_all());
    assert!(!ReadWriteFlags::DSYNC().is_all());
    assert!(!ReadWriteFlags::DSYNC().is_empty());
}

#[test]
fn from_bits_accepts_known_bits_only() {
    assert_eq!(ReadWriteFlags::from_bits(6), Some(ReadWriteFlags::DSYNC().union(ReadWriteFlags::SYNC())));
    assert_eq!(ReadWriteFlags::from_bits(0), Some(ReadWriteFlags::empty()));
    assert_eq!(ReadWriteFlags::from_bits(32), None);
    assert_eq!(ReadWriteFlags::from_bits(-1), None);
}

#[test]
fn from_bits_truncate_drops_unknown_bits() {
    assert_eq!(ReadWriteFlags::from_bits_truncate(0x23).bits(), 3);
    assert_eq!(ReadWriteFlags::from_bits_truncate(-1), ReadWriteFlags::all());
}

#[test]
fn insert_then_contains() {
    let mut f = ReadWriteFlags::DSYNC();
    f.insert(ReadWriteFlags::APPEND());
    assert!(f.contains(ReadWriteFlags::APPEND()));
    assert!(f.contains(ReadWriteFlags::DSYNC()));
    assert_eq!(f.bits(), 18);
}

#[test]
fn remove_then_disjoint() {
    let mut f = ReadWriteFlags::all();
    f.remove(ReadWriteFlags::NOWAIT());
    assert!(!f.intersects(ReadWriteFlags::NOWAIT()));
    assert!(!f.contains(ReadWriteFlags::NOWAIT()));
    assert_eq!(f.bits(), 23);
}

#[test]
fn toggle_twice_is_identity() {
    let mut f = ReadWriteFlags::SYNC();
    f.toggle(ReadWriteFlags::HIPRI().union(ReadWriteFlags::SYNC()));
    assert_eq!(f.bits(), 1);
    f.toggle(ReadWriteFlags::HIPRI().union(ReadWriteFlags::SYNC()));
    assert_eq!(f, ReadWriteFlags::SYNC());
}

#[test]
fn set_inserts_or_removes() {
    let mut f = ReadWriteFlags::empty();
    f.set(ReadWriteFlags::HIPRI(), true);
    assert_eq!(f.bits(), 1);
    f.set(ReadWriteFlags::HIPRI(), false);
    assert!(f.is_empty());
}

#[test]
fn set_operations() {
    let a = ReadWriteFlags::from_bits(0b00111).unwrap();
    let b = ReadWriteFlags::from_bits(0b01100).unwrap();
    assert_eq!(a.union(b).bits(), 0b01111);
    assert_eq!(a.intersection(b).bits(), 0b00100);
    assert_eq!(a.difference(b).bits(), 0b00011);
    assert_eq!(a.symmetric_difference(b).bits(), 0b01011);
    assert_eq!(a.complement().bits(), 0b11000);
    assert_eq!(a.complement().complement(), a);
    assert!(ReadWriteFlags::all().contains(a));
    assert!(a.intersects(b));
    assert!(!ReadWriteFlags::HIPRI().intersects(ReadWriteFlags::APPEND()));
}

#[test]
fn operators_match_methods() {
    let a = ReadWriteFlags::from_bits(0b00111).unwrap();
    let b = ReadWriteFlags::from_bits(0b01100).unwrap();
    assert_eq!((a | b).bits(), 0b01111);
    assert_eq!((a & b).bits(), 0b00100);
    assert_eq!((a ^ b).bits(), 0b01011);
    assert_eq!((a - b).bits(), 0b00011);
    assert_eq!((!a).bits(), 0b11000);
    assert_eq!(!!a, a);
}

#[test]
fn assign_operators() {
    let mut f = ReadWriteFlags::HIPRI();
    f |= ReadWriteFlags::SYNC();
    assert_eq!(f.bits(), 5);
    f ^= ReadWriteFlags::all();
    assert_eq!(f.bits(), 26);
    f -= ReadWriteFlags::APPEND();
    assert_eq!(f.bits(), 10);
    f &= ReadWriteFlags::NOWAIT();
    assert_eq!(f, ReadWriteFlags::NOWAIT());
}

#[test]
fn flags_are_ordered_by_bits() {
    assert!(ReadWriteFlags::HIPRI() < ReadWriteFlags::DSYNC());
    assert!(ReadWriteFlags::all() > ReadWriteFlags::APPEND());
    assert_eq!(ReadWriteFlags::SYNC().max(ReadWriteFlags::NOWAIT()), ReadWriteFlags::NOWAIT());
}
