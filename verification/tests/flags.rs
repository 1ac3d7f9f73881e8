use ffav::codec::CodecFlags;
use ffav::dict::{DictFetchFlags, DictInsertFlags};
use ffav::format::OutputFlags;
use ffav::io::OpenFlags;
use ffav::packet::PacketFlags;
use ffav::sws::SwsFlags;

#[test]
fn flag_values_match_ffmpeg() {
    assert_eq!(PacketFlags::KEY, 0x1);
    assert_eq!(PacketFlags::DISPOSABLE, 0x10);
    assert_eq!(CodecFlags::GLOBAL_HEADER, 1 << 22);
    assert_eq!(CodecFlags::CLOSED_GOP, 1 << 31);
    assert_eq!(OutputFlags::NO_FILE, 0x1);
    assert_eq!(OutputFlags::TS_NEGATIVE, 0x40000);
    assert_eq!(OpenFlags::WRITE, 2);
    assert_eq!(OpenFlags::DIRECT, 0x8000);
    assert_eq!(SwsFlags::BICUBIC, 4);
    assert_eq!(DictInsertFlags::DONT_OVERWRITE, 16);
    assert_eq!(DictFetchFlags::IGNORE_SUFFIX, 2);
}

#[test]
fn retained_bits_come_back() {
    let f = PacketFlags::from_bits_retain(0x8000_0011);
    assert_eq!(f.bits(), 0x8000_0011);
    let c = CodecFlags::from_bits_retain(u32::MAX);
    assert_eq!(c.bits(), u32::MAX);
}

#[test]
fn from_bits_refuses_unnamed_bits() {
    assert_eq!(PacketFlags::from_bits(0x11).map(|f| f.bits()), Some(0x11));
    assert!(PacketFlags::from_bits(0x20).is_none());
    assert!(OpenFlags::from_bits(0x4).is_none());
    assert_eq!(OpenFlags::from_bits(0x8003).map(|f| f.bits()), Some(0x8003));
}

#[test]
fn truncate_keeps_named_bits() {
    assert_eq!(PacketFlags::from_bits_truncate(0xFF).bits(), 0x1F);
    assert_eq!(SwsFlags::from_bits_truncate(0xF800).bits(), 0x0);
    assert_eq!(DictInsertFlags::from_bits_truncate(0x7F).bits(), 0x70);
    assert_eq!(OutputFlags::all().bits(), OutputFlags::ALL_BITS);
    assert_eq!(CodecFlags::empty().bits(), 0);
}

#[test]
fn union_contains_both_operands() {
    let a = PacketFlags::from_bits_retain(PacketFlags::KEY);
    let b = PacketFlags::from_bits_retain(PacketFlags::DISCARD);
    let u = a.union(b);
    assert_eq!(u.bits(), 0x5);
    assert!(u.contains(a));
    assert!(u.contains(b));
    assert!(!a.contains(b));
    assert!(u.contains(PacketFlags::empty()));
    let g = CodecFlags::from_bits_retain(CodecFlags::GLOBAL_HEADER).union(CodecFlags::from_bits_retain(CodecFlags::LOW_DELAY));
    assert!(g.contains(CodecFlags::from_bits_retain(CodecFlags::LOW_DELAY)));
    assert!(!g.contains(CodecFlags::from_bits_retain(CodecFlags::GRAY)));
    assert!(DictFetchFlags::all().contains(DictFetchFlags::from_bits_retain(DictFetchFlags::MATCH_CASE)));
}

#[test]
fn insert_remove_intersection_difference() {
    let mut f = PacketFlags::empty();
    assert!(f.is_empty());
    f.insert(PacketFlags::from_bits_retain(PacketFlags::KEY | PacketFlags::CORRUPT));
    assert_eq!(f.bits(), 0x3);
    assert!(!f.is_empty());
    f.remove(PacketFlags::from_bits_retain(PacketFlags::CORRUPT | PacketFlags::TRUSTED));
    assert_eq!(f.bits(), 0x1);
    let a = SwsFlags::from_bits_retain(0x6);
    let b = SwsFlags::from_bits_retain(0x3);
    assert_eq!(a.intersection(b).bits(), 0x2);
    assert_eq!(a.difference(b).bits(), 0x4);
    assert_eq!(b.difference(a).bits(), 0x1);
    assert!(OpenFlags::from_bits_retain(0).is_empty());
}
