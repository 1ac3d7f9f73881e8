//! Compressed packets.
use vstd::prelude::*;

verus! {

/// Properties of a packet (`AV_PKT_FLAG_*`).
///
/// A set of bits; the named bits are the associated constants.  Bits
/// without a name can be kept too (see `from_bits_retain`).
#[derive(Debug, Clone, Copy, PartialEq, Eq, Structural)]
pub struct PacketFlags {
    bits: u32,
}

impl View for PacketFlags {
    type V = u32;

    closed spec fn view(&self) -> u32 {
        self.bits
    }
}

impl PacketFlags {
    /// The packet holds a keyframe.
    pub const KEY: u32 = 0x1;
    /// The packet content is corrupted.
    pub const CORRUPT: u32 = 0x2;
    /// The packet is needed to keep the decoder in step, but its output is to be dropped.
    pub const DISCARD: u32 = 0x4;
    /// The packet comes from a trusted source.
    pub const TRUSTED: u32 = 0x8;
    /// The packet holds frames that other frames do not depend on.
    pub const DISPOSABLE: u32 = 0x10;
    /// Every named bit.
    pub const ALL_BITS: u32 = 0x1F;

    /// The set with no bit.
    pub fn empty() -> (r: PacketFlags)
        ensures
            r@ == 0,
    {
        PacketFlags { bits: 0 }
    }

    /// The set of every named bit.
    pub fn all() -> (r: PacketFlags)
        ensures
            r@ == Self::ALL_BITS,
    {
        PacketFlags { bits: Self::ALL_BITS }
    }

    /// The bits of the set.
    pub fn bits(&self) -> (r: u32)
        ensures
            r == self@,
    {
        self.bits
    }

    /// The set of exactly `bits`, whether or not each bit has a name.
    pub fn from_bits_retain(bits: u32) -> (r: PacketFlags)
        ensures
            r@ == bits,
    {
        PacketFlags { bits }
    }

    /// The set of `bits` if every one of them has a name, else `None`.
    pub fn from_bits(bits: u32) -> (r: Option<PacketFlags>)
        ensures
            r is Some <==> bits & !Self::ALL_BITS == 0,
            r matches Some(f) ==> f@ == bits,
    {
        if bits & !Self::ALL_BITS == 0 {
            Some(PacketFlags { bits })
        } else {
            None
        }
    }

    /// The set of the named bits among `bits`; the others are dropped.
    pub fn from_bits_truncate(bits: u32) -> (r: PacketFlags)
        ensures
            r@ == bits & Self::ALL_BITS,
    {
        PacketFlags { bits: bits & Self::ALL_BITS }
    }

    /// Whether every bit of `other` is in the set.
    pub fn contains(&self, other: PacketFlags) -> (r: bool)
        ensures
            r == (self@ & other@ == other@),
    {
        self.bits & other.bits == other.bits
    }

    /// The set of the bits that are in either set; it contains both.
    pub fn union(self, other: PacketFlags) -> (r: PacketFlags)
        ensures
            r@ == self@ | other@,
            r@ & self@ == self@,
            r@ & other@ == other@,
    {
        proof {
            crate::util::lemma_union_covers(self.bits, other.bits);
        }
        PacketFlags { bits: self.bits | other.bits }
    }

    /// Whether the set has no bit.
    pub fn is_empty(&self) -> (r: bool)
        ensures
            r == (self@ == 0),
    {
        self.bits == 0
    }

    /// Adds the bits of `other` to the set; afterwards it contains them.
    pub fn insert(&mut self, other: PacketFlags)
        ensures
            final(self)@ == old(self)@ | other@,
            final(self)@ & other@ == other@,
    {
        proof {
            crate::util::lemma_union_covers(self.bits, other.bits);
        }
        self.bits = self.bits | other.bits;
    }

    /// Takes the bits of `other` out of the set; afterwards it holds none of
    /// them.
    pub fn remove(&mut self, other: PacketFlags)
        ensures
            final(self)@ == old(self)@ & !other@,
            final(self)@ & other@ == 0,
    {
        proof {
            crate::util::lemma_difference_excludes(self.bits, other.bits);
        }
        self.bits = self.bits & !other.bits;
    }

    /// The set of the bits that are in both sets; both contain it.
    pub fn intersection(self, other: PacketFlags) -> (r: PacketFlags)
        ensures
            r@ == self@ & other@,
            self@ & r@ == r@,
            other@ & r@ == r@,
    {
        proof {
            crate::util::lemma_intersection_within(self.bits, other.bits);
        }
        PacketFlags { bits: self.bits & other.bits }
    }

    /// The set of the bits of this set that are not in `other`; it shares
    /// no bit with `other`.
    pub fn difference(self, other: PacketFlags) -> (r: PacketFlags)
        ensures
            r@ == self@ & !other@,
            r@ & other@ == 0,
    {
        proof {
            crate::util::lemma_difference_excludes(self.bits, other.bits);
        }
        PacketFlags { bits: self.bits & !other.bits }
    }
}

/// A compressed packet: the address of an FFmpeg `AVPacket`.
pub struct AvPacket {
    ptr: usize,
}

impl AvPacket {
    /// The address of the `AVPacket`.
    pub closed spec fn addr(&self) -> usize {
        self.ptr
    }

    /// The packet that `av_packet_alloc` returned at `ptr`; `None` when the
    /// allocation failed and the pointer is null.
    pub fn from_raw(ptr: usize) -> (r: Option<Self>)
        ensures
            r is Some <==> ptr != 0,
            r matches Some(h) ==> h.addr() == ptr,
    {
        if ptr == 0 {
            None
        } else {
            Some(AvPacket { ptr })
        }
    }

    /// The address of the `AVPacket`.
    pub fn as_raw(&self) -> (r: usize)
        ensures
            r == self.addr(),
    {
        self.ptr
    }
}

} // verus!
