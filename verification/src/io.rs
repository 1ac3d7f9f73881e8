//! Byte-stream I/O of formats.
use vstd::prelude::*;

verus! {

/// Access modes of an I/O context (`AVIO_FLAG_*`).
///
/// A set of bits; the named bits are the associated constants.  Bits
/// without a name can be kept too (see `from_bits_retain`).
#[derive(Debug, Clone, Copy, PartialEq, Eq, Structural)]
pub struct OpenFlags {
    bits: u32,
}

impl View for OpenFlags {
    type V = u32;

    closed spec fn view(&self) -> u32 {
        self.bits
    }
}

impl OpenFlags {
    /// Open for reading.
    pub const READ: u32 = 0x1;
    /// Open for writing.
    pub const WRITE: u32 = 0x2;
    /// Use non-blocking operations.
    pub const NONBLOCK: u32 = 0x8;
    /// Bypass buffering where possible.
    pub const DIRECT: u32 = 0x8000;
    /// Every named bit.
    pub const ALL_BITS: u32 = 0x800B;

    /// The set with no bit.
    pub fn empty() -> (r: OpenFlags)
        ensures
            r@ == 0,
    {
        OpenFlags { bits: 0 }
    }

    /// The set of every named bit.
    pub fn all() -> (r: OpenFlags)
        ensures
            r@ == Self::ALL_BITS,
    {
        OpenFlags { bits: Self::ALL_BITS }
    }

    /// The bits of the set.
    pub fn bits(&self) -> (r: u32)
        ensures
            r == self@,
    {
        self.bits
    }

    /// The set of exactly `bits`, whether or not each bit has a name.
    pub fn from_bits_retain(bits: u32) -> (r: OpenFlags)
        ensures
            r@ == bits,
    {
        OpenFlags { bits }
    }

    /// The set of `bits` if every one of them has a name, else `None`.
    pub fn from_bits(bits: u32) -> (r: Option<OpenFlags>)
        ensures
            r is Some <==> bits & !Self::ALL_BITS == 0,
            r matches Some(f) ==> f@ == bits,
    {
        if bits & !Self::ALL_BITS == 0 {
            Some(OpenFlags { bits })
        } else {
            None
        }
    }

    /// The set of the named bits among `bits`; the others are dropped.
    pub fn from_bits_truncate(bits: u32) -> (r: OpenFlags)
        ensures
            r@ == bits & Self::ALL_BITS,
    {
        OpenFlags { bits: bits & Self::ALL_BITS }
    }

    /// Whether every bit of `other` is in the set.
    pub fn contains(&self, other: OpenFlags) -> (r: bool)
        ensures
            r == (self@ & other@ == other@),
    {
        self.bits & other.bits == other.bits
    }

    /// The set of the bits that are in either set; it contains both.
    pub fn union(self, other: OpenFlags) -> (r: OpenFlags)
        ensures
            r@ == self@ | other@,
            r@ & self@ == self@,
            r@ & other@ == other@,
    {
        proof {
            crate::util::lemma_union_covers(self.bits, other.bits);
        }
        OpenFlags { bits: self.bits | other.bits }
    }

    /// Whether the set has no bit.
    pub fn is_empty(&self) -> (r: bool)
        ensures
            r == (self@ == 0),
    {
        self.bits == 0
    }

    /// Adds the bits of `other` to the set; afterwards it contains them.
    pub fn insert(&mut self, other: OpenFlags)
        ensures
            final(self)@ == old(self)@ | other@,
            final(self)@ & other@ == other@,
    {
        proof {
            crate::util::lemma_union_covers(self.bits, other.bits);
        }
        self.bits = self.bits | other.bits;
    }

    /// Takes the bits of `other` out of the set; afterwards it holds none of
    /// them.
    pub fn remove(&mut self, other: OpenFlags)
        ensures
            final(self)@ == old(self)@ & !other@,
            final(self)@ & other@ == 0,
    {
        proof {
            crate::util::lemma_difference_excludes(self.bits, other.bits);
        }
        self.bits = self.bits & !other.bits;
    }

    /// The set of the bits that are in both sets; both contain it.
    pub fn intersection(self, other: OpenFlags) -> (r: OpenFlags)
        ensures
            r@ == self@ & other@,
            self@ & r@ == r@,
            other@ & r@ == r@,
    {
        proof {
            crate::util::lemma_intersection_within(self.bits, other.bits);
        }
        OpenFlags { bits: self.bits & other.bits }
    }

    /// The set of the bits of this set that are not in `other`; it shares
    /// no bit with `other`.
    pub fn difference(self, other: OpenFlags) -> (r: OpenFlags)
        ensures
            r@ == self@ & !other@,
            r@ & other@ == 0,
    {
        proof {
            crate::util::lemma_difference_excludes(self.bits, other.bits);
        }
        OpenFlags { bits: self.bits & !other.bits }
    }
}

/// The I/O context slot of a format context: the address of the
/// `AVIOContext *` field that FFmpeg reads and writes.
pub struct AvIoContext {
    ptr: usize,
}

impl AvIoContext {
    /// The address of the `AVIOContext *` field.
    pub closed spec fn addr(&self) -> usize {
        self.ptr
    }

    /// The slot at `ptr`, the address of a format context's `pb` field.
    pub fn wrap_raw(ptr: usize) -> (r: AvIoContext)
        ensures
            r.addr() == ptr,
    {
        AvIoContext { ptr }
    }

    /// The address of the `AVIOContext *` field.
    pub fn as_raw(&self) -> (r: usize)
        ensures
            r == self.addr(),
    {
        self.ptr
    }
}

} // verus!
