//! Image scaling and pixel format conversion.
use vstd::prelude::*;

verus! {

/// Scaling algorithms and options of a scaler (`SWS_*`).
///
/// A set of bits; the named bits are the associated constants.  Bits
/// without a name can be kept too (see `from_bits_retain`).
#[derive(Debug, Clone, Copy, PartialEq, Eq, Structural)]
pub struct SwsFlags {
    bits: u32,
}

impl View for SwsFlags {
    type V = u32;

    closed spec fn view(&self) -> u32 {
        self.bits
    }
}

impl SwsFlags {
    /// Fast bilinear scaling.
    pub const FAST_BILINEAR: u32 = 0x1;
    /// Bilinear scaling.
    pub const BILINEAR: u32 = 0x2;
    /// Bicubic scaling.
    pub const BICUBIC: u32 = 0x4;
    /// Experimental scaling.
    pub const X: u32 = 0x8;
    /// Nearest neighbour scaling.
    pub const POINT: u32 = 0x10;
    /// Averaging area scaling.
    pub const AREA: u32 = 0x20;
    /// Bicubic scaling of luma, bilinear of chroma.
    pub const BICUBLIN: u32 = 0x40;
    /// Gaussian scaling.
    pub const GAUSS: u32 = 0x80;
    /// Sinc scaling.
    pub const SINC: u32 = 0x100;
    /// Lanczos scaling.
    pub const LANCZOS: u32 = 0x200;
    /// Natural bicubic spline scaling.
    pub const SPLINE: u32 = 0x400;
    /// Every named bit.
    pub const ALL_BITS: u32 = 0x7FF;

    /// The set with no bit.
    pub fn empty() -> (r: SwsFlags)
        ensures
            r@ == 0,
    {
        SwsFlags { bits: 0 }
    }

    /// The set of every named bit.
    pub fn all() -> (r: SwsFlags)
        ensures
            r@ == Self::ALL_BITS,
    {
        SwsFlags { bits: Self::ALL_BITS }
    }

    /// The bits of the set.
    pub fn bits(&self) -> (r: u32)
        ensures
            r == self@,
    {
        self.bits
    }

    /// The set of exactly `bits`, whether or not each bit has a name.
    pub fn from_bits_retain(bits: u32) -> (r: SwsFlags)
        ensures
            r@ == bits,
    {
        SwsFlags { bits }
    }

    /// The set of `bits` if every one of them has a name, else `None`.
    pub fn from_bits(bits: u32) -> (r: Option<SwsFlags>)
        ensures
            r is Some <==> bits & !Self::ALL_BITS == 0,
            r matches Some(f) ==> f@ == bits,
    {
        if bits & !Self::ALL_BITS == 0 {
            Some(SwsFlags { bits })
        } else {
            None
        }
    }

    /// The set of the named bits among `bits`; the others are dropped.
    pub fn from_bits_truncate(bits: u32) -> (r: SwsFlags)
        ensures
            r@ == bits & Self::ALL_BITS,
    {
        SwsFlags { bits: bits & Self::ALL_BITS }
    }

    /// Whether every bit of `other` is in the set.
    pub fn contains(&self, other: SwsFlags) -> (r: bool)
        ensures
            r == (self@ & other@ == other@),
    {
        self.bits & other.bits == other.bits
    }

    /// The set of the bits that are in either set; it contains both.
    pub fn union(self, other: SwsFlags) -> (r: SwsFlags)
        ensures
            r@ == self@ | other@,
            r@ & self@ == self@,
            r@ & other@ == other@,
    {
        proof {
            crate::util::lemma_union_covers(self.bits, other.bits);
        }
        SwsFlags { bits: self.bits | other.bits }
    }

    /// Whether the set has no bit.
    pub fn is_empty(&self) -> (r: bool)
        ensures
            r == (self@ == 0),
    {
        self.bits == 0
    }

    /// Adds the bits of `other` to the set; afterwards it contains them.
    pub fn insert(&mut self, other: SwsFlags)
        ensures
            final(self)@ == old(self)@ | other@,
            final(self)@ & other@ == other@,
    {
        proof {
            crate::util::lemma_union_covers(self.bits, other.bits);
        }
        self.bits = self.bits | other.bits;
    }

    /// Takes the bits of `other` out of the set; afterwards it holds none of
    /// them.
    pub fn remove(&mut self, other: SwsFlags)
        ensures
            final(self)@ == old(self)@ & !other@,
            final(self)@ & other@ == 0,
    {
        proof {
            crate::util::lemma_difference_excludes(self.bits, other.bits);
        }
        self.bits = self.bits & !other.bits;
    }

    /// The set of the bits that are in both sets; both contain it.
    pub fn intersection(self, other: SwsFlags) -> (r: SwsFlags)
        ensures
            r@ == self@ & other@,
            self@ & r@ == r@,
            other@ & r@ == r@,
    {
        proof {
            crate::util::lemma_intersection_within(self.bits, other.bits);
        }
        SwsFlags { bits: self.bits & other.bits }
    }

    /// The set of the bits of this set that are not in `other`; it shares
    /// no bit with `other`.
    pub fn difference(self, other: SwsFlags) -> (r: SwsFlags)
        ensures
            r@ == self@ & !other@,
            r@ & other@ == 0,
    {
        proof {
            crate::util::lemma_difference_excludes(self.bits, other.bits);
        }
        SwsFlags { bits: self.bits & !other.bits }
    }
}

/// A scaler: the address of an FFmpeg `SwsContext`.
pub struct SwsContext {
    ptr: usize,
}

impl SwsContext {
    /// The address of the `SwsContext`.
    pub closed spec fn addr(&self) -> usize {
        self.ptr
    }

    /// The scaler that `sws_getContext` returned at `ptr`; `None` when it
    /// could not be made and the pointer is null.
    pub fn from_raw(ptr: usize) -> (r: Option<Self>)
        ensures
            r is Some <==> ptr != 0,
            r matches Some(h) ==> h.addr() == ptr,
    {
        if ptr == 0 {
            None
        } else {
            Some(SwsContext { ptr })
        }
    }

    /// The address of the `SwsContext`.
    pub fn as_raw(&self) -> (r: usize)
        ensures
            r == self.addr(),
    {
        self.ptr
    }
}

} // verus!
