//! Dictionaries of string options.
use crate::{AvOwnable, AvOwned};
use vstd::prelude::*;

verus! {

/// Options of an insertion into a dictionary (`AV_DICT_*`).
///
/// A set of bits; the named bits are the associated constants.  Bits
/// without a name can be kept too (see `from_bits_retain`).
#[derive(Debug, Clone, Copy, PartialEq, Eq, Structural)]
pub struct DictInsertFlags {
    bits: u32,
}

impl View for DictInsertFlags {
    type V = u32;

    closed spec fn view(&self) -> u32 {
        self.bits
    }
}

impl DictInsertFlags {
    /// Keep the entry that is there, if any.
    pub const DONT_OVERWRITE: u32 = 0x10;
    /// Append the value to the value that is there.
    pub const APPEND: u32 = 0x20;
    /// Allow several entries with the same key.
    pub const MULTIKEY: u32 = 0x40;
    /// Every named bit.
    pub const ALL_BITS: u32 = 0x70;

    /// The set with no bit.
    pub fn empty() -> (r: DictInsertFlags)
        ensures
            r@ == 0,
    {
        DictInsertFlags { bits: 0 }
    }

    /// The set of every named bit.
    pub fn all() -> (r: DictInsertFlags)
        ensures
            r@ == Self::ALL_BITS,
    {
        DictInsertFlags { bits: Self::ALL_BITS }
    }

    /// The bits of the set.
    pub fn bits(&self) -> (r: u32)
        ensures
            r == self@,
    {
        self.bits
    }

    /// The set of exactly `bits`, whether or not each bit has a name.
    pub fn from_bits_retain(bits: u32) -> (r: DictInsertFlags)
        ensures
            r@ == bits,
    {
        DictInsertFlags { bits }
    }

    /// The set of `bits` if every one of them has a name, else `None`.
    pub fn from_bits(bits: u32) -> (r: Option<DictInsertFlags>)
        ensures
            r is Some <==> bits & !Self::ALL_BITS == 0,
            r matches Some(f) ==> f@ == bits,
    {
        if bits & !Self::ALL_BITS == 0 {
            Some(DictInsertFlags { bits })
        } else {
            None
        }
    }

    /// The set of the named bits among `bits`; the others are dropped.
    pub fn from_bits_truncate(bits: u32) -> (r: DictInsertFlags)
        ensures
            r@ == bits & Self::ALL_BITS,
    {
        DictInsertFlags { bits: bits & Self::ALL_BITS }
    }

    /// Whether every bit of `other` is in the set.
    pub fn contains(&self, other: DictInsertFlags) -> (r: bool)
        ensures
            r == (self@ & other@ == other@),
    {
        self.bits & other.bits == other.bits
    }

    /// The set of the bits that are in either set; it contains both.
    pub fn union(self, other: DictInsertFlags) -> (r: DictInsertFlags)
        ensures
            r@ == self@ | other@,
            r@ & self@ == self@,
            r@ & other@ == other@,
    {
        proof {
            crate::util::lemma_union_covers(self.bits, other.bits);
        }
        DictInsertFlags { bits: self.bits | other.bits }
    }

    /// Whether the set has no bit.
    pub fn is_empty(&self) -> (r: bool)
        ensures
            r == (self@ == 0),
    {
        self.bits == 0
    }

    /// Adds the bits of `other` to the set; afterwards it contains them.
    pub fn insert(&mut self, other: DictInsertFlags)
        ensures
            final(self)@ == old(self)@ | other@,
            final(self)@ & other@ == other@,
    {
        proof {
            crate::util::lemma_union_covers(self.bits, other.bits);
        }
        self.bits = self.bits | other.bits;
    }

    /// Takes the bits of `other` out of the set; afterwards it holds none of
    /// them.
    pub fn remove(&mut self, other: DictInsertFlags)
        ensures
            final(self)@ == old(self)@ & !other@,
            final(self)@ & other@ == 0,
    {
        proof {
            crate::util::lemma_difference_excludes(self.bits, other.bits);
        }
        self.bits = self.bits & !other.bits;
    }

    /// The set of the bits that are in both sets; both contain it.
    pub fn intersection(self, other: DictInsertFlags) -> (r: DictInsertFlags)
        ensures
            r@ == self@ & other@,
            self@ & r@ == r@,
            other@ & r@ == r@,
    {
        proof {
            crate::util::lemma_intersection_within(self.bits, other.bits);
        }
        DictInsertFlags { bits: self.bits & other.bits }
    }

    /// The set of the bits of this set that are not in `other`; it shares
    /// no bit with `other`.
    pub fn difference(self, other: DictInsertFlags) -> (r: DictInsertFlags)
        ensures
            r@ == self@ & !other@,
            r@ & other@ == 0,
    {
        proof {
            crate::util::lemma_difference_excludes(self.bits, other.bits);
        }
        DictInsertFlags { bits: self.bits & !other.bits }
    }
}

/// Options of a lookup in a dictionary (`AV_DICT_*`).
///
/// A set of bits; the named bits are the associated constants.  Bits
/// without a name can be kept too (see `from_bits_retain`).
#[derive(Debug, Clone, Copy, PartialEq, Eq, Structural)]
pub struct DictFetchFlags {
    bits: u32,
}

impl View for DictFetchFlags {
    type V = u32;

    closed spec fn view(&self) -> u32 {
        self.bits
    }
}

impl DictFetchFlags {
    /// Compare keys case-sensitively.
    pub const MATCH_CASE: u32 = 0x1;
    /// Match keys that start with the key looked for.
    pub const IGNORE_SUFFIX: u32 = 0x2;
    /// Every named bit.
    pub const ALL_BITS: u32 = 0x3;

    /// The set with no bit.
    pub fn empty() -> (r: DictFetchFlags)
        ensures
            r@ == 0,
    {
        DictFetchFlags { bits: 0 }
    }

    /// The set of every named bit.
    pub fn all() -> (r: DictFetchFlags)
        ensures
            r@ == Self::ALL_BITS,
    {
        DictFetchFlags { bits: Self::ALL_BITS }
    }

    /// The bits of the set.
    pub fn bits(&self) -> (r: u32)
        ensures
            r == self@,
    {
        self.bits
    }

    /// The set of exactly `bits`, whether or not each bit has a name.
    pub fn from_bits_retain(bits: u32) -> (r: DictFetchFlags)
        ensures
            r@ == bits,
    {
        DictFetchFlags { bits }
    }

    /// The set of `bits` if every one of them has a name, else `None`.
    pub fn from_bits(bits: u32) -> (r: Option<DictFetchFlags>)
        ensures
            r is Some <==> bits & !Self::ALL_BITS == 0,
            r matches Some(f) ==> f@ == bits,
    {
        if bits & !Self::ALL_BITS == 0 {
            Some(DictFetchFlags { bits })
        } else {
            None
        }
    }

    /// The set of the named bits among `bits`; the others are dropped.
    pub fn from_bits_truncate(bits: u32) -> (r: DictFetchFlags)
        ensures
            r@ == bits & Self::ALL_BITS,
    {
        DictFetchFlags { bits: bits & Self::ALL_BITS }
    }

    /// Whether every bit of `other` is in the set.
    pub fn contains(&self, other: DictFetchFlags) -> (r: bool)
        ensures
            r == (self@ & other@ == other@),
    {
        self.bits & other.bits == other.bits
    }

    /// The set of the bits that are in either set; it contains both.
    pub fn union(self, other: DictFetchFlags) -> (r: DictFetchFlags)
        ensures
            r@ == self@ | other@,
            r@ & self@ == self@,
            r@ & other@ == other@,
    {
        proof {
            crate::util::lemma_union_covers(self.bits, other.bits);
        }
        DictFetchFlags { bits: self.bits | other.bits }
    }

    /// Whether the set has no bit.
    pub fn is_empty(&self) -> (r: bool)
        ensures
            r == (self@ == 0),
    {
        self.bits == 0
    }

    /// Adds the bits of `other` to the set; afterwards it contains them.
    pub fn insert(&mut self, other: DictFetchFlags)
        ensures
            final(self)@ == old(self)@ | other@,
            final(self)@ & other@ == other@,
    {
        proof {
            crate::util::lemma_union_covers(self.bits, other.bits);
        }
        self.bits = self.bits | other.bits;
    }

    /// Takes the bits of `other` out of the set; afterwards it holds none of
    /// them.
    pub fn remove(&mut self, other: DictFetchFlags)
        ensures
            final(self)@ == old(self)@ & !other@,
            final(self)@ & other@ == 0,
    {
        proof {
            crate::util::lemma_difference_excludes(self.bits, other.bits);
        }
        self.bits = self.bits & !other.bits;
    }

    /// The set of the bits that are in both sets; both contain it.
    pub fn intersection(self, other: DictFetchFlags) -> (r: DictFetchFlags)
        ensures
            r@ == self@ & other@,
            self@ & r@ == r@,
            other@ & r@ == r@,
    {
        proof {
            crate::util::lemma_intersection_within(self.bits, other.bits);
        }
        DictFetchFlags { bits: self.bits & other.bits }
    }

    /// The set of the bits of this set that are not in `other`; it shares
    /// no bit with `other`.
    pub fn difference(self, other: DictFetchFlags) -> (r: DictFetchFlags)
        ensures
            r@ == self@ & !other@,
            r@ & other@ == 0,
    {
        proof {
            crate::util::lemma_difference_excludes(self.bits, other.bits);
        }
        DictFetchFlags { bits: self.bits & !other.bits }
    }
}

/// A dictionary of string options: the address of an FFmpeg
/// `AVDictionary`, null while the dictionary is empty.
pub struct AvDictionary {
    ptr: usize,
}

impl AvDictionary {
    /// The address of the `AVDictionary`; `0` while it is empty.
    pub closed spec fn addr(&self) -> usize {
        self.ptr
    }

    /// The empty dictionary, which FFmpeg represents by a null pointer.
    pub fn empty() -> (r: AvOwned<AvDictionary>)
        ensures
            r.value().addr() == 0,
    {
        AvOwned::wrap(Self { ptr: 0 })
    }

    /// The address of the `AVDictionary`.
    pub fn as_raw(&self) -> (r: usize)
        ensures
            r == self.addr(),
    {
        self.ptr
    }

    /// The addresses of the dictionaries `options`, in order: the array of
    /// per-stream options that `avformat_find_stream_info` takes; `None` when
    /// there are no options.
    pub fn addresses(options: Option<&[&AvDictionary]>) -> (r: Option<Vec<usize>>)
        ensures
            r is Some <==> options is Some,
            r matches Some(v) ==> v@.len() == options.unwrap()@.len()
                && forall|i: int| 0 <= i < v@.len() ==> v@[i] == options.unwrap()@[i].addr(),
    {
        match options {
            None => None,
            Some(dicts) => {
                let mut v: Vec<usize> = Vec::new();
                let mut k: usize = 0;
                while k < dicts.len()
                    invariant
                        k <= dicts@.len(),
                        v@.len() == k,
                        forall|i: int| 0 <= i < k ==> v@[i] == dicts@[i].addr(),
                    decreases dicts@.len() - k,
                {
                    v.push(dicts[k].ptr);
                    k = k + 1;
                }
                Some(v)
            }
        }
    }

    /// Records the address that FFmpeg left in the dictionary pointer after
    /// a call that may reallocate it (such as `av_dict_set`).
    pub fn set_raw(&mut self, ptr: usize)
        ensures
            final(self).addr() == ptr,
    {
        self.ptr = ptr;
    }
}

impl AvOwnable for AvDictionary {
    /// Forgets the dictionary, as `av_dict_free` leaves it: the pointer is
    /// null afterwards.  Freeing the entries is FFmpeg's part of the call.
    fn drop(&mut self)
        ensures
            final(self).addr() == 0,
    {
        self.ptr = 0;
    }
}

} // verus!
