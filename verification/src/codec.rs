//! Codecs, codec contexts and codec parameters.
use crate::context::ContextType;
use crate::{AvOwnable, AvOwned};
use std::marker::PhantomData;
use vstd::prelude::*;

verus! {

/// Options of a codec context (`AV_CODEC_FLAG_*`).
///
/// A set of bits; the named bits are the associated constants.  Bits
/// without a name can be kept too (see `from_bits_retain`).
#[derive(Debug, Clone, Copy, PartialEq, Eq, Structural)]
pub struct CodecFlags {
    bits: u32,
}

impl View for CodecFlags {
    type V = u32;

    closed spec fn view(&self) -> u32 {
        self.bits
    }
}

impl CodecFlags {
    /// Allow decoding into frames that are not aligned.
    pub const UNALIGNED: u32 = 0x1;
    /// Use a fixed quantizer scale.
    pub const QSCALE: u32 = 0x2;
    /// Allow four motion vectors per macroblock.
    pub const _4MV: u32 = 0x4;
    /// Output frames even if they are corrupted.
    pub const OUTPUT_CORRUPT: u32 = 0x8;
    /// Use quarter-pixel motion compensation.
    pub const QPEL: u32 = 0x10;
    /// Drop frames whose parameters differ from the stream parameters.
    pub const DROP_CHANGED: u32 = 0x20;
    /// First pass of two-pass encoding.
    pub const PASS1: u32 = 0x200;
    /// Second pass of two-pass encoding.
    pub const PASS2: u32 = 0x400;
    /// Apply the loop filter.
    pub const LOOP_FILTER: u32 = 0x800;
    /// Only decode and encode grayscale.
    pub const GRAY: u32 = 0x2000;
    /// Compute the peak signal-to-noise ratio while encoding.
    pub const PSNR: u32 = 0x8000;
    /// Use interlaced DCT.
    pub const INTERLACED_DCT: u32 = 0x40000;
    /// Force low delay.
    pub const LOW_DELAY: u32 = 0x80000;
    /// Place global headers in extradata, not in every keyframe.
    pub const GLOBAL_HEADER: u32 = 0x400000;
    /// Use only bit-exact algorithms.
    pub const BIT_EXACT: u32 = 0x800000;
    /// Use H.263 advanced intra coding or MPEG-4 AC prediction.
    pub const AC_PRED: u32 = 0x1000000;
    /// Use interlaced motion estimation.
    pub const INTERLACED_ME: u32 = 0x20000000;
    /// Use closed groups of pictures.
    pub const CLOSED_GOP: u32 = 0x80000000;
    /// Every named bit.
    pub const ALL_BITS: u32 = 0xA1CCAE3F;

    /// The set with no bit.
    pub fn empty() -> (r: CodecFlags)
        ensures
            r@ == 0,
    {
        CodecFlags { bits: 0 }
    }

    /// The set of every named bit.
    pub fn all() -> (r: CodecFlags)
        ensures
            r@ == Self::ALL_BITS,
    {
        CodecFlags { bits: Self::ALL_BITS }
    }

    /// The bits of the set.
    pub fn bits(&self) -> (r: u32)
        ensures
            r == self@,
    {
        self.bits
    }

    /// The set of exactly `bits`, whether or not each bit has a name.
    pub fn from_bits_retain(bits: u32) -> (r: CodecFlags)
        ensures
            r@ == bits,
    {
        CodecFlags { bits }
    }

    /// The set of `bits` if every one of them has a name, else `None`.
    pub fn from_bits(bits: u32) -> (r: Option<CodecFlags>)
        ensures
            r is Some <==> bits & !Self::ALL_BITS == 0,
            r matches Some(f) ==> f@ == bits,
    {
        if bits & !Self::ALL_BITS == 0 {
            Some(CodecFlags { bits })
        } else {
            None
        }
    }

    /// The set of the named bits among `bits`; the others are dropped.
    pub fn from_bits_truncate(bits: u32) -> (r: CodecFlags)
        ensures
            r@ == bits & Self::ALL_BITS,
    {
        CodecFlags { bits: bits & Self::ALL_BITS }
    }

    /// Whether every bit of `other` is in the set.
    pub fn contains(&self, other: CodecFlags) -> (r: bool)
        ensures
            r == (self@ & other@ == other@),
    {
        self.bits & other.bits == other.bits
    }

    /// The set of the bits that are in either set; it contains both.
    pub fn union(self, other: CodecFlags) -> (r: CodecFlags)
        ensures
            r@ == self@ | other@,
            r@ & self@ == self@,
            r@ & other@ == other@,
    {
        proof {
            crate::util::lemma_union_covers(self.bits, other.bits);
        }
        CodecFlags { bits: self.bits | other.bits }
    }

    /// Whether the set has no bit.
    pub fn is_empty(&self) -> (r: bool)
        ensures
            r == (self@ == 0),
    {
        self.bits == 0
    }

    /// Adds the bits of `other` to the set; afterwards it contains them.
    pub fn insert(&mut self, other: CodecFlags)
        ensures
            final(self)@ == old(self)@ | other@,
            final(self)@ & other@ == other@,
    {
        proof {
            crate::util::lemma_union_covers(self.bits, other.bits);
        }
        self.bits = self.bits | other.bits;
    }

    /// Takes the bits of `other` out of the set; afterwards it holds none of
    /// them.
    pub fn remove(&mut self, other: CodecFlags)
        ensures
            final(self)@ == old(self)@ & !other@,
            final(self)@ & other@ == 0,
    {
        proof {
            crate::util::lemma_difference_excludes(self.bits, other.bits);
        }
        self.bits = self.bits & !other.bits;
    }

    /// The set of the bits that are in both sets; both contain it.
    pub fn intersection(self, other: CodecFlags) -> (r: CodecFlags)
        ensures
            r@ == self@ & other@,
            self@ & r@ == r@,
            other@ & r@ == r@,
    {
        proof {
            crate::util::lemma_intersection_within(self.bits, other.bits);
        }
        CodecFlags { bits: self.bits & other.bits }
    }

    /// The set of the bits of this set that are not in `other`; it shares
    /// no bit with `other`.
    pub fn difference(self, other: CodecFlags) -> (r: CodecFlags)
        ensures
            r@ == self@ & !other@,
            r@ & other@ == 0,
    {
        proof {
            crate::util::lemma_difference_excludes(self.bits, other.bits);
        }
        CodecFlags { bits: self.bits & !other.bits }
    }
}

/// The code of the pixel format `AV_PIX_FMT_NONE`, which ends FFmpeg's lists
/// of pixel formats.
pub const PIX_FMT_NONE: i32 = -1;

/// The parameters of a stream's codec: the address of an FFmpeg
/// `AVCodecParameters`.
pub struct AvCodecParameters {
    params: usize,
}

impl AvCodecParameters {
    /// The address of the `AVCodecParameters`.
    pub closed spec fn addr(&self) -> usize {
        self.params
    }

    /// Takes ownership of the parameters that `avcodec_parameters_alloc`
    /// returned at `params`.
    pub fn from_raw(params: usize) -> (r: AvOwned<AvCodecParameters>)
        ensures
            r.value().addr() == params,
    {
        AvOwned::wrap(AvCodecParameters { params })
    }

    /// The parameters at `params`, owned by whatever holds them (such as a
    /// stream's `codecpar` field).
    pub fn wrap_raw(params: usize) -> (r: AvCodecParameters)
        ensures
            r.addr() == params,
    {
        AvCodecParameters { params }
    }

    /// The address of the `AVCodecParameters`.
    pub fn as_raw(&self) -> (r: usize)
        ensures
            r == self.addr(),
    {
        self.params
    }
}

impl AvOwnable for AvCodecParameters {
    /// Forgets the parameters, as `avcodec_parameters_free` leaves them: the
    /// pointer is null afterwards.  Freeing the struct is FFmpeg's part of
    /// the call.
    fn drop(&mut self)
        ensures
            final(self).addr() == 0,
    {
        self.params = 0;
    }
}

/// A codec, for decoding or for encoding as `T` says: the address of an
/// FFmpeg `AVCodec`.
pub struct AvCodec<T> {
    codec: usize,
    _ctx: PhantomData<T>,
}

impl<T> Clone for AvCodec<T> {
    fn clone(&self) -> (r: AvCodec<T>)
        ensures
            r == *self,
    {
        AvCodec { codec: self.codec, _ctx: PhantomData }
    }
}

impl<T> Copy for AvCodec<T> {
}

impl<T> AvCodec<T> {
    /// The address of the `AVCodec`.
    pub closed spec fn addr(&self) -> usize {
        self.codec
    }

    /// The codec that `avcodec_find_decoder` or `avcodec_find_encoder`
    /// returned at `codec`; `None` when there is no such codec and the
    /// pointer is null.
    pub fn from_raw(codec: usize) -> (r: Option<AvCodec<T>>)
        ensures
            r is Some <==> codec != 0,
            r matches Some(c) ==> c.addr() == codec,
    {
        if codec == 0 {
            None
        } else {
            Some(AvCodec { codec, _ctx: PhantomData })
        }
    }

    /// The codec at `codec`, as a codec context names it.
    pub fn wrap_raw(codec: usize) -> (r: AvCodec<T>)
        ensures
            r.addr() == codec,
    {
        AvCodec { codec, _ctx: PhantomData }
    }

    /// The address of the `AVCodec`.
    pub fn as_raw(&self) -> (r: usize)
        ensures
            r == self.addr(),
    {
        self.codec
    }
}

/// The pixel formats of a list that ends with `AV_PIX_FMT_NONE`: those before
/// the first `AV_PIX_FMT_NONE`.
pub open spec fn formats_before_none(list: Seq<i32>) -> Seq<i32>
    decreases list.len(),
{
    if list.len() == 0 || list[0] == PIX_FMT_NONE {
        Seq::empty()
    } else {
        seq![list[0]] + formats_before_none(list.drop_first())
    }
}

/// Takes the next entry `next` of a codec's list of pixel formats: a format
/// is added to `fmts`, and `AV_PIX_FMT_NONE` ends the list.  Returns whether
/// the list goes on.
pub fn push_pix_fmt(fmts: &mut Vec<i32>, next: i32) -> (more: bool)
    ensures
        more == (next != PIX_FMT_NONE),
        final(fmts)@ == old(fmts)@ + formats_before_none(seq![next]),
        more ==> final(fmts)@ == old(fmts)@.push(next),
        !more ==> final(fmts)@ == old(fmts)@,
{
    if next == PIX_FMT_NONE {
        assert(old(fmts)@ + formats_before_none(seq![next]) == old(fmts)@);
        false
    } else {
        fmts.push(next);
        assert(formats_before_none(seq![next]) == seq![next] + formats_before_none(seq![next].drop_first()));
        assert(seq![next].drop_first().len() == 0);
        true
    }
}

/// The formats of a list are its entries before the first
/// `AV_PIX_FMT_NONE`, unchanged and in order: they are a prefix of the list
/// that holds no `AV_PIX_FMT_NONE`, and either they are the whole list or the
/// entry right after them is `AV_PIX_FMT_NONE`.
pub proof fn lemma_formats_before_none_prefix(list: Seq<i32>)
    ensures
        formats_before_none(list).len() <= list.len(),
        forall|i: int| 0 <= i < formats_before_none(list).len()
            ==> #[trigger] formats_before_none(list)[i] == list[i] && list[i] != PIX_FMT_NONE,
        formats_before_none(list).len() == list.len()
            || list[formats_before_none(list).len() as int] == PIX_FMT_NONE,
    decreases list.len(),
{
    if list.len() == 0 || list[0] == PIX_FMT_NONE {
    } else {
        let rest = list.drop_first();
        lemma_formats_before_none_prefix(rest);
        let f = formats_before_none(list);
        assert(f == seq![list[0]] + formats_before_none(rest));
        assert forall|i: int| 0 <= i < f.len() implies #[trigger] f[i] == list[i] && list[i] != PIX_FMT_NONE by {
            if i > 0 {
                assert(f[i] == formats_before_none(rest)[i - 1]);
                assert(rest[i - 1] == list[i]);
            }
        }
        if formats_before_none(rest).len() < rest.len() {
            assert(list[f.len() as int] == rest[formats_before_none(rest).len() as int]);
        }
    }
}

/// Feeding a list to `push_pix_fmt` entry by entry collects the formats
/// before its first `AV_PIX_FMT_NONE`: a step on the first entry of `list`
/// turns `collected` into what `push_pix_fmt` leaves, and then what has been
/// collected plus the formats of the rest of the list is still `collected`
/// plus the formats of `list`; when the step answers that the list is over,
/// what has been collected is already all of it.
pub proof fn lemma_push_pix_fmt_collects(collected: Seq<i32>, list: Seq<i32>)
    requires
        list.len() > 0,
    ensures
        list[0] != PIX_FMT_NONE ==> (collected + formats_before_none(seq![list[0]]))
            + formats_before_none(list.drop_first()) == collected + formats_before_none(list),
        list[0] == PIX_FMT_NONE ==> collected + formats_before_none(seq![list[0]])
            == collected + formats_before_none(list),
{
    let next = list[0];
    assert(seq![next].drop_first().len() == 0);
    assert(formats_before_none(seq![next].drop_first()) == Seq::<i32>::empty());
    if next != PIX_FMT_NONE {
        assert(formats_before_none(seq![next]) == seq![next]);
        assert(formats_before_none(list) == seq![next] + formats_before_none(list.drop_first()));
        assert((collected + seq![next]) + formats_before_none(list.drop_first())
            == collected + (seq![next] + formats_before_none(list.drop_first())));
    } else {
        assert(formats_before_none(seq![next]) == Seq::<i32>::empty());
        assert(formats_before_none(list) == Seq::<i32>::empty());
        assert(collected + Seq::<i32>::empty() == collected);
    }
}

/// A codec context, for decoding or for encoding as `T` says: the address of
/// an FFmpeg `AVCodecContext`.
pub struct AvCodecContext<T: ContextType> {
    ptr: usize,
    _type: PhantomData<T>,
}

impl<T: ContextType> AvCodecContext<T> {
    /// The address of the `AVCodecContext`.
    pub closed spec fn addr(&self) -> usize {
        self.ptr
    }

    /// The context that `avcodec_alloc_context3` returned at `ptr`; `None` when
    /// the allocation failed and the pointer is null.
    pub fn from_raw(ptr: usize) -> (r: Option<Self>)
        ensures
            r is Some <==> ptr != 0,
            r matches Some(h) ==> h.addr() == ptr,
    {
        if ptr == 0 {
            None
        } else {
            Some(AvCodecContext { ptr, _type: PhantomData })
        }
    }

    /// The address of the `AVCodecContext`.
    pub fn as_raw(&self) -> (r: usize)
        ensures
            r == self.addr(),
    {
        self.ptr
    }
}

} // verus!
