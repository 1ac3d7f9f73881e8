//! Demuxing and muxing contexts and output formats.
use crate::context::ContextType;
use crate::io::AvIoContext;
use crate::stream::AvStream;
use crate::{error_of, AvBorrow, AvBorrowMut, AvError, AvResult};
use std::marker::PhantomData;
use vstd::prelude::*;

verus! {

/// Properties of an output format (`AVFMT_*`).
///
/// A set of bits; the named bits are the associated constants.  Bits
/// without a name can be kept too (see `from_bits_retain`).
#[derive(Debug, Clone, Copy, PartialEq, Eq, Structural)]
pub struct OutputFlags {
    bits: u32,
}

impl View for OutputFlags {
    type V = u32;

    closed spec fn view(&self) -> u32 {
        self.bits
    }
}

impl OutputFlags {
    /// The format opens no file of its own.
    pub const NO_FILE: u32 = 0x1;
    /// The file name needs a `%d` pattern.
    pub const NEED_NUMBER: u32 = 0x2;
    /// The format wants global headers.
    pub const GLOBAL_HEADER: u32 = 0x40;
    /// The format stores no timestamps.
    pub const NO_TIMESTAMPS: u32 = 0x80;
    /// The format allows a variable frame rate.
    pub const VARIABLE_FPS: u32 = 0x400;
    /// The format needs no width and height.
    pub const NO_DIMENSIONS: u32 = 0x800;
    /// The format has no streams.
    pub const NO_STREAMS: u32 = 0x1000;
    /// The format accepts a null packet as a flush.
    pub const ALLOW_FLUSH: u32 = 0x10000;
    /// Timestamps need not increase strictly.
    pub const TS_NON_STRICT: u32 = 0x20000;
    /// The format can store negative timestamps.
    pub const TS_NEGATIVE: u32 = 0x40000;
    /// Every named bit.
    pub const ALL_BITS: u32 = 0x71CC3;

    /// The set with no bit.
    pub fn empty() -> (r: OutputFlags)
        ensures
            r@ == 0,
    {
        OutputFlags { bits: 0 }
    }

    /// The set of every named bit.
    pub fn all() -> (r: OutputFlags)
        ensures
            r@ == Self::ALL_BITS,
    {
        OutputFlags { bits: Self::ALL_BITS }
    }

    /// The bits of the set.
    pub fn bits(&self) -> (r: u32)
        ensures
            r == self@,
    {
        self.bits
    }

    /// The set of exactly `bits`, whether or not each bit has a name.
    pub fn from_bits_retain(bits: u32) -> (r: OutputFlags)
        ensures
            r@ == bits,
    {
        OutputFlags { bits }
    }

    /// The set of `bits` if every one of them has a name, else `None`.
    pub fn from_bits(bits: u32) -> (r: Option<OutputFlags>)
        ensures
            r is Some <==> bits & !Self::ALL_BITS == 0,
            r matches Some(f) ==> f@ == bits,
    {
        if bits & !Self::ALL_BITS == 0 {
            Some(OutputFlags { bits })
        } else {
            None
        }
    }

    /// The set of the named bits among `bits`; the others are dropped.
    pub fn from_bits_truncate(bits: u32) -> (r: OutputFlags)
        ensures
            r@ == bits & Self::ALL_BITS,
    {
        OutputFlags { bits: bits & Self::ALL_BITS }
    }

    /// Whether every bit of `other` is in the set.
    pub fn contains(&self, other: OutputFlags) -> (r: bool)
        ensures
            r == (self@ & other@ == other@),
    {
        self.bits & other.bits == other.bits
    }

    /// The set of the bits that are in either set; it contains both.
    pub fn union(self, other: OutputFlags) -> (r: OutputFlags)
        ensures
            r@ == self@ | other@,
            r@ & self@ == self@,
            r@ & other@ == other@,
    {
        proof {
            crate::util::lemma_union_covers(self.bits, other.bits);
        }
        OutputFlags { bits: self.bits | other.bits }
    }

    /// Whether the set has no bit.
    pub fn is_empty(&self) -> (r: bool)
        ensures
            r == (self@ == 0),
    {
        self.bits == 0
    }

    /// Adds the bits of `other` to the set; afterwards it contains them.
    pub fn insert(&mut self, other: OutputFlags)
        ensures
            final(self)@ == old(self)@ | other@,
            final(self)@ & other@ == other@,
    {
        proof {
            crate::util::lemma_union_covers(self.bits, other.bits);
        }
        self.bits = self.bits | other.bits;
    }

    /// Takes the bits of `other` out of the set; afterwards it holds none of
    /// them.
    pub fn remove(&mut self, other: OutputFlags)
        ensures
            final(self)@ == old(self)@ & !other@,
            final(self)@ & other@ == 0,
    {
        proof {
            crate::util::lemma_difference_excludes(self.bits, other.bits);
        }
        self.bits = self.bits & !other.bits;
    }

    /// The set of the bits that are in both sets; both contain it.
    pub fn intersection(self, other: OutputFlags) -> (r: OutputFlags)
        ensures
            r@ == self@ & other@,
            self@ & r@ == r@,
            other@ & r@ == r@,
    {
        proof {
            crate::util::lemma_intersection_within(self.bits, other.bits);
        }
        OutputFlags { bits: self.bits & other.bits }
    }

    /// The set of the bits of this set that are not in `other`; it shares
    /// no bit with `other`.
    pub fn difference(self, other: OutputFlags) -> (r: OutputFlags)
        ensures
            r@ == self@ & !other@,
            r@ & other@ == 0,
    {
        proof {
            crate::util::lemma_difference_excludes(self.bits, other.bits);
        }
        OutputFlags { bits: self.bits & !other.bits }
    }
}

/// A format context, for demuxing or muxing as `T` says: the address of an
/// FFmpeg `AVFormatContext`.
pub struct AvFormatContext<T: ContextType> {
    ptr: usize,
    _type: PhantomData<T>,
}

impl<T: ContextType> AvFormatContext<T> {
    /// The address of the `AVFormatContext`.
    pub closed spec fn addr(&self) -> usize {
        self.ptr
    }

    /// The context that `avformat_open_input` or
    /// `avformat_alloc_output_context2` made at `ctx`, if the call answered
    /// `0`; else the error that its negative status stands for.
    pub fn from_status(status: i32, ctx: usize) -> (r: AvResult<Self>)
        requires
            status <= 0,
        ensures
            r is Ok <==> status == 0,
            r matches Ok(c) ==> c.addr() == ctx,
            r matches Err(e) ==> e == error_of(status as int),
    {
        if status == 0 {
            Ok(AvFormatContext { ptr: ctx, _type: PhantomData })
        } else {
            Err(AvError::from(status))
        }
    }

    /// The address of the `AVFormatContext`.
    pub fn as_raw(&self) -> (r: usize)
        ensures
            r == self.addr(),
    {
        self.ptr
    }

    /// Stream `id` of the context, whose stream addresses are `streams` (the
    /// first `nb_streams` entries of its `streams` array); `None` when there
    /// is no such stream.
    pub fn stream(&self, streams: &[usize], id: usize) -> (r: Option<AvBorrow<Self, AvStream<T>>>)
        ensures
            r is Some <==> id < streams@.len(),
            r matches Some(s) ==> s.value().format_addr() == self.addr()
                && s.value().stream_addr() == streams@[id as int],
    {
        if id >= streams.len() {
            return None;
        }
        let stream = streams[id];
        Some(AvBorrow::wrap(self, AvStream::wrap(self.ptr, stream)))
    }

    /// Stream `id` of the context, borrowed exclusively, whose stream
    /// addresses are `streams`; `None` when there is no such stream.
    pub fn stream_mut(&mut self, streams: &[usize], id: usize) -> (r: Option<AvBorrowMut<Self, AvStream<T>>>)
        ensures
            r is Some <==> id < streams@.len(),
            r matches Some(s) ==> s.value().format_addr() == old(self).addr()
                && s.value().stream_addr() == streams@[id as int],
            *final(self) == *old(self),
    {
        if id >= streams.len() {
            return None;
        }
        let stream = streams[id];
        let format = self.ptr;
        Some(AvBorrowMut::wrap(self, AvStream::wrap(format, stream)))
    }

    /// The stream that `avformat_new_stream` added at `stream`; `None` when
    /// it could not add one and the pointer is null.
    pub fn new_stream(&mut self, stream: usize) -> (r: Option<AvBorrowMut<Self, AvStream<T>>>)
        ensures
            r is Some <==> stream != 0,
            r matches Some(s) ==> s.value().format_addr() == old(self).addr()
                && s.value().stream_addr() == stream,
            *final(self) == *old(self),
    {
        if stream == 0 {
            None
        } else {
            let format = self.ptr;
            Some(AvBorrowMut::wrap(self, AvStream::wrap(format, stream)))
        }
    }

    /// The I/O slot of the context, whose `pb` field is at `pb_field`.
    pub fn pb(&self, pb_field: usize) -> (r: AvBorrow<Self, AvIoContext>)
        ensures
            r.value().addr() == pb_field,
    {
        AvBorrow::wrap(self, AvIoContext::wrap_raw(pb_field))
    }

    /// The I/O slot of the context, borrowed exclusively, whose `pb` field
    /// is at `pb_field`.
    pub fn pb_mut(&mut self, pb_field: usize) -> (r: AvBorrowMut<Self, AvIoContext>)
        ensures
            r.value().addr() == pb_field,
            *final(self) == *old(self),
    {
        AvBorrowMut::wrap(self, AvIoContext::wrap_raw(pb_field))
    }
}

/// An output format: the address of an FFmpeg `AVOutputFormat`.
pub struct AvOutputFormat {
    ptr: usize,
}

impl AvOutputFormat {
    /// The address of the `AVOutputFormat`.
    pub closed spec fn addr(&self) -> usize {
        self.ptr
    }

    /// The format that `av_guess_format` returned at `ptr`; `None` when no
    /// format matched and the pointer is null.
    pub fn from_raw(ptr: usize) -> (r: Option<Self>)
        ensures
            r is Some <==> ptr != 0,
            r matches Some(h) ==> h.addr() == ptr,
    {
        if ptr == 0 {
            None
        } else {
            Some(AvOutputFormat { ptr })
        }
    }

    /// The address of the `AVOutputFormat`.
    pub fn as_raw(&self) -> (r: usize)
        ensures
            r == self.addr(),
    {
        self.ptr
    }
}

} // verus!
