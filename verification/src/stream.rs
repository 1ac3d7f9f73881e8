//! Streams of a format context.
use crate::codec::AvCodecParameters;
use crate::context::ContextType;
use crate::util::AvRational;
use crate::{AvBorrow, AvBorrowMut};
use std::marker::PhantomData;
use vstd::prelude::*;

verus! {

/// A stream of a format context: the addresses of the FFmpeg
/// `AVFormatContext` and of its `AVStream`.
pub struct AvStream<T: ContextType> {
    format: usize,
    stream: usize,
    _ctx: PhantomData<T>,
}

/// The frame rate that `av_guess_frame_rate` gave, unless it is `0/1`, which
/// is FFmpeg's answer when it has no guess.
pub open spec fn guessed_frame_rate(guess: AvRational) -> Option<AvRational> {
    if guess.num == 0 && guess.den == 1 {
        None
    } else {
        Some(guess)
    }
}

impl<T: ContextType> AvStream<T> {
    /// The address of the `AVFormatContext` that the stream belongs to.
    pub closed spec fn format_addr(&self) -> usize {
        self.format
    }

    /// The address of the `AVStream`.
    pub closed spec fn stream_addr(&self) -> usize {
        self.stream
    }

    /// The stream at `stream` of the format context at `format`.
    pub fn wrap(format: usize, stream: usize) -> (r: Self)
        ensures
            r.format_addr() == format,
            r.stream_addr() == stream,
    {
        Self { format, stream, _ctx: PhantomData }
    }

    /// The address of the `AVFormatContext` that the stream belongs to.
    pub fn format_raw(&self) -> (r: usize)
        ensures
            r == self.format_addr(),
    {
        self.format
    }

    /// The address of the `AVStream`.
    pub fn stream_raw(&self) -> (r: usize)
        ensures
            r == self.stream_addr(),
    {
        self.stream
    }

    /// The codec parameters of the stream, at `codecpar` (the stream's
    /// `codecpar` field), for as long as the stream is borrowed.
    pub fn codec_parameters(&self, codecpar: usize) -> (r: AvBorrow<AvStream<T>, AvCodecParameters>)
        ensures
            r.value().addr() == codecpar,
    {
        AvBorrow::wrap(self, AvCodecParameters::wrap_raw(codecpar))
    }

    /// The codec parameters of the stream, at `codecpar` (the stream's
    /// `codecpar` field), for as long as the stream is borrowed exclusively.
    pub fn codec_parameters_mut(&mut self, codecpar: usize) -> (r: AvBorrowMut<AvStream<T>, AvCodecParameters>)
        ensures
            r.value().addr() == codecpar,
            *final(self) == *old(self),
    {
        AvBorrowMut::wrap(self, AvCodecParameters::wrap_raw(codecpar))
    }

    /// The frame rate of the stream from what `av_guess_frame_rate`
    /// returned: `None` when it answered `0/1`.
    pub fn frame_rate_from_guess(guess: AvRational) -> (r: Option<AvRational>)
        ensures
            r == guessed_frame_rate(guess),
            r is None <==> (guess.num == 0 && guess.den == 1),
            r is Some ==> r == Some(guess),
    {
        if guess.num == 0 && guess.den == 1 {
            None
        } else {
            Some(guess)
        }
    }
}

} // verus!
