//! Handles, flag sets and error decoding for the FFmpeg libraries.
//!
//! Every FFmpeg object is known to this crate by the address of its C struct
//! (a `usize`, `0` for a null pointer).  The crate decides what the results of
//! the FFmpeg calls mean: which status codes are errors and which error they
//! stand for, when an allocation failed, which stream an index names, and
//! which flags a bit pattern holds.
use std::marker::PhantomData;
use vstd::prelude::*;

pub mod codec;
pub mod context;
pub mod dict;
pub mod error_codes;
pub mod format;
pub mod frame;
pub mod io;
pub mod packet;
pub mod stream;
pub mod sws;
pub mod util;

use crate::error_codes as codes;

verus! {

/// Result of an FFmpeg operation.
pub type AvResult<T> = Result<T, AvError>;

/// An error reported by FFmpeg, decoded from a negative status code.
#[derive(Debug, Clone, Copy, PartialEq, Eq, Structural)]
pub enum AvError {
    /// A system error that has no variant of its own; it holds the status
    /// code it was decoded from, which is the raw OS error code of the
    /// corresponding `std::io::Error`.
    MiscIoError(i32),
    Again,
    Busy,
    ConnectionRefused,
    ConnectionTimeOut,
    NumericalDomain,
    FileTooLarge,
    InvalidArgument,
    NoSuchDevice,
    NoSuchFile,
    NotImplemented,
    ProtocolUnsupported,
    BsfNotFound,
    Bug,
    BufferTooSmall,
    DecoderNotFound,
    DemuxerNotFound,
    EncoderNotFound,
    EndOfFile,
    ExitRequested,
    ExternalError,
    FilterNotFound,
    InvalidData,
    MuxerNotFound,
    OptionNotFound,
    PatchWelcome,
    ProtocolNotFound,
    StreamNotFound,
    Bug2,
    Unknown,
    Experimental,
    InputChanged,
    OutputChanged,
    HttpBadRequest,
    HttpUnauthorized,
    HttpForbidden,
    HttpNotFound,
    HttpOther400,
    HttpServerError,
}

/// The error that the magnitude `m` of a negative status code stands for,
/// if it is one of the codes that have a variant of their own.
pub open spec fn named_error(m: int) -> Option<AvError> {
    if m == codes::EAGAIN { Some(AvError::Again) }
    else if m == codes::EBUSY { Some(AvError::Busy) }
    else if m == codes::ECONNREFUSED { Some(AvError::ConnectionRefused) }
    else if m == codes::ETIMEDOUT { Some(AvError::ConnectionTimeOut) }
    else if m == codes::EDOM { Some(AvError::NumericalDomain) }
    else if m == codes::EFBIG { Some(AvError::FileTooLarge) }
    else if m == codes::EINVAL { Some(AvError::InvalidArgument) }
    else if m == codes::ENODEV { Some(AvError::NoSuchDevice) }
    else if m == codes::ENOENT { Some(AvError::NoSuchFile) }
    else if m == codes::ENOSYS { Some(AvError::NotImplemented) }
    else if m == codes::EPROTONOSUPPORT { Some(AvError::ProtocolUnsupported) }
    else if m == codes::AVERROR_BSF_NOT_FOUND { Some(AvError::BsfNotFound) }
    else if m == codes::AVERROR_BUG { Some(AvError::Bug) }
    else if m == codes::AVERROR_BUFFER_TOO_SMALL { Some(AvError::BufferTooSmall) }
    else if m == codes::AVERROR_DECODER_NOT_FOUND { Some(AvError::DecoderNotFound) }
    else if m == codes::AVERROR_DEMUXER_NOT_FOUND { Some(AvError::DemuxerNotFound) }
    else if m == codes::AVERROR_ENCODER_NOT_FOUND { Some(AvError::EncoderNotFound) }
    else if m == codes::AVERROR_EOF { Some(AvError::EndOfFile) }
    else if m == codes::AVERROR_EXIT { Some(AvError::ExitRequested) }
    else if m == codes::AVERROR_EXTERNAL { Some(AvError::ExternalError) }
    else if m == codes::AVERROR_FILTER_NOT_FOUND { Some(AvError::FilterNotFound) }
    else if m == codes::AVERROR_INVALIDDATA { Some(AvError::InvalidData) }
    else if m == codes::AVERROR_MUXER_NOT_FOUND { Some(AvError::MuxerNotFound) }
    else if m == codes::AVERROR_OPTION_NOT_FOUND { Some(AvError::OptionNotFound) }
    else if m == codes::AVERROR_PATCHWELCOME { Some(AvError::PatchWelcome) }
    else if m == codes::AVERROR_PROTOCOL_NOT_FOUND { Some(AvError::ProtocolNotFound) }
    else if m == codes::AVERROR_STREAM_NOT_FOUND { Some(AvError::StreamNotFound) }
    else if m == codes::AVERROR_BUG2 { Some(AvError::Bug2) }
    else if m == codes::AVERROR_UNKNOWN { Some(AvError::Unknown) }
    else if m == codes::AVERROR_EXPERIMENTAL { Some(AvError::Experimental) }
    else if m == codes::AVERROR_INPUT_CHANGED { Some(AvError::InputChanged) }
    else if m == codes::AVERROR_OUTPUT_CHANGED { Some(AvError::OutputChanged) }
    else if m == codes::AVERROR_HTTP_BAD_REQUEST { Some(AvError::HttpBadRequest) }
    else if m == codes::AVERROR_HTTP_UNAUTHORIZED { Some(AvError::HttpUnauthorized) }
    else if m == codes::AVERROR_HTTP_FORBIDDEN { Some(AvError::HttpForbidden) }
    else if m == codes::AVERROR_HTTP_NOT_FOUND { Some(AvError::HttpNotFound) }
    else if m == codes::AVERROR_HTTP_OTHER_4XX { Some(AvError::HttpOther400) }
    else if m == codes::AVERROR_HTTP_SERVER_ERROR { Some(AvError::HttpServerError) }
    else { None }
}

/// The error that the negative status code `value` stands for.
pub open spec fn error_of(value: int) -> AvError {
    match named_error(-value) {
        Some(e) => e,
        None => AvError::MiscIoError(value as i32),
    }
}

impl AvError {
    /// Decodes a negative FFmpeg status code.  FFmpeg reports an error as
    /// the negation of either a POSIX `errno` value or a four-character tag;
    /// each of those that has a variant decodes to it, and every other code
    /// decodes to `MiscIoError` holding the code itself.
    pub fn from(value: i32) -> (r: AvError)
        requires
            value < 0,
        ensures
            r == error_of(value as int),
            r matches AvError::MiscIoError(c) ==> c == value,
            named_error(-value) is None ==> r == AvError::MiscIoError(value),
    {
        let m: u32 = (0i64 - value as i64) as u32;
        assert(m == -value);
        if m == codes::EAGAIN { AvError::Again }
        else if m == codes::EBUSY { AvError::Busy }
        else if m == codes::ECONNREFUSED { AvError::ConnectionRefused }
        else if m == codes::ETIMEDOUT { AvError::ConnectionTimeOut }
        else if m == codes::EDOM { AvError::NumericalDomain }
        else if m == codes::EFBIG { AvError::FileTooLarge }
        else if m == codes::EINVAL { AvError::InvalidArgument }
        else if m == codes::ENODEV { AvError::NoSuchDevice }
        else if m == codes::ENOENT { AvError::NoSuchFile }
        else if m == codes::ENOSYS { AvError::NotImplemented }
        else if m == codes::EPROTONOSUPPORT { AvError::ProtocolUnsupported }
        else if m == codes::AVERROR_BSF_NOT_FOUND { AvError::BsfNotFound }
        else if m == codes::AVERROR_BUG { AvError::Bug }
        else if m == codes::AVERROR_BUFFER_TOO_SMALL { AvError::BufferTooSmall }
        else if m == codes::AVERROR_DECODER_NOT_FOUND { AvError::DecoderNotFound }
        else if m == codes::AVERROR_DEMUXER_NOT_FOUND { AvError::DemuxerNotFound }
        else if m == codes::AVERROR_ENCODER_NOT_FOUND { AvError::EncoderNotFound }
        else if m == codes::AVERROR_EOF { AvError::EndOfFile }
        else if m == codes::AVERROR_EXIT { AvError::ExitRequested }
        else if m == codes::AVERROR_EXTERNAL { AvError::ExternalError }
        else if m == codes::AVERROR_FILTER_NOT_FOUND { AvError::FilterNotFound }
        else if m == codes::AVERROR_INVALIDDATA { AvError::InvalidData }
        else if m == codes::AVERROR_MUXER_NOT_FOUND { AvError::MuxerNotFound }
        else if m == codes::AVERROR_OPTION_NOT_FOUND { AvError::OptionNotFound }
        else if m == codes::AVERROR_PATCHWELCOME { AvError::PatchWelcome }
        else if m == codes::AVERROR_PROTOCOL_NOT_FOUND { AvError::ProtocolNotFound }
        else if m == codes::AVERROR_STREAM_NOT_FOUND { AvError::StreamNotFound }
        else if m == codes::AVERROR_BUG2 { AvError::Bug2 }
        else if m == codes::AVERROR_UNKNOWN { AvError::Unknown }
        else if m == codes::AVERROR_EXPERIMENTAL { AvError::Experimental }
        else if m == codes::AVERROR_INPUT_CHANGED { AvError::InputChanged }
        else if m == codes::AVERROR_OUTPUT_CHANGED { AvError::OutputChanged }
        else if m == codes::AVERROR_HTTP_BAD_REQUEST { AvError::HttpBadRequest }
        else if m == codes::AVERROR_HTTP_UNAUTHORIZED { AvError::HttpUnauthorized }
        else if m == codes::AVERROR_HTTP_FORBIDDEN { AvError::HttpForbidden }
        else if m == codes::AVERROR_HTTP_NOT_FOUND { AvError::HttpNotFound }
        else if m == codes::AVERROR_HTTP_OTHER_4XX { AvError::HttpOther400 }
        else if m == codes::AVERROR_HTTP_SERVER_ERROR { AvError::HttpServerError }
        else { AvError::MiscIoError(value) }
    }
}

/// The message of an error.  For `MiscIoError` it is the text that comes
/// before the description of the system error.
pub open spec fn message_of(e: AvError) -> Seq<char> {
    match e {
        AvError::MiscIoError(_) => "Misc IO Error"@,
        AvError::Again => "Resource temporarily unavailable"@,
        AvError::Busy => "Device or resource busy"@,
        AvError::ConnectionRefused => "Connection refused"@,
        AvError::ConnectionTimeOut => "Connection timed out"@,
        AvError::NumericalDomain => "Numerical argument out of domain"@,
        AvError::FileTooLarge => "File too large"@,
        AvError::InvalidArgument => "Invalid argument"@,
        AvError::NoSuchDevice => "No such device"@,
        AvError::NoSuchFile => "No such file/directory"@,
        AvError::NotImplemented => "Not implemented"@,
        AvError::ProtocolUnsupported => "Protocol not supported"@,
        AvError::BsfNotFound => "Bitstream filter not found"@,
        AvError::Bug => "Internal bug"@,
        AvError::BufferTooSmall => "Buffer too small"@,
        AvError::DecoderNotFound => "Decoder not found"@,
        AvError::DemuxerNotFound => "Demuxer not found"@,
        AvError::EncoderNotFound => "Encoder not found"@,
        AvError::EndOfFile => "End of file"@,
        AvError::ExitRequested => "Immediate exit was requested"@,
        AvError::ExternalError => "Generic error in an external library"@,
        AvError::FilterNotFound => "Filter not found"@,
        AvError::InvalidData => "Invalid data found when processing input"@,
        AvError::MuxerNotFound => "Muxer not found"@,
        AvError::OptionNotFound => "Option not found"@,
        AvError::PatchWelcome => "Not yet implemented in FFmpeg, patches welcome"@,
        AvError::ProtocolNotFound => "Protocol not found"@,
        AvError::StreamNotFound => "Stream not found"@,
        AvError::Bug2 => "Internal bug"@,
        AvError::Unknown => "Unknown error, typically from an external library"@,
        AvError::Experimental => "Requested feature is flagged experimental"@,
        AvError::InputChanged => "Input changed between calls. Reconfiguration is required"@,
        AvError::OutputChanged => "Output changed between calls. Reconfiguration is required"@,
        AvError::HttpBadRequest => "Http 400"@,
        AvError::HttpUnauthorized => "Http 401"@,
        AvError::HttpForbidden => "Http 403"@,
        AvError::HttpNotFound => "Http 404"@,
        AvError::HttpOther400 => "Http 4XX"@,
        AvError::HttpServerError => "Http 5XX"@,
    }
}

impl AvError {
    /// The message of the error; for `MiscIoError`, the text that comes
    /// before the description of the system error.
    pub fn message(&self) -> (r: &'static str)
        ensures
            r@ == message_of(*self),
    {
        match self {
            AvError::MiscIoError(_) => "Misc IO Error",
            AvError::Again => "Resource temporarily unavailable",
            AvError::Busy => "Device or resource busy",
            AvError::ConnectionRefused => "Connection refused",
            AvError::ConnectionTimeOut => "Connection timed out",
            AvError::NumericalDomain => "Numerical argument out of domain",
            AvError::FileTooLarge => "File too large",
            AvError::InvalidArgument => "Invalid argument",
            AvError::NoSuchDevice => "No such device",
            AvError::NoSuchFile => "No such file/directory",
            AvError::NotImplemented => "Not implemented",
            AvError::ProtocolUnsupported => "Protocol not supported",
            AvError::BsfNotFound => "Bitstream filter not found",
            AvError::Bug => "Internal bug",
            AvError::BufferTooSmall => "Buffer too small",
            AvError::DecoderNotFound => "Decoder not found",
            AvError::DemuxerNotFound => "Demuxer not found",
            AvError::EncoderNotFound => "Encoder not found",
            AvError::EndOfFile => "End of file",
            AvError::ExitRequested => "Immediate exit was requested",
            AvError::ExternalError => "Generic error in an external library",
            AvError::FilterNotFound => "Filter not found",
            AvError::InvalidData => "Invalid data found when processing input",
            AvError::MuxerNotFound => "Muxer not found",
            AvError::OptionNotFound => "Option not found",
            AvError::PatchWelcome => "Not yet implemented in FFmpeg, patches welcome",
            AvError::ProtocolNotFound => "Protocol not found",
            AvError::StreamNotFound => "Stream not found",
            AvError::Bug2 => "Internal bug",
            AvError::Unknown => "Unknown error, typically from an external library",
            AvError::Experimental => "Requested feature is flagged experimental",
            AvError::InputChanged => "Input changed between calls. Reconfiguration is required",
            AvError::OutputChanged => "Output changed between calls. Reconfiguration is required",
            AvError::HttpBadRequest => "Http 400",
            AvError::HttpUnauthorized => "Http 401",
            AvError::HttpForbidden => "Http 403",
            AvError::HttpNotFound => "Http 404",
            AvError::HttpOther400 => "Http 4XX",
            AvError::HttpServerError => "Http 5XX",
        }
    }
}

/// What each negative status decodes to, code by code: a variant comes from
/// exactly its own code, and a system error without a variant keeps the
/// status it was decoded from.
pub proof fn lemma_error_of_codes(v: int)
    requires
        i32::MIN <= v < 0,
    ensures
        (error_of(v) == AvError::Again) == (v == -(codes::EAGAIN as int)),
        (error_of(v) == AvError::Busy) == (v == -(codes::EBUSY as int)),
        (error_of(v) == AvError::ConnectionRefused) == (v == -(codes::ECONNREFUSED as int)),
        (error_of(v) == AvError::ConnectionTimeOut) == (v == -(codes::ETIMEDOUT as int)),
        (error_of(v) == AvError::NumericalDomain) == (v == -(codes::EDOM as int)),
        (error_of(v) == AvError::FileTooLarge) == (v == -(codes::EFBIG as int)),
        (error_of(v) == AvError::InvalidArgument) == (v == -(codes::EINVAL as int)),
        (error_of(v) == AvError::NoSuchDevice) == (v == -(codes::ENODEV as int)),
        (error_of(v) == AvError::NoSuchFile) == (v == -(codes::ENOENT as int)),
        (error_of(v) == AvError::NotImplemented) == (v == -(codes::ENOSYS as int)),
        (error_of(v) == AvError::ProtocolUnsupported) == (v == -(codes::EPROTONOSUPPORT as int)),
        (error_of(v) == AvError::BsfNotFound) == (v == -(codes::AVERROR_BSF_NOT_FOUND as int)),
        (error_of(v) == AvError::Bug) == (v == -(codes::AVERROR_BUG as int)),
        (error_of(v) == AvError::BufferTooSmall) == (v == -(codes::AVERROR_BUFFER_TOO_SMALL as int)),
        (error_of(v) == AvError::DecoderNotFound) == (v == -(codes::AVERROR_DECODER_NOT_FOUND as int)),
        (error_of(v) == AvError::DemuxerNotFound) == (v == -(codes::AVERROR_DEMUXER_NOT_FOUND as int)),
        (error_of(v) == AvError::EncoderNotFound) == (v == -(codes::AVERROR_ENCODER_NOT_FOUND as int)),
        (error_of(v) == AvError::EndOfFile) == (v == -(codes::AVERROR_EOF as int)),
        (error_of(v) == AvError::ExitRequested) == (v == -(codes::AVERROR_EXIT as int)),
        (error_of(v) == AvError::ExternalError) == (v == -(codes::AVERROR_EXTERNAL as int)),
        (error_of(v) == AvError::FilterNotFound) == (v == -(codes::AVERROR_FILTER_NOT_FOUND as int)),
        (error_of(v) == AvError::InvalidData) == (v == -(codes::AVERROR_INVALIDDATA as int)),
        (error_of(v) == AvError::MuxerNotFound) == (v == -(codes::AVERROR_MUXER_NOT_FOUND as int)),
        (error_of(v) == AvError::OptionNotFound) == (v == -(codes::AVERROR_OPTION_NOT_FOUND as int)),
        (error_of(v) == AvError::PatchWelcome) == (v == -(codes::AVERROR_PATCHWELCOME as int)),
        (error_of(v) == AvError::ProtocolNotFound) == (v == -(codes::AVERROR_PROTOCOL_NOT_FOUND as int)),
        (error_of(v) == AvError::StreamNotFound) == (v == -(codes::AVERROR_STREAM_NOT_FOUND as int)),
        (error_of(v) == AvError::Bug2) == (v == -(codes::AVERROR_BUG2 as int)),
        (error_of(v) == AvError::Unknown) == (v == -(codes::AVERROR_UNKNOWN as int)),
        (error_of(v) == AvError::Experimental) == (v == -(codes::AVERROR_EXPERIMENTAL as int)),
        (error_of(v) == AvError::InputChanged) == (v == -(codes::AVERROR_INPUT_CHANGED as int)),
        (error_of(v) == AvError::OutputChanged) == (v == -(codes::AVERROR_OUTPUT_CHANGED as int)),
        (error_of(v) == AvError::HttpBadRequest) == (v == -(codes::AVERROR_HTTP_BAD_REQUEST as int)),
        (error_of(v) == AvError::HttpUnauthorized) == (v == -(codes::AVERROR_HTTP_UNAUTHORIZED as int)),
        (error_of(v) == AvError::HttpForbidden) == (v == -(codes::AVERROR_HTTP_FORBIDDEN as int)),
        (error_of(v) == AvError::HttpNotFound) == (v == -(codes::AVERROR_HTTP_NOT_FOUND as int)),
        (error_of(v) == AvError::HttpOther400) == (v == -(codes::AVERROR_HTTP_OTHER_4XX as int)),
        (error_of(v) == AvError::HttpServerError) == (v == -(codes::AVERROR_HTTP_SERVER_ERROR as int)),
        error_of(v) matches AvError::MiscIoError(c) ==> c == v,
{
}

/// Decoding loses nothing: two different negative status codes never decode
/// to the same error.
pub proof fn lemma_error_of_injective(v1: int, v2: int)
    requires
        i32::MIN <= v1 < 0,
        i32::MIN <= v2 < 0,
        error_of(v1) == error_of(v2),
    ensures
        v1 == v2,
{
}

/// What a status that is `0` on success and a negative error code otherwise
/// means.
pub open spec fn status_result(status: int) -> AvResult<()> {
    if status == 0 { Ok(()) } else { Err(error_of(status)) }
}

/// What a status that is non-negative on success and a negative error code
/// otherwise means.
pub open spec fn non_negative_result(status: int) -> AvResult<()> {
    if status < 0 { Err(error_of(status)) } else { Ok(()) }
}

/// Interprets the status of an FFmpeg call that returns `0` on success and a
/// negative error code on failure.  A positive status is no valid answer of
/// such a call.
pub fn check_status(status: i32) -> (r: AvResult<()>)
    requires
        status <= 0,
    ensures
        r == status_result(status as int),
        r is Ok <==> status == 0,
        status < 0 ==> r == Err::<(), AvError>(error_of(status as int)),
{
    if status == 0 {
        Ok(())
    } else {
        Err(AvError::from(status))
    }
}

/// Interprets the status of an FFmpeg call that returns a non-negative value
/// on success and a negative error code on failure.
pub fn check_non_negative(status: i32) -> (r: AvResult<()>)
    ensures
        r == non_negative_result(status as int),
        r is Err <==> status < 0,
        status < 0 ==> r == Err::<(), AvError>(error_of(status as int)),
{
    if status < 0 {
        Err(AvError::from(status))
    } else {
        Ok(())
    }
}

/// A value that owns an FFmpeg object and knows how to release it.
pub trait AvOwnable {
    /// Releases the owned object.
    fn drop(&mut self);
}

/// Owner of a value that holds an FFmpeg object.
pub struct AvOwned<T: AvOwnable> {
    inner: T,
}

impl<T: AvOwnable> AvOwned<T> {
    /// The owned value.
    pub closed spec fn value(&self) -> T {
        self.inner
    }

    /// Takes ownership of `value`.
    pub fn wrap(value: T) -> (r: Self)
        ensures
            r.value() == value,
    {
        Self { inner: value }
    }
}

impl<T: AvOwnable> std::ops::Deref for AvOwned<T> {
    type Target = T;

    fn deref(&self) -> (r: &T)
        ensures
            *r == self.value(),
    {
        &self.inner
    }
}

impl<T: AvOwnable> std::ops::DerefMut for AvOwned<T> {
    fn deref_mut(&mut self) -> (r: &mut T)
        ensures
            *r == old(self).value(),
            final(self).value() == *final(r),
    {
        &mut self.inner
    }
}

/// A value that lives no longer than the shared borrow of its source `S`.
pub struct AvBorrow<'a, S: 'a, T> {
    _src: PhantomData<&'a S>,
    value: T,
}

impl<'a, S: 'a, T> AvBorrow<'a, S, T> {
    /// The borrowed value.
    pub closed spec fn value(&self) -> T {
        self.value
    }

    /// Ties `value` to the shared borrow of `_src`.
    pub fn wrap(_src: &'a S, value: T) -> (r: Self)
        ensures
            r.value() == value,
    {
        Self { _src: PhantomData, value }
    }
}

impl<'a, S: 'a, T> std::ops::Deref for AvBorrow<'a, S, T> {
    type Target = T;

    fn deref(&self) -> (r: &T)
        ensures
            *r == self.value(),
    {
        &self.value
    }
}

/// A value that lives no longer than the exclusive borrow of its source `S`.
pub struct AvBorrowMut<'a, S: 'a, T> {
    _src: PhantomData<&'a mut S>,
    value: T,
}

impl<'a, S: 'a, T> AvBorrowMut<'a, S, T> {
    /// The borrowed value.
    pub closed spec fn value(&self) -> T {
        self.value
    }

    /// Ties `value` to the exclusive borrow of `_src`.
    pub fn wrap(_src: &'a mut S, value: T) -> (r: Self)
        ensures
            r.value() == value,
            *final(_src) == *old(_src),
    {
        Self { _src: PhantomData, value }
    }
}

impl<'a, S: 'a, T> std::ops::Deref for AvBorrowMut<'a, S, T> {
    type Target = T;

    fn deref(&self) -> (r: &T)
        ensures
            *r == self.value(),
    {
        &self.value
    }
}

impl<'a, S: 'a, T> std::ops::DerefMut for AvBorrowMut<'a, S, T> {
    fn deref_mut(&mut self) -> (r: &mut T)
        ensures
            *r == old(self).value(),
            final(self).value() == *final(r),
    {
        &mut self.value
    }
}

} // verus!
