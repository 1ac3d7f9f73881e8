//! The kinds of context that a format, stream or codec handle belongs to.
use vstd::prelude::*;

verus! {

/// How FFmpeg releases a format context.
#[derive(Debug, Clone, Copy, PartialEq, Eq, Structural)]
pub enum FormatRelease {
    /// `avformat_close_input`: for a context opened on an input.
    CloseInput,
    /// `avformat_free_context`: for a context allocated for an output.
    FreeContext,
}

/// Marks what a handle is for: demuxing, muxing, decoding or encoding.
pub trait ContextType {
    /// How a format context of this kind is released; `None` for the kinds
    /// that never own a format context.
    fn format_release() -> Option<FormatRelease>;
}

/// A muxing (output) context.
#[derive(Debug, Copy, Clone)]
pub struct OutputContext {}

impl ContextType for OutputContext {
    fn format_release() -> (r: Option<FormatRelease>)
        ensures
            r == Some(FormatRelease::FreeContext),
    {
        Some(FormatRelease::FreeContext)
    }
}

/// A demuxing (input) context.
#[derive(Debug, Copy, Clone)]
pub struct InputContext {}

impl ContextType for InputContext {
    fn format_release() -> (r: Option<FormatRelease>)
        ensures
            r == Some(FormatRelease::CloseInput),
    {
        Some(FormatRelease::CloseInput)
    }
}

/// A decoding context.
#[derive(Debug, Copy, Clone)]
pub struct DecodeContext {}

impl ContextType for DecodeContext {
    fn format_release() -> (r: Option<FormatRelease>)
        ensures
            r is None,
    {
        None
    }
}

/// An encoding context.
#[derive(Debug, Copy, Clone)]
pub struct EncodeContext {}

impl ContextType for EncodeContext {
    fn format_release() -> (r: Option<FormatRelease>)
        ensures
            r is None,
    {
        None
    }
}

} // verus!
