//! Decoded frames.
use vstd::prelude::*;

verus! {

/// A decoded frame: the address of an FFmpeg `AVFrame`.
pub struct AvFrame {
    ptr: usize,
}

impl AvFrame {
    /// The address of the `AVFrame`.
    pub closed spec fn addr(&self) -> usize {
        self.ptr
    }

    /// The frame that `av_frame_alloc` returned at `ptr`; `None` when the
    /// allocation failed and the pointer is null.
    pub fn from_raw(ptr: usize) -> (r: Option<AvFrame>)
        ensures
            r is Some <==> ptr != 0,
            r matches Some(f) ==> f.addr() == ptr,
    {
        if ptr == 0 {
            None
        } else {
            Some(AvFrame { ptr })
        }
    }

    /// The address of the `AVFrame`.
    pub fn as_raw(&self) -> (r: usize)
        ensures
            r == self.addr(),
    {
        self.ptr
    }
}

} // verus!
