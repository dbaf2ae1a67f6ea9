//! Output buffer slots and their readable window.
//!
//! When the codec hands back a ready output slot it also fills in a
//! buffer-info record: an offset and size into the slot's raw buffer, a
//! presentation timestamp, and flag bits.  The readable bytes of the slot
//! are the `size` bytes of the raw buffer starting at `offset`; this module
//! computes that window with its bounds checked instead of trusted.

use vstd::prelude::*;
use vstd::slice::slice_subrange;

verus! {

/// The buffer-info record that accompanies a dequeued output slot, as the
/// native library fills it in: a byte range into the slot's raw buffer, the
/// presentation timestamp in microseconds, and the native flag bits.
#[derive(Clone, Copy, Debug, PartialEq, Eq, Structural)]
pub struct BufferInfo {
    /// Start of the readable range within the slot's raw buffer.
    pub offset: i32,
    /// Length of the readable range.
    pub size: i32,
    /// Presentation timestamp of the data, in microseconds.
    pub presentation_time_us: i64,
    /// Native flag bits for the data (end of stream, codec config, ...).
    pub flags: u32,
}

/// A ready output slot as the codec reported it: the index of the slot in
/// the codec's buffer ring, and the buffer-info record that came with it.
#[derive(Clone, Copy, Debug, PartialEq, Eq, Structural)]
pub struct OutputBuffer {
    /// Index of the slot in the codec's output buffer ring.
    pub index: usize,
    /// The buffer-info record the codec filled in for this slot.
    pub info: BufferInfo,
}

/// Whether the byte range `[offset, offset + size)` lies within a raw
/// buffer of length `len`.
pub open spec fn spec_window_in_bounds(len: int, offset: int, size: int) -> bool {
    0 <= offset && 0 <= size && offset + size <= len
}

impl OutputBuffer {
    /// The native flag bits of this slot's data.
    pub fn flags(&self) -> (r: u32)
        ensures
            r == self.info.flags,
    {
        self.info.flags
    }

    /// The presentation timestamp of this slot's data, in microseconds.
    pub fn presentation_time_us(&self) -> (r: i64)
        ensures
            r == self.info.presentation_time_us,
    {
        self.info.presentation_time_us
    }

    /// The readable window of this slot within its raw buffer `data`: the
    /// `size` bytes starting at `offset`, or `None` when the range the
    /// codec reported does not lie within `data`.
    pub fn buffer<'a>(&self, data: &'a [u8]) -> (r: Option<&'a [u8]>)
        ensures
            r is Some <==> spec_window_in_bounds(
                data@.len() as int,
                self.info.offset as int,
                self.info.size as int,
            ),
            r is Some ==> r.unwrap()@ == data@.subrange(
                self.info.offset as int,
                self.info.offset as int + self.info.size as int,
            ),
    {
        if self.info.offset >= 0 && self.info.size >= 0 {
            let off: usize = self.info.offset as usize;
            let sz: usize = self.info.size as usize;
            if off <= data.len() && sz <= data.len() - off {
                Some(slice_subrange(data, off, off + sz))
            } else {
                None
            }
        } else {
            None
        }
    }
}

} // verus!
