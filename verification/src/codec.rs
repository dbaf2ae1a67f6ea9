//! The codec session's buffer exchange protocol: sentinel decoding for the
//! dequeue calls, the configure flag word, and the dequeue timeout.
//!
//! A dequeue call on the native codec returns one raw signed value that is
//! either a buffer slot index (when non-negative) or a sentinel or status
//! code (when negative).  The functions here make that decision; the unsafe
//! native calls themselves stay outside this crate and hand the raw value
//! in.

use crate::buffer::{BufferInfo, OutputBuffer};
use crate::error::{spec_error_of, status_to_error, MediaError};
use vstd::prelude::*;

verus! {

/// Whether a codec session is configured as a decoder or as an encoder.
#[derive(Clone, Copy, Debug, PartialEq, Eq, Structural)]
pub enum MediaCodecDirection {
    Decoder,
    Encoder,
}

/// Relies on ndk-sys's `AMEDIACODEC_CONFIGURE_FLAG_ENCODE` constant, the
/// flag word that marks a session as an encoder; its value is 1.
#[verifier::external_body]
fn configure_flag_encode() -> (r: u32)
    ensures
        r == 1,
{
    ndk_sys::AMEDIACODEC_CONFIGURE_FLAG_ENCODE as u32
}

/// The flag word handed to the native configure call: the encode flag for
/// an encoder session, and no flags for a decoder session.
pub fn configure_flags(direction: MediaCodecDirection) -> (r: u32)
    ensures
        direction is Encoder ==> r == 1,
        direction is Decoder ==> r == 0,
{
    if direction == MediaCodecDirection::Encoder {
        configure_flag_encode()
    } else {
        0
    }
}

/// A free input slot as the codec reported it: the index of the slot in
/// the codec's input buffer ring.
#[derive(Clone, Copy, Debug, PartialEq, Eq, Structural)]
pub struct InputBuffer {
    /// Index of the slot in the codec's input buffer ring.
    pub index: usize,
}

/// What a dequeue-input call came back with: a free input slot, or the
/// signal to retry later.
#[derive(Clone, Copy, Debug, PartialEq, Eq, Structural)]
pub enum DequeuedInputBufferResult {
    Buffer(InputBuffer),
    TryAgainLater,
}

/// What a dequeue-output call came back with: a ready output slot, the
/// signal to retry later, or one of the two change notices.
#[derive(Clone, Copy, Debug, PartialEq, Eq, Structural)]
pub enum DequeuedOutputBufferInfoResult {
    Buffer(OutputBuffer),
    TryAgainLater,
    OutputFormatChanged,
    OutputBuffersChanged,
}

/// Relies on ndk-sys's `AMEDIACODEC_INFO_TRY_AGAIN_LATER` constant, the
/// dequeue result that signals "no buffer yet, retry"; its value is -1.
#[verifier::external_body]
fn info_try_again_later() -> (r: i32)
    ensures
        r == -1i32,
{
    ndk_sys::AMEDIACODEC_INFO_TRY_AGAIN_LATER
}

/// Relies on ndk-sys's `AMEDIACODEC_INFO_OUTPUT_FORMAT_CHANGED` constant,
/// the dequeue-output result that signals a new output format; its value
/// is -2.
#[verifier::external_body]
fn info_output_format_changed() -> (r: i32)
    ensures
        r == -2i32,
{
    ndk_sys::AMEDIACODEC_INFO_OUTPUT_FORMAT_CHANGED
}

/// Relies on ndk-sys's `AMEDIACODEC_INFO_OUTPUT_BUFFERS_CHANGED` constant,
/// the dequeue-output result that signals a new output buffer set; its
/// value is -3.
#[verifier::external_body]
fn info_output_buffers_changed() -> (r: i32)
    ensures
        r == -3i32,
{
    ndk_sys::AMEDIACODEC_INFO_OUTPUT_BUFFERS_CHANGED
}

/// What the raw return value of a dequeue-input call means: a non-negative
/// value is the index of a free input slot, the retry sentinel is the
/// retry signal, and any other negative value is a status code, translated
/// to its error kind.
pub open spec fn spec_input_outcome(raw: isize) -> Result<
    DequeuedInputBufferResult,
    MediaError,
> {
    if raw == -1 {
        Ok(DequeuedInputBufferResult::TryAgainLater)
    } else if raw >= 0 {
        Ok(DequeuedInputBufferResult::Buffer(InputBuffer { index: raw as usize }))
    } else {
        Err(spec_error_of(raw as i64))
    }
}

/// Decodes the raw return value of a dequeue-input call on the native
/// codec.  Succeeds exactly when the value is a slot index or the retry
/// sentinel; every other value is a status code and comes back as its
/// error kind.
pub fn dequeue_input_outcome(raw: isize) -> (r: Result<DequeuedInputBufferResult, MediaError>)
    ensures
        r == spec_input_outcome(raw),
        r is Ok <==> raw >= -1,
{
    let sentinel: i32 = info_try_again_later();
    if raw == sentinel as isize {
        Ok(DequeuedInputBufferResult::TryAgainLater)
    } else if raw >= 0 {
        Ok(DequeuedInputBufferResult::Buffer(InputBuffer { index: raw as usize }))
    } else {
        Err(status_to_error(raw as i64))
    }
}

/// What the raw return value of a dequeue-output call means, with the
/// buffer-info record the call filled in: a non-negative value is the
/// index of a ready output slot carrying that record, the three sentinels
/// are the retry signal and the two change notices, and any other negative
/// value is a status code, translated to its error kind.
pub open spec fn spec_output_outcome(raw: isize, info: BufferInfo) -> Result<
    DequeuedOutputBufferInfoResult,
    MediaError,
> {
    if raw == -1 {
        Ok(DequeuedOutputBufferInfoResult::TryAgainLater)
    } else if raw == -2 {
        Ok(DequeuedOutputBufferInfoResult::OutputFormatChanged)
    } else if raw == -3 {
        Ok(DequeuedOutputBufferInfoResult::OutputBuffersChanged)
    } else if raw >= 0 {
        Ok(DequeuedOutputBufferInfoResult::Buffer(OutputBuffer { index: raw as usize, info }))
    } else {
        Err(spec_error_of(raw as i64))
    }
}

/// Decodes the raw return value of a dequeue-output call on the native
/// codec, keeping the buffer-info record with a ready slot.  Succeeds
/// exactly when the value is a slot index or one of the three sentinels;
/// every other value is a status code and comes back as its error kind.
pub fn dequeue_output_outcome(raw: isize, info: BufferInfo) -> (r: Result<
    DequeuedOutputBufferInfoResult,
    MediaError,
>)
    ensures
        r == spec_output_outcome(raw, info),
        r is Ok <==> raw >= -3,
{
    if raw == info_try_again_later() as isize {
        Ok(DequeuedOutputBufferInfoResult::TryAgainLater)
    } else if raw == info_output_format_changed() as isize {
        Ok(DequeuedOutputBufferInfoResult::OutputFormatChanged)
    } else if raw == info_output_buffers_changed() as isize {
        Ok(DequeuedOutputBufferInfoResult::OutputBuffersChanged)
    } else if raw >= 0 {
        Ok(DequeuedOutputBufferInfoResult::Buffer(OutputBuffer { index: raw as usize, info }))
    } else {
        Err(status_to_error(raw as i64))
    }
}

/// The dequeue timeout in whole microseconds for a duration given as whole
/// seconds and a nanosecond remainder, as the native calls take it.
pub open spec fn spec_timeout_micros(secs: u64, nanos: u32) -> int {
    secs * 1_000_000 + nanos / 1_000
}

/// Computes the microsecond timeout word for the native dequeue calls from
/// a duration split into whole seconds and a nanosecond remainder.
/// Succeeds exactly when the microsecond count fits the native signed
/// 64-bit timeout argument; a longer duration comes back as `None`.
pub fn timeout_micros(secs: u64, nanos: u32) -> (r: Option<i64>)
    requires
        nanos < 1_000_000_000,
    ensures
        r is Some <==> spec_timeout_micros(secs, nanos) <= i64::MAX,
        r is Some ==> r.unwrap() == spec_timeout_micros(secs, nanos),
{
    let micro_part: u32 = nanos / 1_000;
    if secs < 9_223_372_036_854 {
        Some((secs as i64) * 1_000_000 + micro_part as i64)
    } else if secs == 9_223_372_036_854 && micro_part <= 775_807 {
        Some((secs as i64) * 1_000_000 + micro_part as i64)
    } else {
        None
    }
}

} // verus!
