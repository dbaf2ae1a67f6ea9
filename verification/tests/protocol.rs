//! Tests for the buffer exchange protocol: dequeue sentinel decoding, the
//! configure flag word, the timeout computation, and the output window.

use media_codec::buffer::{BufferInfo, OutputBuffer};
use media_codec::codec::{
    configure_flags, dequeue_input_outcome, dequeue_output_outcome, timeout_micros,
    DequeuedInputBufferResult, DequeuedOutputBufferInfoResult, InputBuffer, MediaCodecDirection,
};
use media_codec::error::MediaError;

fn sample_info() -> BufferInfo {
    BufferInfo {
        offset: 2,
        size: 3,
        presentation_time_us: 40_000,
        flags: 4,
    }
}

#[test]
fn input_index_is_a_buffer() {
    assert_eq!(
        dequeue_input_outcome(0),
        Ok(DequeuedInputBufferResult::Buffer(InputBuffer { index: 0 }))
    );
    assert_eq!(
        dequeue_input_outcome(7),
        Ok(DequeuedInputBufferResult::Buffer(InputBuffer { index: 7 }))
    );
}

#[test]
fn input_retry_sentinel() {
    assert_eq!(
        dequeue_input_outcome(-1),
        Ok(DequeuedInputBufferResult::TryAgainLater)
    );
}

#[test]
fn input_status_code_is_an_error() {
    assert_eq!(
        dequeue_input_outcome(-10001),
        Err(MediaError::ErrorMalformed)
    );
    assert_eq!(dequeue_input_outcome(-2), Err(MediaError::Unexpected(-2)));
}

#[test]
fn output_index_keeps_the_info() {
    let info = sample_info();
    assert_eq!(
        dequeue_output_outcome(5, info),
        Ok(DequeuedOutputBufferInfoResult::Buffer(OutputBuffer {
            index: 5,
            info,
        }))
    );
}

#[test]
fn output_sentinels() {
    let info = sample_info();
    assert_eq!(
        dequeue_output_outcome(-1, info),
        Ok(DequeuedOutputBufferInfoResult::TryAgainLater)
    );
    assert_eq!(
        dequeue_output_outcome(-2, info),
        Ok(DequeuedOutputBufferInfoResult::OutputFormatChanged)
    );
    assert_eq!(
        dequeue_output_outcome(-3, info),
        Ok(DequeuedOutputBufferInfoResult::OutputBuffersChanged)
    );
}

#[test]
fn output_status_code_is_an_error() {
    let info = sample_info();
    assert_eq!(
        dequeue_output_outcome(-10007, info),
        Err(MediaError::ErrorIo)
    );
    assert_eq!(
        dequeue_output_outcome(-4, info),
        Err(MediaError::Unexpected(-4))
    );
}

#[test]
fn encoder_sets_the_encode_flag() {
    assert_eq!(configure_flags(MediaCodecDirection::Encoder), 1);
    assert_eq!(configure_flags(MediaCodecDirection::Decoder), 0);
}

#[test]
fn timeout_in_whole_microseconds() {
    assert_eq!(timeout_micros(0, 0), Some(0));
    assert_eq!(timeout_micros(1, 500_000), Some(1_000_500));
    assert_eq!(timeout_micros(2, 999), Some(2_000_000));
}

#[test]
fn timeout_at_the_limit() {
    assert_eq!(
        timeout_micros(9_223_372_036_854, 775_807_999),
        Some(i64::MAX)
    );
    assert_eq!(timeout_micros(9_223_372_036_854, 775_808_000), None);
    assert_eq!(timeout_micros(9_223_372_036_855, 0), None);
    assert_eq!(timeout_micros(u64::MAX, 999_999_999), None);
}

#[test]
fn output_window_is_the_reported_range() {
    let data: Vec<u8> = vec![10, 11, 12, 13, 14, 15];
    let slot = OutputBuffer {
        index: 0,
        info: sample_info(),
    };
    assert_eq!(slot.buffer(&data), Some(&data[2..5]));
}

#[test]
fn output_window_may_be_empty() {
    let data: Vec<u8> = vec![10, 11];
    let slot = OutputBuffer {
        index: 0,
        info: BufferInfo {
            offset: 2,
            size: 0,
            presentation_time_us: 0,
            flags: 0,
        },
    };
    assert_eq!(slot.buffer(&data), Some(&data[2..2]));
}

#[test]
fn output_window_out_of_bounds() {
    let data: Vec<u8> = vec![10, 11, 12];
    let too_long = OutputBuffer {
        index: 0,
        info: BufferInfo {
            offset: 1,
            size: 3,
            presentation_time_us: 0,
            flags: 0,
        },
    };
    assert_eq!(too_long.buffer(&data), None);
    let negative_offset = OutputBuffer {
        index: 0,
        info: BufferInfo {
            offset: -1,
            size: 1,
            presentation_time_us: 0,
            flags: 0,
        },
    };
    assert_eq!(negative_offset.buffer(&data), None);
    let negative_size = OutputBuffer {
        index: 0,
        info: BufferInfo {
            offset: 0,
            size: -1,
            presentation_time_us: 0,
            flags: 0,
        },
    };
    assert_eq!(negative_size.buffer(&data), None);
}

#[test]
fn output_slot_getters() {
    let slot = OutputBuffer {
        index: 3,
        info: sample_info(),
    };
    assert_eq!(slot.flags(), 4);
    assert_eq!(slot.presentation_time_us(), 40_000);
}
