//! Decision logic for a native media codec session.
//!
//! A codec session exposes a ring of input and output buffer slots identified
//! by index.  A caller dequeues a free input slot (or is told to retry),
//! writes data into it, enqueues it back, then separately dequeues a ready
//! output slot, reads data out of it, and releases it.  The native library
//! reports each step with a raw status code; this crate owns and verifies the
//! translation of those codes into typed results: error-kind translation,
//! the sentinel decoding for dequeued input and output slots, the configure
//! flag word, the microsecond timeout computation, and the bounds of the
//! readable window of an output slot.  The unsafe calls into the native
//! library itself stand outside this crate and hand these functions plain
//! values.

pub mod buffer;
pub mod codec;
pub mod error;
