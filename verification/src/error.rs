//! Translation of the native library's raw status codes into a typed error
//! kind.
//!
//! Every call into the native codec reports a `media_status_t` value: zero
//! for success, and a fixed set of documented negative (and two positive)
//! codes for failure.  The translation here is total: a code outside the
//! documented set becomes [`MediaError::Unexpected`] with the raw code kept,
//! so that no status value is lost and no input makes the translation fail.

use vstd::prelude::*;

verus! {

/// The error kind of a failed native media call, one variant for each
/// documented `media_status_t` code, plus [`MediaError::Unexpected`] for a
/// code outside the documented set.
#[derive(Clone, Copy, Debug, PartialEq, Eq, Structural)]
pub enum MediaError {
    /// `AMEDIACODEC_ERROR_INSUFFICIENT_RESOURCE` (1100)
    CodecErrorInsufficientResource,
    /// `AMEDIACODEC_ERROR_RECLAIMED` (1101)
    CodecErrorReclaimed,
    /// `AMEDIA_ERROR_UNKNOWN`, also the error base (-10000)
    ErrorUnknown,
    /// `AMEDIA_ERROR_MALFORMED` (-10001)
    ErrorMalformed,
    /// `AMEDIA_ERROR_UNSUPPORTED` (-10002)
    ErrorUnsupported,
    /// `AMEDIA_ERROR_INVALID_OBJECT` (-10003)
    ErrorInvalidObject,
    /// `AMEDIA_ERROR_INVALID_PARAMETER` (-10004)
    ErrorInvalidParameter,
    /// `AMEDIA_ERROR_INVALID_OPERATION` (-10005)
    ErrorInvalidOperation,
    /// `AMEDIA_ERROR_END_OF_STREAM` (-10006)
    ErrorEndOfStream,
    /// `AMEDIA_ERROR_IO` (-10007)
    ErrorIo,
    /// `AMEDIA_ERROR_WOULD_BLOCK` (-10008)
    ErrorWouldBlock,
    /// `AMEDIA_DRM_ERROR_BASE` (-20000)
    DrmErrorBase,
    /// `AMEDIA_DRM_NOT_PROVISIONED` (-20001)
    DrmNotProvisioned,
    /// `AMEDIA_DRM_RESOURCE_BUSY` (-20002)
    DrmResourceBusy,
    /// `AMEDIA_DRM_DEVICE_REVOKED` (-20003)
    DrmDeviceRevoked,
    /// `AMEDIA_DRM_SHORT_BUFFER` (-20004)
    DrmShortBuffer,
    /// `AMEDIA_DRM_SESSION_NOT_OPENED` (-20005)
    DrmSessionNotOpened,
    /// `AMEDIA_DRM_TAMPER_DETECTED` (-20006)
    DrmTamperDetected,
    /// `AMEDIA_DRM_VERIFY_FAILED` (-20007)
    DrmVerifyFailed,
    /// `AMEDIA_DRM_NEED_KEY` (-20008)
    DrmNeedKey,
    /// `AMEDIA_DRM_LICENSE_EXPIRED` (-20009)
    DrmLicenseExpired,
    /// `AMEDIA_IMGREADER_ERROR_BASE` (-30000)
    ImgreaderErrorBase,
    /// `AMEDIA_IMGREADER_NO_BUFFER_AVAILABLE` (-30001)
    ImgreaderNoBufferAvailable,
    /// `AMEDIA_IMGREADER_MAX_IMAGES_ACQUIRED` (-30002)
    ImgreaderMaxImagesAcquired,
    /// `AMEDIA_IMGREADER_CANNOT_LOCK_IMAGE` (-30003)
    ImgreaderCannotLockImage,
    /// `AMEDIA_IMGREADER_CANNOT_UNLOCK_IMAGE` (-30004)
    ImgreaderCannotUnlockImage,
    /// `AMEDIA_IMGREADER_IMAGE_NOT_LOCKED` (-30005)
    ImgreaderImageNotLocked,
    /// A status code outside the documented set, kept as it came.
    Unexpected(i64),
}

/// The error kind that a raw status code translates to.  Total over all
/// codes: a code outside the documented set maps to
/// [`MediaError::Unexpected`] carrying that code.
pub open spec fn spec_error_of(code: i64) -> MediaError {
    if code == 1100 {
        MediaError::CodecErrorInsufficientResource
    } else if code == 1101 {
        MediaError::CodecErrorReclaimed
    } else if code == -10000 {
        MediaError::ErrorUnknown
    } else if code == -10001 {
        MediaError::ErrorMalformed
    } else if code == -10002 {
        MediaError::ErrorUnsupported
    } else if code == -10003 {
        MediaError::ErrorInvalidObject
    } else if code == -10004 {
        MediaError::ErrorInvalidParameter
    } else if code == -10005 {
        MediaError::ErrorInvalidOperation
    } else if code == -10006 {
        MediaError::ErrorEndOfStream
    } else if code == -10007 {
        MediaError::ErrorIo
    } else if code == -10008 {
        MediaError::ErrorWouldBlock
    } else if code == -20000 {
        MediaError::DrmErrorBase
    } else if code == -20001 {
        MediaError::DrmNotProvisioned
    } else if code == -20002 {
        MediaError::DrmResourceBusy
    } else if code == -20003 {
        MediaError::DrmDeviceRevoked
    } else if code == -20004 {
        MediaError::DrmShortBuffer
    } else if code == -20005 {
        MediaError::DrmSessionNotOpened
    } else if code == -20006 {
        MediaError::DrmTamperDetected
    } else if code == -20007 {
        MediaError::DrmVerifyFailed
    } else if code == -20008 {
        MediaError::DrmNeedKey
    } else if code == -20009 {
        MediaError::DrmLicenseExpired
    } else if code == -30000 {
        MediaError::ImgreaderErrorBase
    } else if code == -30001 {
        MediaError::ImgreaderNoBufferAvailable
    } else if code == -30002 {
        MediaError::ImgreaderMaxImagesAcquired
    } else if code == -30003 {
        MediaError::ImgreaderCannotLockImage
    } else if code == -30004 {
        MediaError::ImgreaderCannotUnlockImage
    } else if code == -30005 {
        MediaError::ImgreaderImageNotLocked
    } else {
        MediaError::Unexpected(code)
    }
}

/// Translates a raw status code to its error kind.
pub fn status_to_error(code: i64) -> (r: MediaError)
    ensures
        r == spec_error_of(code),
{
    if code == 1100 {
        MediaError::CodecErrorInsufficientResource
    } else if code == 1101 {
        MediaError::CodecErrorReclaimed
    } else if code == -10000 {
        MediaError::ErrorUnknown
    } else if code == -10001 {
        MediaError::ErrorMalformed
    } else if code == -10002 {
        MediaError::ErrorUnsupported
    } else if code == -10003 {
        MediaError::ErrorInvalidObject
    } else if code == -10004 {
        MediaError::ErrorInvalidParameter
    } else if code == -10005 {
        MediaError::ErrorInvalidOperation
    } else if code == -10006 {
        MediaError::ErrorEndOfStream
    } else if code == -10007 {
        MediaError::ErrorIo
    } else if code == -10008 {
        MediaError::ErrorWouldBlock
    } else if code == -20000 {
        MediaError::DrmErrorBase
    } else if code == -20001 {
        MediaError::DrmNotProvisioned
    } else if code == -20002 {
        MediaError::DrmResourceBusy
    } else if code == -20003 {
        MediaError::DrmDeviceRevoked
    } else if code == -20004 {
        MediaError::DrmShortBuffer
    } else if code == -20005 {
        MediaError::DrmSessionNotOpened
    } else if code == -20006 {
        MediaError::DrmTamperDetected
    } else if code == -20007 {
        MediaError::DrmVerifyFailed
    } else if code == -20008 {
        MediaError::DrmNeedKey
    } else if code == -20009 {
        MediaError::DrmLicenseExpired
    } else if code == -30000 {
        MediaError::ImgreaderErrorBase
    } else if code == -30001 {
        MediaError::ImgreaderNoBufferAvailable
    } else if code == -30002 {
        MediaError::ImgreaderMaxImagesAcquired
    } else if code == -30003 {
        MediaError::ImgreaderCannotLockImage
    } else if code == -30004 {
        MediaError::ImgreaderCannotUnlockImage
    } else if code == -30005 {
        MediaError::ImgreaderImageNotLocked
    } else {
        MediaError::Unexpected(code)
    }
}

/// Turns the status code of a native call into a `Result`: success exactly
/// for code zero (`AMEDIA_OK`), and the translated error kind for every
/// other code.
pub fn error_from_status(code: i32) -> (r: Result<(), MediaError>)
    ensures
        r is Ok <==> code == 0,
        code != 0 ==> r == Err::<(), MediaError>(spec_error_of(code as i64)),
{
    if code == 0 {
        Ok(())
    } else {
        Err(status_to_error(code as i64))
    }
}

} // verus!
