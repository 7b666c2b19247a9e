//! The shared error taxonomy and the translation of native keychain status
//! codes into it.
//!
//! The translation table is the only policy in this component: it decides
//! which native failures are structurally meaningful (`NoEntry`,
//! `NoStorageAccess`) and lets every other status code fall through to the
//! opaque `PlatformFailure`, so that the mapping is total.

use vstd::prelude::*;

verus! {

/// errSecNotAvailable: no keychain is available.
pub const ERR_SEC_NOT_AVAILABLE: i32 = -25291;

/// errSecReadOnly: the keychain is read-only.
pub const ERR_SEC_READ_ONLY: i32 = -25292;

/// errSecNoSuchKeychain: the requested keychain does not exist.
pub const ERR_SEC_NO_SUCH_KEYCHAIN: i32 = -25294;

/// errSecInvalidKeychain: the keychain is not valid.
pub const ERR_SEC_INVALID_KEYCHAIN: i32 = -25295;

/// errSecItemNotFound: the requested item does not exist.
pub const ERR_SEC_ITEM_NOT_FOUND: i32 = -25300;

/// What a native keychain call reported on failure: the raw status code and
/// the diagnostic message that goes with it.
#[derive(Clone, Debug)]
pub struct NativeStatus {
    pub code: i32,
    pub message: String,
}

/// The kinds of failure that the adapter surfaces to its callers.
#[derive(Clone, Debug)]
pub enum ErrorCode {
    /// The requested item does not exist.
    NoEntry,
    /// The native store is unavailable, read-only, missing, or invalid.
    NoStorageAccess,
    /// A secret was retrieved but is not valid text; carries a label for the
    /// value and the raw bytes, so the caller can recover them.
    BadEncoding(String, Vec<u8>),
    /// The credential descriptor is tagged for a different platform.
    BadCredentialMapPlatform,
    /// Any other native failure, passed through opaquely.
    PlatformFailure,
}

/// An adapter failure: the kind of failure, and the native status that
/// caused it where a native call was involved.
#[derive(Clone, Debug)]
pub struct Error {
    pub code: ErrorCode,
    pub platform: Option<NativeStatus>,
}

impl Error {
    /// An error that arose in the adapter itself, with no native status.
    pub fn new(code: ErrorCode) -> (r: Error)
        ensures
            r.code == code,
            r.platform is None,
    {
        Error { code, platform: None }
    }

    /// An error caused by a failed native call, keeping its status.
    pub fn new_from_platform(code: ErrorCode, status: NativeStatus) -> (r: Error)
        ensures
            r.code == code,
            r.platform == Some(status),
    {
        Error { code, platform: Some(status) }
    }
}

/// The error kind that a native status code translates to.
pub open spec fn translated_code(code: i32) -> ErrorCode {
    if code == ERR_SEC_NOT_AVAILABLE || code == ERR_SEC_READ_ONLY || code == ERR_SEC_NO_SUCH_KEYCHAIN
        || code == ERR_SEC_INVALID_KEYCHAIN {
        ErrorCode::NoStorageAccess
    } else if code == ERR_SEC_ITEM_NOT_FOUND {
        ErrorCode::NoEntry
    } else {
        ErrorCode::PlatformFailure
    }
}

/// Translate a failed native call into the shared taxonomy, keeping the
/// native status for diagnostics.
pub fn decode_error(status: NativeStatus) -> (r: Error)
    ensures
        r.code == translated_code(status.code),
        r.platform == Some(status),
{
    let code = if status.code == ERR_SEC_NOT_AVAILABLE || status.code == ERR_SEC_READ_ONLY
        || status.code == ERR_SEC_NO_SUCH_KEYCHAIN || status.code == ERR_SEC_INVALID_KEYCHAIN {
        ErrorCode::NoStorageAccess
    } else if status.code == ERR_SEC_ITEM_NOT_FOUND {
        ErrorCode::NoEntry
    } else {
        ErrorCode::PlatformFailure
    };
    Error::new_from_platform(code, status)
}

/// The translation is total and one-to-one per kind: the four keychain-access
/// codes map to `NoStorageAccess`, the not-found code to `NoEntry`, and every
/// status code outside the table to `PlatformFailure` and nothing else.
pub proof fn lemma_translation_total(code: i32)
    ensures
        translated_code(code) is NoStorageAccess <==> (code == ERR_SEC_NOT_AVAILABLE
            || code == ERR_SEC_READ_ONLY || code == ERR_SEC_NO_SUCH_KEYCHAIN
            || code == ERR_SEC_INVALID_KEYCHAIN),
        translated_code(code) is NoEntry <==> code == ERR_SEC_ITEM_NOT_FOUND,
        translated_code(code) is PlatformFailure <==> !(code == ERR_SEC_NOT_AVAILABLE
            || code == ERR_SEC_READ_ONLY || code == ERR_SEC_NO_SUCH_KEYCHAIN
            || code == ERR_SEC_INVALID_KEYCHAIN || code == ERR_SEC_ITEM_NOT_FOUND),
{
}

} // verus!
