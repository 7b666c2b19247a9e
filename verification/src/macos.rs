//! The macOS adapter: the verified half of the store, fetch, and delete
//! operations.
//!
//! Each operation first checks that the descriptor is tagged for this
//! platform and, only if it is, resolves it to a fully determined native
//! request — the keychain domain to open and the generic password item to
//! act on. A thin unverified runtime submits the request to the native
//! keychain and hands any native failure to [`crate::error::decode_error`]
//! and fetched secret bytes to [`decode_password`].

use vstd::prelude::*;
use vstd::string::StrSliceExecFns;
use vstd::utf8::{decode_utf8, encode_utf8, valid_utf8};
use vstd::utf8::{encode_utf8_decode_utf8, encode_utf8_valid_utf8};

use crate::credential::{MacCredential, MacKeychainDomain, Platform, PlatformCredential};
use crate::error::{Error, ErrorCode};

verus! {

/// The platform this adapter serves.
pub fn platform() -> (p: Platform)
    ensures
        p == Platform::MacOs,
{
    Platform::MacOs
}

/// A fully resolved request to write a generic password item: the keychain
/// domain to open, the item's identity, and the secret bytes to store.
#[derive(Clone, Debug)]
pub struct StoreRequest {
    pub domain: MacKeychainDomain,
    pub service: String,
    pub account: String,
    pub secret: Vec<u8>,
}

/// A fully resolved request to locate a generic password item, used both to
/// fetch its secret and to delete it.
#[derive(Clone, Debug)]
pub struct LookupRequest {
    pub domain: MacKeychainDomain,
    pub service: String,
    pub account: String,
}

/// Resolve a store operation: reject a descriptor tagged for another
/// platform before any native call, and otherwise produce the exact native
/// request, with the secret encoded as the UTF-8 bytes of the password.
pub fn set_password(cred: &PlatformCredential, password: &str) -> (r: Result<StoreRequest, Error>)
    ensures
        match r {
            Ok(req) => cred matches PlatformCredential::Mac(m) && req.domain == m.domain
                && req.service@ == m.service@ && req.account@ == m.account@
                && req.secret@ == encode_utf8(password@),
            Err(e) => !(cred is Mac) && e.code is BadCredentialMapPlatform && e.platform is None,
        },
{
    match cred {
        PlatformCredential::Mac(m) => Ok(
            StoreRequest {
                domain: m.domain,
                service: m.service.clone(),
                account: m.account.clone(),
                secret: password.as_bytes_vec(),
            },
        ),
        _ => Err(Error::new(ErrorCode::BadCredentialMapPlatform)),
    }
}

/// Resolve a fetch operation: reject a descriptor tagged for another
/// platform before any native call, and otherwise produce the exact lookup
/// request for the item whose secret is to be read.
pub fn get_password(cred: &PlatformCredential) -> (r: Result<LookupRequest, Error>)
    ensures
        match r {
            Ok(req) => cred matches PlatformCredential::Mac(m) && req.domain == m.domain
                && req.service@ == m.service@ && req.account@ == m.account@,
            Err(e) => !(cred is Mac) && e.code is BadCredentialMapPlatform && e.platform is None,
        },
{
    match cred {
        PlatformCredential::Mac(m) => Ok(lookup_request(m)),
        _ => Err(Error::new(ErrorCode::BadCredentialMapPlatform)),
    }
}

/// Resolve a delete operation: the item is located exactly as in a fetch,
/// so the checks and the produced request are the same.
pub fn delete_password(cred: &PlatformCredential) -> (r: Result<LookupRequest, Error>)
    ensures
        match r {
            Ok(req) => cred matches PlatformCredential::Mac(m) && req.domain == m.domain
                && req.service@ == m.service@ && req.account@ == m.account@,
            Err(e) => !(cred is Mac) && e.code is BadCredentialMapPlatform && e.platform is None,
        },
{
    match cred {
        PlatformCredential::Mac(m) => Ok(lookup_request(m)),
        _ => Err(Error::new(ErrorCode::BadCredentialMapPlatform)),
    }
}

/// The lookup request for a macOS descriptor's item.
fn lookup_request(m: &MacCredential) -> (r: LookupRequest)
    ensures
        r.domain == m.domain,
        r.service@ == m.service@,
        r.account@ == m.account@,
{
    LookupRequest { domain: m.domain, service: m.service.clone(), account: m.account.clone() }
}

/// Relies on `String::from_utf8`: it succeeds exactly on valid UTF-8 input
/// and decodes it, and on failure the error's `into_bytes` returns the
/// input bytes unchanged.
#[verifier::external_body]
fn bytes_to_string(bytes: Vec<u8>) -> (r: Result<String, Vec<u8>>)
    ensures
        match r {
            Ok(s) => valid_utf8(bytes@) && s@ == decode_utf8(bytes@),
            Err(b) => !valid_utf8(bytes@) && b@ == bytes@,
        },
{
    match String::from_utf8(bytes) {
        Ok(s) => Ok(s),
        Err(e) => Err(e.into_bytes()),
    }
}

/// Decode the secret bytes that a fetch read from the native store. The
/// store permits arbitrary bytes, so secrets written by third parties may
/// not be valid text: those are rejected with `BadEncoding`, which carries
/// the raw bytes unchanged so the caller can recover them.
pub fn decode_password(bytes: Vec<u8>) -> (r: Result<String, Error>)
    ensures
        match r {
            Ok(s) => valid_utf8(bytes@) && s@ == decode_utf8(bytes@),
            Err(e) => {
                &&& !valid_utf8(bytes@)
                &&& e.platform is None
                &&& e.code matches ErrorCode::BadEncoding(label, raw) && label@ == "password"@
                    && raw@ == bytes@
            },
        },
{
    match bytes_to_string(bytes) {
        Ok(s) => Ok(s),
        Err(raw) => Err(Error::new(ErrorCode::BadEncoding("password".to_owned(), raw))),
    }
}

/// Round trip: the byte payload that a store operation submits for a
/// password is valid UTF-8 and decodes back to exactly that password, so a
/// fetch that reads those bytes back returns the stored text. In
/// particular, after two stores of the same item the native upsert leaves
/// the second payload, and a fetch of it returns the second password.
pub proof fn lemma_store_fetch_round_trip(password: Seq<char>)
    ensures
        valid_utf8(encode_utf8(password)),
        decode_utf8(encode_utf8(password)) == password,
{
    encode_utf8_valid_utf8(password);
    encode_utf8_decode_utf8(password);
}

} // verus!
