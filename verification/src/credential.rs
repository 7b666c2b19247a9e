//! The credential model: per-platform credential descriptors and the
//! keychain domains that the macOS descriptor can be scoped to.

use vstd::prelude::*;

verus! {

/// The platforms that the credential model distinguishes.
#[derive(Clone, Copy, Debug, PartialEq, Eq, Structural)]
pub enum Platform {
    Linux,
    Windows,
    MacOs,
}

/// A macOS keychain scope: user-only, system-wide, shared, or resolved
/// dynamically by the native store at the time of the call.
#[derive(Clone, Copy, Debug, PartialEq, Eq, Structural)]
pub enum MacKeychainDomain {
    User,
    System,
    Common,
    Dynamic,
}

/// A credential descriptor for the macOS keychain: a generic password item
/// identified by service and account within a keychain domain.
#[derive(Clone, Debug)]
pub struct MacCredential {
    pub domain: MacKeychainDomain,
    pub service: String,
    pub account: String,
}

/// A tagged union of per-platform credential descriptors. This adapter
/// consumes the macOS variant; descriptors for the other platforms are
/// opaque to it and carry no payload it would read.
#[derive(Clone, Debug)]
pub enum PlatformCredential {
    Linux,
    Win,
    Mac(MacCredential),
}

} // verus!
