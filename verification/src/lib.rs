//! Adapter from a cross-platform credential model onto the macOS keychain.
//!
//! The library holds the decision logic of the adapter: checking that a
//! credential descriptor is tagged for this platform, resolving it to a
//! native store request, translating native status codes into the shared
//! error taxonomy, and decoding fetched secret bytes back into text. The
//! native keychain calls themselves are performed by a thin unverified
//! runtime around the library.

pub mod credential;
pub mod error;
pub mod macos;
