//! Client-side model of a cloud smart-plug vendor API: session login,
//! device enumeration, and on/off power commands.
//!
//! The library holds the verified logic: credential hashing, request-path
//! construction, wire-record decoding, and the power-state decision rules.
//! Performing the HTTP exchanges themselves is left to the embedding
//! application, which feeds the observed responses back into the library.
#![allow(non_snake_case)]

pub mod account;
pub mod device;
pub mod dto;
pub mod error;
pub mod hash;

pub use account::VeSyncAccount;
pub use device::{ConnectionStatus, Status, VeSyncDevice};
pub use error::VeSyncError;

use vstd::prelude::*;

verus! {

/// The fixed scheme+host prefix of every request URL.
pub open spec fn base_url() -> Seq<char> {
    "https://smartapi.vesync.com"@
}

/// Absolute request URL for a relative path: the fixed host prefix
/// followed by the path, verbatim. The path's shape is not validated.
pub fn build_path(relative: &str) -> (full_path: String)
    ensures
        full_path@ == base_url() + relative@,
{
    let mut full_path = String::from_str("https://smartapi.vesync.com");
    full_path.append(relative);
    full_path
}

} // verus!
