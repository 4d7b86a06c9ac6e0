//! Resolves the chain of JSON documents that describe a versioned
//! distribution: the version manifest, a version's descriptor, and the asset
//! index it points to, down to the libraries and objects to download.
use vstd::prelude::*;

pub mod json;
pub mod versions;
pub mod assets;
pub mod downloads;
pub mod libraries;
pub mod pipeline;

verus! {

/// Why a document could not be had: the transfer failed, or its body was
/// not JSON.
#[derive(Debug, Clone, Copy, PartialEq, Eq, Structural)]
pub enum FetchError {
    Transport,
    Decode,
}

} // verus!
