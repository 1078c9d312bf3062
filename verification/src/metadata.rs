//! Handle for the external metadata provider.
//!
//! Reading, formatting and stripping a file's metadata is the provider's
//! business and happens outside the engine; the engine only caches the
//! provider's text per file name (see [`crate::image_utils::ImageUtils`]).

use vstd::prelude::*;

verus! {

/// Marker for the metadata provider the surrounding program plugs in.
pub struct MetadataHandler;

impl MetadataHandler {
    /// Creates the provider handle.
    pub fn new() -> Self {
        MetadataHandler
    }
}

} // verus!
