//! Per-file metadata text cache.
//!
//! The selection controller recomputes the metadata text whenever the
//! selection changes.  The provider's text is cached under the file's
//! name, so revisiting the same file does not re-read its metadata; a
//! provider failure degrades to a visible error line, never an abort.

use crate::metadata::MetadataHandler;
use vstd::prelude::*;

verus! {

/// Image-related bookkeeping outside the panel drawing: the metadata
/// provider handle and the one-entry metadata text cache, keyed by file
/// name.
pub struct ImageUtils {
    pub metadata_handler: MetadataHandler,
    pub cached_metadata: Option<(String, String)>,
}

/// The error line shown when the metadata provider fails for a file.
pub open spec fn spec_metadata_error_text(file: Seq<char>) -> Seq<char> {
    "Error reading metadata for: "@ + file
}

/// Builds the error line shown when the metadata provider fails.
pub fn metadata_error_text(selected_file: &String) -> (r: String)
    ensures
        r@ == spec_metadata_error_text(selected_file@),
{
    let mut r = String::from_str("Error reading metadata for: ");
    r.append(selected_file.as_str());
    r
}

impl ImageUtils {
    /// Creates the cache, initially empty.
    pub fn new() -> (r: Self)
        ensures
            r.cached_metadata is None,
    {
        ImageUtils { metadata_handler: MetadataHandler::new(), cached_metadata: None }
    }

    /// Whether the cache already holds text for `file`.
    pub open spec fn cache_hit(&self, file: Seq<char>) -> bool {
        match self.cached_metadata {
            Some(c) => c.0@ == file,
            None => false,
        }
    }

    /// The text `get_metadata_for_display` returns for `file` when the
    /// provider answered `fetched`: the cached text on a hit, otherwise
    /// the provider's text, or the error line when the provider failed.
    pub open spec fn spec_display_text(&self, file: Seq<char>, fetched: Option<String>) -> Seq<
        char,
    > {
        if self.cache_hit(file) {
            (self.cached_metadata->0).1@
        } else {
            match fetched {
                Some(t) => t@,
                None => spec_metadata_error_text(file),
            }
        }
    }

    /// Whether the provider must be asked for `selected_file` before
    /// calling `get_metadata_for_display`: exactly on a cache miss.
    pub fn needs_fetch(&self, selected_file: &String) -> (b: bool)
        ensures
            b == !self.cache_hit(selected_file@),
    {
        match &self.cached_metadata {
            Some(c) => !c.0.eq(selected_file),
            None => true,
        }
    }

    /// Returns the metadata text to display for `selected_file`.
    ///
    /// On a cache hit the cached text is returned and `fetched` is
    /// ignored; otherwise the provider's answer (or the error line, when
    /// the provider failed) is cached under the file's name and returned.
    pub fn get_metadata_for_display(&mut self, selected_file: &String, fetched: Option<String>)
        -> (r: String)
        ensures
            r@ == old(self).spec_display_text(selected_file@, fetched),
            old(self).cache_hit(selected_file@) ==> *final(self) == *old(self),
            !old(self).cache_hit(selected_file@) ==> final(self).cached_metadata == Some(
                (*selected_file, r),
            ),
            final(self).cache_hit(selected_file@),
    {
        let hit = !self.needs_fetch(selected_file);
        if hit {
            let text = match &self.cached_metadata {
                Some(c) => c.1.clone(),
                None => String::new(),  // unreachable on a hit
            };
            return text;
        }
        let text = match fetched {
            Some(t) => t,
            None => metadata_error_text(selected_file),
        };
        self.cached_metadata = Some((selected_file.clone(), text.clone()));
        text
    }
}

} // verus!
