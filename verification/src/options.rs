//! Conversion options.

use vstd::prelude::*;

verus! {

/// How inline images are handled: written to a directory and referenced by
/// path, embedded inline as data, or omitted entirely.
pub enum ImageHandling {
    /// Images become file-relative references under this directory.
    SaveToDir(String),
    /// Images become inline (base64 data) references.
    Inline,
    /// Images are omitted from the output.
    Skip,
}

/// Recognized conversion options.
pub struct ConvertOptions {
    pub image_handling: ImageHandling,
}

impl Default for ConvertOptions {
    /// The default options omit images.
    fn default() -> (r: Self)
        ensures
            r.image_handling is Skip,
    {
        ConvertOptions { image_handling: ImageHandling::Skip }
    }
}

} // verus!
