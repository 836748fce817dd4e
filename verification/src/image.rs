//! The image extractor: per configured policy, an inline image reference
//! becomes a Markdown image over a saved file path, an inline data target, or
//! nothing at all. Raw byte retrieval and writing are the package
//! collaborator's work; it hands this component the table of resolved
//! (relationship id, Markdown-usable target) pairs, and this component only
//! decides what the run converter embeds.

use vstd::prelude::*;
use vstd::string::StringExecFns;
use crate::lookup::{assoc_get, assoc_lookup};

verus! {

/// Holds the chosen handling policy and the resolved image targets.
pub struct ImageExtractor {
    /// True under the skip policy: every image is omitted.
    pub skip: bool,
    /// Resolved (relationship id, target) pairs under the save-to-directory
    /// or inline policies.
    pub images: Vec<(String, String)>,
}

/// What the extractor returns for a relationship id: nothing under the skip
/// policy or for an unknown id, else the Markdown image syntax over the
/// resolved target.
pub open spec fn image_markdown(skip: bool, images: Seq<(String, String)>, rel_id: Seq<char>) -> Option<
    Seq<char>,
> {
    if skip {
        None
    } else {
        match assoc_lookup(images, rel_id) {
            None => None,
            Some(t) => Some("![image]("@ + t@ + ")"@),
        }
    }
}

impl ImageExtractor {
    pub open spec fn spec_extract(&self, rel_id: Seq<char>) -> Option<Seq<char>> {
        image_markdown(self.skip, self.images@, rel_id)
    }

    /// Extraction under the save-to-directory policy, over the targets the
    /// collaborator saved.
    pub fn new_with_dir(images: Vec<(String, String)>) -> (r: Self)
        ensures
            !r.skip,
            r.images@ == images@,
    {
        ImageExtractor { skip: false, images }
    }

    /// Extraction under the inline policy, over the inlined data targets.
    pub fn new_inline(images: Vec<(String, String)>) -> (r: Self)
        ensures
            !r.skip,
            r.images@ == images@,
    {
        ImageExtractor { skip: false, images }
    }

    /// Extraction under the skip policy: every image is omitted.
    pub fn new_skip() -> (r: Self)
        ensures
            r.skip,
            r.images@ == Seq::<(String, String)>::empty(),
    {
        ImageExtractor { skip: true, images: Vec::new() }
    }

    /// The Markdown image fragment for one inline image reference, or `None`
    /// when the image is omitted.
    pub fn extract(&self, rel_id: &String) -> (r: Option<String>)
        ensures
            match r {
                Some(s) => self.spec_extract(rel_id@) == Some(s@),
                None => self.spec_extract(rel_id@) is None,
            },
    {
        if self.skip {
            return None;
        }
        match assoc_get(&self.images, rel_id) {
            None => None,
            Some(t) => {
                let mut out = String::new();
                out.append("![image](");
                out.append(t.as_str());
                out.append(")");
                assert(out@ =~= "![image]("@ + t@ + ")"@);
                Some(out)
            },
        }
    }
}

} // verus!
