//! The relationship table: relationship id to target, built once before
//! traversal and read-only thereafter, and the hyperlink resolver over it.

use vstd::prelude::*;
use crate::lookup::{assoc_get, assoc_lookup};

verus! {

/// Mapping from relationship id (unique per document part) to a target string
/// (URL or internal path).
pub struct RelationshipMap {
    pub pairs: Vec<(String, String)>,
}

impl RelationshipMap {
    /// The first-match target for `id`, as a spec value.
    pub open spec fn target_of(&self, id: Seq<char>) -> Option<String> {
        assoc_lookup(self.pairs@, id)
    }

    /// Looks a relationship id up.
    pub fn get(&self, id: &String) -> (r: Option<String>)
        ensures
            r == self.target_of(id@),
    {
        assoc_get(&self.pairs, id)
    }
}

/// Builds the relationship table from the (id, target) pairs the package
/// parser produced, keeping them in document order.
pub fn build_relationship_map(pairs: Vec<(String, String)>) -> (r: RelationshipMap)
    ensures
        r.pairs@ == pairs@,
{
    RelationshipMap { pairs }
}

/// Maps a relationship identifier to its target URL using the prebuilt
/// relationship table; `None` when the id is unknown.
pub fn resolve_hyperlink(rels: &RelationshipMap, id: &String) -> (r: Option<String>)
    ensures
        r == rels.target_of(id@),
{
    rels.get(id)
}

} // verus!
