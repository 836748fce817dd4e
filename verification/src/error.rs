//! The conversion error taxonomy: a package could not be parsed, or a
//! specific node could not be converted. Errors abort the whole conversion;
//! there is no partial-success mode.

use vstd::prelude::*;

verus! {

/// Why a conversion failed.
#[derive(Debug, Clone)]
pub enum ConvertError {
    /// The document could not be opened or its package structure is invalid.
    /// Raised by the code around the library that drives the package parser.
    Parse(String),
    /// A specific node could not be converted; the payload is the
    /// relationship identifier that could not be resolved.
    UnresolvedRelationship(String),
}

impl ConvertError {
    /// A short human-readable description.
    pub fn message(&self) -> (r: String)
        ensures
            self is Parse ==> r@ == "could not parse the document package"@,
            self is UnresolvedRelationship ==> r@
                == "a hyperlink references an unknown relationship"@,
    {
        match self {
            ConvertError::Parse(_) => {
                let mut s = String::new();
                s.append("could not parse the document package");
                s
            },
            ConvertError::UnresolvedRelationship(_) => {
                let mut s = String::new();
                s.append("a hyperlink references an unknown relationship");
                s
            },
        }
    }
}

} // verus!
