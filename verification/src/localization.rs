//! The localization strategy: a pluggable formatter for locale-specific list
//! labels and note markers. Converters hold "some implementation of this
//! capability", so further locales can be added without touching them.

use vstd::prelude::*;
use vstd::string::StringExecFns;
use crate::strutil::{dec_seq, dec_string};

verus! {

/// The capability set a locale provides: an ordered-list label, an unordered
/// bullet, and an inline note marker.
pub trait LocalizationStrategy: Sized {
    /// What the ordered-list label for counter value `n` reads as.
    spec fn spec_ordered_label(&self, n: u64) -> Seq<char>;

    /// What the unordered bullet reads as.
    spec fn spec_bullet(&self) -> Seq<char>;

    /// What the inline marker for note number `n` reads as.
    spec fn spec_note_marker(&self, n: u64) -> Seq<char>;

    /// Produces the ordered-list label for counter value `n`.
    fn ordered_label(&self, n: u64) -> (r: String)
        ensures
            r@ == self.spec_ordered_label(n),
    ;

    /// Produces the unordered bullet.
    fn bullet(&self) -> (r: String)
        ensures
            r@ == self.spec_bullet(),
    ;

    /// Produces the inline marker for note number `n`.
    fn note_marker(&self, n: u64) -> (r: String)
        ensures
            r@ == self.spec_note_marker(n),
    ;
}

/// The provided concrete locale: decimal labels with a trailing dot for
/// ordered items, a dash bullet, and bracketed caret note markers.
pub struct KoreanLocalization;

impl LocalizationStrategy for KoreanLocalization {
    open spec fn spec_ordered_label(&self, n: u64) -> Seq<char> {
        dec_seq(n) + ". "@
    }

    open spec fn spec_bullet(&self) -> Seq<char> {
        "- "@
    }

    open spec fn spec_note_marker(&self, n: u64) -> Seq<char> {
        "[^"@ + dec_seq(n) + "]"@
    }

    fn ordered_label(&self, n: u64) -> (r: String) {
        let mut out = dec_string(n);
        out.append(". ");
        out
    }

    fn bullet(&self) -> (r: String) {
        let mut out = String::new();
        out.append("- ");
        assert(out@ =~= "- "@);
        out
    }

    fn note_marker(&self, n: u64) -> (r: String) {
        let mut out = String::new();
        out.append("[^");
        let d = dec_string(n);
        out.append(d.as_str());
        out.append("]");
        assert(out@ =~= "[^"@ + dec_seq(n) + "]"@);
        out
    }
}

} // verus!
