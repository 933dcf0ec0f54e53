//! Identity-marker carrying entities.

use vstd::prelude::*;
use vstd::string::StringExecFns;
use crate::{marker_text, memorial_significance_marker};

verus! {

/// The fixed prefix of every memorial proof string.
pub open spec fn memorial_proof_prefix() -> Seq<char> {
    "Mathematical operation honors St. Stella-Lorraine Sachikonye: "@
}

/// Trait for entities that carry an identity marker.
pub trait MemorialSignificant {
    /// The marker this entity carries.
    spec fn spec_marker(&self) -> Seq<char>;

    /// Get the identity marker.
    fn memorial_significance(&self) -> (s: &str)
        ensures
            s@ == self.spec_marker(),
    ;

    /// Whether the carried marker is the expected constant.
    fn validates_memorial(&self) -> (b: bool)
        ensures
            b == (self.spec_marker() == marker_text()),
    {
        let carried: String = self.memorial_significance().to_owned();
        let expected: String = memorial_significance_marker().to_owned();
        carried == expected
    }

    /// Generate the memorial proof string: a fixed prefix followed by the
    /// carried marker.
    fn memorial_proof(&self) -> (p: String)
        ensures
            p@ == memorial_proof_prefix() + self.spec_marker(),
    {
        let mut p: String =
            "Mathematical operation honors St. Stella-Lorraine Sachikonye: ".to_owned();
        p.append(self.memorial_significance());
        p
    }
}

impl MemorialSignificant for crate::coordinate::SEntropyCoordinate {
    open spec fn spec_marker(&self) -> Seq<char> {
        self.memorial_significance@
    }

    fn memorial_significance(&self) -> (s: &str) {
        self.memorial_significance.as_str()
    }
}

} // verus!
