//! A human-readable name attached to an entity.

use vstd::prelude::*;

verus! {

/// A free-form name for an entity.
#[derive(Debug)]
pub struct Label(pub String);

impl Label {
    /// Whether two labels carry the same text.
    pub fn same_as(&self, other: &Label) -> (r: bool)
        ensures
            r == (self.0@ == other.0@),
    {
        self.0 == other.0
    }
}

} // verus!
