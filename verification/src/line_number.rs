use vstd::prelude::*;

verus! {

/// A zero-based line index into a block of text shown by a text view.
#[derive(Clone, Copy, Debug, PartialEq, Eq, Structural)]
pub struct LineNumber(pub usize);

impl LineNumber {
    /// The line `count` lines further down.
    pub fn advancedBy(self, count: usize) -> (r: LineNumber)
        requires
            self.0 + count <= usize::MAX,
        ensures
            r.0 == self.0 + count,
    {
        LineNumber(self.0 + count)
    }
}

} // verus!
