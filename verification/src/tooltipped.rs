//! Whether script is shown to the player in a tooltip.

use vstd::prelude::*;

verus! {

/// How script is shown to the player in tooltips.
#[derive(Clone, Copy, Debug, PartialEq, Eq, Structural)]
pub enum Tooltipped {
    /// Not shown.
    No,
    /// Shown.
    Yes,
    /// Only the failing parts are shown.
    FailuresOnly,
    /// Shown in the past tense.
    Past,
}

impl Tooltipped {
    /// Whether anything is shown.
    pub fn is_tooltipped(self) -> (r: bool)
        ensures
            r == (self != Tooltipped::No),
    {
        !matches!(self, Tooltipped::No)
    }
}

} // verus!
