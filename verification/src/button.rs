//! A push button drawn as a bordered, one-line box.

use vstd::prelude::*;

verus! {

/// A button: a label and whether it currently has focus.
pub struct Button {
    pub focus: bool,
    pub label: &'static str,
}

impl Button {
    /// The footprint of a drawn button: the label width plus one border
    /// cell on each side, three rows tall (the sum saturates at the machine
    /// limit).
    pub fn size(&self) -> (r: (usize, usize))
        ensures
            r.0 as int == if self.label@.len() + 2 <= usize::MAX {
                self.label@.len() + 2int
            } else {
                usize::MAX as int
            },
            r.1 == 3,
    {
        let l = self.label.unicode_len();
        if l <= usize::MAX - 2 {
            (l + 2, 3)
        } else {
            (usize::MAX, 3)
        }
    }
}

} // verus!
