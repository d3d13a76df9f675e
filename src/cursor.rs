use vstd::prelude::*;

verus! {

/// The mouse cursor of the window.
#[derive(Debug)]
pub struct Cursor {
    _private: (),
}

impl Cursor {
    /// The cursor of a system that was just created.
    pub(crate) fn new() -> (r: Cursor) {
        Cursor { _private: () }
    }
}

} // verus!
