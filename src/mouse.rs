use vstd::prelude::*;

verus! {

/// The mouse.
#[derive(Debug)]
pub struct Mouse {
    _private: (),
}

impl Mouse {
    /// The mouse of a system that was just created.
    pub(crate) fn new() -> (r: Mouse) {
        Mouse { _private: () }
    }
}

/// A mouse button, named by its native code.
#[derive(Debug, Clone, Copy, PartialEq, Eq, Hash, PartialOrd, Ord, Structural)]
pub enum MouseButton {
    Left,
    Right,
    Middle,
    Side,
    Extra,
    Forward,
    Back,
}

impl MouseButton {
    /// The native code of this value.
    pub open spec fn spec_code(self) -> u32 {
        match self {
            MouseButton::Left => 0,
            MouseButton::Right => 1,
            MouseButton::Middle => 2,
            MouseButton::Side => 3,
            MouseButton::Extra => 4,
            MouseButton::Forward => 5,
            MouseButton::Back => 6,
        }
    }

    /// The native code of this value.
    #[verifier::when_used_as_spec(spec_code)]
    pub fn code(self) -> (r: u32)
        ensures
            r == self.spec_code(),
    {
        match self {
            MouseButton::Left => 0,
            MouseButton::Right => 1,
            MouseButton::Middle => 2,
            MouseButton::Side => 3,
            MouseButton::Extra => 4,
            MouseButton::Forward => 5,
            MouseButton::Back => 6,
        }
    }
}

/// A shape of the mouse cursor, named by its native code.
#[derive(Debug, Clone, Copy, PartialEq, Eq, Hash, PartialOrd, Ord, Structural)]
pub enum MouseCursor {
    Default,
    Arrow,
    Ibeam,
    Crosshair,
    PointingHand,
    ResizeEw,
    ResizeNs,
    ResizeNwse,
    ResizeNesw,
    ResizeAll,
    NotAllowed,
}

impl MouseCursor {
    /// The native code of this value.
    pub open spec fn spec_code(self) -> u32 {
        match self {
            MouseCursor::Default => 0,
            MouseCursor::Arrow => 1,
            MouseCursor::Ibeam => 2,
            MouseCursor::Crosshair => 3,
            MouseCursor::PointingHand => 4,
            MouseCursor::ResizeEw => 5,
            MouseCursor::ResizeNs => 6,
            MouseCursor::ResizeNwse => 7,
            MouseCursor::ResizeNesw => 8,
            MouseCursor::ResizeAll => 9,
            MouseCursor::NotAllowed => 10,
        }
    }

    /// The native code of this value.
    #[verifier::when_used_as_spec(spec_code)]
    pub fn code(self) -> (r: u32)
        ensures
            r == self.spec_code(),
    {
        match self {
            MouseCursor::Default => 0,
            MouseCursor::Arrow => 1,
            MouseCursor::Ibeam => 2,
            MouseCursor::Crosshair => 3,
            MouseCursor::PointingHand => 4,
            MouseCursor::ResizeEw => 5,
            MouseCursor::ResizeNs => 6,
            MouseCursor::ResizeNwse => 7,
            MouseCursor::ResizeNesw => 8,
            MouseCursor::ResizeAll => 9,
            MouseCursor::NotAllowed => 10,
        }
    }
}

} // verus!
