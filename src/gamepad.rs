use vstd::prelude::*;

verus! {

/// The most gamepads that the system keeps a slot for.
pub const MAX_GAMEPADS: u32 = 8;

/// One gamepad slot, by its index in the native library.
#[derive(Debug, Clone, Copy, PartialEq, Eq, Structural)]
pub struct Gamepad {
    pub(crate) index: u32,
}

impl Gamepad {
    /// The slot with index `index`.
    pub(crate) fn new(index: u32) -> (r: Gamepad)
        ensures
            r.slot() == index,
    {
        Gamepad { index }
    }

    /// The index of this slot in the native library.
    pub closed spec fn slot(self) -> u32 {
        self.index
    }

    /// The index of this slot in the native library.
    pub fn index(&self) -> (r: u32)
        ensures
            r == self.slot(),
    {
        self.index
    }

    /// The axes of a gamepad that reports `count` axes, in native order; counts beyond
    /// the known axes give the known ones.
    pub fn get_axises(count: i32) -> (r: Vec<GamepadAxis>)
        ensures
            r@.len() == if count <= 0 {
                0
            } else if count >= 6 {
                6
            } else {
                count as int
            },
            forall|i: int| 0 <= i < r@.len() ==> (#[trigger] r@[i]).code() == i,
    {
        let mut r: Vec<GamepadAxis> = Vec::new();
        let mut i: u32 = 0;
        while i < 6 && (i as i32) < count
            invariant
                i <= 6,
                count > 0 ==> i <= count,
                count <= 0 ==> i == 0,
                r@.len() == i,
                forall|j: int| 0 <= j < r@.len() ==> (#[trigger] r@[j]).code() == j,
            decreases 6 - i,
        {
            match GamepadAxis::from_u32(i) {
                Some(a) => r.push(a),
                None => {},
            }
            i = i + 1;
        }
        r
    }
}

/// A gamepad button, named by its native code.
#[derive(Debug, Clone, Copy, PartialEq, Eq, Hash, PartialOrd, Ord, Structural)]
#[non_exhaustive]
pub enum GamepadButton {
    Unknown,
    LeftFaceUp,
    LeftFaceRight,
    LeftFaceDown,
    LeftFaceLeft,
    RightFaceUp,
    RightFaceRight,
    RightFaceDown,
    RightFaceLeft,
    LeftTrigger1,
    LeftTrigger2,
    RightTrigger1,
    RightTrigger2,
    MiddleLeft,
    Middle,
    MiddleRight,
    LeftThumb,
    RightThumb,
}

impl GamepadButton {
    /// The native code of this button.
    pub open spec fn spec_code(self) -> u32 {
        match self {
            GamepadButton::Unknown => 0,
            GamepadButton::LeftFaceUp => 1,
            GamepadButton::LeftFaceRight => 2,
            GamepadButton::LeftFaceDown => 3,
            GamepadButton::LeftFaceLeft => 4,
            GamepadButton::RightFaceUp => 5,
            GamepadButton::RightFaceRight => 6,
            GamepadButton::RightFaceDown => 7,
            GamepadButton::RightFaceLeft => 8,
            GamepadButton::LeftTrigger1 => 9,
            GamepadButton::LeftTrigger2 => 10,
            GamepadButton::RightTrigger1 => 11,
            GamepadButton::RightTrigger2 => 12,
            GamepadButton::MiddleLeft => 13,
            GamepadButton::Middle => 14,
            GamepadButton::MiddleRight => 15,
            GamepadButton::LeftThumb => 16,
            GamepadButton::RightThumb => 17,
        }
    }

    /// The native code of this button.
    #[verifier::when_used_as_spec(spec_code)]
    pub fn code(self) -> (r: u32)
        ensures
            r == self.spec_code(),
    {
        match self {
            GamepadButton::Unknown => 0,
            GamepadButton::LeftFaceUp => 1,
            GamepadButton::LeftFaceRight => 2,
            GamepadButton::LeftFaceDown => 3,
            GamepadButton::LeftFaceLeft => 4,
            GamepadButton::RightFaceUp => 5,
            GamepadButton::RightFaceRight => 6,
            GamepadButton::RightFaceDown => 7,
            GamepadButton::RightFaceLeft => 8,
            GamepadButton::LeftTrigger1 => 9,
            GamepadButton::LeftTrigger2 => 10,
            GamepadButton::RightTrigger1 => 11,
            GamepadButton::RightTrigger2 => 12,
            GamepadButton::MiddleLeft => 13,
            GamepadButton::Middle => 14,
            GamepadButton::MiddleRight => 15,
            GamepadButton::LeftThumb => 16,
            GamepadButton::RightThumb => 17,
        }
    }

    /// The button that the native library reports as last pressed: `-1` means none,
    /// and a code that names no known button gives `Unknown`.
    pub fn from_pressed_code(n: i32) -> (r: Option<GamepadButton>)
        ensures
            n == -1 ==> r is None,
            1 <= n <= 17 ==> (r matches Some(b) && b.code() == n),
            n != -1 && !(1 <= n <= 17) ==> r == Some(GamepadButton::Unknown),
    {
        if n == -1 {
            return None;
        }
        let b = match n {
            1 => GamepadButton::LeftFaceUp,
            2 => GamepadButton::LeftFaceRight,
            3 => GamepadButton::LeftFaceDown,
            4 => GamepadButton::LeftFaceLeft,
            5 => GamepadButton::RightFaceUp,
            6 => GamepadButton::RightFaceRight,
            7 => GamepadButton::RightFaceDown,
            8 => GamepadButton::RightFaceLeft,
            9 => GamepadButton::LeftTrigger1,
            10 => GamepadButton::LeftTrigger2,
            11 => GamepadButton::RightTrigger1,
            12 => GamepadButton::RightTrigger2,
            13 => GamepadButton::MiddleLeft,
            14 => GamepadButton::Middle,
            15 => GamepadButton::MiddleRight,
            16 => GamepadButton::LeftThumb,
            17 => GamepadButton::RightThumb,
            _ => GamepadButton::Unknown,
        };
        Some(b)
    }
}

/// A gamepad axis, named by its native code.
#[derive(Debug, Clone, Copy, PartialEq, Eq, Hash, PartialOrd, Ord, Structural)]
#[non_exhaustive]
pub enum GamepadAxis {
    /// Gamepad left stick X axis.
    LeftX,
    /// Gamepad left stick Y axis.
    LeftY,
    /// Gamepad right stick X axis.
    RightX,
    /// Gamepad right stick Y axis.
    RightY,
    /// Gamepad back trigger left, pressure level: [1..-1].
    LeftTrigger,
    /// Gamepad back trigger right, pressure level: [1..-1].
    RightTrigger,
}

impl GamepadAxis {
    /// The native code of this axis.
    pub open spec fn spec_code(self) -> u32 {
        match self {
            GamepadAxis::LeftX => 0,
            GamepadAxis::LeftY => 1,
            GamepadAxis::RightX => 2,
            GamepadAxis::RightY => 3,
            GamepadAxis::LeftTrigger => 4,
            GamepadAxis::RightTrigger => 5,
        }
    }

    /// The native code of this axis.
    #[verifier::when_used_as_spec(spec_code)]
    pub fn code(self) -> (r: u32)
        ensures
            r == self.spec_code(),
    {
        match self {
            GamepadAxis::LeftX => 0,
            GamepadAxis::LeftY => 1,
            GamepadAxis::RightX => 2,
            GamepadAxis::RightY => 3,
            GamepadAxis::LeftTrigger => 4,
            GamepadAxis::RightTrigger => 5,
        }
    }

    /// The axis with native code `v`, or `None` where no axis has that code.
    pub fn from_u32(v: u32) -> (r: Option<GamepadAxis>)
        ensures
            forall|a: GamepadAxis| r == Some(a) <==> a.code() == v,
            r is Some <==> v < 6,
    {
        match v {
            0 => Some(GamepadAxis::LeftX),
            1 => Some(GamepadAxis::LeftY),
            2 => Some(GamepadAxis::RightX),
            3 => Some(GamepadAxis::RightY),
            4 => Some(GamepadAxis::LeftTrigger),
            5 => Some(GamepadAxis::RightTrigger),
            _ => None,
        }
    }
}

} // verus!
