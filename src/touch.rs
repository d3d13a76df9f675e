use crate::structs::Position;
use vstd::prelude::*;

verus! {

/// The touch screen.
#[derive(Debug)]
pub struct Touch {
    _private: (),
}

impl Touch {
    /// The touch screen of a system that was just created.
    pub(crate) fn new() -> (r: Touch) {
        Touch { _private: () }
    }
}

/// A touch point: the identifier the native library gives it and where it is.
#[derive(Debug, Clone, Copy, PartialEq, Eq, Structural)]
pub struct TouchPoint {
    pub id: u32,
    pub position: Position,
}

/// A touch gesture, named by its native flag; `NoGesture` is no gesture.
#[derive(Debug, Clone, Copy, PartialEq, Eq, Hash, PartialOrd, Ord, Structural)]
pub enum Gesture {
    NoGesture,
    Tap,
    Doubletap,
    Hold,
    Drag,
    SwipeRight,
    SwipeLeft,
    SwipeUp,
    SwipeDown,
    PinchIn,
    PinchOut,
}

impl Gesture {
    /// The native code of this value.
    pub open spec fn spec_code(self) -> u32 {
        match self {
            Gesture::NoGesture => 0,
            Gesture::Tap => 1,
            Gesture::Doubletap => 2,
            Gesture::Hold => 4,
            Gesture::Drag => 8,
            Gesture::SwipeRight => 16,
            Gesture::SwipeLeft => 32,
            Gesture::SwipeUp => 64,
            Gesture::SwipeDown => 128,
            Gesture::PinchIn => 256,
            Gesture::PinchOut => 512,
        }
    }

    /// The native code of this value.
    #[verifier::when_used_as_spec(spec_code)]
    pub fn code(self) -> (r: u32)
        ensures
            r == self.spec_code(),
    {
        match self {
            Gesture::NoGesture => 0,
            Gesture::Tap => 1,
            Gesture::Doubletap => 2,
            Gesture::Hold => 4,
            Gesture::Drag => 8,
            Gesture::SwipeRight => 16,
            Gesture::SwipeLeft => 32,
            Gesture::SwipeUp => 64,
            Gesture::SwipeDown => 128,
            Gesture::PinchIn => 256,
            Gesture::PinchOut => 512,
        }
    }
}

impl Gesture {
    /// The gesture that the native library reports as detected last. A code that names no
    /// gesture gives `NoGesture`, as no gesture was recognised.
    pub fn from_detected_code(n: i32) -> (r: Gesture)
        ensures
            (exists|g: Gesture| g.code() == n) ==> r.code() == n,
            !(exists|g: Gesture| g.code() == n) ==> r == Gesture::NoGesture,
    {
        let r = match n {
            0 => Gesture::NoGesture,
            1 => Gesture::Tap,
            2 => Gesture::Doubletap,
            4 => Gesture::Hold,
            8 => Gesture::Drag,
            16 => Gesture::SwipeRight,
            32 => Gesture::SwipeLeft,
            64 => Gesture::SwipeUp,
            128 => Gesture::SwipeDown,
            256 => Gesture::PinchIn,
            512 => Gesture::PinchOut,
            _ => Gesture::NoGesture,
        };
        assert(r.code() == n ==> exists|g: Gesture| g.code() == n);
        r
    }
}

/// The native flag set of the gestures in `gestures`: the union of their flags.
pub open spec fn gesture_bits(gestures: Seq<Gesture>) -> u32
    decreases gestures.len(),
{
    if gestures.len() == 0 {
        0
    } else {
        gesture_bits(gestures.drop_last()) | gestures.last().code()
    }
}

/// The native flag set of the gestures in `gestures`.
pub fn gestures_to_flags(gestures: &[Gesture]) -> (r: u32)
    ensures
        r == gesture_bits(gestures@),
{
    let mut bits: u32 = 0;
    let mut i: usize = 0;
    while i < gestures.len()
        invariant
            i <= gestures@.len(),
            bits == gesture_bits(gestures@.take(i as int)),
        decreases gestures@.len() - i,
    {
        assert(gestures@.take(i + 1).drop_last() =~= gestures@.take(i as int));
        bits = bits | gestures[i].code();
        i = i + 1;
    }
    assert(gestures@.take(i as int) =~= gestures@);
    bits
}

} // verus!
