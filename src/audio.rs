use vstd::prelude::*;

verus! {

/// The audio device. It stands for the native audio context, opened when this value is
/// made and closed when it is dropped.
#[derive(Debug)]
pub struct AudioDevice {
    _private: (),
}

impl AudioDevice {
    /// The device of an audio context that was just opened.
    pub fn new() -> (r: AudioDevice) {
        AudioDevice { _private: () }
    }
}

} // verus!
