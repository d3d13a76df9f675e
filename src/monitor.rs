use vstd::prelude::*;

verus! {

/// The monitors attached to the system.
#[derive(Debug)]
pub struct Monitors {
    _private: (),
}

impl Monitors {
    /// The monitors of a system that was just created.
    pub(crate) fn new() -> (r: Monitors) {
        Monitors { _private: () }
    }

    /// Whether the monitor that the native library reports as current, by its index
    /// `current`, is `monitor_no`; this is how a request to move the window to a monitor
    /// is known to have taken effect.
    pub fn is_current(&self, current: i32, monitor_no: MonitorNo) -> (r: bool)
        ensures
            r == (current >= 0 && current as int == monitor_no.spec_get()),
    {
        current >= 0 && current as usize == monitor_no.get()
    }
}

/// The number of a monitor: its index in the native library.
#[derive(Debug, Clone, Copy, PartialEq, Eq, Hash, PartialOrd, Ord, Structural)]
pub struct MonitorNo(usize);

impl MonitorNo {
    /// The index of the monitor.
    pub closed spec fn spec_get(self) -> usize {
        self.0
    }

    /// The number of the monitor with native index `index`, if the index is one.
    pub fn from_index(index: i32) -> (r: Option<MonitorNo>)
        ensures
            index < 0 ==> r is None,
            index >= 0 ==> (r matches Some(m) && m.spec_get() == index),
    {
        if index < 0 {
            None
        } else {
            Some(MonitorNo(index as usize))
        }
    }

    /// The index of the monitor.
    #[verifier::when_used_as_spec(spec_get)]
    pub fn get(self) -> (r: usize)
        ensures
            r == self.spec_get(),
    {
        self.0
    }
}

} // verus!
