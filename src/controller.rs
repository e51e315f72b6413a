use vstd::prelude::*;

use crate::identity::DeviceIdentity;
use crate::machine::{phase_after, ControlMessage, Phase, Report};

verus! {

/// The polling interval used when none is configured, in milliseconds.
pub const DEFAULT_POLL_INTERVAL_MS: u64 = 200;

/// How often the worker probes while a session is active.
#[derive(Clone, Copy, Debug, PartialEq, Eq, Structural)]
pub struct PollConfig {
    pub poll_interval_ms: u64,
}

impl PollConfig {
    /// The default configuration: a 200 ms interval.
    pub fn new() -> (c: PollConfig)
        ensures
            c.poll_interval_ms == DEFAULT_POLL_INTERVAL_MS,
    {
        PollConfig { poll_interval_ms: DEFAULT_POLL_INTERVAL_MS }
    }

    /// A configuration with the given interval.
    pub fn with_interval(poll_interval_ms: u64) -> (c: PollConfig)
        ensures
            c.poll_interval_ms == poll_interval_ms,
    {
        PollConfig { poll_interval_ms }
    }
}

/// What the controller does when the operator presses the toggle/refresh control.
#[derive(Clone, Copy, Debug, PartialEq, Eq, Structural)]
pub enum ToggleAction {
    /// Send `StopPolling` to the worker.
    SendStop,
    /// Enumerate the devices afresh and show the new list.
    Refresh,
}

/// The controller's side of the protocol: the "looping" flag shown to the operator.
#[derive(Clone, Copy, Debug, PartialEq, Eq, Structural)]
pub struct Controller {
    pub looping: bool,
}

/// The looping flag after the worker's report, given the flag before it: a started session
/// sets it, a report that ends idle clears it, the others leave it.
pub open spec fn looping_after(looping: bool, r: Report) -> bool {
    match r {
        Report::Started(_) => true,
        Report::Unchanged => looping,
        Report::Probed(_) => looping,
        _ => false,
    }
}

impl Controller {
    /// A controller whose flag is clear, as for a worker that has just started.
    pub fn new() -> (c: Controller)
        ensures
            !c.looping,
    {
        Controller { looping: false }
    }

    /// The toggle/refresh control: while looping, clear the flag and stop the worker;
    /// otherwise refresh the device list.
    pub fn request_toggle(&mut self) -> (a: ToggleAction)
        ensures
            old(self).looping ==> a == ToggleAction::SendStop && !final(self).looping,
            !old(self).looping ==> a == ToggleAction::Refresh && *final(self) == *old(self),
    {
        if self.looping {
            self.looping = false;
            ToggleAction::SendStop
        } else {
            ToggleAction::Refresh
        }
    }

    /// The operator selected a device: set the flag and build the start message for it.
    pub fn request_start(&mut self, id: DeviceIdentity) -> (m: ControlMessage)
        ensures
            final(self).looping,
            m == ControlMessage::StartPolling(id),
    {
        self.looping = true;
        ControlMessage::StartPolling(id)
    }

    /// Corrects the flag from a report of the worker.
    pub fn acknowledge(&mut self, r: Report)
        ensures
            final(self).looping == looping_after(old(self).looping, r),
    {
        self.looping = match r {
            Report::Started(_) => true,
            Report::Unchanged => self.looping,
            Report::Probed(_) => self.looping,
            _ => false,
        };
    }
}

/// A flag that matches the worker's phase still matches it after any report of the worker
/// has been acknowledged.
pub proof fn lemma_acknowledged_flag_tracks_worker(p: Phase, looping: bool, r: Report)
    requires
        looping == (p is Polling),
    ensures
        looping_after(looping, r) == (phase_after(p, r) is Polling),
{
}

} // verus!
