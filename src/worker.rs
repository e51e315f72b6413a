use vstd::prelude::*;

use crate::bus::{open_at, probe};
use crate::identity::Placement;
use crate::machine::{
    conclude, event_of, phase_after, plan, plan_of, report_fits, ControlMessage, Event, Phase,
    Report, StartError,
};
use crate::usb::OpenHandle;

verus! {

/// One polling session: the placement being polled and the handle the worker owns for it.
pub struct Session {
    placement: Placement,
    handle: OpenHandle,
}

/// One piece of device work the worker did.
#[derive(Clone, Copy, Debug, PartialEq, Eq, Structural)]
pub enum Work {
    /// Closed the session's handle.
    Release,
    /// Located the device at this placement in a fresh scan and tried to open it.
    Acquire(Placement),
    /// Sent one descriptor request on the handle of the session at this placement.
    Probe(Placement),
}

/// The device work that handling an event does, in order: release the open handle if the
/// plan says so, try to acquire the planned placement, probe the session's handle if the plan
/// says so, and close that handle if the probe failed.
pub open spec fn work_of(p: Phase, e: Event, r: Report) -> Seq<Work> {
    let work = plan_of(p, e);
    let released = if work.release {
        seq![Work::Release]
    } else {
        Seq::empty()
    };
    let acquired = match work.acquire {
        Some(t) => seq![Work::Acquire(t)],
        None => Seq::empty(),
    };
    let probed = match p {
        Phase::Polling(t) => if work.probe {
            seq![Work::Probe(t)]
        } else {
            Seq::empty()
        },
        Phase::Idle => Seq::empty(),
    };
    let lost = if r is DeviceLost {
        seq![Work::Release]
    } else {
        Seq::empty()
    };
    released + acquired + probed + lost
}

/// The polling worker: owns at most one open device handle and changes state only in
/// response to events.
pub struct PollingWorker {
    session: Option<Session>,
    log: Ghost<Seq<Work>>,
}

impl PollingWorker {
    /// The worker's phase: polling exactly while it holds a session.
    pub closed spec fn phase(&self) -> Phase {
        match self.session {
            None => Phase::Idle,
            Some(s) => Phase::Polling(s.placement),
        }
    }

    /// The device work done so far, in order.
    pub closed spec fn work(&self) -> Seq<Work> {
        self.log@
    }

    /// A worker with no session, that has done no device work.
    pub fn new() -> (w: PollingWorker)
        ensures
            w.phase() == Phase::Idle,
            w.work() == Seq::<Work>::empty(),
    {
        PollingWorker { session: None, log: Ghost(Seq::empty()) }
    }

    /// The worker's current phase.
    pub fn current_phase(&self) -> (p: Phase)
        ensures
            p == self.phase(),
    {
        match &self.session {
            None => Phase::Idle,
            Some(s) => Phase::Polling(s.placement),
        }
    }

    /// Whether a session is active.
    pub fn is_polling(&self) -> (b: bool)
        ensures
            b == (self.phase() is Polling),
    {
        self.session.is_some()
    }

    /// Closes the open handle, if any.
    fn release(&mut self)
        ensures
            final(self).phase() == Phase::Idle,
            final(self).work() == old(self).work().push(Work::Release),
    {
        self.session = None;
        self.log = Ghost(self.log@.push(Work::Release));
    }

    /// Locates and opens the device at `t`; only called while no handle is open.
    fn establish(&mut self, t: Placement) -> (r: Result<(), StartError>)
        requires
            old(self).phase() == Phase::Idle,
        ensures
            r is Ok ==> final(self).phase() == Phase::Polling(t),
            r is Err ==> final(self).phase() == Phase::Idle,
            final(self).work() == old(self).work().push(Work::Acquire(t)),
    {
        self.log = Ghost(self.log@.push(Work::Acquire(t)));
        match open_at(t) {
            Ok(handle) => {
                self.session = Some(Session { placement: t, handle });
                Ok(())
            },
            Err(e) => Err(e),
        }
    }

    /// Probes the open handle; a failed probe closes it.
    fn probe_session(&mut self) -> (ok: bool)
        requires
            old(self).phase() is Polling,
        ensures
            ok ==> final(self).phase() == old(self).phase(),
            !ok ==> final(self).phase() == Phase::Idle,
            ok ==> final(self).work() == old(self).work().push(Work::Probe(old(self).phase()->Polling_0)),
            !ok ==> final(self).work() == old(self).work().push(Work::Probe(old(self).phase()->Polling_0)).push(
                Work::Release,
            ),
    {
        let ok = match &self.session {
            None => true,
            Some(s) => {
                self.log = Ghost(self.log@.push(Work::Probe(s.placement)));
                probe(&s.handle).is_ok()
            },
        };
        if !ok {
            self.release();
        }
        ok
    }

    /// Handles one event: releases, acquires and probes as the event's plan says, and reports
    /// the outcome. The report is one that the event can have in the old phase, the new phase
    /// is the one that the report leads to, and the device work done is the plan's.
    pub fn handle(&mut self, e: Event) -> (r: Report)
        ensures
            report_fits(old(self).phase(), e, r),
            final(self).phase() == phase_after(old(self).phase(), r),
            final(self).work() == old(self).work() + work_of(old(self).phase(), e, r),
    {
        let ghost w0 = self.work();
        let p = self.current_phase();
        let work = plan(p, e);
        if work.release {
            self.release();
        }
        let mut start: Result<(), StartError> = Ok(());
        if let Some(t) = work.acquire {
            start = self.establish(t);
        }
        let mut probe_ok = true;
        if work.probe {
            probe_ok = self.probe_session();
        }
        let r = conclude(p, e, start, probe_ok);
        assert(self.work() =~= w0 + work_of(p, e, r));
        r
    }

    /// Handles one message from the controller.
    pub fn handle_message(&mut self, m: &ControlMessage) -> (r: Report)
        ensures
            report_fits(old(self).phase(), event_of(*m), r),
            final(self).phase() == phase_after(old(self).phase(), r),
            final(self).work() == old(self).work() + work_of(old(self).phase(), event_of(*m), r),
    {
        let e = m.event();
        self.handle(e)
    }
}

} // verus!
