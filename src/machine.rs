use vstd::prelude::*;

use crate::controller::PollConfig;
use crate::identity::{DeviceIdentity, Placement};

verus! {

/// The polling worker's state: idle, or polling the device at one placement with an open handle.
#[derive(Clone, Copy, Debug, PartialEq, Eq, Structural)]
pub enum Phase {
    Idle,
    Polling(Placement),
}

/// A message from the controller to the polling worker.
#[derive(Clone, Debug)]
pub enum ControlMessage {
    StartPolling(DeviceIdentity),
    StopPolling,
    Terminate,
}

/// What the worker reacts to: a message, or a whole interval that passed without one.
#[derive(Clone, Copy, Debug, PartialEq, Eq, Structural)]
pub enum Event {
    Start(Placement),
    Stop,
    Terminate,
    Tick,
}

/// The device work that an event calls for, in this order: release the open handle,
/// locate and open a device, probe the open handle, leave the worker loop.
#[derive(Clone, Copy, Debug, PartialEq, Eq, Structural)]
pub struct Plan {
    pub release: bool,
    pub acquire: Option<Placement>,
    pub probe: bool,
    pub exit: bool,
}

/// Why a session could not be started.
#[derive(Clone, Copy, Debug, PartialEq, Eq, Structural)]
pub enum StartError {
    /// The bus layer could not list the attached devices.
    Enumeration,
    /// No attached device sits at the requested placement.
    NotFound,
    /// The device was found but could not be opened.
    OpenFailed,
}

/// What the worker reports to the controller after handling one event.
#[derive(Clone, Copy, Debug, PartialEq, Eq, Structural)]
pub enum Report {
    /// Nothing was to be done.
    Unchanged,
    /// The session ended and its handle was closed.
    Stopped,
    /// A session is now polling the device at this placement.
    Started(Placement),
    /// No session could be started for this placement; the worker is idle.
    StartFailed(Placement, StartError),
    /// One probe of the device at this placement succeeded.
    Probed(Placement),
    /// A probe failed: the handle was closed and the worker is idle.
    DeviceLost(Placement),
    /// The worker closed any handle and leaves its loop.
    Exiting,
}

impl ControlMessage {
    /// The event that this message is to the worker.
    pub fn event(&self) -> (e: Event)
        ensures
            e == event_of(*self),
    {
        match self {
            ControlMessage::StartPolling(id) => Event::Start(id.placement()),
            ControlMessage::StopPolling => Event::Stop,
            ControlMessage::Terminate => Event::Terminate,
        }
    }
}

pub open spec fn event_of(m: ControlMessage) -> Event {
    match m {
        ControlMessage::StartPolling(id) => Event::Start(Placement { bus: id.bus, address: id.address }),
        ControlMessage::StopPolling => Event::Stop,
        ControlMessage::Terminate => Event::Terminate,
    }
}

/// How many device handles the worker holds in a phase.
pub open spec fn handles_held(p: Phase) -> nat {
    match p {
        Phase::Idle => 0,
        Phase::Polling(_) => 1,
    }
}

/// The device work that an event calls for in a phase.
pub open spec fn plan_of(p: Phase, e: Event) -> Plan {
    let polling = p is Polling;
    match e {
        Event::Start(t) => Plan { release: polling, acquire: Some(t), probe: false, exit: false },
        Event::Stop => Plan { release: polling, acquire: None, probe: false, exit: false },
        Event::Terminate => Plan { release: polling, acquire: None, probe: false, exit: true },
        Event::Tick => Plan { release: false, acquire: None, probe: polling, exit: false },
    }
}

/// The report for an event in a phase, given how the start attempt and the probe came out
/// (each is read only where the plan calls for that work).
pub open spec fn report_of(p: Phase, e: Event, start: Result<(), StartError>, probe_ok: bool) -> Report {
    match e {
        Event::Start(t) => match start {
            Ok(()) => Report::Started(t),
            Err(err) => Report::StartFailed(t, err),
        },
        Event::Stop => if p is Polling {
            Report::Stopped
        } else {
            Report::Unchanged
        },
        Event::Terminate => Report::Exiting,
        Event::Tick => match p {
            Phase::Idle => Report::Unchanged,
            Phase::Polling(t) => if probe_ok {
                Report::Probed(t)
            } else {
                Report::DeviceLost(t)
            },
        },
    }
}

/// The phase that follows a report.
pub open spec fn phase_after(p: Phase, r: Report) -> Phase {
    match r {
        Report::Started(t) => Phase::Polling(t),
        Report::Unchanged => p,
        Report::Probed(_) => p,
        _ => Phase::Idle,
    }
}

/// Whether a report can come of an event in a phase, whatever the device work returned.
pub open spec fn report_fits(p: Phase, e: Event, r: Report) -> bool {
    exists|start: Result<(), StartError>, probe_ok: bool| r == report_of(p, e, start, probe_ok)
}

/// The phase after one event, given how the device work came out.
pub open spec fn step(p: Phase, e: Event, start: Result<(), StartError>, probe_ok: bool) -> Phase {
    phase_after(p, report_of(p, e, start, probe_ok))
}

/// The most handles held at any instant while one event is handled: before any work, between
/// the release and the acquisition, and after the work.
pub open spec fn peak_handles(p: Phase, e: Event, start: Result<(), StartError>, probe_ok: bool) -> nat {
    let plan = plan_of(p, e);
    let between: nat = if plan.release { 0 } else { handles_held(p) };
    let during: nat = between + if plan.acquire is Some && start is Ok { 1nat } else { 0nat };
    let after = handles_held(step(p, e, start, probe_ok));
    if handles_held(p) >= during && handles_held(p) >= after {
        handles_held(p)
    } else if during >= after {
        during
    } else {
        after
    }
}

/// Decides the device work for an event in a phase.
pub fn plan(p: Phase, e: Event) -> (r: Plan)
    ensures
        r == plan_of(p, e),
{
    let polling = match p {
        Phase::Idle => false,
        Phase::Polling(_) => true,
    };
    match e {
        Event::Start(t) => Plan { release: polling, acquire: Some(t), probe: false, exit: false },
        Event::Stop => Plan { release: polling, acquire: None, probe: false, exit: false },
        Event::Terminate => Plan { release: polling, acquire: None, probe: false, exit: true },
        Event::Tick => Plan { release: false, acquire: None, probe: polling, exit: false },
    }
}

/// Reports how an event ended, given how the start attempt and the probe came out.
pub fn conclude(p: Phase, e: Event, start: Result<(), StartError>, probe_ok: bool) -> (r: Report)
    ensures
        r == report_of(p, e, start, probe_ok),
        report_fits(p, e, r),
{
    match e {
        Event::Start(t) => match start {
            Ok(()) => Report::Started(t),
            Err(err) => Report::StartFailed(t, err),
        },
        Event::Stop => match p {
            Phase::Idle => Report::Unchanged,
            Phase::Polling(_) => Report::Stopped,
        },
        Event::Terminate => Report::Exiting,
        Event::Tick => match p {
            Phase::Idle => Report::Unchanged,
            Phase::Polling(t) => if probe_ok {
                Report::Probed(t)
            } else {
                Report::DeviceLost(t)
            },
        },
    }
}

/// The phase that follows a report.
pub fn next_phase(p: Phase, r: Report) -> (q: Phase)
    ensures
        q == phase_after(p, r),
{
    match r {
        Report::Started(t) => Phase::Polling(t),
        Report::Unchanged => p,
        Report::Probed(_) => p,
        _ => Phase::Idle,
    }
}


/// How a wait for the next message ended.
#[derive(Clone, Debug)]
pub enum Waited {
    /// A message arrived.
    Message(ControlMessage),
    /// The whole interval passed without a message.
    TimedOut,
    /// The controller is gone; no message will come.
    Disconnected,
}

/// How long the worker waits for a message in a phase, in milliseconds: one polling interval
/// while polling, and without limit while idle.
pub open spec fn wait_timeout_of(p: Phase, c: PollConfig) -> Option<u64> {
    if p is Polling {
        Some(c.poll_interval_ms)
    } else {
        None
    }
}

/// The event that ends a wait.
pub open spec fn event_after_of(w: Waited) -> Event {
    match w {
        Waited::Message(m) => event_of(m),
        Waited::TimedOut => Event::Tick,
        Waited::Disconnected => Event::Terminate,
    }
}

/// Whether a wait with this limit ends without a message, when the next message arrives
/// `arrival_ms` after the wait began.
pub open spec fn times_out(timeout: Option<u64>, arrival_ms: nat) -> bool {
    timeout matches Some(t) && t <= arrival_ms
}

/// How long the worker waits for a message in a phase.
pub fn wait_timeout(p: Phase, c: PollConfig) -> (r: Option<u64>)
    ensures
        r == wait_timeout_of(p, c),
{
    match p {
        Phase::Idle => None,
        Phase::Polling(_) => Some(c.poll_interval_ms),
    }
}

/// The event that ends a wait: the message's own event, a tick for an interval without a
/// message, and termination once the controller is gone.
pub fn event_after(w: &Waited) -> (e: Event)
    ensures
        e == event_after_of(*w),
{
    match w {
        Waited::Message(m) => m.event(),
        Waited::TimedOut => Event::Tick,
        Waited::Disconnected => Event::Terminate,
    }
}

/// A stop that arrives within one polling interval of a successful start ends the session
/// before any probe: the worker waits one interval, the stop comes first, no probe is planned,
/// and the worker is idle with no handle afterwards. While polling, each interval that passes
/// without a message calls for exactly one probe, of the session's device.
pub proof fn lemma_stop_within_interval(t: Placement, c: PollConfig, arrival_ms: nat, probe_ok: bool)
    requires
        arrival_ms < c.poll_interval_ms,
    ensures
        ({
            let p1 = step(Phase::Idle, Event::Start(t), Ok(()), probe_ok);
            &&& !plan_of(Phase::Idle, Event::Start(t)).probe
            &&& p1 == Phase::Polling(t)
            &&& wait_timeout_of(p1, c) == Some(c.poll_interval_ms)
            &&& !times_out(wait_timeout_of(p1, c), arrival_ms)
            &&& !plan_of(p1, Event::Stop).probe
            &&& step(p1, Event::Stop, Ok(()), probe_ok) == Phase::Idle
            &&& handles_held(step(p1, Event::Stop, Ok(()), probe_ok)) == 0
        }),
        times_out(wait_timeout_of(Phase::Polling(t), c), c.poll_interval_ms as nat),
        plan_of(Phase::Polling(t), Event::Tick).probe,
        !times_out(wait_timeout_of(Phase::Idle, c), arrival_ms),
        !plan_of(Phase::Idle, Event::Tick).probe,
{
}

/// Handling any event never holds more than one device handle at any instant: a start while
/// polling releases the open handle before a new one is acquired.
pub proof fn lemma_at_most_one_handle(p: Phase, e: Event, start: Result<(), StartError>, probe_ok: bool)
    ensures
        peak_handles(p, e, start, probe_ok) <= 1,
        plan_of(p, e).acquire is Some ==> handles_held(p) == 0 || plan_of(p, e).release,
        handles_held(step(p, e, start, probe_ok)) <= 1,
{
}

/// A stop while idle is a no-op: no device work, an `Unchanged` report, and the worker stays idle.
pub proof fn lemma_stop_when_idle_is_noop(start: Result<(), StartError>, probe_ok: bool)
    ensures
        plan_of(Phase::Idle, Event::Stop) == (Plan { release: false, acquire: None, probe: false, exit: false }),
        report_of(Phase::Idle, Event::Stop, start, probe_ok) == Report::Unchanged,
        step(Phase::Idle, Event::Stop, start, probe_ok) == Phase::Idle,
{
}

/// Two starts without a stop in between, both of which open their device, leave exactly one
/// session, on the second placement; the second start first releases the first session's handle.
pub proof fn lemma_second_start_replaces_session(p: Phase, a: Placement, b: Placement, probe_ok: bool)
    ensures
        ({
            let p1 = step(p, Event::Start(a), Ok(()), probe_ok);
            let p2 = step(p1, Event::Start(b), Ok(()), probe_ok);
            &&& p1 == Phase::Polling(a)
            &&& plan_of(p1, Event::Start(b)).release
            &&& p2 == Phase::Polling(b)
            &&& handles_held(p2) == 1
            &&& peak_handles(p1, Event::Start(b), Ok(()), probe_ok) == 1
        }),
{
}

/// The phase after starting a session at `t` and stopping it, once per entry of `starts`
/// (each entry says how that start attempt came out).
pub open spec fn start_stop_cycles(p: Phase, t: Placement, starts: Seq<Result<(), StartError>>) -> Phase
    decreases starts.len(),
{
    if starts.len() == 0 {
        p
    } else {
        let p1 = step(p, Event::Start(t), starts[0], true);
        let p2 = step(p1, Event::Stop, Ok(()), true);
        start_stop_cycles(p2, t, starts.drop_first())
    }
}

/// Whether no instant of the start/stop cycles holds more than one handle.
pub open spec fn cycles_hold_at_most_one(p: Phase, t: Placement, starts: Seq<Result<(), StartError>>) -> bool
    decreases starts.len(),
{
    if starts.len() == 0 {
        handles_held(p) <= 1
    } else {
        let p1 = step(p, Event::Start(t), starts[0], true);
        &&& peak_handles(p, Event::Start(t), starts[0], true) <= 1
        &&& peak_handles(p1, Event::Stop, Ok(()), true) <= 1
        &&& cycles_hold_at_most_one(step(p1, Event::Stop, Ok(()), true), t, starts.drop_first())
    }
}

/// Starting a session and stopping it, any number of times in a row and whatever each start
/// attempt returns, never holds more than one handle and leaves the worker idle.
pub proof fn lemma_start_stop_cycles(t: Placement, starts: Seq<Result<(), StartError>>)
    ensures
        cycles_hold_at_most_one(Phase::Idle, t, starts),
        start_stop_cycles(Phase::Idle, t, starts) == Phase::Idle,
    decreases starts.len(),
{
    if starts.len() > 0 {
        lemma_start_stop_cycles(t, starts.drop_first());
    }
}

} // verus!
