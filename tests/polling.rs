use usbpoll::bus::{
    descriptor_request, locate_in, probe_outcome, snapshot_from, DescriptorError, ListError,
};
use usbpoll::controller::{Controller, PollConfig, ToggleAction, DEFAULT_POLL_INTERVAL_MS};
use usbpoll::identity::{find_placement, format_hex4, identify, DeviceIdentity, Placement, RawDevice};
use usbpoll::machine::{
    conclude, event_after, next_phase, plan, wait_timeout, ControlMessage, Event, Phase, Report,
    StartError, Waited,
};
use usbpoll::worker::PollingWorker;

fn raw(bus: u8, address: u8, vendor_id: u16, product_id: u16) -> RawDevice {
    RawDevice { placement: Placement { bus, address }, vendor_id, product_id }
}

fn is_hex4(s: &str) -> bool {
    s.len() == 4 && s.chars().all(|c| c.is_ascii_digit() || ('a'..='f').contains(&c))
}

fn handles(p: Phase) -> u32 {
    match p {
        Phase::Idle => 0,
        Phase::Polling(_) => 1,
    }
}

/// Runs one event through the pure machine and returns the new phase, the report, and the
/// most handles held at any instant while it was handled.
fn run(p: Phase, e: Event, start: Result<(), StartError>, probe_ok: bool) -> (Phase, Report, u32) {
    let work = plan(p, e);
    let between = if work.release { 0 } else { handles(p) };
    let during = between + if work.acquire.is_some() && start.is_ok() { 1 } else { 0 };
    let r = conclude(p, e, start, probe_ok);
    let q = next_phase(p, r);
    (q, r, handles(p).max(during).max(handles(q)))
}

#[test]
fn hex_is_lowercase_and_zero_padded() {
    assert_eq!(format_hex4(0x1d6b), "1d6b");
    assert_eq!(format_hex4(0x0002), "0002");
    assert_eq!(format_hex4(0), "0000");
    assert_eq!(format_hex4(0xffff), "ffff");
    assert_eq!(format_hex4(0xABCD), "abcd");
    assert_eq!(format_hex4(0x0483), "0483");
}

#[test]
fn identifiers_match_four_hex_digits() {
    let raws = vec![raw(1, 1, 0, 0xffff), raw(2, 7, 0x0a0b, 0x00f0), raw(3, 127, 0x1234, 0xbeef)];
    let ids = identify(&raws);
    assert_eq!(ids.len(), 3);
    for id in &ids {
        assert!(is_hex4(&id.vendor_id), "{}", id.vendor_id);
        assert!(is_hex4(&id.product_id), "{}", id.product_id);
    }
}

#[test]
fn two_device_enumeration_in_order() {
    let raws = vec![raw(1, 2, 0x1d6b, 0x0002), raw(1, 5, 0x0483, 0x5740)];
    let ids: Vec<DeviceIdentity> = identify(&raws);
    assert_eq!(ids.len(), 2);
    assert_eq!((ids[0].bus, ids[0].address), (1, 2));
    assert_eq!(ids[0].vendor_id, "1d6b");
    assert_eq!(ids[0].product_id, "0002");
    assert_eq!((ids[1].bus, ids[1].address), (1, 5));
    assert_eq!(ids[1].vendor_id, "0483");
    assert_eq!(ids[1].product_id, "5740");
}

#[test]
fn empty_snapshot_lists_nothing() {
    assert!(identify(&Vec::new()).is_empty());
    assert_eq!(find_placement(&Vec::new(), 1, 1), None);
}

#[test]
fn locate_after_enumerate_finds_listed_placements() {
    let raws = vec![raw(1, 2, 0x1d6b, 0x0002), raw(1, 5, 0x0483, 0x5740)];
    let ids = identify(&raws);
    let ps: Vec<Placement> = raws.iter().map(|r| r.placement).collect();
    for (i, id) in ids.iter().enumerate() {
        assert_eq!(find_placement(&ps, id.bus, id.address), Some(i));
    }
    assert_eq!(find_placement(&ps, 1, 3), None);
    assert_eq!(find_placement(&ps, 2, 2), None);
}

#[test]
fn locate_returns_first_of_equal_placements() {
    let ps = vec![
        Placement { bus: 3, address: 4 },
        Placement { bus: 1, address: 9 },
        Placement { bus: 1, address: 9 },
    ];
    assert_eq!(find_placement(&ps, 1, 9), Some(1));
    assert_eq!(find_placement(&ps, 3, 4), Some(0));
    assert_eq!(find_placement(&ps, 255, 255), None);
}

#[test]
fn start_stop_cycles_hold_at_most_one_handle() {
    let t = Placement { bus: 1, address: 2 };
    let outcomes = [Ok(()), Err(StartError::NotFound), Ok(()), Err(StartError::OpenFailed), Ok(())];
    let mut p = Phase::Idle;
    for n in 0..50 {
        let start = outcomes[n % outcomes.len()];
        let (p1, _, peak1) = run(p, Event::Start(t), start, true);
        assert!(peak1 <= 1);
        let (p2, _, peak2) = run(p1, Event::Stop, Ok(()), true);
        assert!(peak2 <= 1);
        assert_eq!(p2, Phase::Idle);
        p = p2;
    }
}

#[test]
fn stop_while_idle_is_a_no_op() {
    let work = plan(Phase::Idle, Event::Stop);
    assert!(!work.release && work.acquire.is_none() && !work.probe && !work.exit);
    let r = conclude(Phase::Idle, Event::Stop, Ok(()), true);
    assert_eq!(r, Report::Unchanged);
    assert_eq!(next_phase(Phase::Idle, r), Phase::Idle);

    let mut worker = PollingWorker::new();
    assert_eq!(worker.handle(Event::Stop), Report::Unchanged);
    assert_eq!(worker.current_phase(), Phase::Idle);
    assert!(!worker.is_polling());
}

#[test]
fn second_start_replaces_the_session() {
    let a = Placement { bus: 1, address: 2 };
    let b = Placement { bus: 1, address: 5 };
    let (p1, r1, _) = run(Phase::Idle, Event::Start(a), Ok(()), true);
    assert_eq!(r1, Report::Started(a));
    assert_eq!(p1, Phase::Polling(a));
    let work = plan(p1, Event::Start(b));
    assert!(work.release);
    assert_eq!(work.acquire, Some(b));
    let (p2, r2, peak) = run(p1, Event::Start(b), Ok(()), true);
    assert_eq!(r2, Report::Started(b));
    assert_eq!(p2, Phase::Polling(b));
    assert_eq!(handles(p2), 1);
    assert_eq!(peak, 1);
}

#[test]
fn start_for_missing_device_stays_idle() {
    let t = Placement { bus: 9, address: 0 };
    let (p, r, _) = run(Phase::Idle, Event::Start(t), Err(StartError::NotFound), true);
    assert_eq!(r, Report::StartFailed(t, StartError::NotFound));
    assert_eq!(p, Phase::Idle);

    // No enumerated device ever has address 0, so a fresh scan never finds this placement.
    let mut worker = PollingWorker::new();
    let r = worker.handle(Event::Start(t));
    assert!(matches!(
        r,
        Report::StartFailed(p, StartError::NotFound) | Report::StartFailed(p, StartError::Enumeration) if p == t
    ));
    assert_eq!(worker.current_phase(), Phase::Idle);
}

#[test]
fn stop_within_the_interval_allows_at_most_one_probe() {
    let config = PollConfig::new();
    assert_eq!(config.poll_interval_ms, 200);
    let stop_after_ms: u64 = 50;
    let t = Placement { bus: 1, address: 2 };
    // After the start the worker waits one interval; the stop arrives first.
    let waiting = wait_timeout(Phase::Polling(t), config).unwrap();
    let mut events = vec![Event::Start(t)];
    let mut elapsed = 0;
    while elapsed + waiting <= stop_after_ms {
        events.push(Event::Tick);
        elapsed += waiting;
    }
    events.push(Event::Stop);
    let mut p = Phase::Idle;
    let mut probes = 0;
    for e in events {
        if plan(p, e).probe {
            probes += 1;
        }
        let (q, _, _) = run(p, e, Ok(()), true);
        p = q;
    }
    assert!(probes <= 1);
    assert_eq!(p, Phase::Idle);
}

#[test]
fn tick_probes_only_while_polling() {
    let t = Placement { bus: 2, address: 3 };
    assert!(!plan(Phase::Idle, Event::Tick).probe);
    assert!(plan(Phase::Polling(t), Event::Tick).probe);
    assert_eq!(conclude(Phase::Polling(t), Event::Tick, Ok(()), true), Report::Probed(t));
    let lost = conclude(Phase::Polling(t), Event::Tick, Ok(()), false);
    assert_eq!(lost, Report::DeviceLost(t));
    assert_eq!(next_phase(Phase::Polling(t), lost), Phase::Idle);
    assert_eq!(conclude(Phase::Idle, Event::Tick, Ok(()), false), Report::Unchanged);
}

#[test]
fn terminate_releases_and_exits() {
    let t = Placement { bus: 2, address: 3 };
    let work = plan(Phase::Polling(t), Event::Terminate);
    assert!(work.release && work.exit);
    let r = conclude(Phase::Polling(t), Event::Terminate, Ok(()), true);
    assert_eq!(r, Report::Exiting);
    assert_eq!(next_phase(Phase::Polling(t), r), Phase::Idle);
    let mut worker = PollingWorker::new();
    assert_eq!(worker.handle_message(&ControlMessage::Terminate), Report::Exiting);
    assert_eq!(worker.current_phase(), Phase::Idle);
}

#[test]
fn open_failure_is_reported() {
    let t = Placement { bus: 4, address: 4 };
    let r = conclude(Phase::Polling(Placement { bus: 1, address: 1 }), Event::Start(t), Err(StartError::OpenFailed), true);
    assert_eq!(r, Report::StartFailed(t, StartError::OpenFailed));
    assert_eq!(next_phase(Phase::Polling(t), r), Phase::Idle);
}

#[test]
fn messages_become_events() {
    let id = identify(&vec![raw(3, 9, 1, 2)]).remove(0);
    assert_eq!(ControlMessage::StartPolling(id).event(), Event::Start(Placement { bus: 3, address: 9 }));
    assert_eq!(ControlMessage::StopPolling.event(), Event::Stop);
    assert_eq!(ControlMessage::Terminate.event(), Event::Terminate);
}

#[test]
fn controller_toggle_and_start() {
    let mut c = Controller::new();
    assert!(!c.looping);
    assert_eq!(c.request_toggle(), ToggleAction::Refresh);
    assert!(!c.looping);
    let id = identify(&vec![raw(1, 2, 0x1d6b, 2)]).remove(0);
    let m = c.request_start(id);
    assert!(c.looping);
    assert!(matches!(m, ControlMessage::StartPolling(ref d) if d.bus == 1 && d.address == 2));
    assert_eq!(c.request_toggle(), ToggleAction::SendStop);
    assert!(!c.looping);
}

#[test]
fn controller_flag_follows_reports() {
    let t = Placement { bus: 1, address: 2 };
    let mut c = Controller::new();
    c.looping = true;
    c.acknowledge(Report::StartFailed(t, StartError::NotFound));
    assert!(!c.looping);
    c.acknowledge(Report::Started(t));
    assert!(c.looping);
    c.acknowledge(Report::Probed(t));
    assert!(c.looping);
    c.acknowledge(Report::DeviceLost(t));
    assert!(!c.looping);
    c.acknowledge(Report::Unchanged);
    assert!(!c.looping);
}

#[test]
fn poll_interval_is_configurable() {
    assert_eq!(PollConfig::new().poll_interval_ms, DEFAULT_POLL_INTERVAL_MS);
    assert_eq!(PollConfig::with_interval(50).poll_interval_ms, 50);
}

#[test]
fn snapshot_keeps_one_record_per_device_in_order() {
    let listing = Ok(vec![
        (Placement { bus: 1, address: 2 }, Ok((0x1d6b, 0x0002))),
        (Placement { bus: 1, address: 5 }, Ok((0x0483, 0x5740))),
    ]);
    let raws = snapshot_from(listing).unwrap();
    assert_eq!(raws, vec![raw(1, 2, 0x1d6b, 0x0002), raw(1, 5, 0x0483, 0x5740)]);
    assert_eq!(snapshot_from(Ok(Vec::new())), Ok(Vec::new()));
}

#[test]
fn failed_listing_is_an_enumeration_error() {
    assert_eq!(snapshot_from(Err(())), Err(ListError::Enumeration));
}

#[test]
fn one_unreadable_descriptor_fails_the_snapshot() {
    let listing = Ok(vec![
        (Placement { bus: 1, address: 2 }, Ok((0x1d6b, 0x0002))),
        (Placement { bus: 1, address: 3 }, Err(())),
        (Placement { bus: 1, address: 5 }, Ok((0x0483, 0x5740))),
    ]);
    assert_eq!(snapshot_from(listing), Err(ListError::Descriptor));
}

#[test]
fn locate_in_a_listing() {
    let ps = vec![Placement { bus: 1, address: 2 }, Placement { bus: 1, address: 5 }];
    assert_eq!(locate_in(&Ok(ps.clone()), 1, 5), Ok(1));
    assert_eq!(locate_in(&Ok(ps), 2, 5), Err(StartError::NotFound));
    assert_eq!(locate_in(&Err(()), 1, 5), Err(StartError::Enumeration));
}

#[test]
fn probe_sends_the_device_descriptor_request() {
    let q = descriptor_request();
    assert_eq!(q.request_type, 0x80);
    assert_eq!(q.request, 0x06);
    assert_eq!(q.value, 0x0100);
    assert_eq!(q.index, 0);
    assert_eq!(q.length, 18);
    assert_eq!(q.timeout_ms, 1000);
}

#[test]
fn probe_outcome_follows_the_transfer() {
    assert_eq!(probe_outcome(Ok(18)), Ok(()));
    assert_eq!(probe_outcome(Ok(0)), Ok(()));
    assert_eq!(probe_outcome(Err(rusb::Error::Pipe)), Err(DescriptorError));
    assert_eq!(probe_outcome(Err(rusb::Error::NoDevice)), Err(DescriptorError));
}

#[test]
fn worker_waits_one_interval_only_while_polling() {
    let c = PollConfig::with_interval(200);
    assert_eq!(wait_timeout(Phase::Idle, c), None);
    assert_eq!(wait_timeout(Phase::Polling(Placement { bus: 1, address: 2 }), c), Some(200));
}

#[test]
fn waits_become_events() {
    assert_eq!(event_after(&Waited::TimedOut), Event::Tick);
    assert_eq!(event_after(&Waited::Disconnected), Event::Terminate);
    assert_eq!(event_after(&Waited::Message(ControlMessage::StopPolling)), Event::Stop);
}
