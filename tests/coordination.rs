use status_tui::{
    millis_of, now_millis, ControllerAction, ControllerMessage, ControllerState, DisplayThread,
    Relay, RelayAction, UIMessage, POLL_INTERVAL_MS, UPDATE_INTERVAL_MS,
};

/// Drives a controller started at `start` through polls every
/// `POLL_INTERVAL_MS`, up to and including `until`; a shutdown request is
/// enqueued at `shutdown_at`, if given. Returns the actions taken and the time
/// of each.
fn simulate(start: i64, until: i64, shutdown_at: Option<i64>) -> Vec<(i64, ControllerAction)> {
    let mut state = ControllerState::start(start);
    let mut out = Vec::new();
    let mut pending = false;
    let mut t = start;
    while t <= until {
        if shutdown_at.map_or(false, |s| s <= t) && !pending {
            pending = true;
        }
        let polled = if pending {
            pending = false;
            Some(ControllerMessage::Shutdown)
        } else {
            None
        };
        let action = state.step(polled, t);
        out.push((t, action));
        if action == ControllerAction::Shutdown {
            break;
        }
        t += POLL_INTERVAL_MS as i64;
    }
    out
}

fn pushes_by(trace: &[(i64, ControllerAction)], t: i64) -> usize {
    trace
        .iter()
        .filter(|(at, a)| *at <= t && *a == ControllerAction::PushUpdate)
        .count()
}

#[test]
fn one_push_per_second() {
    let trace = simulate(0, 2000, None);
    assert_eq!(pushes_by(&trace, 900), 0);
    assert_eq!(pushes_by(&trace, 1000), 1);
    assert_eq!(pushes_by(&trace, 1100), 1);
    assert_eq!(pushes_by(&trace, 1900), 1);
    assert_eq!(pushes_by(&trace, 2000), 2);
    assert!(trace.iter().all(|(_, a)| *a != ControllerAction::Shutdown));
}

#[test]
fn shutdown_before_first_push() {
    let trace = simulate(0, 5000, Some(300));
    assert_eq!(pushes_by(&trace, 5000), 0);
    let quits = trace.iter().filter(|(_, a)| *a == ControllerAction::Shutdown).count();
    assert_eq!(quits, 1);
    assert_eq!(trace.last(), Some(&(300, ControllerAction::Shutdown)));
}

#[test]
fn shutdown_between_polls_is_seen_at_next_poll() {
    let trace = simulate(0, 5000, Some(1250));
    assert_eq!(trace.last(), Some(&(1300, ControllerAction::Shutdown)));
    assert!(1300 - 1250 <= POLL_INTERVAL_MS as i64);
    assert_eq!(pushes_by(&trace, 5000), 1);
}

#[test]
fn step_sets_next_deadline_from_now() {
    let mut state = ControllerState::start(0);
    assert_eq!(state, ControllerState::Running { next_update_ms: UPDATE_INTERVAL_MS });
    assert_eq!(state.step(None, 999), ControllerAction::Sleep);
    assert_eq!(state.step(None, 1250), ControllerAction::PushUpdate);
    assert_eq!(state, ControllerState::Running { next_update_ms: 2250 });
    assert!(state.is_running());
}

#[test]
fn stopped_controller_stays_stopped() {
    let mut state = ControllerState::start(0);
    assert_eq!(state.step(Some(ControllerMessage::Shutdown), 10), ControllerAction::Shutdown);
    assert_eq!(state, ControllerState::Stopped);
    assert!(!state.is_running());
    assert_eq!(state.step(None, 5000), ControllerAction::Shutdown);
    assert_eq!(state, ControllerState::Stopped);
}

#[test]
fn deadline_saturates_at_end_of_time() {
    let state = ControllerState::start(i64::MAX - 10);
    assert_eq!(state, ControllerState::Running { next_update_ms: i64::MAX });
}

#[test]
fn tick_with_shutdown_stops() {
    let mut state = ControllerState::start_now();
    assert!(state.is_running());
    assert_eq!(state.tick(None), ControllerAction::Sleep);
    assert_eq!(state.tick(Some(ControllerMessage::Shutdown)), ControllerAction::Shutdown);
    assert!(!state.is_running());
}

#[test]
fn relay_forwards_updates_in_order_then_terminates() {
    let mut relay = Relay::new();
    let msgs = vec![
        UIMessage::UpdateStatus(1u32),
        UIMessage::UpdateStatus(2),
        UIMessage::UpdateStatus(3),
        UIMessage::Quit,
    ];
    let mut out = Vec::new();
    for m in msgs {
        if let Some(a) = relay.handle(m) {
            out.push(a);
        }
    }
    assert_eq!(
        out,
        vec![
            RelayAction::ForwardUpdate(1),
            RelayAction::ForwardUpdate(2),
            RelayAction::ForwardUpdate(3),
            RelayAction::Terminate,
        ]
    );
    assert!(relay.finished());
}

#[test]
fn relay_forwards_nothing_after_quit() {
    let mut relay = Relay::new();
    assert!(!relay.finished());
    assert_eq!(relay.handle(UIMessage::Quit::<u32>), Some(RelayAction::Terminate));
    assert!(relay.finished());
    assert_eq!(relay.handle(UIMessage::UpdateStatus(7u32)), None);
    assert_eq!(relay.handle(UIMessage::Quit::<u32>), None);
    assert!(relay.finished());
}

#[test]
fn stop_twice_joins_once() {
    let mut thread = DisplayThread::new(42u32);
    assert!(thread.is_held());
    assert_eq!(thread.stop(), Some(42));
    assert!(!thread.is_held());
    assert_eq!(thread.stop(), None);
    assert!(!thread.is_held());
}

#[test]
fn stop_on_exited_thread_returns() {
    let mut thread = DisplayThread::new(());
    assert_eq!(thread.stop(), Some(()));
    assert_eq!(thread.stop(), None);
}

#[test]
fn millis_of_converts_exactly() {
    assert_eq!(millis_of(2, 5_000_000), 2005);
    assert_eq!(millis_of(0, 999_999_999), 999);
    assert_eq!(millis_of(-1, 500_000_000), -500);
    assert_eq!(millis_of(i64::MAX, 0), i64::MAX);
    assert_eq!(millis_of(i64::MIN, 0), i64::MIN);
}

#[test]
fn now_millis_reads_the_wall_clock() {
    let a = now_millis();
    // 2020-09-13, well in the past of any machine running this.
    assert!(a > 1_600_000_000_000);
    let b = now_millis();
    assert!(b >= a - 1000);
}
