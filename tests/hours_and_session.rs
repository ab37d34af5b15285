use trade_core::market_hours::{
    ny_time_at, MarketCalendar, MarketHours, PollSchedule, MARKET_CLOSE_EXT, MARKET_OPEN_EXT,
    REST_POLL_RATE_CLOSED_MILLIS, REST_POLL_RATE_OPEN_MILLIS,
};
use trade_core::session::{FrameKind, ProtocolSession, SessionAction, SessionEvent, SessionState};

#[test]
fn poll_interval_inside_and_outside_hours() {
    let cal = MarketCalendar::new_york();
    let sched = PollSchedule::with_open_override(None);
    let noon = 12 * 3600;
    let night = 22 * 3600;
    assert_eq!(MarketHours::poll_interval(noon, &cal, true, &sched), REST_POLL_RATE_OPEN_MILLIS);
    assert_eq!(MarketHours::poll_interval(night, &cal, true, &sched), REST_POLL_RATE_CLOSED_MILLIS);
    assert_eq!(MarketHours::poll_interval(MARKET_OPEN_EXT, &cal, true, &sched), 3000);
    assert_eq!(MarketHours::poll_interval(MARKET_CLOSE_EXT, &cal, true, &sched), 3000);
    assert_eq!(MarketHours::poll_interval(MARKET_CLOSE_EXT + 1, &cal, true, &sched), 10000);
    assert_eq!(MarketHours::poll_interval(5 * 3600, &cal, false, &sched), 10000);
}

#[test]
fn poll_interval_override() {
    let cal = MarketCalendar::new_york();
    let sched = PollSchedule::with_open_override(Some(1500));
    assert_eq!(MarketHours::poll_interval(12 * 3600, &cal, true, &sched), 1500);
    assert_eq!(MarketHours::poll_interval(2 * 3600, &cal, true, &sched), 10000);
}

#[test]
fn is_open_regular_and_extended() {
    let cal = MarketCalendar::new_york();
    assert!(MarketHours::is_open_at(10 * 3600, &cal, false, false));
    assert!(!MarketHours::is_open_at(9 * 3600 + 30 * 60, &cal, false, false));
    assert!(!MarketHours::is_open_at(17 * 3600, &cal, false, false));
    assert!(MarketHours::is_open_at(17 * 3600, &cal, true, false));
    assert!(!MarketHours::is_open_at(21 * 3600, &cal, true, false));
    assert!(MarketHours::is_open_at(21 * 3600, &cal, true, true));
    assert!(MarketHours::is_open(false, true));
}

#[test]
fn new_york_time_of_day() {
    assert_eq!(ny_time_at(1689606000000), 11 * 3600);
    assert_eq!(ny_time_at(1673967600000), 10 * 3600);
    assert_eq!(ny_time_at(i64::MAX), 0);
}

fn respond(action: SessionAction, failures: &mut u32) -> SessionEvent {
    match action {
        SessionAction::OpenTransport => {
            if *failures > 0 {
                *failures -= 1;
                SessionEvent::ConnectFailed
            } else {
                SessionEvent::ConnectOk
            }
        }
        SessionAction::SendAuth => SessionEvent::Frame(FrameKind::AuthAck),
        SessionAction::Wait { .. } => SessionEvent::DelayElapsed,
        _ => SessionEvent::Frame(FrameKind::Data),
    }
}

#[test]
fn session_reconnects_until_streaming() {
    let n: u32 = 3;
    let mut failures = n;
    let (mut s, mut action) = ProtocolSession::new(5);
    let mut waits = 0;
    let mut steps = 0;
    while s.state != SessionState::Streaming && steps < 100 {
        if let SessionAction::Wait { millis } = action {
            assert_eq!(millis, 5);
            waits += 1;
        }
        let e = respond(action, &mut failures);
        action = s.step(e);
        steps += 1;
    }
    assert_eq!(s.state, SessionState::Streaming);
    assert_eq!(waits, 3);
    assert_eq!(s.reconnects, 3);
    assert_eq!(steps, 2 * n + 3);
}

#[test]
fn session_drops_to_disconnected_on_error() {
    let (mut s, _) = ProtocolSession::new(5000);
    assert_eq!(s.step(SessionEvent::ConnectOk), SessionAction::SendAuth);
    assert_eq!(s.step(SessionEvent::Frame(FrameKind::AuthRejected)), SessionAction::Nothing);
    assert_eq!(s.state, SessionState::Authenticating);
    assert_eq!(s.step(SessionEvent::Frame(FrameKind::AuthAck)), SessionAction::SendSubscribe);
    assert_eq!(s.step(SessionEvent::Frame(FrameKind::Data)), SessionAction::Dispatch);
    assert_eq!(s.state, SessionState::Streaming);
    assert_eq!(s.step(SessionEvent::TransportError), SessionAction::Wait { millis: 5000 });
    assert_eq!(s.state, SessionState::Disconnected);
    assert_eq!(s.step(SessionEvent::DelayElapsed), SessionAction::OpenTransport);
    assert_eq!(s.state, SessionState::Connecting);
}
