use tunnel_relay::accept::{AcceptLoop, LoopAction, LoopEvent, LoopPhase, ACCEPT_BACKOFF_MILLIS};
use tunnel_relay::config::{check_config, StartupError, TargetAddress, TunnelConfig};
use tunnel_relay::relay::{end_level, Direction, EndCause, LogLevel, RelayEnd};
use tunnel_relay::tunnel::{Action, Connection, Event, Note, Outcome, Phase, Report};

fn config() -> TunnelConfig {
    TunnelConfig {
        tcp_enabled: true,
        local_addr: Some("127.0.0.1:1080".to_string()),
        forward: Some(TargetAddress { host: "example.com".to_string(), port: 80 }),
        no_delay: true,
    }
}

fn listening() -> AcceptLoop {
    let (mut l, first) = AcceptLoop::new();
    assert_eq!(first, LoopAction::Bind);
    assert_eq!(l.step(LoopEvent::Bound { ok: true }), LoopAction::Accept);
    l
}

fn relaying(no_delay: bool) -> Connection {
    let mut c = Connection::new(no_delay);
    let first = c.step(Event::Start).action;
    if no_delay {
        assert_eq!(first, Action::SetNoDelay);
        assert_eq!(c.step(Event::NoDelaySet { ok: true }).action, Action::QueryPeer);
    } else {
        assert_eq!(first, Action::QueryPeer);
    }
    assert_eq!(c.step(Event::PeerKnown { ok: true }).action, Action::OpenTunnel);
    assert_eq!(c.step(Event::TunnelOpened { ok: true }).action, Action::StartRelay);
    assert_eq!(c.phase, Phase::Relaying);
    c
}

#[test]
fn upstream_close_closes_client() {
    let plan = check_config(config()).unwrap();
    assert_eq!(plan.target.host, "example.com");
    assert_eq!(plan.target.port, 80);
    let mut c = relaying(plan.no_delay);
    let end = RelayEnd { direction: Direction::UpstreamToClient, cause: EndCause::Eof };
    let st = c.step(Event::DirectionEnded { end });
    assert_eq!(st.action, Action::CloseBoth);
    assert_eq!(
        st.report,
        Some(Report { level: LogLevel::Trace, note: Note::DirectionClosed { end } })
    );
    assert_eq!(c.phase, Phase::Closing);
    let st = c.step(Event::Released);
    assert_eq!(st.action, Action::Finish);
    assert!(c.is_closed());
    assert_eq!(c.outcome, Outcome::Completed);
}

#[test]
fn bind_failure_exits_without_accepting() {
    let (mut l, first) = AcceptLoop::new();
    assert_eq!(first, LoopAction::Bind);
    assert_eq!(l.step(LoopEvent::Bound { ok: false }), LoopAction::Exit);
    assert_eq!(l.phase, LoopPhase::Stopped);
    assert_eq!(l.step(LoopEvent::Accepted { ok: true }), LoopAction::Exit);
    assert_eq!(l.step(LoopEvent::PauseElapsed), LoopAction::Exit);
}

#[test]
fn no_delay_failure_still_relays() {
    let mut c = Connection::new(true);
    assert_eq!(c.step(Event::Start).action, Action::SetNoDelay);
    let st = c.step(Event::NoDelaySet { ok: false });
    assert_eq!(st.action, Action::QueryPeer);
    assert_eq!(st.report, Some(Report { level: LogLevel::Error, note: Note::NoDelayFailed }));
    assert_eq!(c.step(Event::PeerKnown { ok: true }).action, Action::OpenTunnel);
    assert_eq!(c.step(Event::TunnelOpened { ok: true }).action, Action::StartRelay);
    assert_eq!(c.phase, Phase::Relaying);
}

#[test]
fn no_delay_off_skips_tuning() {
    let mut c = Connection::new(false);
    assert_eq!(c.step(Event::Start).action, Action::QueryPeer);
    assert_eq!(c.phase, Phase::Identifying);
}

#[test]
fn tunnel_failure_closes_client_only() {
    let mut c = Connection::new(false);
    c.step(Event::Start);
    c.step(Event::PeerKnown { ok: true });
    let st = c.step(Event::TunnelOpened { ok: false });
    assert_eq!(st.action, Action::CloseClient);
    assert_eq!(st.report, Some(Report { level: LogLevel::Debug, note: Note::TunnelFailed }));
    assert!(c.is_closed());
    assert_eq!(c.outcome, Outcome::Failed);
    let end = RelayEnd { direction: Direction::ClientToUpstream, cause: EndCause::Eof };
    for ev in [Event::Start, Event::TunnelOpened { ok: true }, Event::DirectionEnded { end }, Event::Released] {
        assert_eq!(c.step(ev).action, Action::Finish);
        assert_eq!(c.outcome, Outcome::Failed);
    }
}

#[test]
fn peer_address_failure_closes_client() {
    let mut c = Connection::new(false);
    c.step(Event::Start);
    let st = c.step(Event::PeerKnown { ok: false });
    assert_eq!(st.action, Action::CloseClient);
    assert_eq!(st.report, Some(Report { level: LogLevel::Debug, note: Note::PeerUnknown }));
    assert_eq!(c.outcome, Outcome::Failed);
}

#[test]
fn every_end_cause_is_a_normal_close() {
    for direction in [Direction::ClientToUpstream, Direction::UpstreamToClient] {
        for (cause, level) in [
            (EndCause::Eof, LogLevel::Trace),
            (EndCause::TimedOut, LogLevel::Trace),
            (EndCause::Failed, LogLevel::Debug),
        ] {
            let mut c = relaying(false);
            let end = RelayEnd { direction, cause };
            let st = c.step(Event::DirectionEnded { end });
            assert_eq!(st.action, Action::CloseBoth);
            assert_eq!(st.report.unwrap().level, level);
            c.step(Event::Released);
            assert_eq!(c.outcome, Outcome::Completed);
        }
    }
}

#[test]
fn end_levels() {
    assert_eq!(end_level(EndCause::Eof), LogLevel::Trace);
    assert_eq!(end_level(EndCause::TimedOut), LogLevel::Trace);
    assert_eq!(end_level(EndCause::Failed), LogLevel::Debug);
}

#[test]
fn unexpected_event_while_relaying_closes_both() {
    let mut c = relaying(true);
    let st = c.step(Event::Start);
    assert_eq!(st.action, Action::CloseBoth);
    assert_eq!(st.report, Some(Report { level: LogLevel::Error, note: Note::Unexpected }));
    assert!(c.is_closed());
}

#[test]
fn closing_never_hangs() {
    let mut c = relaying(false);
    let end = RelayEnd { direction: Direction::ClientToUpstream, cause: EndCause::TimedOut };
    c.step(Event::DirectionEnded { end });
    c.step(Event::DirectionEnded { end });
    assert!(c.is_closed());
}

#[test]
fn each_connection_closes_on_its_own() {
    let mut l = listening();
    let mut conns = Vec::new();
    for _ in 0..5 {
        assert_eq!(l.step(LoopEvent::Accepted { ok: true }), LoopAction::Dispatch);
        conns.push(relaying(true));
    }
    assert_eq!(l.phase, LoopPhase::Listening);
    for (i, c) in conns.iter_mut().enumerate() {
        let cause = if i % 2 == 0 { EndCause::Failed } else { EndCause::Eof };
        let end = RelayEnd { direction: Direction::UpstreamToClient, cause };
        c.step(Event::DirectionEnded { end });
        c.step(Event::Released);
        assert!(c.is_closed());
    }
    assert_eq!(l.step(LoopEvent::Accepted { ok: true }), LoopAction::Dispatch);
    assert_eq!(l.phase, LoopPhase::Listening);
}

#[test]
fn accept_failure_pauses_once() {
    let mut l = listening();
    assert_eq!(ACCEPT_BACKOFF_MILLIS, 1000);
    assert_eq!(l.step(LoopEvent::Accepted { ok: false }), LoopAction::Pause { millis: 1000 });
    assert_eq!(l.phase, LoopPhase::BackingOff);
    assert_eq!(l.step(LoopEvent::PauseElapsed), LoopAction::Accept);
    assert_eq!(l.phase, LoopPhase::Listening);
}

#[test]
fn repeated_accept_failures_keep_running() {
    let mut l = listening();
    for _ in 0..100 {
        assert_eq!(l.step(LoopEvent::Accepted { ok: false }), LoopAction::Pause { millis: 1000 });
        assert_eq!(l.step(LoopEvent::PauseElapsed), LoopAction::Accept);
    }
    assert_eq!(l.step(LoopEvent::Bound { ok: false }), LoopAction::Accept);
    assert_eq!(l.step(LoopEvent::Accepted { ok: true }), LoopAction::Dispatch);
}

#[test]
fn startup_errors() {
    let mut cfg = config();
    cfg.tcp_enabled = false;
    cfg.forward = None;
    assert_eq!(check_config(cfg).unwrap_err(), StartupError::TcpDisabled);
    let mut cfg = config();
    cfg.local_addr = None;
    cfg.forward = None;
    assert_eq!(check_config(cfg).unwrap_err(), StartupError::MissingLocalAddr);
    let mut cfg = config();
    cfg.forward = None;
    assert_eq!(check_config(cfg).unwrap_err(), StartupError::MissingForward);
}

#[test]
fn startup_plan_keeps_values() {
    let mut cfg = config();
    cfg.no_delay = false;
    let plan = check_config(cfg).unwrap();
    assert_eq!(plan.local_addr, "127.0.0.1:1080");
    assert!(!plan.no_delay);
}
