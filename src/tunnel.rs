use vstd::prelude::*;

use crate::relay::{end_level, spec_end_level, LogLevel, RelayEnd};

verus! {

/// Where one accepted connection stands in its life.
#[derive(PartialEq, Eq, Structural, Clone, Copy, Debug)]
pub enum Phase {
    /// Accepted, nothing done with it yet.
    Accepted,
    /// Waiting for the result of disabling Nagle's algorithm.
    Tuning,
    /// Waiting for the peer address of the client socket.
    Identifying,
    /// Waiting for the upstream tunnel to the target to open.
    Connecting,
    /// Both copy operations run.
    Relaying,
    /// One copy operation ended; both connections are being released.
    Closing,
    /// Terminal: both connections are released.
    Closed,
}

/// How the task that owned a connection ended.
#[derive(PartialEq, Eq, Structural, Clone, Copy, Debug)]
pub enum Outcome {
    /// Still running.
    Running,
    /// The relay ran and ended; whatever ended it, this is a normal close.
    Completed,
    /// Setup failed before any relay started, or the driver sent an event
    /// the connection was not waiting for.
    Failed,
}

/// What the driver of a connection observed since the last step.
#[derive(PartialEq, Eq, Structural, Clone, Copy, Debug)]
pub enum Event {
    /// The connection has been handed to its own task.
    Start,
    /// Disabling Nagle's algorithm returned; `ok` tells whether it worked.
    NoDelaySet { ok: bool },
    /// Asking for the peer address returned; `ok` tells whether it worked.
    PeerKnown { ok: bool },
    /// Opening the upstream tunnel returned; `ok` tells whether it worked.
    TunnelOpened { ok: bool },
    /// The first of the two copy operations finished.
    DirectionEnded { end: RelayEnd },
    /// Both connections have been dropped.
    Released,
}

/// What the driver of a connection does next.
#[derive(PartialEq, Eq, Structural, Clone, Copy, Debug)]
pub enum Action {
    /// Disable Nagle's algorithm on the client socket.
    SetNoDelay,
    /// Ask the client socket for its peer address.
    QueryPeer,
    /// Open a tunnel to the target through the picked upstream server.
    OpenTunnel,
    /// Split both connections and race the two copy operations.
    StartRelay,
    /// Drop both halves of both connections.
    CloseBoth,
    /// Drop the client socket; no tunnel is open.
    CloseClient,
    /// Nothing is left to do: the task ends.
    Finish,
}

/// What is worth reporting about a step.
#[derive(PartialEq, Eq, Structural, Clone, Copy, Debug)]
pub enum Note {
    /// Disabling Nagle's algorithm failed; the connection goes on.
    NoDelayFailed,
    /// The peer address could not be had; the connection is dropped.
    PeerUnknown,
    /// The upstream tunnel could not be opened; the connection is dropped.
    TunnelFailed,
    /// The relay is running.
    RelayEstablished,
    /// One direction of the relay ended.
    DirectionClosed { end: RelayEnd },
    /// The relay is over.
    RelayClosed,
    /// An event came that the current phase does not wait for.
    Unexpected,
}

/// A report about a step, with its severity.
#[derive(PartialEq, Eq, Structural, Clone, Copy, Debug)]
pub struct Report {
    pub level: LogLevel,
    pub note: Note,
}

/// The result of one step: what to do, and what to report, if anything.
#[derive(PartialEq, Eq, Structural, Clone, Copy, Debug)]
pub struct Step {
    pub action: Action,
    pub report: Option<Report>,
}

/// The life of one accepted connection, from accept to release.
#[derive(PartialEq, Eq, Structural, Clone, Copy, Debug)]
pub struct Connection {
    /// Whether Nagle's algorithm is to be disabled on the client socket.
    pub no_delay: bool,
    pub phase: Phase,
    pub outcome: Outcome,
}

pub open spec fn report(level: LogLevel, note: Note) -> Option<Report> {
    Some(Report { level, note })
}

pub open spec fn moved(c: Connection, phase: Phase, outcome: Outcome) -> Connection {
    Connection { phase, outcome, ..c }
}

pub open spec fn step_of(action: Action, report: Option<Report>) -> Step {
    Step { action, report }
}

/// Whether a connection is past any relay: its client socket has been handed
/// over to both copy operations, so both connections must be closed.
pub open spec fn relay_started(p: Phase) -> bool {
    p == Phase::Relaying || p == Phase::Closing
}

/// The transition of a connection on one event: the connection after it, and
/// the step the driver takes.
pub open spec fn spec_step(c: Connection, ev: Event) -> (Connection, Step) {
    match (c.phase, ev) {
        (Phase::Closed, _) => (c, step_of(Action::Finish, None)),
        (Phase::Accepted, Event::Start) => if c.no_delay {
            (moved(c, Phase::Tuning, Outcome::Running), step_of(Action::SetNoDelay, None))
        } else {
            (moved(c, Phase::Identifying, Outcome::Running), step_of(Action::QueryPeer, None))
        },
        (Phase::Tuning, Event::NoDelaySet { ok }) => (
            moved(c, Phase::Identifying, Outcome::Running),
            step_of(
                Action::QueryPeer,
                if ok { None } else { report(LogLevel::Error, Note::NoDelayFailed) },
            ),
        ),
        (Phase::Identifying, Event::PeerKnown { ok }) => if ok {
            (moved(c, Phase::Connecting, Outcome::Running), step_of(Action::OpenTunnel, None))
        } else {
            (
                moved(c, Phase::Closed, Outcome::Failed),
                step_of(Action::CloseClient, report(LogLevel::Debug, Note::PeerUnknown)),
            )
        },
        (Phase::Connecting, Event::TunnelOpened { ok }) => if ok {
            (
                moved(c, Phase::Relaying, Outcome::Running),
                step_of(Action::StartRelay, report(LogLevel::Debug, Note::RelayEstablished)),
            )
        } else {
            (
                moved(c, Phase::Closed, Outcome::Failed),
                step_of(Action::CloseClient, report(LogLevel::Debug, Note::TunnelFailed)),
            )
        },
        (Phase::Relaying, Event::DirectionEnded { end }) => (
            moved(c, Phase::Closing, Outcome::Running),
            step_of(
                Action::CloseBoth,
                report(spec_end_level(end.cause), Note::DirectionClosed { end }),
            ),
        ),
        (Phase::Closing, Event::Released) => (
            moved(c, Phase::Closed, Outcome::Completed),
            step_of(Action::Finish, report(LogLevel::Debug, Note::RelayClosed)),
        ),
        _ => (
            moved(c, Phase::Closed, Outcome::Failed),
            step_of(
                if relay_started(c.phase) { Action::CloseBoth } else { Action::CloseClient },
                report(LogLevel::Error, Note::Unexpected),
            ),
        ),
    }
}

/// How many more steps a connection can take at most before it is closed.
pub open spec fn rank(p: Phase) -> nat {
    match p {
        Phase::Accepted => 6,
        Phase::Tuning => 5,
        Phase::Identifying => 4,
        Phase::Connecting => 3,
        Phase::Relaying => 2,
        Phase::Closing => 1,
        Phase::Closed => 0,
    }
}

fn reported(level: LogLevel, note: Note) -> (r: Option<Report>)
    ensures
        r == report(level, note),
{
    Some(Report { level, note })
}

impl Connection {
    /// A connection just accepted; `no_delay` asks for Nagle's algorithm to
    /// be disabled on it.
    pub fn new(no_delay: bool) -> (r: Connection)
        ensures
            r == (Connection { no_delay, phase: Phase::Accepted, outcome: Outcome::Running }),
    {
        Connection { no_delay, phase: Phase::Accepted, outcome: Outcome::Running }
    }

    /// Whether the connection has been released.
    pub fn is_closed(&self) -> (r: bool)
        ensures
            r == (self.phase == Phase::Closed),
    {
        self.phase == Phase::Closed
    }

    /// Takes one event and says what the driver does next.
    pub fn step(&mut self, ev: Event) -> (r: Step)
        ensures
            (*final(self), r) == spec_step(*old(self), ev),
    {
        let from = self.phase;
        match (from, ev) {
            (Phase::Closed, _) => Step { action: Action::Finish, report: None },
            (Phase::Accepted, Event::Start) => if self.no_delay {
                self.phase = Phase::Tuning;
                self.outcome = Outcome::Running;
                Step { action: Action::SetNoDelay, report: None }
            } else {
                self.phase = Phase::Identifying;
                self.outcome = Outcome::Running;
                Step { action: Action::QueryPeer, report: None }
            },
            (Phase::Tuning, Event::NoDelaySet { ok }) => {
                self.phase = Phase::Identifying;
                self.outcome = Outcome::Running;
                let report = if ok { None } else { reported(LogLevel::Error, Note::NoDelayFailed) };
                Step { action: Action::QueryPeer, report }
            },
            (Phase::Identifying, Event::PeerKnown { ok }) => if ok {
                self.phase = Phase::Connecting;
                self.outcome = Outcome::Running;
                Step { action: Action::OpenTunnel, report: None }
            } else {
                self.phase = Phase::Closed;
                self.outcome = Outcome::Failed;
                Step { action: Action::CloseClient, report: reported(LogLevel::Debug, Note::PeerUnknown) }
            },
            (Phase::Connecting, Event::TunnelOpened { ok }) => if ok {
                self.phase = Phase::Relaying;
                self.outcome = Outcome::Running;
                Step {
                    action: Action::StartRelay,
                    report: reported(LogLevel::Debug, Note::RelayEstablished),
                }
            } else {
                self.phase = Phase::Closed;
                self.outcome = Outcome::Failed;
                Step { action: Action::CloseClient, report: reported(LogLevel::Debug, Note::TunnelFailed) }
            },
            (Phase::Relaying, Event::DirectionEnded { end }) => {
                self.phase = Phase::Closing;
                self.outcome = Outcome::Running;
                let level = end_level(end.cause);
                Step { action: Action::CloseBoth, report: reported(level, Note::DirectionClosed { end }) }
            },
            (Phase::Closing, Event::Released) => {
                self.phase = Phase::Closed;
                self.outcome = Outcome::Completed;
                Step { action: Action::Finish, report: reported(LogLevel::Debug, Note::RelayClosed) }
            },
            _ => {
                let started = from == Phase::Relaying || from == Phase::Closing;
                self.phase = Phase::Closed;
                self.outcome = Outcome::Failed;
                let action = if started { Action::CloseBoth } else { Action::CloseClient };
                Step { action, report: reported(LogLevel::Error, Note::Unexpected) }
            },
        }
    }
}

/// The connection after taking the events in order.
pub open spec fn run(c: Connection, events: Seq<Event>) -> Connection
    decreases events.len(),
{
    if events.len() == 0 {
        c
    } else {
        run(spec_step(c, events[0]).0, events.drop_first())
    }
}

/// The actions the driver takes on the events in order.
pub open spec fn actions(c: Connection, events: Seq<Event>) -> Seq<Action>
    decreases events.len(),
{
    if events.len() == 0 {
        Seq::empty()
    } else {
        let (next, st) = spec_step(c, events[0]);
        seq![st.action] + actions(next, events.drop_first())
    }
}

/// Every event moves a connection that is not closed strictly closer to
/// being closed, and a closed connection stays closed, doing nothing.
pub proof fn lemma_step_progress(c: Connection, ev: Event)
    ensures
        c.phase != Phase::Closed ==> rank(spec_step(c, ev).0.phase) < rank(c.phase),
        c.phase == Phase::Closed ==> spec_step(c, ev).0 == c,
        c.phase == Phase::Closed ==> spec_step(c, ev).1.action == Action::Finish,
{
}

/// Each connection reaches the closed phase on its own: whatever events its
/// driver observes, after as many of them as its rank it is closed. Nothing
/// in this depends on any other connection or on the accept loop.
pub proof fn lemma_connection_closes(c: Connection, events: Seq<Event>)
    requires
        events.len() >= rank(c.phase),
    ensures
        run(c, events).phase == Phase::Closed,
    decreases events.len(),
{
    if events.len() > 0 {
        let next = spec_step(c, events[0]).0;
        lemma_step_progress(c, events[0]);
        lemma_connection_closes(next, events.drop_first());
    }
}

/// A closed connection stays closed and only ever finishes.
pub proof fn lemma_closed_is_final(c: Connection, events: Seq<Event>)
    requires
        c.phase == Phase::Closed,
    ensures
        run(c, events) == c,
        forall|i: int| 0 <= i < events.len() ==> #[trigger] actions(c, events)[i] == Action::Finish,
        actions(c, events).len() == events.len(),
    decreases events.len(),
{
    if events.len() > 0 {
        lemma_closed_is_final(c, events.drop_first());
        let tail = actions(c, events.drop_first());
        assert forall|i: int| 0 <= i < events.len() implies #[trigger] actions(c, events)[i]
            == Action::Finish by {
            if i > 0 {
                assert(actions(c, events)[i] == tail[i - 1]);
            }
        }
    }
}

/// When the upstream tunnel cannot be opened, the client socket is closed,
/// the task ends in failure, and no relay is ever started for the
/// connection, whatever its driver observes afterwards.
pub proof fn lemma_failed_tunnel_never_relays(c: Connection, later: Seq<Event>)
    requires
        c.phase == Phase::Connecting,
    ensures
        ({
            let (next, st) = spec_step(c, Event::TunnelOpened { ok: false });
            &&& st.action == Action::CloseClient
            &&& next.phase == Phase::Closed
            &&& next.outcome == Outcome::Failed
            &&& !actions(next, later).contains(Action::StartRelay)
        }),
{
    let next = spec_step(c, Event::TunnelOpened { ok: false }).0;
    lemma_closed_is_final(next, later);
    if actions(next, later).contains(Action::StartRelay) {
        let i = choose|i: int| 0 <= i < actions(next, later).len() && actions(next, later)[i]
            == Action::StartRelay;
        assert(actions(next, later)[i] == Action::Finish);
    }
}

/// When either direction of a running relay ends, for any cause, both
/// connections are closed at once; the next event closes the connection
/// whatever it is, and the release of both connections ends the task as
/// completed, not failed.
pub proof fn lemma_direction_end_closes_both(c: Connection, end: RelayEnd, ev: Event)
    requires
        c.phase == Phase::Relaying,
    ensures
        ({
            let (closing, st) = spec_step(c, Event::DirectionEnded { end });
            let (closed, _) = spec_step(closing, ev);
            &&& st.action == Action::CloseBoth
            &&& closing.phase == Phase::Closing
            &&& closed.phase == Phase::Closed
            &&& ev == Event::Released ==> closed.outcome == Outcome::Completed
        }),
{
}

/// Past the phase that asks for it, a connection never again opens a tunnel
/// or starts a relay.
proof fn lemma_no_second_setup(c: Connection, events: Seq<Event>)
    ensures
        rank(c.phase) < rank(Phase::Identifying) ==> !actions(c, events).contains(Action::OpenTunnel),
        rank(c.phase) < rank(Phase::Connecting) ==> !actions(c, events).contains(Action::StartRelay),
    decreases events.len(),
{
    if events.len() > 0 {
        let (next, st) = spec_step(c, events[0]);
        lemma_step_progress(c, events[0]);
        lemma_no_second_setup(next, events.drop_first());
        let tail = actions(next, events.drop_first());
        let all = actions(c, events);
        assert(all == seq![st.action] + tail);
        if rank(c.phase) < rank(Phase::Identifying) && all.contains(Action::OpenTunnel) {
            let i = choose|i: int| 0 <= i < all.len() && all[i] == Action::OpenTunnel;
            if i > 0 {
                assert(tail[i - 1] == Action::OpenTunnel);
            }
        }
        if rank(c.phase) < rank(Phase::Connecting) && all.contains(Action::StartRelay) {
            let i = choose|i: int| 0 <= i < all.len() && all[i] == Action::StartRelay;
            if i > 0 {
                assert(tail[i - 1] == Action::StartRelay);
            }
        }
    }
}

/// Whatever its driver observes, a connection asks for at most one upstream
/// tunnel and starts at most one relay.
pub proof fn lemma_one_tunnel_per_connection(c: Connection, events: Seq<Event>, i: int, j: int)
    requires
        0 <= i < j < actions(c, events).len(),
    ensures
        actions(c, events)[i] == Action::OpenTunnel ==> actions(c, events)[j] != Action::OpenTunnel,
        actions(c, events)[i] == Action::StartRelay ==> actions(c, events)[j] != Action::StartRelay,
    decreases events.len(),
{
    let (next, st) = spec_step(c, events[0]);
    let tail = actions(next, events.drop_first());
    let all = actions(c, events);
    assert(all == seq![st.action] + tail);
    if i == 0 {
        lemma_no_second_setup(next, events.drop_first());
        assert(all[j] == tail[j - 1]);
        if all[0] == Action::OpenTunnel && all[j] == Action::OpenTunnel {
            assert(tail.contains(Action::OpenTunnel));
        }
        if all[0] == Action::StartRelay && all[j] == Action::StartRelay {
            assert(tail.contains(Action::StartRelay));
        }
    } else {
        lemma_one_tunnel_per_connection(next, events.drop_first(), i - 1, j - 1);
    }
}

} // verus!
