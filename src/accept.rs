use vstd::prelude::*;

verus! {

/// How long the accept loop pauses after a failed accept, in milliseconds.
pub const ACCEPT_BACKOFF_MILLIS: u64 = 1000;

/// Where the accept loop stands.
#[derive(PartialEq, Eq, Structural, Clone, Copy, Debug)]
pub enum LoopPhase {
    /// Waiting for the listening socket to be bound.
    Binding,
    /// Waiting for the next connection.
    Listening,
    /// Pausing after a failed accept.
    BackingOff,
    /// Terminal: binding failed and the loop never ran.
    Stopped,
}

/// What the driver of the accept loop observed since the last step.
#[derive(PartialEq, Eq, Structural, Clone, Copy, Debug)]
pub enum LoopEvent {
    /// Binding the listening socket returned; `ok` tells whether it worked.
    Bound { ok: bool },
    /// Accepting a connection returned; `ok` tells whether it worked.
    Accepted { ok: bool },
    /// The pause after a failed accept is over.
    PauseElapsed,
}

/// What the driver of the accept loop does next.
#[derive(PartialEq, Eq, Structural, Clone, Copy, Debug)]
pub enum LoopAction {
    /// Bind the listening socket.
    Bind,
    /// Wait for the next connection.
    Accept,
    /// Pick an upstream server, hand the accepted connection to a task of its
    /// own without waiting for it, then wait for the next connection.
    Dispatch,
    /// Sleep for the given number of milliseconds.
    Pause { millis: u64 },
    /// Give up with the bind error; no connection is ever accepted.
    Exit,
}

/// The accept loop: binds once, then accepts forever.
#[derive(PartialEq, Eq, Structural, Clone, Copy, Debug)]
pub struct AcceptLoop {
    pub phase: LoopPhase,
}

pub open spec fn at(phase: LoopPhase) -> AcceptLoop {
    AcceptLoop { phase }
}

/// The transition of the accept loop on one event. Nothing a connection's
/// task does is an event of the loop: a task's end is never observed here.
pub open spec fn spec_loop_step(l: AcceptLoop, ev: LoopEvent) -> (AcceptLoop, LoopAction) {
    match (l.phase, ev) {
        (LoopPhase::Stopped, _) => (l, LoopAction::Exit),
        (LoopPhase::Binding, LoopEvent::Bound { ok }) => if ok {
            (at(LoopPhase::Listening), LoopAction::Accept)
        } else {
            (at(LoopPhase::Stopped), LoopAction::Exit)
        },
        (LoopPhase::Binding, _) => (at(LoopPhase::Stopped), LoopAction::Exit),
        (LoopPhase::Listening, LoopEvent::Accepted { ok }) => if ok {
            (at(LoopPhase::Listening), LoopAction::Dispatch)
        } else {
            (at(LoopPhase::BackingOff), LoopAction::Pause { millis: ACCEPT_BACKOFF_MILLIS })
        },
        (LoopPhase::Listening, _) => (at(LoopPhase::Listening), LoopAction::Accept),
        (LoopPhase::BackingOff, _) => (at(LoopPhase::Listening), LoopAction::Accept),
    }
}

impl AcceptLoop {
    /// A loop that has yet to bind; its first action is to bind.
    pub fn new() -> (r: (AcceptLoop, LoopAction))
        ensures
            r == (at(LoopPhase::Binding), LoopAction::Bind),
    {
        (AcceptLoop { phase: LoopPhase::Binding }, LoopAction::Bind)
    }

    /// Takes one event and says what the driver does next.
    pub fn step(&mut self, ev: LoopEvent) -> (r: LoopAction)
        ensures
            (*final(self), r) == spec_loop_step(*old(self), ev),
    {
        match (self.phase, ev) {
            (LoopPhase::Stopped, _) => LoopAction::Exit,
            (LoopPhase::Binding, LoopEvent::Bound { ok }) => if ok {
                self.phase = LoopPhase::Listening;
                LoopAction::Accept
            } else {
                self.phase = LoopPhase::Stopped;
                LoopAction::Exit
            },
            (LoopPhase::Binding, _) => {
                self.phase = LoopPhase::Stopped;
                LoopAction::Exit
            },
            (LoopPhase::Listening, LoopEvent::Accepted { ok }) => if ok {
                LoopAction::Dispatch
            } else {
                self.phase = LoopPhase::BackingOff;
                LoopAction::Pause { millis: ACCEPT_BACKOFF_MILLIS }
            },
            (LoopPhase::Listening, _) => LoopAction::Accept,
            (LoopPhase::BackingOff, _) => {
                self.phase = LoopPhase::Listening;
                LoopAction::Accept
            },
        }
    }
}

/// Whether the loop is past binding and still running.
pub open spec fn running(l: AcceptLoop) -> bool {
    l.phase == LoopPhase::Listening || l.phase == LoopPhase::BackingOff
}

/// The loop after taking the events in order.
pub open spec fn loop_run(l: AcceptLoop, events: Seq<LoopEvent>) -> AcceptLoop
    decreases events.len(),
{
    if events.len() == 0 {
        l
    } else {
        loop_run(spec_loop_step(l, events[0]).0, events.drop_first())
    }
}

/// The actions the driver takes on the events in order.
pub open spec fn loop_actions(l: AcceptLoop, events: Seq<LoopEvent>) -> Seq<LoopAction>
    decreases events.len(),
{
    if events.len() == 0 {
        Seq::empty()
    } else {
        let (next, a) = spec_loop_step(l, events[0]);
        seq![a] + loop_actions(next, events.drop_first())
    }
}

/// Once bound, the loop runs for good: no sequence of events, failed
/// accepts included, makes it exit.
pub proof fn lemma_loop_never_stops(l: AcceptLoop, events: Seq<LoopEvent>)
    requires
        running(l),
    ensures
        running(loop_run(l, events)),
        !loop_actions(l, events).contains(LoopAction::Exit),
    decreases events.len(),
{
    if events.len() > 0 {
        let next = spec_loop_step(l, events[0]).0;
        lemma_loop_never_stops(next, events.drop_first());
        let tail = loop_actions(next, events.drop_first());
        let all = loop_actions(l, events);
        assert(all == seq![spec_loop_step(l, events[0]).1] + tail);
        if all.contains(LoopAction::Exit) {
            let i = choose|i: int| 0 <= i < all.len() && all[i] == LoopAction::Exit;
            if i > 0 {
                assert(tail[i - 1] == LoopAction::Exit);
            }
        }
    }
}

/// Any number of successful accepts in a row each dispatch their connection
/// to a task of its own, and the loop is left listening for the next one.
pub proof fn lemma_accepts_dispatch(l: AcceptLoop, events: Seq<LoopEvent>)
    requires
        l.phase == LoopPhase::Listening,
        forall|i: int| 0 <= i < events.len() ==> #[trigger] events[i] == (LoopEvent::Accepted { ok: true }),
    ensures
        loop_run(l, events).phase == LoopPhase::Listening,
        loop_actions(l, events).len() == events.len(),
        forall|i: int| 0 <= i < events.len() ==> #[trigger] loop_actions(l, events)[i] == LoopAction::Dispatch,
    decreases events.len(),
{
    if events.len() > 0 {
        let rest = events.drop_first();
        assert forall|i: int| 0 <= i < rest.len() implies #[trigger] rest[i] == (LoopEvent::Accepted { ok: true }) by {
            assert(rest[i] == events[i + 1]);
        }
        lemma_accepts_dispatch(l, rest);
        let tail = loop_actions(l, rest);
        assert forall|i: int| 0 <= i < events.len() implies #[trigger] loop_actions(l, events)[i]
            == LoopAction::Dispatch by {
            if i > 0 {
                assert(loop_actions(l, events)[i] == tail[i - 1]);
            }
        }
    }
}

/// A failed accept is followed by exactly one pause of the backoff interval,
/// and whatever is observed next, the action after that pause is the next
/// accept attempt.
pub proof fn lemma_accept_failure_pauses_once(l: AcceptLoop, next_event: LoopEvent)
    requires
        l.phase == LoopPhase::Listening,
    ensures
        ({
            let (paused, a1) = spec_loop_step(l, LoopEvent::Accepted { ok: false });
            let (after, a2) = spec_loop_step(paused, next_event);
            &&& a1 == (LoopAction::Pause { millis: ACCEPT_BACKOFF_MILLIS })
            &&& a2 == LoopAction::Accept
            &&& after.phase == LoopPhase::Listening
        }),
{
}

/// A failed bind stops the loop before any accept: it exits, and keeps
/// exiting whatever it is told afterwards.
pub proof fn lemma_bind_failure_exits(events: Seq<LoopEvent>)
    ensures
        ({
            let (stopped, a) = spec_loop_step(at(LoopPhase::Binding), LoopEvent::Bound { ok: false });
            &&& a == LoopAction::Exit
            &&& stopped.phase == LoopPhase::Stopped
            &&& loop_run(stopped, events) == stopped
            &&& !loop_actions(stopped, events).contains(LoopAction::Accept)
            &&& !loop_actions(stopped, events).contains(LoopAction::Dispatch)
        }),
    decreases events.len(),
{
    let stopped = at(LoopPhase::Stopped);
    if events.len() > 0 {
        lemma_bind_failure_exits(events.drop_first());
        let tail = loop_actions(stopped, events.drop_first());
        let all = loop_actions(stopped, events);
        assert(all == seq![LoopAction::Exit] + tail);
        if all.contains(LoopAction::Accept) {
            let i = choose|i: int| 0 <= i < all.len() && all[i] == LoopAction::Accept;
            if i > 0 {
                assert(tail[i - 1] == LoopAction::Accept);
            }
        }
        if all.contains(LoopAction::Dispatch) {
            let i = choose|i: int| 0 <= i < all.len() && all[i] == LoopAction::Dispatch;
            if i > 0 {
                assert(tail[i - 1] == LoopAction::Dispatch);
            }
        }
    }
}

} // verus!
