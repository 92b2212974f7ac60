use vstd::prelude::*;

verus! {

/// How one direction of a relay came to an end.
#[derive(PartialEq, Eq, Structural, Clone, Copy, Debug)]
pub enum EndCause {
    /// The source half reached a clean end of stream.
    Eof,
    /// The copy failed with an error of the timed-out kind.
    TimedOut,
    /// The copy failed with any other error.
    Failed,
}

/// One of the two copy operations of a relay.
#[derive(PartialEq, Eq, Structural, Clone, Copy, Debug)]
pub enum Direction {
    /// Bytes read from the client, written to the upstream tunnel.
    ClientToUpstream,
    /// Bytes read from the upstream tunnel, written to the client.
    UpstreamToClient,
}

/// The first of the two copy operations to finish, and how it finished.
#[derive(PartialEq, Eq, Structural, Clone, Copy, Debug)]
pub struct RelayEnd {
    pub direction: Direction,
    pub cause: EndCause,
}

/// Severity at which an event of the tunnel is reported.
#[derive(PartialEq, Eq, Structural, Clone, Copy, Debug)]
pub enum LogLevel {
    Trace,
    Debug,
    Info,
    Error,
}

/// Clean ends and timeouts are expected on idle tunnels; anything else is
/// reported one level higher.
pub open spec fn spec_end_level(cause: EndCause) -> LogLevel {
    match cause {
        EndCause::Failed => LogLevel::Debug,
        _ => LogLevel::Trace,
    }
}

/// The level at which the end of a relay direction is reported.
pub fn end_level(cause: EndCause) -> (r: LogLevel)
    ensures
        r == spec_end_level(cause),
{
    match cause {
        EndCause::Failed => LogLevel::Debug,
        _ => LogLevel::Trace,
    }
}

} // verus!
