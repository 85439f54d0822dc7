//! The close policy of a `CONNECT` tunnel: which endpoint a pump failure
//! blames, how long to keep the other direction once one settles, and whether
//! a closed tunnel counts as a failed transfer.

use vstd::prelude::*;

verus! {

/// Which half of the tunnel an event refers to.
#[derive(Debug, Clone, Copy, PartialEq, Eq, Structural)]
pub enum Direction {
    /// Client to upstream (the upload).
    ClientToUpstream,
    /// Upstream to client (the download).
    UpstreamToClient,
}

/// The socket operation a pump failed on: a read failure means the source
/// endpoint died, a write failure the sink.
#[derive(Debug, Clone, Copy, PartialEq, Eq, Structural)]
pub enum PumpOp {
    Read,
    Write,
}

/// One endpoint of the tunnel.
#[derive(Debug, Clone, Copy, PartialEq, Eq, Structural)]
pub enum Endpoint {
    Client,
    Upstream,
}

/// How long to keep the peer direction alive once the first one settled.
#[derive(Debug, Clone, Copy, PartialEq, Eq, Structural)]
pub enum Wait {
    /// Clean EOF: let the peer finish on its own (a legitimate half-close).
    Full,
    /// Upstream reset: a brief window to flush buffered bytes to the client.
    Grace,
    /// Client reset or gone: nothing is left to deliver, drop the peer now.
    Abandon,
}

/// The terminal state of one direction's pump.
#[derive(Debug, Clone, Copy, PartialEq, Eq, Structural)]
pub enum Outcome {
    /// Clean EOF: the source half-closed and everything was relayed.
    Eof,
    /// The pump failed on this operation.
    Failed(PumpOp),
    /// Abandoned by the close policy; never seen reaching EOF.
    Dropped,
}

/// The endpoint a failure blames: a read failure blames the source, a write
/// failure the sink.
pub open spec fn blamed(dir: Direction, op: PumpOp) -> Endpoint {
    match (dir, op) {
        (Direction::ClientToUpstream, PumpOp::Read) => Endpoint::Client,
        (Direction::ClientToUpstream, PumpOp::Write) => Endpoint::Upstream,
        (Direction::UpstreamToClient, PumpOp::Read) => Endpoint::Upstream,
        (Direction::UpstreamToClient, PumpOp::Write) => Endpoint::Client,
    }
}

/// Resolve which endpoint reset, from the failing pump's direction and op.
pub fn who_reset(dir: Direction, op: PumpOp) -> (e: Endpoint)
    ensures
        e == blamed(dir, op),
{
    match (dir, op) {
        (Direction::ClientToUpstream, PumpOp::Read) => Endpoint::Client,
        (Direction::ClientToUpstream, PumpOp::Write) => Endpoint::Upstream,
        (Direction::UpstreamToClient, PumpOp::Read) => Endpoint::Upstream,
        (Direction::UpstreamToClient, PumpOp::Write) => Endpoint::Client,
    }
}

/// The wait rule: a clean EOF waits fully, a client reset abandons the peer,
/// an upstream reset grants the grace period.
pub open spec fn wait_rule(failed: Option<PumpOp>, dir: Direction) -> Wait {
    match failed {
        None => Wait::Full,
        Some(op) => match blamed(dir, op) {
            Endpoint::Client => Wait::Abandon,
            Endpoint::Upstream => Wait::Grace,
        },
    }
}

/// Decide the peer's wait policy from the first-settled pump's result
/// (`None` for a clean EOF, else the failed operation).
pub fn wait_for(failed: Option<PumpOp>, dir: Direction) -> (w: Wait)
    ensures
        w == wait_rule(failed, dir),
{
    match failed {
        None => Wait::Full,
        Some(op) => match who_reset(dir, op) {
            Endpoint::Client => Wait::Abandon,
            Endpoint::Upstream => Wait::Grace,
        },
    }
}

/// The outcome of a pump that ran to its end.
pub fn outcome_from(failed: Option<PumpOp>) -> (o: Outcome)
    ensures
        o == match failed {
            None => Outcome::Eof,
            Some(op) => Outcome::Failed(op),
        },
{
    match failed {
        None => Outcome::Eof,
        Some(op) => Outcome::Failed(op),
    }
}

/// The close classification: whether the tunnel's transfer failed, and on
/// which operation and direction.
///
/// A write failure on the upload means the upstream refused the body mid-relay
/// (a failure even if the download then ended cleanly). Otherwise a download
/// that reached EOF delivered the whole response, so a later client reset is
/// benign teardown. An upstream reset of the open download, or a client reset
/// before the download ended, is a failure.
pub open spec fn failure_of(c2u: Outcome, u2c: Outcome) -> Option<(PumpOp, Direction)> {
    match (c2u, u2c) {
        (Outcome::Failed(PumpOp::Write), _) => Some((PumpOp::Write, Direction::ClientToUpstream)),
        (_, Outcome::Eof) => None,
        (_, Outcome::Failed(op)) => Some((op, Direction::UpstreamToClient)),
        (Outcome::Failed(op), _) => Some((op, Direction::ClientToUpstream)),
        _ => None,
    }
}

/// Classify a closed tunnel from both directions' outcomes.
pub fn close_failure(c2u: Outcome, u2c: Outcome) -> (r: Option<(PumpOp, Direction)>)
    ensures
        r == failure_of(c2u, u2c),
{
    match (c2u, u2c) {
        (Outcome::Failed(PumpOp::Write), _) => Some((PumpOp::Write, Direction::ClientToUpstream)),
        (_, Outcome::Eof) => None,
        (_, Outcome::Failed(op)) => Some((op, Direction::UpstreamToClient)),
        (Outcome::Failed(op), _) => Some((op, Direction::ClientToUpstream)),
        _ => None,
    }
}

/// Whether a completed tunnel saw a reset during teardown.
pub fn teardown_reset(c2u: Outcome, u2c: Outcome) -> (b: bool)
    ensures
        b == (c2u is Failed || u2c is Failed),
{
    match (c2u, u2c) {
        (Outcome::Failed(_), _) | (_, Outcome::Failed(_)) => true,
        _ => false,
    }
}

impl Direction {
    pub fn as_str(self) -> (s: &'static str)
        ensures
            s == match self {
                Direction::ClientToUpstream => "client_to_upstream",
                Direction::UpstreamToClient => "upstream_to_client",
            },
    {
        match self {
            Direction::ClientToUpstream => "client_to_upstream",
            Direction::UpstreamToClient => "upstream_to_client",
        }
    }
}

impl PumpOp {
    pub fn as_str(self) -> (s: &'static str)
        ensures
            s == match self {
                PumpOp::Read => "read",
                PumpOp::Write => "write",
            },
    {
        match self {
            PumpOp::Read => "read",
            PumpOp::Write => "write",
        }
    }
}

impl Endpoint {
    pub fn as_str(self) -> (s: &'static str)
        ensures
            s == match self {
                Endpoint::Client => "client",
                Endpoint::Upstream => "upstream",
            },
    {
        match self {
            Endpoint::Client => "client",
            Endpoint::Upstream => "upstream",
        }
    }
}

impl Outcome {
    pub fn as_str(self) -> (s: &'static str)
        ensures
            s == match self {
                Outcome::Eof => "eof",
                Outcome::Failed(_) => "failed",
                Outcome::Dropped => "dropped",
            },
    {
        match self {
            Outcome::Eof => "eof",
            Outcome::Failed(_) => "failed",
            Outcome::Dropped => "dropped",
        }
    }
}

/// A failure is always blamed on exactly one endpoint, and the two directions
/// blame opposite endpoints for the same operation.
pub proof fn law_blame_is_by_role(op: PumpOp)
    ensures
        blamed(Direction::ClientToUpstream, op) != blamed(Direction::UpstreamToClient, op),
        blamed(Direction::ClientToUpstream, PumpOp::Read) == Endpoint::Client,
        blamed(Direction::UpstreamToClient, PumpOp::Read) == Endpoint::Upstream,
{
}

/// A fully delivered download is a completed transfer unless the upload's
/// body was refused: with the download at EOF, the only failure is a write
/// failure of the upload.
pub proof fn law_delivered_download_succeeds(c2u: Outcome)
    ensures
        failure_of(c2u, Outcome::Eof) is Some <==> c2u == Outcome::Failed(PumpOp::Write),
{
}

/// A tunnel with no failed pump never counts as failed, and a reported failure
/// names a direction whose pump did fail on that operation.
pub proof fn law_failure_is_observed(c2u: Outcome, u2c: Outcome)
    ensures
        !(c2u is Failed) && !(u2c is Failed) ==> failure_of(c2u, u2c) is None,
        failure_of(c2u, u2c) matches Some((op, dir)) ==> match dir {
            Direction::ClientToUpstream => c2u == Outcome::Failed(op),
            Direction::UpstreamToClient => u2c == Outcome::Failed(op),
        },
{
}

/// Only a clean EOF lets the peer run to completion; a client-side reset never
/// waits.
pub proof fn law_wait_policy(failed: Option<PumpOp>, dir: Direction)
    ensures
        (wait_rule(failed, dir) == Wait::Full) <==> failed is None,
        failed matches Some(op) ==> ((wait_rule(failed, dir) == Wait::Abandon) <==> blamed(dir, op)
            == Endpoint::Client),
{
}


/// The close classification, case by case over both directions' outcomes:
/// a refused upload write always fails the upload; otherwise a failed
/// download (on either operation) fails the download, a download that
/// reached EOF is a completed transfer, and with the download abandoned a
/// failed upload fails the upload and anything else completes.
pub proof fn law_close_classification(c2u: Outcome, u2c: Outcome)
    ensures
        c2u == Outcome::Failed(PumpOp::Write) ==> failure_of(c2u, u2c) == Some(
            (PumpOp::Write, Direction::ClientToUpstream),
        ),
        c2u != Outcome::Failed(PumpOp::Write) ==> match u2c {
            Outcome::Failed(op) => failure_of(c2u, u2c) == Some((op, Direction::UpstreamToClient)),
            Outcome::Eof => failure_of(c2u, u2c) is None,
            Outcome::Dropped => match c2u {
                Outcome::Failed(op) => failure_of(c2u, u2c) == Some((op, Direction::ClientToUpstream)),
                _ => failure_of(c2u, u2c) is None,
            },
        },
{
}

} // verus!
