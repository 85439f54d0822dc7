use zicade::proxy::tunnel::{
    close_failure, outcome_from, teardown_reset, wait_for, who_reset, Direction, Endpoint, Outcome,
    PumpOp, Wait,
};

#[test]
fn read_blames_source_and_write_blames_sink() {
    assert_eq!(who_reset(Direction::ClientToUpstream, PumpOp::Read), Endpoint::Client);
    assert_eq!(who_reset(Direction::ClientToUpstream, PumpOp::Write), Endpoint::Upstream);
    assert_eq!(who_reset(Direction::UpstreamToClient, PumpOp::Read), Endpoint::Upstream);
    assert_eq!(who_reset(Direction::UpstreamToClient, PumpOp::Write), Endpoint::Client);
}

#[test]
fn wait_policy_follows_who_reset() {
    assert_eq!(wait_for(None, Direction::ClientToUpstream), Wait::Full);
    assert_eq!(wait_for(Some(PumpOp::Read), Direction::ClientToUpstream), Wait::Abandon);
    assert_eq!(wait_for(Some(PumpOp::Read), Direction::UpstreamToClient), Wait::Grace);
    assert_eq!(wait_for(Some(PumpOp::Write), Direction::UpstreamToClient), Wait::Abandon);
}

#[test]
fn close_classification() {
    let eof = Outcome::Eof;
    let rd = Outcome::Failed(PumpOp::Read);
    let wr = Outcome::Failed(PumpOp::Write);
    assert_eq!(close_failure(eof, eof), None);
    assert_eq!(close_failure(wr, eof), Some((PumpOp::Write, Direction::ClientToUpstream)));
    assert_eq!(close_failure(rd, eof), None);
    assert_eq!(close_failure(eof, rd), Some((PumpOp::Read, Direction::UpstreamToClient)));
    assert_eq!(close_failure(rd, Outcome::Dropped), Some((PumpOp::Read, Direction::ClientToUpstream)));
    assert_eq!(close_failure(Outcome::Dropped, Outcome::Dropped), None);
    assert!(teardown_reset(rd, eof));
    assert!(!teardown_reset(eof, Outcome::Dropped));
    assert_eq!(outcome_from(None), Outcome::Eof);
    assert_eq!(outcome_from(Some(PumpOp::Write)), wr);
}

#[test]
fn labels() {
    assert_eq!(Direction::ClientToUpstream.as_str(), "client_to_upstream");
    assert_eq!(Direction::UpstreamToClient.as_str(), "upstream_to_client");
    assert_eq!(PumpOp::Read.as_str(), "read");
    assert_eq!(PumpOp::Write.as_str(), "write");
    assert_eq!(Endpoint::Client.as_str(), "client");
    assert_eq!(Endpoint::Upstream.as_str(), "upstream");
    assert_eq!(Outcome::Eof.as_str(), "eof");
    assert_eq!(Outcome::Failed(PumpOp::Read).as_str(), "failed");
    assert_eq!(Outcome::Dropped.as_str(), "dropped");
}
