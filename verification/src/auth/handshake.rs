//! The sans-I/O Negotiate handshake state machine.
//!
//! The caller performs the request/response I/O and feeds each upstream
//! response to [`NegotiateHandshake::on_response`]; the machine answers with the
//! next `Proxy-Authorization` token to send, or [`HandshakeStep::Complete`].

use crate::auth::error::AuthError;
use vstd::prelude::*;

verus! {

/// Default cap on handshake legs, guarding against a hostile or looping upstream.
pub const DEFAULT_MAX_LEGS: u32 = 10;

/// Drives a security context one leg at a time.
///
/// The authenticator is created once (acquiring its credential handle), stepped
/// once per leg, and dropped once (releasing the handle) with the handshake
/// that owns it.
pub trait UpstreamAuthenticator: Sized {
    /// Whether one step of this authenticator, in its current state, on
    /// `challenge` may answer `r` and leave the authenticator as `next`. An
    /// authenticator that says nothing of its steps keeps the default: any
    /// answer, any next state.
    open spec fn steps_to(&self, challenge: Option<Seq<u8>>, r: Result<Vec<u8>, AuthError>, next: Self) -> bool {
        true
    }

    /// Advance the context with the server's challenge token (`None` on the
    /// first leg) and return the next token to send to the upstream.
    fn step(&mut self, challenge: Option<&[u8]>) -> (r: Result<Vec<u8>, AuthError>)
        ensures
            old(self).steps_to(challenge_view(challenge), r, *final(self)),
    ;
}

/// The bytes of an optional challenge.
pub open spec fn challenge_view(challenge: Option<&[u8]>) -> Option<Seq<u8>> {
    match challenge {
        Some(c) => Some(c@),
        None => None,
    }
}

/// The challenge a response hands the authenticator: a 407's token, if any.
pub open spec fn response_challenge(r: UpstreamResponse) -> Option<Seq<u8>> {
    match r {
        UpstreamResponse::ProxyAuthRequired { challenge: Some(c) } => Some(c@),
        _ => None,
    }
}

/// A parsed upstream response relevant to the handshake.
#[derive(Debug, Clone, PartialEq, Eq)]
pub enum UpstreamResponse {
    /// 407, optionally carrying a decoded Negotiate challenge token.
    ProxyAuthRequired { challenge: Option<Vec<u8>> },
    /// A success status (handshake done).
    Success,
    /// Any other terminal status; the handshake ends and the caller inspects it.
    Other(u16),
}

/// What the caller should do next.
#[derive(Debug, Clone, PartialEq, Eq)]
pub enum HandshakeStep {
    /// Re-send the request carrying this token as `Proxy-Authorization`.
    SendToken(Vec<u8>),
    /// The handshake is finished.
    Complete,
}

/// The abstract state of a handshake.
pub struct HandshakeState {
    /// Tokens produced so far.
    pub legs: u32,
    /// The cap on tokens.
    pub max_legs: u32,
    /// Whether a token has been sent.
    pub started: bool,
    /// Whether the handshake has ended.
    pub done: bool,
}

/// How a handshake in state `s` treats the response `r`.
pub enum HandshakePhase {
    /// The handshake already ended: it stays complete.
    AlreadyDone,
    /// A success or other terminal status ends the handshake.
    Finished,
    /// A bare 407 after a token was sent: the credentials were refused.
    Refused,
    /// A 407 with the leg cap reached.
    CapReached,
    /// A 407 the authenticator must answer.
    Step,
}

/// The handshake rules: which phase a response puts the machine in.
pub open spec fn phase(s: HandshakeState, r: UpstreamResponse) -> HandshakePhase {
    if s.done {
        HandshakePhase::AlreadyDone
    } else {
        match r {
            UpstreamResponse::ProxyAuthRequired { challenge } => {
                if s.started && challenge is None {
                    HandshakePhase::Refused
                } else if s.legs >= s.max_legs {
                    HandshakePhase::CapReached
                } else {
                    HandshakePhase::Step
                }
            },
            _ => HandshakePhase::Finished,
        }
    }
}

/// The result and next state of a handshake in state `s` on response `r`,
/// given what the authenticator returned when the phase is `Step`.
pub open spec fn transition(
    s: HandshakeState,
    r: UpstreamResponse,
    stepped: Result<Vec<u8>, AuthError>,
) -> (HandshakeState, Result<HandshakeStep, AuthError>) {
    match phase(s, r) {
        HandshakePhase::AlreadyDone => (s, Ok(HandshakeStep::Complete)),
        HandshakePhase::Finished => (HandshakeState { done: true, ..s }, Ok(HandshakeStep::Complete)),
        HandshakePhase::Refused => (s, Err(AuthError::Rejected)),
        HandshakePhase::CapReached => (s, Err(AuthError::TooManyLegs { max: s.max_legs })),
        HandshakePhase::Step => match stepped {
            Ok(token) => (
                HandshakeState { legs: (s.legs + 1) as u32, started: true, ..s },
                Ok(HandshakeStep::SendToken(token)),
            ),
            Err(e) => (s, Err(e)),
        },
    }
}

/// Drives the Negotiate challenge/response legs against an upstream 407.
pub struct NegotiateHandshake<A> {
    auth: A,
    legs: u32,
    max_legs: u32,
    started: bool,
    done: bool,
    /// Every result returned so far, in order.
    outs: Ghost<Seq<Result<HandshakeStep, AuthError>>>,
}

impl<A> View for NegotiateHandshake<A> {
    type V = HandshakeState;

    closed spec fn view(&self) -> HandshakeState {
        HandshakeState {
            legs: self.legs,
            max_legs: self.max_legs,
            started: self.started,
            done: self.done,
        }
    }
}

impl<A: UpstreamAuthenticator> NegotiateHandshake<A> {
    /// The authenticator this handshake drives.
    pub closed spec fn spec_authenticator(&self) -> A {
        self.auth
    }

    /// Every result `on_response` returned so far, oldest first.
    pub closed spec fn spec_outputs(&self) -> Seq<Result<HandshakeStep, AuthError>> {
        self.outs@
    }

    /// The leg count is the number of tokens produced so far.
    pub open spec fn counts_tokens(&self) -> bool {
        self@.legs == tokens_sent(self.spec_outputs())
    }

    /// Create a handshake over the given authenticator.
    pub fn new(auth: A) -> (hs: Self)
        ensures
            hs@ == (HandshakeState {
                legs: 0,
                max_legs: DEFAULT_MAX_LEGS,
                started: false,
                done: false,
            }),
            hs.spec_authenticator() == auth,
            hs.spec_outputs().len() == 0,
            hs.counts_tokens(),
    {
        NegotiateHandshake {
            auth,
            legs: 0,
            max_legs: DEFAULT_MAX_LEGS,
            started: false,
            done: false,
            outs: Ghost(Seq::empty()),
        }
    }

    /// Override the leg cap.
    pub fn with_max_legs(self, max_legs: u32) -> (hs: Self)
        ensures
            hs@ == (HandshakeState { max_legs, ..self@ }),
            hs.spec_authenticator() == self.spec_authenticator(),
            hs.spec_outputs() == self.spec_outputs(),
    {
        NegotiateHandshake { max_legs, ..self }
    }

    /// Number of tokens produced so far.
    pub fn legs(&self) -> (n: u32)
        ensures
            n == self@.legs,
    {
        self.legs
    }

    /// Borrow the underlying authenticator (used in tests/diagnostics).
    pub fn authenticator(&self) -> (a: &A)
        ensures
            *a == self.spec_authenticator(),
    {
        &self.auth
    }

    /// Feed an upstream response and get the next step.
    ///
    /// The outcome is `transition(self@, response, stepped)` for the value
    /// `stepped` the authenticator returned: it is consulted, with the 407's
    /// challenge, only in the `Step` phase.
    pub fn on_response(&mut self, response: UpstreamResponse) -> (res: Result<HandshakeStep, AuthError>)
        ensures
            final(self).spec_outputs() == old(self).spec_outputs().push(res),
            final(self)@.legs == old(self)@.legs + if res matches Ok(HandshakeStep::SendToken(_)) {
                1int
            } else {
                0int
            },
            old(self).counts_tokens() ==> final(self).counts_tokens(),
            final(self)@.max_legs == old(self)@.max_legs,
            old(self)@.legs <= old(self)@.max_legs ==> final(self)@.legs <= final(self)@.max_legs,
            phase(old(self)@, response) !is Step ==> (final(self)@, res) == transition(
                old(self)@,
                response,
                Err(AuthError::Rejected),
            ) && final(self).spec_authenticator() == old(self).spec_authenticator(),
            phase(old(self)@, response) is Step ==> exists|stepped: Result<Vec<u8>, AuthError>|
                old(self).spec_authenticator().steps_to(
                    response_challenge(response),
                    stepped,
                    final(self).spec_authenticator(),
                ) && (final(self)@, res) == #[trigger] transition(old(self)@, response, stepped),
    {
        let ghost resp = response;
        let res = self.respond(response);
        let ghost r = res;
        proof {
            if phase(old(self)@, resp) is Step {
                let st = choose|st: Result<Vec<u8>, AuthError>|
                    old(self).spec_authenticator().steps_to(
                        response_challenge(resp),
                        st,
                        self.spec_authenticator(),
                    ) && (self@, res) == #[trigger] transition(old(self)@, resp, st);
                lemma_transition_legs(old(self)@, resp, st);
            } else {
                lemma_transition_legs(old(self)@, resp, Err(AuthError::Rejected));
            }
        }
        let ghost outs = self.outs@.push(r);
        assert(outs.drop_last() =~= self.outs@);
        self.outs = Ghost(outs);
        res
    }

    fn respond(&mut self, response: UpstreamResponse) -> (res: Result<HandshakeStep, AuthError>)
        ensures
            final(self).spec_outputs() == old(self).spec_outputs(),
            phase(old(self)@, response) !is Step ==> (final(self)@, res) == transition(
                old(self)@,
                response,
                Err(AuthError::Rejected),
            ) && final(self).spec_authenticator() == old(self).spec_authenticator(),
            phase(old(self)@, response) is Step ==> exists|stepped: Result<Vec<u8>, AuthError>|
                old(self).spec_authenticator().steps_to(
                    response_challenge(response),
                    stepped,
                    final(self).spec_authenticator(),
                ) && (final(self)@, res) == #[trigger] transition(old(self)@, response, stepped),
    {
        if self.done {
            return Ok(HandshakeStep::Complete);
        }
        match response {
            UpstreamResponse::Success | UpstreamResponse::Other(_) => {
                self.done = true;
                Ok(HandshakeStep::Complete)
            },
            UpstreamResponse::ProxyAuthRequired { challenge } => self.advance(challenge),
        }
    }

    fn advance(&mut self, challenge: Option<Vec<u8>>) -> (res: Result<HandshakeStep, AuthError>)
        requires
            !old(self).done,
        ensures
            final(self).spec_outputs() == old(self).spec_outputs(),
            phase(old(self)@, UpstreamResponse::ProxyAuthRequired { challenge }) !is Step ==> (
            final(self)@, res) == transition(
                old(self)@,
                UpstreamResponse::ProxyAuthRequired { challenge },
                Err(AuthError::Rejected),
            ) && final(self).spec_authenticator() == old(self).spec_authenticator(),
            phase(old(self)@, UpstreamResponse::ProxyAuthRequired { challenge }) is Step ==> exists|
                stepped: Result<Vec<u8>, AuthError>,
            |
                old(self).spec_authenticator().steps_to(
                    response_challenge(UpstreamResponse::ProxyAuthRequired { challenge }),
                    stepped,
                    final(self).spec_authenticator(),
                ) && (final(self)@, res) == #[trigger] transition(
                    old(self)@,
                    UpstreamResponse::ProxyAuthRequired { challenge },
                    stepped,
                ),
    {
        // A 407 with no continuation token after we already sent one = refusal.
        if self.started && challenge.is_none() {
            return Err(AuthError::Rejected);
        }
        if self.legs >= self.max_legs {
            return Err(AuthError::TooManyLegs { max: self.max_legs });
        }
        let stepped = match &challenge {
            Some(c) => self.auth.step(Some(c.as_slice())),
            None => self.auth.step(None),
        };
        assert(old(self).spec_authenticator().steps_to(
            response_challenge(UpstreamResponse::ProxyAuthRequired { challenge }),
            stepped,
            self.spec_authenticator(),
        ));
        let ghost before = old(self)@;
        let res = match stepped {
            Ok(token) => {
                self.legs = self.legs + 1;
                self.started = true;
                Ok(HandshakeStep::SendToken(token))
            },
            Err(e) => Err(e),
        };
        assert((self@, res) == transition(
            before,
            UpstreamResponse::ProxyAuthRequired { challenge },
            stepped,
        ));
        res
    }
}

/// A transition adds a leg exactly when it produces a token.
pub proof fn lemma_transition_legs(s: HandshakeState, r: UpstreamResponse, stepped: Result<Vec<u8>, AuthError>)
    ensures
        transition(s, r, stepped).0.legs == s.legs + if transition(s, r, stepped).1 matches Ok(
            HandshakeStep::SendToken(_),
        ) {
            1int
        } else {
            0int
        },
        transition(s, r, stepped).0.max_legs == s.max_legs,
        s.legs <= s.max_legs ==> transition(s, r, stepped).0.legs <= s.max_legs,
{
}

/// A finished handshake stays finished: every later response completes it
/// again without touching the authenticator or the state.
pub proof fn law_done_is_final(s: HandshakeState, r: UpstreamResponse, stepped: Result<Vec<u8>, AuthError>)
    requires
        s.done,
    ensures
        transition(s, r, stepped) == (s, Ok::<HandshakeStep, AuthError>(HandshakeStep::Complete)),
{
}

/// The leg cap holds: a token is only produced below the cap, so after any
/// token `legs <= max_legs`, and each token adds exactly one leg.
pub proof fn law_leg_cap(s: HandshakeState, r: UpstreamResponse, stepped: Result<Vec<u8>, AuthError>)
    ensures
        transition(s, r, stepped).1 matches Ok(HandshakeStep::SendToken(_)) ==> {
            &&& transition(s, r, stepped).0.legs == s.legs + 1
            &&& transition(s, r, stepped).0.legs <= transition(s, r, stepped).0.max_legs
        },
{
}

/// Once a token was sent, a 407 without a continuation token is a refusal.
pub proof fn law_bare_challenge_after_token_is_refusal(
    s: HandshakeState,
    stepped: Result<Vec<u8>, AuthError>,
)
    requires
        s.started,
        !s.done,
    ensures
        transition(s, UpstreamResponse::ProxyAuthRequired { challenge: None }, stepped) == (
        s, Err::<HandshakeStep, AuthError>(AuthError::Rejected)),
{
}

/// A handshake that keeps being challenged cannot go on forever: starting
/// from any state, `max_legs - legs` tokens at most are produced before the
/// cap refuses further legs.
pub proof fn law_cap_reached_refuses(s: HandshakeState, r: UpstreamResponse, stepped: Result<Vec<u8>, AuthError>)
    requires
        !s.done,
        s.legs >= s.max_legs,
        r is ProxyAuthRequired,
        !(s.started && r->challenge is None),
    ensures
        transition(s, r, stepped) == (s, Err::<HandshakeStep, AuthError>(AuthError::TooManyLegs { max: s.max_legs })),
{
}


/// The state and results after feeding `rs` in order from state `s`, the
/// authenticator answering the `i`-th response with `stepped[i]` where it is
/// consulted.
pub open spec fn run(
    s: HandshakeState,
    rs: Seq<UpstreamResponse>,
    stepped: Seq<Result<Vec<u8>, AuthError>>,
) -> (HandshakeState, Seq<Result<HandshakeStep, AuthError>>)
    decreases rs.len(),
{
    if rs.len() == 0 {
        (s, Seq::empty())
    } else {
        let (t, outs) = run(s, rs.drop_last(), stepped.drop_last());
        let (u, o) = transition(t, rs.last(), stepped.last());
        (u, outs.push(o))
    }
}

/// How many of `outs` produced a token.
pub open spec fn tokens_sent(outs: Seq<Result<HandshakeStep, AuthError>>) -> nat
    decreases outs.len(),
{
    if outs.len() == 0 {
        0
    } else {
        tokens_sent(outs.drop_last()) + if outs.last() matches Ok(HandshakeStep::SendToken(_)) {
            1nat
        } else {
            0nat
        }
    }
}

/// Over any sequence of responses, the leg count grows by exactly the number
/// of tokens produced, never passes the cap, and the cap never changes; a
/// fresh handshake's `legs` is the number of `SendToken` steps so far.
pub proof fn law_legs_count_tokens(
    s: HandshakeState,
    rs: Seq<UpstreamResponse>,
    stepped: Seq<Result<Vec<u8>, AuthError>>,
)
    requires
        s.legs <= s.max_legs,
    ensures
        run(s, rs, stepped).1.len() == rs.len(),
        run(s, rs, stepped).0.legs == s.legs + tokens_sent(run(s, rs, stepped).1),
        run(s, rs, stepped).0.legs <= run(s, rs, stepped).0.max_legs,
        run(s, rs, stepped).0.max_legs == s.max_legs,
    decreases rs.len(),
{
    if rs.len() > 0 {
        law_legs_count_tokens(s, rs.drop_last(), stepped.drop_last());
        let (t, outs) = run(s, rs.drop_last(), stepped.drop_last());
        let (u, o) = transition(t, rs.last(), stepped.last());
        assert(outs.push(o).drop_last() =~= outs);
        assert(outs.push(o).last() == o);
    }
}

} // verus!
