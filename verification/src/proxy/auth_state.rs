//! The per-connection upstream auth driver: chooses the `Proxy-Authorization`
//! scheme and produces each 407 leg's header value for the handshake loops.

use crate::auth::handshake::{phase, response_challenge, transition, HandshakeState};
use crate::auth::header::{
    negotiate_authorization, offer_of, parse_proxy_authenticate, build_proxy_authorization,
    NegotiateOffer, OfferView,
};
use crate::auth::{AuthError, HandshakeStep, NegotiateHandshake, UpstreamAuthenticator, UpstreamResponse};
use crate::proxy::upstream::UpstreamAuth;
use crate::proxy::wire::{find_header, header_value, header_views};
use vstd::prelude::*;

verus! {

/// Why an upstream 407 could not be answered.
#[derive(Debug, Clone, PartialEq, Eq)]
pub enum ChallengeError {
    /// The upstream demanded proxy auth but none is configured.
    NotConfigured,
    /// A 407 after the Basic credential was sent: the credential is wrong.
    BasicRejected,
    /// The Negotiate handshake failed.
    Handshake(AuthError),
    /// The handshake reported completion while the upstream still demanded auth.
    CompletedWhileChallenged,
}

/// Per-connection auth driver.
pub enum AuthState<A> {
    NoAuth,
    Basic { credentials: String, sent: bool },
    Negotiate(NegotiateHandshake<A>),
}

/// The decoded Negotiate challenge carried by a header list's first
/// `proxy-authenticate` header, if any.
pub open spec fn challenge_of(hs: Seq<(Seq<char>, Seq<char>)>) -> Option<Seq<u8>> {
    match header_value(hs, "proxy-authenticate"@) {
        Some(v) => match offer_of(v) {
            OfferView::Challenge(bytes) => Some(bytes),
            _ => None,
        },
        None => None,
    }
}

/// The decoded Negotiate challenge from a `Proxy-Authenticate` header, if any.
pub fn negotiate_challenge(headers: &Vec<(String, String)>) -> (r: Option<Vec<u8>>)
    ensures
        match r {
            Some(b) => challenge_of(header_views(headers@)) == Some(b@),
            None => challenge_of(header_views(headers@)) is None,
        },
{
    let value = match find_header(headers, "proxy-authenticate") {
        Some(v) => v,
        None => {
            return None;
        },
    };
    match parse_proxy_authenticate(value.as_str()) {
        NegotiateOffer::Challenge(bytes) => Some(bytes),
        NegotiateOffer::Offered | NegotiateOffer::NotOffered => None,
    }
}

/// `c` is the challenge the headers carry.
pub open spec fn fed_challenge(c: Option<Vec<u8>>, hs: Seq<(Seq<char>, Seq<char>)>) -> bool {
    match c {
        Some(v) => challenge_of(hs) == Some(v@),
        None => challenge_of(hs) is None,
    }
}

/// The driver's answer `r` and next handshake state `next` follow the
/// handshake's transition `t`: a token becomes a `Negotiate` header value.
pub open spec fn answers_leg(
    t: (HandshakeState, Result<HandshakeStep, AuthError>),
    next: HandshakeState,
    r: Result<String, ChallengeError>,
) -> bool {
    &&& t.0 == next
    &&& match t.1 {
        Ok(HandshakeStep::SendToken(token)) => r is Ok && r->Ok_0@ == negotiate_authorization(token@),
        Ok(HandshakeStep::Complete) => r == Err::<String, ChallengeError>(ChallengeError::CompletedWhileChallenged),
        Err(e) => r == Err::<String, ChallengeError>(ChallengeError::Handshake(e)),
    }
}

/// How a driver in state `s` answers a 407 whose headers are `hs`, moving to
/// `next` with the reply `r`: without auth it cannot; Basic sends its
/// credential once and then fails; Negotiate feeds the 407's challenge to
/// its handshake and turns a token into a `Negotiate` header value.
pub open spec fn challenge_answer<A: UpstreamAuthenticator>(
    s: AuthState<A>,
    hs: Seq<(Seq<char>, Seq<char>)>,
    next: AuthState<A>,
    r: Result<String, ChallengeError>,
) -> bool {
    match s {
        AuthState::NoAuth => r == Err::<String, ChallengeError>(ChallengeError::NotConfigured) && next == s,
        AuthState::Basic { credentials, sent } => if sent {
            r == Err::<String, ChallengeError>(ChallengeError::BasicRejected) && next == s
        } else {
            r == Ok::<String, ChallengeError>(credentials) && next == (AuthState::<A>::Basic {
                credentials,
                sent: true,
            })
        },
        AuthState::Negotiate(h) => {
            &&& next is Negotiate
            &&& exists|c: Option<Vec<u8>>, stepped: Result<Vec<u8>, AuthError>|
                #![trigger transition(h@, UpstreamResponse::ProxyAuthRequired { challenge: c }, stepped)]
                fed_challenge(c, hs) && (phase(h@, UpstreamResponse::ProxyAuthRequired { challenge: c })
                    is Step ==> h.spec_authenticator().steps_to(
                    response_challenge(UpstreamResponse::ProxyAuthRequired { challenge: c }),
                    stepped,
                    next->Negotiate_0.spec_authenticator(),
                )) && (phase(h@, UpstreamResponse::ProxyAuthRequired { challenge: c }) !is Step
                    ==> next->Negotiate_0.spec_authenticator() == h.spec_authenticator())
                    && answers_leg(
                    transition(h@, UpstreamResponse::ProxyAuthRequired { challenge: c }, stepped),
                    next->Negotiate_0@,
                    r,
                )
        },
    }
}

impl<A: UpstreamAuthenticator> AuthState<A> {
    /// The driver for `auth`; a Negotiate driver runs its handshake over
    /// `authenticator`, the other modes drop it.
    pub fn new(auth: &UpstreamAuth, authenticator: A) -> (s: Self)
        ensures
            match auth {
                UpstreamAuth::NoAuth => s is NoAuth,
                UpstreamAuth::Basic { credentials } => s == (AuthState::<A>::Basic {
                    credentials: *credentials,
                    sent: false,
                }),
                UpstreamAuth::Negotiate { .. } => s matches AuthState::Negotiate(hs) && hs@ == (
                HandshakeState {
                    legs: 0,
                    max_legs: crate::auth::handshake::DEFAULT_MAX_LEGS,
                    started: false,
                    done: false,
                }) && hs.spec_authenticator() == authenticator,
            },
    {
        match auth {
            UpstreamAuth::NoAuth => AuthState::NoAuth,
            UpstreamAuth::Basic { credentials } => AuthState::Basic {
                credentials: credentials.clone(),
                sent: false,
            },
            UpstreamAuth::Negotiate { .. } => AuthState::Negotiate(NegotiateHandshake::new(authenticator)),
        }
    }

    /// The `Proxy-Authorization` value to send preemptively on the first leg.
    /// Only Basic sends preemptively; Negotiate opens with no auth.
    pub fn initial_header(&mut self) -> (h: Option<String>)
        ensures
            match *old(self) {
                AuthState::Basic { credentials, .. } => h == Some(credentials) && *final(self) == (
                AuthState::<A>::Basic { credentials, sent: true }),
                _ => h is None && *final(self) == *old(self),
            },
    {
        match self {
            AuthState::Basic { credentials, sent } => {
                *sent = true;
                Some(credentials.clone())
            },
            AuthState::NoAuth | AuthState::Negotiate(_) => None,
        }
    }

    /// Produce the next `Proxy-Authorization` value in response to a `407`, or
    /// an error if this auth mode cannot (or should not) answer another
    /// challenge. For Basic, a `407` after the credential was sent means the
    /// credential is wrong: fail rather than resend and loop.
    pub fn on_challenge(&mut self, headers: &Vec<(String, String)>) -> (r: Result<String, ChallengeError>)
        ensures
            challenge_answer(*old(self), header_views(headers@), *final(self), r),
    {
        match self {
            AuthState::NoAuth => Err(ChallengeError::NotConfigured),
            AuthState::Basic { credentials, sent } => {
                if *sent {
                    Err(ChallengeError::BasicRejected)
                } else {
                    *sent = true;
                    Ok(credentials.clone())
                }
            },
            AuthState::Negotiate(handshake) => {
                let challenge = negotiate_challenge(headers);
                let ghost c = challenge;
                let ghost before = handshake@;
                let ghost before_auth = handshake.spec_authenticator();
                let resp = UpstreamResponse::ProxyAuthRequired { challenge };
                let res = handshake.on_response(resp);
                let ghost stepped: Result<Vec<u8>, AuthError> = if phase(
                    before,
                    UpstreamResponse::ProxyAuthRequired { challenge: c },
                ) is Step {
                    choose|st: Result<Vec<u8>, AuthError>|
                        before_auth.steps_to(
                            response_challenge(UpstreamResponse::ProxyAuthRequired { challenge: c }),
                            st,
                            handshake.spec_authenticator(),
                        ) && (handshake@, res) == #[trigger] transition(
                            before,
                            UpstreamResponse::ProxyAuthRequired { challenge: c },
                            st,
                        )
                } else {
                    Err(AuthError::Rejected)
                };
                let r = match res {
                    Ok(HandshakeStep::SendToken(token)) => Ok(build_proxy_authorization(token.as_slice())),
                    Ok(HandshakeStep::Complete) => Err(ChallengeError::CompletedWhileChallenged),
                    Err(e) => Err(ChallengeError::Handshake(e)),
                };
                assert(fed_challenge(c, header_views(headers@)));
                assert(answers_leg(
                    transition(before, UpstreamResponse::ProxyAuthRequired { challenge: c }, stepped),
                    handshake@,
                    r,
                ));
                r
            },
        }
    }
}

} // verus!
