//! The decisions of the multi-leg conversation with an upstream proxy, one
//! response at a time. The caller writes each request head (carrying
//! [`UpstreamLegs::header`]), reads the response head and drains its body,
//! then asks what to do next.

use crate::auth::handshake::{HandshakeState, DEFAULT_MAX_LEGS};
use crate::auth::UpstreamAuthenticator;
use crate::proxy::auth_state::{challenge_answer, AuthState, ChallengeError};
use crate::proxy::wire::header_views;
use crate::proxy::upstream::{UpstreamAuth, MAX_LEGS};
use vstd::prelude::*;

verus! {

/// What to do after a response to a `CONNECT`.
#[derive(Debug, Clone, PartialEq, Eq)]
pub enum ConnectStep {
    /// 200: the tunnel is authorized; splice it.
    Tunnel,
    /// 407 answered: send the `CONNECT` again with the new header.
    SendAgain,
    /// Any other status: the upstream refused the `CONNECT`.
    Refused(u16),
    /// The 407 could not be answered.
    AuthFailed(ChallengeError),
    /// Every leg was challenged: give up.
    Exhausted,
}

/// What to do after a response to a forwarded request.
#[derive(Debug, Clone, PartialEq, Eq)]
pub enum ForwardStep {
    /// A final response: hand it to the client.
    Deliver,
    /// 407 answered: send the request again with the new header.
    SendAgain,
    /// The 407 could not be answered.
    AuthFailed(ChallengeError),
    /// Every leg was challenged: give up.
    Exhausted,
}

/// The per-connection leg state: the auth driver, the header for the next
/// request, and how many requests were answered.
pub struct UpstreamLegs<A> {
    auth: AuthState<A>,
    header: Option<String>,
    legs: u32,
}

/// The legs after a 407 answered with `r`: an answer becomes the next
/// header and counts a leg; a failure leaves the header and count alone.
pub open spec fn after_answer(
    header: Option<String>,
    legs: u32,
    r: Result<String, ChallengeError>,
) -> (Option<String>, u32) {
    match r {
        Ok(v) => (Some(v), (legs + 1) as u32),
        Err(_) => (header, legs),
    }
}

/// The step a 407 answered with `r` leads to, once `legs` legs were
/// answered: send again below the cap, give up at it, fail on no answer.
pub open spec fn connect_step_of(r: Result<String, ChallengeError>, legs: u32) -> ConnectStep {
    match r {
        Ok(_) => if legs >= MAX_LEGS {
            ConnectStep::Exhausted
        } else {
            ConnectStep::SendAgain
        },
        Err(e) => ConnectStep::AuthFailed(e),
    }
}

/// As [`connect_step_of`], for a forwarded request.
pub open spec fn forward_step_of(r: Result<String, ChallengeError>, legs: u32) -> ForwardStep {
    match r {
        Ok(_) => if legs >= MAX_LEGS {
            ForwardStep::Exhausted
        } else {
            ForwardStep::SendAgain
        },
        Err(e) => ForwardStep::AuthFailed(e),
    }
}

impl<A: UpstreamAuthenticator> UpstreamLegs<A> {
    /// Requests answered so far.
    pub closed spec fn spec_legs(&self) -> u32 {
        self.legs
    }

    /// The header the next request carries.
    pub closed spec fn spec_header(&self) -> Option<String> {
        self.header
    }

    /// The auth driver.
    pub closed spec fn spec_auth(&self) -> AuthState<A> {
        self.auth
    }

    /// Start a conversation under `auth`: only Basic sends its credential on
    /// the first request.
    pub fn start(auth: &UpstreamAuth, authenticator: A) -> (s: Self)
        ensures
            s.spec_legs() == 0,
            match auth {
                UpstreamAuth::NoAuth => s.spec_header() is None && s.spec_auth() is NoAuth,
                UpstreamAuth::Basic { credentials } => s.spec_header() == Some(*credentials)
                    && s.spec_auth() == (AuthState::<A>::Basic { credentials: *credentials, sent: true }),
                UpstreamAuth::Negotiate { .. } => s.spec_header() is None && (s.spec_auth() matches AuthState::Negotiate(
                    hs,
                ) && hs@ == (HandshakeState {
                    legs: 0,
                    max_legs: DEFAULT_MAX_LEGS,
                    started: false,
                    done: false,
                }) && hs.spec_authenticator() == authenticator),
            },
    {
        let mut state = AuthState::new(auth, authenticator);
        let header = state.initial_header();
        UpstreamLegs { auth: state, header, legs: 0 }
    }

    /// The `Proxy-Authorization` value the next request carries.
    pub fn header(&self) -> (h: Option<&str>)
        ensures
            match self.spec_header() {
                Some(v) => h is Some && h->Some_0@ == v@,
                None => h is None,
            },
    {
        match &self.header {
            Some(v) => Some(v.as_str()),
            None => None,
        }
    }

    /// Answer a 407: the driver's reply, with the header and leg count
    /// moved on when there is an answer.
    fn challenged(&mut self, headers: &Vec<(String, String)>) -> (r: Result<String, ChallengeError>)
        requires
            old(self).legs < MAX_LEGS,
        ensures
            challenge_answer(old(self).auth, header_views(headers@), final(self).auth, r),
            (final(self).header, final(self).legs) == after_answer(old(self).header, old(self).legs, r),
    {
        let r = self.auth.on_challenge(headers);
        match &r {
            Ok(value) => {
                self.header = Some(value.clone());
                self.legs = self.legs + 1;
            },
            Err(_) => {},
        }
        r
    }

    /// Decide after a response to a `CONNECT` with status `status`: 200
    /// tunnels, a 407 is answered (or fails, or exhausts the legs), anything
    /// else is a refusal.
    pub fn on_connect_response(&mut self, status: u16, headers: &Vec<(String, String)>) -> (step: ConnectStep)
        requires
            old(self).spec_legs() < MAX_LEGS,
        ensures
            status == 200 ==> step == ConnectStep::Tunnel,
            status != 200 && status != 407 ==> step == ConnectStep::Refused(status),
            status != 407 ==> final(self).spec_auth() == old(self).spec_auth() && final(self).spec_header()
                == old(self).spec_header() && final(self).spec_legs() == old(self).spec_legs(),
            status == 407 ==> exists|r: Result<String, ChallengeError>|
                #[trigger] challenge_answer(
                    old(self).spec_auth(),
                    header_views(headers@),
                    final(self).spec_auth(),
                    r,
                ) && (final(self).spec_header(), final(self).spec_legs()) == after_answer(
                    old(self).spec_header(),
                    old(self).spec_legs(),
                    r,
                ) && step == connect_step_of(r, final(self).spec_legs()),
            step is SendAgain ==> final(self).spec_legs() < MAX_LEGS,
    {
        if status == 200 {
            return ConnectStep::Tunnel;
        }
        if status != 407 {
            return ConnectStep::Refused(status);
        }
        let r = self.challenged(headers);
        match r {
            Ok(_) => if self.legs >= MAX_LEGS {
                ConnectStep::Exhausted
            } else {
                ConnectStep::SendAgain
            },
            Err(e) => ConnectStep::AuthFailed(e),
        }
    }

    /// Decide after a response to a forwarded request with status `status`:
    /// a 407 is answered (or fails, or exhausts the legs), anything else is
    /// the final response.
    pub fn on_forward_response(&mut self, status: u16, headers: &Vec<(String, String)>) -> (step: ForwardStep)
        requires
            old(self).spec_legs() < MAX_LEGS,
        ensures
            status != 407 ==> step == ForwardStep::Deliver && final(self).spec_auth() == old(self).spec_auth()
                && final(self).spec_header() == old(self).spec_header() && final(self).spec_legs() == old(
                self,
            ).spec_legs(),
            status == 407 ==> exists|r: Result<String, ChallengeError>|
                #[trigger] challenge_answer(
                    old(self).spec_auth(),
                    header_views(headers@),
                    final(self).spec_auth(),
                    r,
                ) && (final(self).spec_header(), final(self).spec_legs()) == after_answer(
                    old(self).spec_header(),
                    old(self).spec_legs(),
                    r,
                ) && step == forward_step_of(r, final(self).spec_legs()),
            step is SendAgain ==> final(self).spec_legs() < MAX_LEGS,
    {
        if status != 407 {
            return ForwardStep::Deliver;
        }
        let r = self.challenged(headers);
        match r {
            Ok(_) => if self.legs >= MAX_LEGS {
                ForwardStep::Exhausted
            } else {
                ForwardStep::SendAgain
            },
            Err(e) => ForwardStep::AuthFailed(e),
        }
    }
}

} // verus!
