//! The access token: what the refresh-token exchange yields, and until when
//! it can be used.

use crate::time::{fits, seconds, seconds_of, sum_if_fits};
use crate::wire::{outcome_view, Fault, Reply};
use vstd::prelude::*;

verus! {

/// The body of a successful refresh-token exchange.
#[derive(Debug, PartialEq, Eq)]
pub struct AuthResponse {
    pub access_token: String,
    /// Seconds from now until the token expires.
    pub expires_in: i64,
}

/// The view of a token grant.
pub struct AuthResponseView {
    pub access_token: Seq<char>,
    pub expires_in: int,
}

impl View for AuthResponse {
    type V = AuthResponseView;

    open spec fn view(&self) -> AuthResponseView {
        AuthResponseView { access_token: self.access_token@, expires_in: self.expires_in as int }
    }
}

impl DeepView for AuthResponse {
    type V = AuthResponseView;

    open spec fn deep_view(&self) -> AuthResponseView {
        self.view()
    }
}

/// A short-lived credential for the content endpoints.
#[derive(Debug, PartialEq, Eq)]
pub struct AccessToken {
    pub value: String,
    /// The second, counted from the epoch, after which the token is stale.
    pub expires_at: i64,
}

/// The view of an access token.
pub struct AccessTokenView {
    pub value: Seq<char>,
    pub expires_at: int,
}

impl View for AccessToken {
    type V = AccessTokenView;

    open spec fn view(&self) -> AccessTokenView {
        AccessTokenView { value: self.value@, expires_at: self.expires_at as int }
    }
}

impl DeepView for AccessToken {
    type V = AccessTokenView;

    open spec fn deep_view(&self) -> AccessTokenView {
        self.view()
    }
}

/// Why a refresh-token exchange yielded no token.
#[derive(Clone, Copy, Debug, PartialEq, Eq, Structural)]
pub enum AuthError {
    /// The request or its body was lost in transport.
    Transport,
    /// The authorization endpoint answered outside the 2xx class.
    Rejected,
    /// The body is not a token grant.
    Malformed,
}

/// A token can be used as long as its expiry second has not passed.
pub open spec fn usable(token: Option<AccessTokenView>, now: int) -> bool {
    token matches Some(t) && seconds(now) <= t.expires_at
}

/// The error that an exchange ends in where its reply yields no grant.
pub open spec fn auth_error(fault: Fault) -> AuthError {
    match fault {
        Fault::Transport => AuthError::Transport,
        Fault::Status => AuthError::Rejected,
        Fault::NoContent | Fault::Decode => AuthError::Malformed,
    }
}

/// What an exchange that was answered at `now` yields: a token that expires
/// the reported number of seconds after the current second, or the reason
/// why there is none.
pub open spec fn exchanged(reply: Reply<AuthResponseView>, now: int) -> Result<
    AccessTokenView,
    AuthError,
> {
    match reply.body(false) {
        Ok(grant) => Ok(
            AccessTokenView {
                value: grant.access_token,
                expires_at: seconds(now) + grant.expires_in,
            },
        ),
        Err(fault) => Err(auth_error(fault)),
    }
}

/// Whether the expiry of the token that the exchange yields, if it yields
/// one, can be held in an `i64`.
pub open spec fn exchange_fits(reply: Reply<AuthResponseView>, now: int) -> bool {
    exchanged(reply, now) matches Ok(token) ==> fits(token.expires_at)
}

impl AccessToken {
    /// Whether there is a token and its expiry second has not passed at `now`.
    pub fn is_usable(token: &Option<AccessToken>, now: i64) -> (yes: bool)
        ensures
            yes == usable(token.deep_view(), now as int),
    {
        match token {
            Some(t) => seconds_of(now) <= t.expires_at,
            None => false,
        }
    }

    /// Whether `from_exchange` can read this reply at `now`.
    pub fn exchange_in_range(reply: &Reply<AuthResponse>, now: i64) -> (ok: bool)
        ensures
            ok == exchange_fits(reply.deep_view(), now as int),
    {
        match reply.peek_body(false) {
            Some(grant) => sum_if_fits(seconds_of(now), grant.expires_in).is_some(),
            None => true,
        }
    }

    /// Reads the reply to a refresh-token exchange that was answered at `now`.
    pub fn from_exchange(reply: Reply<AuthResponse>, now: i64) -> (outcome: Result<
        AccessToken,
        AuthError,
    >)
        requires
            exchange_fits(reply.deep_view(), now as int),
        ensures
            outcome_view(outcome) == exchanged(reply.deep_view(), now as int),
    {
        match reply.into_body(false) {
            Ok(grant) => Ok(
                AccessToken {
                    value: grant.access_token,
                    expires_at: seconds_of(now) + grant.expires_in,
                },
            ),
            Err(Fault::Transport) => Err(AuthError::Transport),
            Err(Fault::Status) => Err(AuthError::Rejected),
            Err(_) => Err(AuthError::Malformed),
        }
    }
}

} // verus!
