//! The cloud provider's credential cache: one bearer token shared by all
//! synthesis calls, refreshed on expiry. Refreshing is single flight: the
//! first caller that finds the token expired begins the refresh, and
//! every caller arriving while it is in flight waits instead of racing a
//! duplicate refresh request.

use vstd::prelude::*;

verus! {

/// What a synthesis call is to do about its credential.
pub enum TokenDecision {
    /// A cached, unexpired token: use it.
    Use(String),
    /// The token is missing or expired and nobody is refreshing: this
    /// caller mints a new one and installs it.
    BeginRefresh,
    /// A refresh is already in flight: wait for it, then ask again.
    AwaitRefresh,
}

/// The shared credential state.
pub struct TokenCache {
    token: Option<String>,
    expires_at: u64,
    refresh_in_flight: bool,
}

/// The mathematical shape of [`TokenCache`].
pub struct TokenCacheSpec {
    pub token: Option<Seq<char>>,
    pub expires_at: u64,
    pub refresh_in_flight: bool,
}

impl View for TokenCache {
    type V = TokenCacheSpec;

    closed spec fn view(&self) -> TokenCacheSpec {
        TokenCacheSpec {
            token: match self.token {
                Some(ref t) => Some(t@),
                None => None,
            },
            expires_at: self.expires_at,
            refresh_in_flight: self.refresh_in_flight,
        }
    }
}

/// A cached token is usable at `now` when it exists and has not expired.
pub open spec fn token_usable(c: TokenCacheSpec, now: u64) -> bool {
    c.token is Some && now < c.expires_at
}

impl TokenCache {
    /// An empty cache: no token, nothing in flight.
    pub fn new() -> (r: TokenCache)
        ensures
            r@.token is None,
            !r@.refresh_in_flight,
    {
        TokenCache { token: None, expires_at: 0, refresh_in_flight: false }
    }

    /// Decides what a synthesis call does for its credential at time
    /// `now`. A usable token is handed out unchanged; otherwise exactly
    /// the first caller is told to refresh, and every later caller is
    /// told to wait while that refresh is in flight.
    pub fn acquire(&mut self, now: u64) -> (d: TokenDecision)
        ensures
            token_usable(old(self)@, now) ==> (d matches TokenDecision::Use(t) && t@ == old(
                self,
            )@.token->Some_0 && final(self)@ == old(self)@),
            !token_usable(old(self)@, now) && old(self)@.refresh_in_flight ==> d
                is AwaitRefresh && final(self)@ == old(self)@,
            !token_usable(old(self)@, now) && !old(self)@.refresh_in_flight ==> d
                is BeginRefresh && final(self)@ == (TokenCacheSpec {
                refresh_in_flight: true,
                ..old(self)@
            }),
    {
        let usable = match self.token {
            Some(_) => now < self.expires_at,
            None => false,
        };
        if usable {
            let t = match self.token {
                Some(ref t) => t.clone(),
                None => vstd::pervasive::unreached(),
            };
            TokenDecision::Use(t)
        } else if self.refresh_in_flight {
            TokenDecision::AwaitRefresh
        } else {
            self.refresh_in_flight = true;
            TokenDecision::BeginRefresh
        }
    }

    /// Installs a freshly minted token and ends the refresh flight.
    pub fn install(&mut self, token: String, expires_at: u64)
        ensures
            final(self)@.token == Some(token@),
            final(self)@.expires_at == expires_at,
            !final(self)@.refresh_in_flight,
    {
        self.token = Some(token);
        self.expires_at = expires_at;
        self.refresh_in_flight = false;
    }

    /// A failed refresh ends the flight without touching the cached
    /// token, so the next caller may try again.
    pub fn refresh_failed(&mut self)
        ensures
            final(self)@ == (TokenCacheSpec { refresh_in_flight: false, ..old(self)@ }),
    {
        self.refresh_in_flight = false;
    }
}

} // verus!
