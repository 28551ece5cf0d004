//! The session token store: extracts the signing token from the session
//! cookie header at construction, hands out a snapshot per gateway call,
//! and replaces the token in place when the gateway signals staleness.
//!
//! The cookie header is a semicolon-joined `name=value` list. The signing
//! token lives in the `_m_h5_tk` field: its value's leading segment up to
//! the first underscore (or the field's end) is the token.

use vstd::prelude::*;

use crate::strutil::{
    lemma_find_from_correct, spec_contains, spec_find_from, spec_until_stop, find, take_until,
};

verus! {

/// Construction failure: the cookie header carries no token field. Fatal;
/// surfaced before any network call and never retried.
#[derive(Debug)]
pub enum SessionError {
    InvalidSession,
}

/// The cookie field marker whose value carries the signing token.
pub open spec fn spec_token_marker() -> Seq<char> {
    "_m_h5_tk="@
}

/// Whether a cookie header (or rotation fragment) carries a token field.
pub open spec fn spec_has_token(cookie: Seq<char>) -> bool {
    spec_contains(cookie, spec_token_marker())
}

/// The token a cookie header yields: the characters after the first
/// `_m_h5_tk=` up to the first `_` or `;` or the end of the header.
/// Meaningful only when `spec_has_token(cookie)`.
pub open spec fn spec_token_of(cookie: Seq<char>) -> Seq<char> {
    let start = spec_find_from(cookie, spec_token_marker(), 0) + spec_token_marker().len();
    cookie.subrange(start, spec_until_stop(cookie, start, "_;"@))
}

/// What a completed login hands over: the assembled cookie header and the
/// account's display name. Immutable once obtained; one session drives one
/// purchase attempt sequence.
pub struct Session {
    pub cookie_header: String,
    pub nickname: String,
}

impl Session {
    /// A session is usable only when its cookie header carries a token
    /// field.
    pub open spec fn valid(&self) -> bool {
        spec_has_token(self.cookie_header@)
    }

    /// Runtime check of `valid`, for callers outside verified code.
    pub fn is_valid(&self) -> (r: bool)
        ensures
            r == self.valid(),
    {
        proof {
            reveal_strlit("_m_h5_tk=");
        }
        match find(self.cookie_header.as_str(), "_m_h5_tk=") {
            Some(_) => true,
            None => false,
        }
    }
}

/// Owns the signing token of one session; one store drives one
/// orchestrator run.
pub struct TokenStore {
    token: String,
}

impl TokenStore {
    /// The token every subsequent signed call will use.
    pub closed spec fn view(&self) -> Seq<char> {
        self.token@
    }

    /// Build the store from the session cookie header. Fails with
    /// `InvalidSession` exactly when no token field is present; this is
    /// fatal and precedes any network call.
    pub fn new(cookie_header: &str) -> (r: Result<TokenStore, SessionError>)
        ensures
            r is Ok <==> spec_has_token(cookie_header@),
            r matches Ok(store) ==> store@ == spec_token_of(cookie_header@),
            r matches Err(e) ==> e is InvalidSession,
    {
        match Self::extract(cookie_header) {
            Some(token) => Ok(TokenStore { token }),
            None => Err(SessionError::InvalidSession),
        }
    }

    /// Build the store for a whole session; `InvalidSession` exactly when
    /// the session's cookie header carries no token field.
    pub fn from_session(session: &Session) -> (r: Result<TokenStore, SessionError>)
        ensures
            r is Ok <==> session.valid(),
            r matches Ok(store) ==> store@ == spec_token_of(session.cookie_header@),
            r matches Err(e) ==> e is InvalidSession,
    {
        Self::new(session.cookie_header.as_str())
    }

    /// A snapshot of the current signing token.
    pub fn current(&self) -> (t: &String)
        ensures
            t@ == self@,
    {
        &self.token
    }

    /// Apply a gateway-signaled rotation: take the fresh token out of the
    /// handed cookie fragment. When the fragment carries no token field,
    /// the stored token stays as it was and the rotation reports failure.
    pub fn rotate(&mut self, fragment: &str) -> (r: bool)
        ensures
            r == spec_has_token(fragment@),
            r ==> final(self)@ == spec_token_of(fragment@),
            !r ==> final(self)@ == old(self)@,
    {
        match Self::extract(fragment) {
            Some(token) => {
                self.token = token;
                true
            },
            None => false,
        }
    }

    /// The token-bearing segment of a cookie string, if any.
    fn extract(cookie: &str) -> (r: Option<String>)
        ensures
            r is Some <==> spec_has_token(cookie@),
            r matches Some(t) ==> t@ == spec_token_of(cookie@),
    {
        let marker = "_m_h5_tk=";
        proof {
            reveal_strlit("_m_h5_tk=");
        }
        let cookie_len = cookie.unicode_len();
        match find(cookie, marker) {
            Some(pos) => {
                proof {
                    assert(pos + spec_token_marker().len() <= cookie_len);
                }
                let start = pos + marker.unicode_len();
                proof {
                    lemma_find_from_correct(cookie@, spec_token_marker(), 0);
                }
                let token = take_until(cookie, start, "_;");
                Some(token)
            },
            None => None,
        }
    }
}

} // verus!
