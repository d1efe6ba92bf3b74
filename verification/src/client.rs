//! The client core: credential and session state, the login and logout state
//! machine, and the session guard that decides when to re-authenticate.
//!
//! The caller owns the transport.  Before an authenticated operation it asks
//! [`Growatt::ensure_session_step`] what to do; after a network exchange it
//! hands the decoded response back through [`Growatt::apply_login_response`]
//! or [`Growatt::apply_logout_response`], which perform the state transition
//! those responses call for.  Time enters every decision as plain
//! milliseconds since the Unix epoch, so each rule is a pure function of
//! state, clock and response.

use vstd::prelude::*;
use crate::errors::GrowattError;
use crate::hashing::{hash_password_text, spec_hash_password};
use crate::json::{json_get, spec_as_i64, spec_as_str, JsonValue};
use crate::response::{bad_shape_error, spec_bad_shape_msg};

verus! {

/// One portal client: credentials, session state, and configuration.
///
/// Lifecycle: constructed logged out; a successful login sets the flag, the
/// expiry and possibly a token; a failed login clears flag and expiry; a
/// confirmed logout clears flag and expiry but deliberately leaves the token
/// in place.  Expiry is never swept in the background: it is checked lazily,
/// against the clock reading the caller passes in.
pub struct Growatt {
    pub base_url: String,
    pub username: Option<String>,
    pub password: Option<String>,
    pub is_logged_in: bool,
    /// Absolute expiry instant, milliseconds since the Unix epoch.
    pub session_expiry: Option<i64>,
    pub session_duration_minutes: i64,
    pub token: Option<String>,
}

impl Growatt {
    /// A session is valid at `now` iff an expiry is set and lies in the
    /// future.  The logged-in flag plays no part.
    pub open spec fn spec_valid_at(self, now: i64) -> bool {
        match self.session_expiry {
            Some(e) => now < e,
            None => false,
        }
    }

    /// Both halves of the guard's question: the flag says logged in, and the
    /// session has not expired.
    pub open spec fn spec_session_usable(self, now: i64) -> bool {
        self.is_logged_in && self.spec_valid_at(now)
    }

    /// Credentials are stored for silent renewal.
    pub open spec fn spec_has_credentials(self) -> bool {
        self.username is Some && self.password is Some
    }

    /// The state invariant: a client that says it is logged in always
    /// carries an expiry instant, computed when that login succeeded.
    pub open spec fn spec_wf(self) -> bool {
        self.is_logged_in ==> self.session_expiry is Some
    }

    /// The configured session length in milliseconds.
    pub open spec fn spec_duration_millis(self) -> int {
        self.session_duration_minutes * 60000
    }

    /// A fresh client: default host, no credentials, logged out, no token,
    /// and a session length of thirty minutes.
    pub fn new() -> (r: Growatt)
        ensures
            r.base_url@ == "https://server.growatt.com"@,
            r.username is None,
            r.password is None,
            r.is_logged_in == false,
            r.session_expiry is None,
            r.session_duration_minutes == 30,
            r.token is None,
            r.spec_wf(),
    {
        Growatt {
            base_url: "https://server.growatt.com".to_owned(),
            username: None,
            password: None,
            is_logged_in: false,
            session_expiry: None,
            session_duration_minutes: 30,
            token: None,
        }
    }

    /// A client built from configuration values: each given setting is taken
    /// exactly as provided, each missing one falls back to the fresh-client
    /// default.  Loads are independent: the result depends on the arguments
    /// alone.
    pub fn from_settings(
        username: Option<String>,
        password: Option<String>,
        base_url: Option<String>,
        session_duration_minutes: Option<i64>,
    ) -> (r: Growatt)
        ensures
            r.username == username,
            r.password == password,
            (match base_url {
                Some(u) => r.base_url == u,
                None => r.base_url@ == "https://server.growatt.com"@,
            }),
            (match session_duration_minutes {
                Some(m) => r.session_duration_minutes == m,
                None => r.session_duration_minutes == 30,
            }),
            r.is_logged_in == false,
            r.session_expiry is None,
            r.token is None,
    {
        let mut client = Growatt::new();
        client.username = username;
        client.password = password;
        match base_url {
            Some(u) => {
                client.base_url = u;
            },
            None => {},
        }
        match session_duration_minutes {
            Some(m) => {
                client.session_duration_minutes = m;
            },
            None => {},
        }
        client
    }

    /// The same client pointed at the alternate portal host.
    pub fn with_alternate_url(self) -> (r: Growatt)
        ensures
            r.base_url@ == "https://openapi.growatt.com"@,
            r.username == self.username,
            r.password == self.password,
            r.is_logged_in == self.is_logged_in,
            r.session_expiry == self.session_expiry,
            r.session_duration_minutes == self.session_duration_minutes,
            r.token == self.token,
    {
        let mut client = self;
        client.base_url = "https://openapi.growatt.com".to_owned();
        client
    }

    /// The same client with the session length set to `minutes`.
    pub fn with_session_duration(self, minutes: i64) -> (r: Growatt)
        ensures
            r.session_duration_minutes == minutes,
            r.base_url == self.base_url,
            r.username == self.username,
            r.password == self.password,
            r.is_logged_in == self.is_logged_in,
            r.session_expiry == self.session_expiry,
            r.token == self.token,
    {
        let mut client = self;
        client.session_duration_minutes = minutes;
        client
    }

    /// The token of the last successful login, if the portal sent one.
    pub fn get_token(&self) -> (r: Option<String>)
        ensures
            r == self.token,
    {
        match &self.token {
            Some(t) => Some(t.clone()),
            None => None,
        }
    }

    /// The logged-in flag as last set by a login or logout transition; an
    /// expired session may still carry `true` here, which is why the guard
    /// also consults the clock.
    pub fn is_logged_in(&self) -> (r: bool)
        ensures
            r == self.is_logged_in,
    {
        self.is_logged_in
    }

    /// The portal's wire form of a password (see the hashing module).
    pub fn hash_password(&self, password: &str) -> (r: String)
        ensures
            r@ == spec_hash_password(password@),
    {
        hash_password_text(password)
    }

    /// The session-validity check against an explicit clock reading.
    pub fn is_session_valid_at(&self, now: i64) -> (r: bool)
        ensures
            r == self.spec_valid_at(now),
    {
        match self.session_expiry {
            Some(expiry) => now < expiry,
            None => false,
        }
    }

    /// The session-validity check against the machine clock.  Whatever the
    /// clock says, a session without an expiry is never valid.
    pub fn is_session_valid(&self) -> (r: bool)
        ensures
            self.session_expiry is None ==> r == false,
    {
        let now = now_millis();
        self.is_session_valid_at(now)
    }

    /// The first two steps of a login: take the idempotent fast path when
    /// the session is already usable (no network call is then owed), else
    /// store the credentials for later silent renewal.  Returns whether the
    /// fast path was taken.
    pub fn login_prepare(&mut self, username: &str, password: &str, now: i64) -> (skip: bool)
        ensures
            skip == old(self).spec_session_usable(now),
            skip ==> *final(self) == *old(self),
            !skip ==> (final(self).username matches Some(u) && u@ == username@),
            !skip ==> (final(self).password matches Some(p) && p@ == password@),
            final(self).base_url == old(self).base_url,
            final(self).is_logged_in == old(self).is_logged_in,
            final(self).session_expiry == old(self).session_expiry,
            final(self).session_duration_minutes == old(self).session_duration_minutes,
            final(self).token == old(self).token,
            old(self).spec_wf() ==> final(self).spec_wf(),
    {
        if self.is_logged_in && self.is_session_valid_at(now) {
            true
        } else {
            self.username = Some(username.to_owned());
            self.password = Some(password.to_owned());
            false
        }
    }

    /// The state transition a login response calls for, driven by the
    /// portal's `result` code:
    /// - `result == 1`: logged in, expiry set to `now` plus the session
    ///   length, token stored if the response carries one;
    /// - any other numeric `result`: flag and expiry cleared, authentication
    ///   error with the portal's `msg` (or a fixed fallback);
    /// - `result` missing or non-numeric: flag and expiry cleared, invalid
    ///   response error.
    /// Credentials, host and session length are never touched here.
    pub fn apply_login_response(&mut self, response: &JsonValue, now: i64) -> (r: Result<
        bool,
        GrowattError,
    >)
        requires
            i64::MIN <= old(self).spec_duration_millis() <= i64::MAX,
            i64::MIN <= now + old(self).spec_duration_millis() <= i64::MAX,
        ensures
            spec_login_result(*response) == Some(1i64) ==> {
                &&& r matches Ok(b) && b == true
                &&& final(self).is_logged_in == true
                &&& final(self).session_expiry == Some(
                    (now + old(self).spec_duration_millis()) as i64,
                )
                &&& (match spec_login_token(*response) {
                    Some(t) => final(self).token matches Some(x) && x@ == t,
                    None => final(self).token == old(self).token,
                })
            },
            (match spec_login_result(*response) {
                Some(code) => code != 1 ==> {
                    &&& r matches Err(e) && e matches GrowattError::AuthError(m) && m@
                        == spec_login_msg(*response)
                    &&& final(self).is_logged_in == false
                    &&& final(self).session_expiry is None
                    &&& final(self).token == old(self).token
                },
                None => {
                    &&& r matches Err(e) && e matches GrowattError::InvalidResponse(m) && m@
                        == spec_bad_shape_msg()
                    &&& final(self).is_logged_in == false
                    &&& final(self).session_expiry is None
                    &&& final(self).token == old(self).token
                },
            }),
            final(self).username == old(self).username,
            final(self).password == old(self).password,
            final(self).base_url == old(self).base_url,
            final(self).session_duration_minutes == old(self).session_duration_minutes,
            final(self).spec_wf(),
    {
        let code = match response.get_field(&"result".to_owned()) {
            Some(v) => v.as_i64(),
            None => None,
        };
        match code {
            Some(code) => {
                if code == 1 {
                    self.is_logged_in = true;
                    let duration = self.session_duration_minutes * 60000;
                    self.session_expiry = Some(now + duration);
                    match response.get_field(&"token".to_owned()) {
                        Some(v) => match v.as_str() {
                            Some(t) => {
                                self.token = Some(t.clone());
                            },
                            None => {},
                        },
                        None => {},
                    }
                    Ok(true)
                } else {
                    let msg = match response.get_field(&"msg".to_owned()) {
                        Some(v) => match v.as_str() {
                            Some(m) => m.clone(),
                            None => "Unknown error".to_owned(),
                        },
                        None => "Unknown error".to_owned(),
                    };
                    self.is_logged_in = false;
                    self.session_expiry = None;
                    Err(GrowattError::AuthError(msg))
                }
            },
            None => {
                self.is_logged_in = false;
                self.session_expiry = None;
                Err(bad_shape_error())
            },
        }
    }

    /// The session guard, run before every authenticated operation:
    /// - a usable session needs nothing;
    /// - a missing or expired one with stored credentials calls for a silent
    ///   re-login with exactly those credentials;
    /// - otherwise the operation fails with `NotLoggedIn`, and no network
    ///   call is owed at all.
    pub fn ensure_session_step(&self, now: i64) -> (r: Result<
        Option<(String, String)>,
        GrowattError,
    >)
        ensures
            self.spec_session_usable(now) ==> (r matches Ok(c) && c is None),
            !self.spec_session_usable(now) && self.spec_has_credentials() ==> (r matches Ok(c)
                && c matches Some((u, p)) && u@ == self.username.unwrap()@ && p@
                == self.password.unwrap()@),
            !self.spec_session_usable(now) && !self.spec_has_credentials() ==> (r matches Err(e)
                && e is NotLoggedIn),
    {
        if self.is_logged_in && self.is_session_valid_at(now) {
            Ok(None)
        } else {
            match (&self.username, &self.password) {
                (Some(u), Some(p)) => Ok(Some((u.clone(), p.clone()))),
                _ => Err(GrowattError::NotLoggedIn),
            }
        }
    }

    /// The state transition after a logout attempt.  The portal confirms a
    /// logout only with a 302 redirect: on that status the flag and expiry
    /// are cleared (the token deliberately stays); any other status leaves
    /// the whole state untouched, and the `false` result is a no-effect
    /// signal, not an error.
    pub fn apply_logout_response(&mut self, status: u16) -> (r: bool)
        ensures
            r == (status == 302),
            status == 302 ==> {
                &&& final(self).is_logged_in == false
                &&& final(self).session_expiry is None
                &&& final(self).token == old(self).token
                &&& final(self).username == old(self).username
                &&& final(self).password == old(self).password
                &&& final(self).base_url == old(self).base_url
                &&& final(self).session_duration_minutes == old(self).session_duration_minutes
            },
            status != 302 ==> *final(self) == *old(self),
            old(self).spec_wf() ==> final(self).spec_wf(),
    {
        if status == 302 {
            self.is_logged_in = false;
            self.session_expiry = None;
            true
        } else {
            false
        }
    }
}

/// The numeric `result` code of a login response, if it has one.
pub open spec fn spec_login_result(response: JsonValue) -> Option<i64> {
    match json_get(response, "result"@) {
        Some(v) => spec_as_i64(v),
        None => None,
    }
}

/// The token string of a login response, if it has one.
pub open spec fn spec_login_token(response: JsonValue) -> Option<Seq<char>> {
    match json_get(response, "token"@) {
        Some(v) => spec_as_str(v),
        None => None,
    }
}

/// The message reported for a rejected login: the response's `msg` string,
/// or a fixed fallback when it has none.
pub open spec fn spec_login_msg(response: JsonValue) -> Seq<char> {
    match json_get(response, "msg"@) {
        Some(v) => match spec_as_str(v) {
            Some(m) => m,
            None => "Unknown error"@,
        },
        None => "Unknown error"@,
    }
}

/// The five form fields of the login request: the account name, an empty
/// cleartext password (the portal authenticates by the hash), an empty
/// validation code, the read-pact marker, and the password hash.
pub fn login_form(username: &str, password_hash: &str) -> (r: Vec<(String, String)>)
    ensures
        r@.len() == 5,
        r@[0].0@ == "account"@ && r@[0].1@ == username@,
        r@[1].0@ == "password"@ && r@[1].1@ == ""@,
        r@[2].0@ == "validateCode"@ && r@[2].1@ == ""@,
        r@[3].0@ == "isReadPact"@ && r@[3].1@ == "1"@,
        r@[4].0@ == "passwordCrc"@ && r@[4].1@ == password_hash@,
{
    let mut form: Vec<(String, String)> = Vec::new();
    form.push(("account".to_owned(), username.to_owned()));
    form.push(("password".to_owned(), "".to_owned()));
    form.push(("validateCode".to_owned(), "".to_owned()));
    form.push(("isReadPact".to_owned(), "1".to_owned()));
    form.push(("passwordCrc".to_owned(), password_hash.to_owned()));
    form
}

/// Relies on chrono: `Utc::now().timestamp_millis()` reads the machine clock
/// as milliseconds since the Unix epoch.  Nothing is assumed of the value.
#[verifier::external_body]
pub(crate) fn now_millis() -> i64 {
    chrono::Utc::now().timestamp_millis()
}

/// Session validity is a pure clock comparison, with the logged-in flag
/// playing no part: with no expiry set it never holds; with an expiry in the
/// future it holds; with one in the past (or just reached) it does not.
pub proof fn lemma_session_validity(c: Growatt, now: i64)
    ensures
        c.session_expiry is None ==> !c.spec_valid_at(now),
        (c.session_expiry matches Some(e) && now < e) ==> c.spec_valid_at(now),
        (c.session_expiry matches Some(e) && now >= e) ==> !c.spec_valid_at(now),
{
}

impl Default for Growatt {
    /// The same client as [`Growatt::new`].
    fn default() -> (r: Growatt)
        ensures
            r.base_url@ == "https://server.growatt.com"@,
            r.username is None,
            r.password is None,
            r.is_logged_in == false,
            r.session_expiry is None,
            r.session_duration_minutes == 30,
            r.token is None,
    {
        Growatt::new()
    }
}

} // verus!
