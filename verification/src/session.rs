//! The session authenticator.
//!
//! A single fixed credential pair; on a match, login hands out a static
//! session token to be set as an HTTP-only, Lax, path-"/" cookie.
//! Authorization looks the session cookie up by name: the token value is
//! `Authenticated`, any other value or absence is `Anonymous`. There is no
//! logout, no expiry and no rotation: the token is a placeholder constant,
//! not a nonce.
use vstd::prelude::*;
use crate::text::str_eq;

verus! {

/// The one accepted login email.
pub open spec fn admin_email() -> Seq<char> {
    "test@example.com"@
}

/// The one accepted login password.
pub open spec fn admin_password() -> Seq<char> {
    "password123"@
}

/// The name under which the session cookie travels.
pub open spec fn session_cookie_name() -> Seq<char> {
    "session_token"@
}

/// The static session token value.
pub open spec fn session_token_value() -> Seq<char> {
    "mock_session_token_123"@
}

/// Whether a submitted credential pair is the accepted one.
pub open spec fn credentials_match(email: Seq<char>, password: Seq<char>) -> bool {
    email == admin_email() && password == admin_password()
}

/// The authenticator's two states.
#[derive(Clone, Copy, PartialEq, Eq, Structural, Debug)]
pub enum AuthState {
    Anonymous,
    Authenticated,
}

/// Failed authentication.
#[derive(Clone, Copy, PartialEq, Eq, Structural, Debug)]
pub enum AuthError {
    Unauthorized,
}

/// One cookie as handed in by the HTTP layer.
pub struct CookiePair {
    pub name: String,
    pub value: String,
}

/// The mathematical image of a cookie.
pub struct CookiePairView {
    pub name: Seq<char>,
    pub value: Seq<char>,
}

impl View for CookiePair {
    type V = CookiePairView;

    open spec fn view(&self) -> CookiePairView {
        CookiePairView { name: self.name@, value: self.value@ }
    }
}

/// The image of a whole cookie jar.
pub open spec fn jar_of(cookies: Seq<CookiePair>) -> Seq<CookiePairView> {
    cookies.map_values(|c: CookiePair| c@)
}

/// The value of the first cookie named `session_token`, if any.
pub open spec fn session_cookie_value(jar: Seq<CookiePairView>) -> Option<Seq<char>>
    decreases jar.len(),
{
    if jar.len() == 0 {
        None
    } else if jar[0].name == session_cookie_name() {
        Some(jar[0].value)
    } else {
        session_cookie_value(jar.skip(1))
    }
}

/// Whether a cookie jar proves a prior successful login.
pub open spec fn is_authorized(jar: Seq<CookiePairView>) -> bool {
    session_cookie_value(jar) == Some(session_token_value())
}

/// Validates a credential pair against the fixed pair; on a match returns
/// the session token, on a mismatch fails with `Unauthorized` — if and
/// only if.
pub fn login(email: &str, password: &str) -> (r: Result<String, AuthError>)
    ensures
        match r {
            Ok(t) => credentials_match(email@, password@) && t@ == session_token_value(),
            Err(e) => !credentials_match(email@, password@) && e == AuthError::Unauthorized,
        },
{
    if str_eq(email, "test@example.com") && str_eq(password, "password123") {
        Ok("mock_session_token_123".to_owned())
    } else {
        Err(AuthError::Unauthorized)
    }
}

/// Looks up the session cookie in the jar: the token value authenticates;
/// any other value, or absence, is `Anonymous`.
pub fn authorize(cookies: &Vec<CookiePair>) -> (r: AuthState)
    ensures
        (r == AuthState::Authenticated) == is_authorized(jar_of(cookies@)),
{
    let ghost jar = jar_of(cookies@);
    proof {
        assert(jar.skip(0) =~= jar);
    }
    let mut i: usize = 0;
    while i < cookies.len()
        invariant
            jar == jar_of(cookies@),
            jar.len() == cookies.len(),
            0 <= i <= cookies.len(),
            session_cookie_value(jar) == session_cookie_value(jar.skip(i as int)),
        decreases cookies.len() - i,
    {
        proof {
            assert(jar.skip(i as int)[0] == jar[i as int]);
            assert(jar[i as int] == cookies@[i as int]@);
        }
        let c = &cookies[i];
        if str_eq(c.name.as_str(), "session_token") {
            proof {
                assert(session_cookie_value(jar.skip(i as int)) == Some(jar[i as int].value));
            }
            if str_eq(c.value.as_str(), "mock_session_token_123") {
                return AuthState::Authenticated;
            } else {
                return AuthState::Anonymous;
            }
        }
        proof {
            assert(jar.skip(i as int).skip(1) =~= jar.skip(i as int + 1));
        }
        i = i + 1;
    }
    proof {
        assert(jar.skip(i as int).len() == 0);
    }
    AuthState::Anonymous
}

} // verus!
