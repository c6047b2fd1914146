//! The security gate: CSRF token issuance and verification, and the request
//! facts it rules on.
//!
//! A token is a synchronizer: it proves the bearer got it from a response
//! this server rendered under the currently active secret window. Safe
//! (read) requests are issued a fresh token; unsafe (mutating) requests must
//! echo one back in the `X-CSRF-Token` header, and failure is terminal for
//! that request. Tokens are verified against the rotating window, not a
//! one-time nonce, so tokens issued to concurrent tabs keep working until
//! the window rotates. The unguessable window and nonce values are entropy
//! the caller supplies at construction and issuance.

use vstd::prelude::*;

use crate::wire::{
    decimal_u64, lemma_decimal_all_digits, lemma_decimal_round_trip, lemma_split_at_first,
    lemma_split_none, parse_u64, spec_decimal, spec_digit_of, spec_parse_u64, split_at_sep,
};

verus! {

/// The request methods the security filter distinguishes. `Get` is the safe (read)
/// kind; the four others mutate and must pass CSRF verification.
#[derive(Clone, Copy, Debug, PartialEq, Eq, Structural)]
pub enum Method {
    Get,
    Post,
    Put,
    Patch,
    Delete,
}

impl Method {
    /// The method mutates state.
    pub open spec fn spec_mutating(self) -> bool {
        self != Method::Get
    }

    /// The method mutates state.
    pub fn mutating(&self) -> (r: bool)
        ensures
            r == self.spec_mutating(),
    {
        match self {
            Method::Get => false,
            _ => true,
        }
    }
}

/// A synchronizer token: the secret window it was issued under and the
/// per-issuance nonce. Its header form is `window.nonce` in decimal.
#[derive(Clone, Copy, Debug, PartialEq, Eq, Structural)]
pub struct CsrfToken {
    pub window: u64,
    pub nonce: u64,
}

/// The facts the security filter reads off one incoming request: the method, whether
/// the `HX-Request` header is present, the raw `X-CSRF-Token` header if any,
/// and the session cookie's id if any.
#[derive(Debug)]
pub struct RequestContext {
    pub method: Method,
    pub hx_request: bool,
    pub csrf_header: Option<String>,
    pub session: Option<u64>,
}

/// Why a request was rejected. The first three are CSRF failures
/// (reported as forbidden), the last is an authentication failure (reported
/// as unauthorized); either short-circuits before any domain logic runs.
#[derive(Clone, Copy, Debug, PartialEq, Eq, Structural)]
pub enum GateError {
    MissingSource,
    MissingToken,
    InvalidToken,
    Unauthorized,
}

impl GateError {
    /// The caller-facing description of the rejection.
    pub fn message(&self) -> (s: &'static str)
        ensures
            match *self {
                GateError::MissingSource => s@ == "Invalid Source."@,
                GateError::MissingToken => s@ == "Missing Token."@,
                GateError::InvalidToken => s@ == "Invalid Token."@,
                GateError::Unauthorized => s@ == "Unauthorized."@,
            },
    {
        match self {
            GateError::MissingSource => "Invalid Source.",
            GateError::MissingToken => "Missing Token.",
            GateError::InvalidToken => "Invalid Token.",
            GateError::Unauthorized => "Unauthorized.",
        }
    }
}

/// The header form of a token: the window and the nonce in decimal, joined
/// by a dot.
pub open spec fn spec_encode_token(t: CsrfToken) -> Seq<char> {
    spec_decimal(t.window as nat) + seq!['.'] + spec_decimal(t.nonce as nat)
}

/// What `parse_token` accepts: a decimal window, a dot, a decimal nonce.
pub open spec fn spec_parse_token(s: Seq<char>) -> Option<CsrfToken> {
    match split_at_sep(s) {
        Some(parts) => match (spec_parse_u64(parts.0), spec_parse_u64(parts.1)) {
            (Some(window), Some(nonce)) => Some(CsrfToken { window, nonce }),
            _ => None,
        },
        None => None,
    }
}

/// Prints a token into its header form.
pub fn encode_token(t: &CsrfToken) -> (s: String)
    ensures
        s@ == spec_encode_token(*t),
{
    let mut s = decimal_u64(t.window);
    s.append(".");
    let nonce = decimal_u64(t.nonce);
    s.append(nonce.as_str());
    proof {
        reveal_strlit(".");
        assert(s@ =~= spec_encode_token(*t));
    }
    s
}

/// Parses a header back into a token, rejecting anything that is not two
/// decimal numbers joined by a dot.
pub fn parse_token(s: &str) -> (r: Option<CsrfToken>)
    ensures
        r == spec_parse_token(s@),
{
    let n = s.unicode_len();
    let mut i: usize = 0;
    while i < n
        invariant
            0 <= i <= n == s@.len(),
            forall|j: int| 0 <= j < i ==> s@[j] != '.',
        decreases n - i,
    {
        if s.get_char(i) == '.' {
            proof {
                lemma_split_at_first(s@, i as int);
            }
            let left = s.substring_char(0, i);
            let right = s.substring_char(i + 1, n);
            proof {
                assert(left@ =~= s@.take(i as int));
                assert(right@ =~= s@.skip(i as int + 1));
            }
            let window = match parse_u64(left) {
                Some(w) => w,
                None => {
                    return None;
                },
            };
            let nonce = match parse_u64(right) {
                Some(x) => x,
                None => {
                    return None;
                },
            };
            return Some(CsrfToken { window, nonce });
        }
        i = i + 1;
    }
    proof {
        lemma_split_none(s@);
    }
    None
}

/// Law: the token wire format round-trips — parsing a printed token gives
/// back exactly that token.
pub proof fn lemma_token_round_trip(t: CsrfToken)
    ensures
        spec_parse_token(spec_encode_token(t)) == Some(t),
{
    let w = spec_decimal(t.window as nat);
    let x = spec_decimal(t.nonce as nat);
    let s = spec_encode_token(t);
    lemma_decimal_all_digits(t.window as nat);
    lemma_decimal_all_digits(t.nonce as nat);
    assert(spec_digit_of('.') is None);
    assert(s[w.len() as int] == '.');
    assert forall|j: int| 0 <= j < w.len() implies s[j] != '.' by {
        assert(s[j] == w[j]);
        assert(spec_digit_of(w[j]) is Some);
    }
    lemma_split_at_first(s, w.len() as int);
    assert(s.take(w.len() as int) =~= w);
    assert(s.skip(w.len() as int + 1) =~= x);
    lemma_decimal_round_trip(t.window as nat);
    lemma_decimal_round_trip(t.nonce as nat);
}

/// The rotating CSRF secret: tokens verify against the currently
/// active window only. Read by every request, written only at rotation.
pub struct SecurityGate {
    pub window: u64,
}

impl SecurityGate {
    /// A fresh secret holder whose active window is the given value.
    pub fn new(window: u64) -> (gate: SecurityGate)
        ensures
            gate.window == window,
    {
        SecurityGate { window }
    }

    /// The token was issued under the currently active window.
    pub open spec fn spec_verifies(&self, t: CsrfToken) -> bool {
        t.window == self.window
    }

    /// A fresh token bound to the active window. Issuing does not invalidate
    /// any other token of the same window: the secret is untouched.
    pub fn issue(&self, nonce: u64) -> (t: CsrfToken)
        ensures
            t.window == self.window,
            t.nonce == nonce,
            self.spec_verifies(t),
    {
        CsrfToken { window: self.window, nonce }
    }

    /// Whether a token verifies against the active window.
    pub fn verify(&self, t: &CsrfToken) -> (r: bool)
        ensures
            r == self.spec_verifies(*t),
    {
        t.window == self.window
    }

    /// Rotates the secret: tokens issued under the old window stop
    /// verifying (unless the new secret happens to equal the old one, which
    /// the caller's entropy makes unguessably unlikely).
    pub fn rotate(&mut self, window: u64)
        ensures
            final(self).window == window,
    {
        self.window = window;
    }
}

/// Law: tokens from the same window coexist — issuing one token never stops
/// a previously issued token of the active window from verifying.
pub proof fn lemma_same_window_tokens_coexist(gate: SecurityGate, earlier: CsrfToken, nonce: u64)
    requires
        gate.spec_verifies(earlier),
    ensures
        gate.spec_verifies(CsrfToken { window: gate.window, nonce }),
        gate.spec_verifies(earlier),
{
}

/// What `csrf_verifier` decides for a request: safe methods pass; a
/// mutating request fails with the first applicable CSRF error — no header,
/// an unparseable header, a token from another window — and passes only
/// with a token of the active window.
pub open spec fn spec_csrf_check(gate: SecurityGate, request: RequestContext) -> Result<
    (),
    GateError,
> {
    if !request.method.spec_mutating() {
        Ok(())
    } else {
        match request.csrf_header {
            None => Err(GateError::MissingToken),
            Some(h) => match spec_parse_token(h@) {
                None => Err(GateError::InvalidToken),
                Some(t) => if gate.spec_verifies(t) {
                    Ok(())
                } else {
                    Err(GateError::InvalidToken)
                },
            },
        }
    }
}

/// Verifies the CSRF token of a mutating request; safe requests pass
/// through. Runs before the authentication check, so unauthenticated
/// mutation attempts are rejected uniformly.
pub fn csrf_verifier(gate: &SecurityGate, request: &RequestContext) -> (r: Result<(), GateError>)
    ensures
        r == spec_csrf_check(*gate, *request),
{
    if !request.method.mutating() {
        return Ok(());
    }
    let header = match &request.csrf_header {
        None => {
            return Err(GateError::MissingToken);
        },
        Some(h) => h,
    };
    let token = match parse_token(header.as_str()) {
        None => {
            return Err(GateError::InvalidToken);
        },
        Some(t) => t,
    };
    if gate.verify(&token) {
        Ok(())
    } else {
        Err(GateError::InvalidToken)
    }
}

/// Issues a fresh token on a safe request — exactly one per safe response —
/// and leaves mutating requests to `csrf_verifier`.
pub fn csrf_provider(gate: &SecurityGate, request: &RequestContext, nonce: u64) -> (r: Option<
    CsrfToken,
>)
    ensures
        !request.method.spec_mutating() ==> r == Some(
            CsrfToken { window: gate.window, nonce },
        ),
        request.method.spec_mutating() ==> r is None,
{
    if !request.method.mutating() {
        Some(gate.issue(nonce))
    } else {
        None
    }
}

/// What `integrity_service` decides: a mutating request must come from the
/// expected source (`HX-Request` present), then carry a token, then a
/// parseable one, then one of the active window; any failure is terminal.
/// A request that passes — every safe request does — is issued one fresh
/// token for its response.
pub open spec fn spec_integrity_check(gate: SecurityGate, request: RequestContext, nonce: u64) -> Result<
    CsrfToken,
    GateError,
> {
    if request.method.spec_mutating() && !request.hx_request {
        Err(GateError::MissingSource)
    } else {
        match spec_csrf_check(gate, request) {
            Ok(()) => Ok(CsrfToken { window: gate.window, nonce }),
            Err(e) => Err(e),
        }
    }
}

/// The combined request filter: source check and CSRF verification for
/// mutating requests, then issuance of the response's token. The nonce is
/// caller-supplied entropy for the issued token.
pub fn integrity_service(gate: &SecurityGate, request: &RequestContext, nonce: u64) -> (r: Result<
    CsrfToken,
    GateError,
>)
    ensures
        r == spec_integrity_check(*gate, *request, nonce),
{
    if request.method.mutating() && !request.hx_request {
        return Err(GateError::MissingSource);
    }
    match csrf_verifier(gate, request) {
        Ok(()) => Ok(gate.issue(nonce)),
        Err(e) => Err(e),
    }
}

} // verus!
