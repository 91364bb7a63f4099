//! Control-panel request handling: authorization and halt requests.
use vstd::prelude::*;
use crate::packet::OperatorAction;
use crate::risk::saturating_sub_spec;
use crate::text::{ascii_lower, eq_ignore_ascii_case, span_equals, str_equal};

verus! {

/// The panel demands a token when its auth mode is "jwt" in any ASCII case.
pub fn jwt_required(auth_mode: &str) -> (r: bool)
    ensures
        r == (ascii_lower(auth_mode@) == "jwt"@),
{
    proof {
        reveal_strlit("jwt");
    }
    assert(ascii_lower("jwt"@) =~= "jwt"@);
    eq_ignore_ascii_case(auth_mode, "jwt")
}

/// The token of an `Authorization` header: what follows "Bearer " or
/// "bearer ", else empty.
pub open spec fn bearer_token_spec(header: Seq<char>) -> Seq<char> {
    if header.len() >= 7 && (header.subrange(0, 7) == "Bearer "@ || header.subrange(0, 7)
        == "bearer "@) {
        header.subrange(7, header.len() as int)
    } else {
        Seq::empty()
    }
}

pub fn bearer_token(header: &str) -> (t: &str)
    ensures
        t@ == bearer_token_spec(header@),
{
    let n = header.unicode_len();
    if n >= 7 && (span_equals(header, 0, 7, "Bearer ") || span_equals(header, 0, 7, "bearer ")) {
        header.substring_char(7, n)
    } else {
        proof {
            reveal_strlit("");
        }
        ""
    }
}

#[derive(Debug, Clone, Copy, PartialEq, Eq, Structural)]
pub enum AuthStep {
    /// Serve the request.
    Allow,
    /// Answer 401.
    Reject,
    /// Serve the request only if the bearer token is a valid HS256 JWT.
    VerifyJwt,
}

/// The health endpoint and panels without JWT auth are open; otherwise a
/// secret must be configured and the bearer token must be non-empty; the
/// raw secret itself is accepted, any other token needs JWT verification.
pub open spec fn auth_step_spec(
    path: Seq<char>,
    jwt_required: bool,
    secret: Option<Seq<char>>,
    header: Seq<char>,
) -> AuthStep {
    if path == "/health"@ || !jwt_required {
        AuthStep::Allow
    } else {
        match secret {
            None => AuthStep::Reject,
            Some(sec) => {
                let token = bearer_token_spec(header);
                if token.len() == 0 {
                    AuthStep::Reject
                } else if token == sec {
                    AuthStep::Allow
                } else {
                    AuthStep::VerifyJwt
                }
            },
        }
    }
}

pub open spec fn opt_view(s: Option<&str>) -> Option<Seq<char>> {
    match s {
        Some(v) => Some(v@),
        None => None,
    }
}

pub fn auth_step(path: &str, jwt_required: bool, secret: Option<&str>, authorization: &str) -> (r:
    AuthStep)
    ensures
        r == auth_step_spec(path@, jwt_required, opt_view(secret), authorization@),
{
    if str_equal(path, "/health") || !jwt_required {
        return AuthStep::Allow;
    }
    match secret {
        None => AuthStep::Reject,
        Some(sec) => {
            let token = bearer_token(authorization);
            if token.is_empty() {
                AuthStep::Reject
            } else if str_equal(token, sec) {
                AuthStep::Allow
            } else {
                AuthStep::VerifyJwt
            }
        },
    }
}

/// Command published for a halt request: flatten wins, then halt, else
/// resume.
pub fn halt_action(flatten: bool, halt_entries: bool) -> (a: OperatorAction)
    ensures
        a == (if flatten {
            OperatorAction::FlattenAll
        } else if halt_entries {
            OperatorAction::HaltEntries
        } else {
            OperatorAction::ResumeEntries
        }),
{
    if flatten {
        OperatorAction::FlattenAll
    } else if halt_entries {
        OperatorAction::HaltEntries
    } else {
        OperatorAction::ResumeEntries
    }
}

/// Milliseconds since the last published command, or -1 if none was.
pub fn command_age_ms(last_cmd_ns: u64, now_ns: u64) -> (age: i64)
    ensures
        last_cmd_ns == 0 ==> age == -1,
        last_cmd_ns != 0 ==> age == saturating_sub_spec(now_ns, last_cmd_ns) / 1_000_000,
{
    if last_cmd_ns == 0 {
        -1
    } else {
        (now_ns.saturating_sub(last_cmd_ns) / 1_000_000) as i64
    }
}

/// Without JWT auth every request is served; with it, a request without a
/// token is never served and only the raw secret or a verified JWT gets in.
pub proof fn law_jwt_gate(path: Seq<char>, secret: Option<Seq<char>>, header: Seq<char>)
    ensures
        auth_step_spec(path, false, secret, header) == AuthStep::Allow,
        path != "/health"@ && bearer_token_spec(header).len() == 0 ==> auth_step_spec(
            path,
            true,
            secret,
            header,
        ) == AuthStep::Reject,
        path != "/health"@ && secret is None ==> auth_step_spec(path, true, secret, header)
            == AuthStep::Reject,
        path != "/health"@ && auth_step_spec(path, true, secret, header) == AuthStep::Allow
            ==> secret == Some(bearer_token_spec(header)),
{
}

/// The authorization decision, case by case: the health endpoint and
/// panels without JWT auth are served; with JWT auth and no secret the
/// request is refused; a missing or empty bearer token is refused; the raw
/// secret as token is served; any other token goes to JWT verification.
pub proof fn law_auth_cases(path: Seq<char>, jwt_required: bool, secret: Option<Seq<char>>, header: Seq<char>)
    ensures
        path == "/health"@ ==> auth_step_spec(path, jwt_required, secret, header) == AuthStep::Allow,
        !jwt_required ==> auth_step_spec(path, jwt_required, secret, header) == AuthStep::Allow,
        path != "/health"@ && jwt_required && secret is None ==> auth_step_spec(
            path,
            jwt_required,
            secret,
            header,
        ) == AuthStep::Reject,
        path != "/health"@ && jwt_required && secret is Some && bearer_token_spec(header).len() == 0
            ==> auth_step_spec(path, jwt_required, secret, header) == AuthStep::Reject,
        path != "/health"@ && jwt_required && secret is Some && bearer_token_spec(header).len() > 0
            && bearer_token_spec(header) == secret.unwrap() ==> auth_step_spec(
            path,
            jwt_required,
            secret,
            header,
        ) == AuthStep::Allow,
        path != "/health"@ && jwt_required && secret is Some && bearer_token_spec(header).len() > 0
            && bearer_token_spec(header) != secret.unwrap() ==> auth_step_spec(
            path,
            jwt_required,
            secret,
            header,
        ) == AuthStep::VerifyJwt,
{
}

/// A header made of "Bearer " or "bearer " and a token yields that token;
/// a header that starts with neither yields no token.
pub proof fn law_bearer_token(token: Seq<char>, header: Seq<char>)
    ensures
        bearer_token_spec("Bearer "@ + token) == token,
        bearer_token_spec("bearer "@ + token) == token,
        header.len() < 7 ==> bearer_token_spec(header).len() == 0,
{
    reveal_strlit("Bearer ");
    reveal_strlit("bearer ");
    assert(("Bearer "@ + token).subrange(0, 7) =~= "Bearer "@);
    assert(("Bearer "@ + token).subrange(7, ("Bearer "@ + token).len() as int) =~= token);
    assert(("bearer "@ + token).subrange(0, 7) =~= "bearer "@);
    assert(("bearer "@ + token).subrange(7, ("bearer "@ + token).len() as int) =~= token);
}

} // verus!
