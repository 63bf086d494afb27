//! Session tokens: issuing them, and deciding whether a presented one is
//! still good.
//!
//! A token is a signed set of [`Claims`]. Signing and signature checking are
//! done by `jsonwebtoken`; what the claims hold, whether a decoded payload is a
//! complete set of claims, and when a token has lapsed are decided here.

use vstd::prelude::*;
use crate::clock::system_time;
use crate::utils::errors::ControllerError;
use crate::utils::status::INTERNAL_SERVER_ERROR;

verus! {

/// How long a token stays good after it was issued, in seconds.
pub const TOKEN_LIFETIME: u64 = 86400;

/// What a session token states.
#[derive(Debug, Clone, PartialEq, Eq)]
pub struct Claims {
    pub user_id: i32,
    pub email: String,
    pub iat: u64,
    pub exp: u64,
}

/// [`Claims`] as mathematical values.
pub struct ClaimsView {
    pub user_id: int,
    pub email: Seq<char>,
    pub iat: int,
    pub exp: int,
}

impl View for Claims {
    type V = ClaimsView;

    open spec fn view(&self) -> ClaimsView {
        ClaimsView {
            user_id: self.user_id as int,
            email: self.email@,
            iat: self.iat as int,
            exp: self.exp as int,
        }
    }
}

/// The four claim fields as found in a token's payload: each is absent where
/// the payload lacks it or holds a value of another JSON type.
#[derive(Debug, Clone, PartialEq, Eq)]
pub struct Payload {
    pub user_id: Option<i64>,
    pub email: Option<String>,
    pub iat: Option<u64>,
    pub exp: Option<u64>,
}

/// A [`Payload`] as mathematical values.
pub struct PayloadView {
    pub user_id: Option<int>,
    pub email: Option<Seq<char>>,
    pub iat: Option<int>,
    pub exp: Option<int>,
}

impl View for Payload {
    type V = PayloadView;

    open spec fn view(&self) -> PayloadView {
        PayloadView {
            user_id: match self.user_id {
                Some(v) => Some(v as int),
                None => None,
            },
            email: match self.email {
                Some(s) => Some(s@),
                None => None,
            },
            iat: match self.iat {
                Some(v) => Some(v as int),
                None => None,
            },
            exp: match self.exp {
                Some(v) => Some(v as int),
                None => None,
            },
        }
    }
}

/// The token `jsonwebtoken::encode` makes of these claims under the default
/// header and an HMAC key made of `secret`; `None` where it reports an error.
pub uninterp spec fn signed_token(
    user_id: int,
    email: Seq<char>,
    iat: int,
    exp: int,
    secret: Seq<char>,
) -> Option<Seq<char>>;

/// The payload `jsonwebtoken::decode` hands out for `token` under an HMAC key
/// made of `secret`, with the expiry check switched off; `None` where it
/// reports an error.
pub uninterp spec fn verified_payload(token: Seq<char>, secret: Seq<char>) -> Option<PayloadView>;

/// The payload that holds exactly these claims.
pub open spec fn payload_of(c: ClaimsView) -> PayloadView {
    PayloadView {
        user_id: Some(c.user_id),
        email: Some(c.email),
        iat: Some(c.iat),
        exp: Some(c.exp),
    }
}

/// Calls `jsonwebtoken::encode` with the default header (HS256), a JSON object
/// of the four claims and `EncodingKey::from_secret`.
///
/// Trusted: the outcome is [`signed_token`] of the arguments, and a token
/// that comes out is one that `jsonwebtoken::decode` accepts under the same
/// secret, handing back the same four values.
#[verifier::external_body]
fn sign_claims(claims: &Claims, secret: &str) -> (r: Option<String>)
    ensures
        match r {
            Some(t) => signed_token(
                claims.user_id as int,
                claims.email@,
                claims.iat as int,
                claims.exp as int,
                secret@,
            ) == Some(t@),
            None => signed_token(
                claims.user_id as int,
                claims.email@,
                claims.iat as int,
                claims.exp as int,
                secret@,
            ) is None,
        },
        r matches Some(t) ==> verified_payload(t@, secret@) == Some(payload_of(claims@)),
{
    let mut body = serde_json::Map::new();
    body.insert("user_id".to_string(), serde_json::Value::from(claims.user_id));
    body.insert("email".to_string(), serde_json::Value::from(claims.email.clone()));
    body.insert("iat".to_string(), serde_json::Value::from(claims.iat));
    body.insert("exp".to_string(), serde_json::Value::from(claims.exp));
    let key = jsonwebtoken::EncodingKey::from_secret(secret.as_bytes());
    jsonwebtoken::encode(&jsonwebtoken::Header::default(), &body, &key).ok()
}

/// Calls `jsonwebtoken::decode` with `DecodingKey::from_secret` and the
/// default validation (HS256, `exp` required) with its expiry check switched
/// off, and reads the four claim fields out of the JSON payload.
///
/// Trusted: the outcome is [`verified_payload`] of the arguments.
#[verifier::external_body]
fn open_token(token: &str, secret: &str) -> (r: Option<Payload>)
    ensures
        match r {
            Some(p) => verified_payload(token@, secret@) == Some(p@),
            None => verified_payload(token@, secret@) is None,
        },
{
    let mut rules = jsonwebtoken::Validation::default();
    rules.validate_exp = false;
    let key = jsonwebtoken::DecodingKey::from_secret(secret.as_bytes());
    let data = jsonwebtoken::decode::<serde_json::Value>(token, &key, &rules).ok()?;
    Some(Payload {
        user_id: data.claims.get("user_id").and_then(serde_json::Value::as_i64),
        email: data.claims.get("email").and_then(serde_json::Value::as_str).map(str::to_string),
        iat: data.claims.get("iat").and_then(serde_json::Value::as_u64),
        exp: data.claims.get("exp").and_then(serde_json::Value::as_u64),
    })
}

/// The claims of a token issued at `now`.
pub open spec fn claims_issued_at(user_id: int, email: Seq<char>, now: int) -> ClaimsView {
    ClaimsView { user_id, email, iat: now, exp: now + TOKEN_LIFETIME as int }
}

/// The complete claims in a payload, if it holds all four and `user_id` fits
/// its type.
pub open spec fn claims_in(p: PayloadView) -> Option<ClaimsView> {
    if p.user_id is Some && p.email is Some && p.iat is Some && p.exp is Some
        && i32::MIN <= p.user_id->0 <= i32::MAX {
        Some(ClaimsView { user_id: p.user_id->0, email: p.email->0, iat: p.iat->0, exp: p.exp->0 })
    } else {
        None
    }
}

/// The claims a token carries, if its signature checks out under `secret`
/// and its payload is complete.
pub open spec fn token_claims(token: Seq<char>, secret: Seq<char>) -> Option<ClaimsView> {
    match verified_payload(token, secret) {
        Some(p) => claims_in(p),
        None => None,
    }
}

/// Whether claims are still good at `now`: strictly before `exp`.
pub open spec fn live_at(c: ClaimsView, now: int) -> bool {
    now < c.exp
}

/// Whether `token` is good at `now` under `secret`.
pub open spec fn token_valid_at(token: Seq<char>, secret: Seq<char>, now: int) -> bool {
    match token_claims(token, secret) {
        Some(c) => live_at(c, now),
        None => false,
    }
}

/// Whether `e` is the error an issuance at the clock reading `now` fails
/// with. Every failure is an internal error, and its message tells why:
/// `clock before epoch` where the clock gave no reading, `clock out of
/// range` where the expiry would not fit 64 bits, and `signing failed`
/// where the signer reports an error.
pub open spec fn issuance_refused(
    user_id: int,
    email: Seq<char>,
    secret: Seq<char>,
    now: Option<u64>,
    e: ControllerError,
) -> bool {
    &&& e.status_code == INTERNAL_SERVER_ERROR
    &&& match now {
        None => e.message@ == "clock before epoch"@,
        Some(n) => if n + TOKEN_LIFETIME > u64::MAX {
            e.message@ == "clock out of range"@
        } else {
            &&& signed_token(user_id, email, n as int, n + TOKEN_LIFETIME, secret) is None
            &&& e.message@ == "signing failed"@
        },
    }
}

/// A token that opens to the claims issued at `issued` is good at every
/// instant before `issued + TOKEN_LIFETIME`, and at none from then on.
pub proof fn lemma_issued_token_lapses(
    token: Seq<char>,
    secret: Seq<char>,
    user_id: int,
    email: Seq<char>,
    issued: int,
    at: int,
)
    requires
        i32::MIN <= user_id <= i32::MAX,
        verified_payload(token, secret) == Some(
            payload_of(claims_issued_at(user_id, email, issued)),
        ),
    ensures
        token_claims(token, secret) == Some(claims_issued_at(user_id, email, issued)),
        token_valid_at(token, secret, at) <==> at < issued + TOKEN_LIFETIME,
{
}

/// The claims of a token issued to this user at `now`.
pub fn build_claims(user_id: i32, email: String, now: u64) -> (c: Claims)
    requires
        now + TOKEN_LIFETIME <= u64::MAX,
    ensures
        c@ == claims_issued_at(user_id as int, email@, now as int),
{
    Claims { user_id, email, iat: now, exp: now + TOKEN_LIFETIME }
}

/// Turns a payload into claims where it holds all four fields and `user_id`
/// fits its type.
pub fn claims_from_payload(payload: Payload) -> (r: Option<Claims>)
    ensures
        match r {
            Some(c) => claims_in(payload@) == Some(c@),
            None => claims_in(payload@) is None,
        },
{
    let Payload { user_id, email, iat, exp } = payload;
    match (user_id, email, iat, exp) {
        (Some(user_id), Some(email), Some(iat), Some(exp)) => {
            if -2147483648 <= user_id && user_id <= 2147483647 {
                Some(Claims { user_id: user_id as i32, email, iat, exp })
            } else {
                None
            }
        },
        _ => None,
    }
}

/// Issues a token for an authenticated user, given the clock's reading.
///
/// Fails where the clock gave no reading (`now` is `None`), where the expiry
/// would not fit 64 bits, and where signing fails; each failure is an
/// internal error whose message tells which of the three it was. A token
/// that comes out is good at every instant before `now + TOKEN_LIFETIME` and
/// at none from then on.
pub fn generate_token_at(user_id: i32, email: String, secret: &str, now: Option<u64>) -> (r: Result<
    String,
    ControllerError,
>)
    ensures
        match r {
            Ok(t) => {
                &&& now matches Some(n)
                &&& n + TOKEN_LIFETIME <= u64::MAX
                &&& signed_token(
                    user_id as int,
                    email@,
                    n as int,
                    n + TOKEN_LIFETIME,
                    secret@,
                ) == Some(t@)
                &&& token_claims(t@, secret@) == Some(
                    claims_issued_at(user_id as int, email@, n as int),
                )
                &&& forall|at: int| #[trigger]
                    token_valid_at(t@, secret@, at) <==> at < n + TOKEN_LIFETIME
            },
            Err(e) => issuance_refused(user_id as int, email@, secret@, now, e),
        },
{
    let ghost mail = email@;
    let n = match now {
        Some(n) => n,
        None => {
            return Err(ControllerError::new("clock before epoch".to_owned(), INTERNAL_SERVER_ERROR));
        },
    };
    if n > u64::MAX - TOKEN_LIFETIME {
        return Err(ControllerError::new("clock out of range".to_owned(), INTERNAL_SERVER_ERROR));
    }
    let claims = build_claims(user_id, email, n);
    match sign_claims(&claims, secret) {
        Some(token) => {
            proof {
                assert forall|at: int| #[trigger]
                    token_valid_at(token@, secret@, at) <==> at < n + TOKEN_LIFETIME by {
                    lemma_issued_token_lapses(
                        token@,
                        secret@,
                        user_id as int,
                        mail,
                        n as int,
                        at,
                    );
                }
                lemma_issued_token_lapses(token@, secret@, user_id as int, mail, n as int, 0);
            }
            Ok(token)
        },
        None => Err(ControllerError::new("signing failed".to_owned(), INTERNAL_SERVER_ERROR)),
    }
}

/// Issues a token for an authenticated user, reading the system clock.
///
/// Whatever the clock says: a token that comes out was issued at some
/// instant `n` for exactly this user, and lapses `TOKEN_LIFETIME` seconds
/// after it; a failure is an internal error, worded as
/// [`generate_token_at`] words it for some reading of the clock.
pub fn generate_token(user_id: i32, email: String, secret: &str) -> (r: Result<String, ControllerError>)
    ensures
        match r {
            Ok(t) => exists|n: int|
                {
                    &&& 0 <= n
                    &&& n + TOKEN_LIFETIME <= u64::MAX
                    &&& #[trigger] signed_token(
                        user_id as int,
                        email@,
                        n,
                        n + TOKEN_LIFETIME,
                        secret@,
                    ) == Some(t@)
                    &&& token_claims(t@, secret@) == Some(
                        claims_issued_at(user_id as int, email@, n),
                    )
                },
            Err(e) => {
                &&& e.status_code == INTERNAL_SERVER_ERROR
                &&& exists|now: Option<u64>| #[trigger]
                    issuance_refused(user_id as int, email@, secret@, now, e)
            },
        },
{
    let now = match system_time() {
        Some(reading) => Some(reading.0),
        None => None,
    };
    let r = generate_token_at(user_id, email, secret, now);
    proof {
        if r is Ok {
            let n = now->0 as int;
            assert(signed_token(user_id as int, email@, n, n + TOKEN_LIFETIME, secret@) == Some(
                r->Ok_0@,
            ));
        } else {
            assert(issuance_refused(user_id as int, email@, secret@, now, r->Err_0));
        }
    }
    r
}

/// The claims a token carries under `secret`, whether or not it has lapsed.
pub fn read_token(token: &str, secret: &str) -> (r: Option<Claims>)
    ensures
        match r {
            Some(c) => token_claims(token@, secret@) == Some(c@),
            None => token_claims(token@, secret@) is None,
        },
{
    match open_token(token, secret) {
        Some(payload) => claims_from_payload(payload),
        None => None,
    }
}

/// Whether claims are still good at `now`.
pub fn claims_live_at(claims: &Claims, now: u64) -> (ok: bool)
    ensures
        ok == live_at(claims@, now as int),
{
    now < claims.exp
}

/// Whether `token` is good at `now`: signed under `secret`, complete, and
/// not lapsed. Never fails: anything wrong with the token gives `false`.
pub fn validate_token_at(token: &str, secret: &str, now: u64) -> (ok: bool)
    ensures
        ok == token_valid_at(token@, secret@, now as int),
{
    match read_token(token, secret) {
        Some(claims) => claims_live_at(&claims, now),
        None => false,
    }
}

/// Whether `token` is good right now by the system clock. Where the clock
/// gives no reading the token is refused.
///
/// Whatever the clock says: a token that is accepted is good at some instant,
/// and one that carries no claims under `secret` is refused.
pub fn validate_token(token: String, secret: &str) -> (ok: bool)
    ensures
        ok ==> exists|now: int| 0 <= now && #[trigger] token_valid_at(token@, secret@, now),
        token_claims(token@, secret@) is None ==> !ok,
{
    let reading = system_time();
    let ok = validate_token_reading(token.as_str(), secret, reading);
    proof {
        match reading {
            Some(at) => {
                if ok {
                    assert(token_valid_at(token@, secret@, at.0 as int));
                }
            },
            None => {},
        }
    }
    ok
}

/// Whether `token` is good at the instant the clock read: `reading` is the
/// seconds and nanoseconds since the Unix epoch, or `None` where the clock
/// gave nothing, which refuses every token.
pub open spec fn token_valid_on(
    token: Seq<char>,
    secret: Seq<char>,
    reading: Option<(u64, u32)>,
) -> bool {
    match reading {
        Some(at) => token_valid_at(token, secret, at.0 as int),
        None => false,
    }
}

/// Judges `token` by a clock reading: it is good where there is a reading
/// and the token is good at that second under `secret`. A missing reading
/// refuses the token, whatever it holds.
pub fn validate_token_reading(token: &str, secret: &str, reading: Option<(u64, u32)>) -> (ok: bool)
    ensures
        ok == token_valid_on(token@, secret@, reading),
{
    match reading {
        Some(at) => validate_token_at(token, secret, at.0),
        None => false,
    }
}

} // verus!
