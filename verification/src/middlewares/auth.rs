//! The token guard: a request passes only with a good bearer token in its
//! `Authorization` header.

use vstd::prelude::*;
use crate::auth::{claims_live_at, read_token, token_claims, token_valid_at, Claims};
use crate::clock::system_time;
use crate::utils::status::UNAUTHORIZED;

verus! {

/// What follows `Bearer ` in a header value that starts with it.
pub open spec fn bearer_of(header: Seq<char>) -> Option<Seq<char>> {
    if header.len() >= 7 && header.subrange(0, 7) == seq!['B', 'e', 'a', 'r', 'e', 'r', ' '] {
        Some(header.subrange(7, header.len() as int))
    } else {
        None
    }
}

/// The token in an `Authorization` header value: what follows the prefix
/// `Bearer `, taken as it stands. `None` where the value does not start with
/// that prefix.
pub fn bearer_token(header: &str) -> (r: Option<String>)
    ensures
        match r {
            Some(t) => bearer_of(header@) == Some(t@),
            None => bearer_of(header@) is None,
        },
{
    let n = header.unicode_len();
    if n < 7 {
        return None;
    }
    if header.get_char(0) == 'B' && header.get_char(1) == 'e' && header.get_char(2) == 'a'
        && header.get_char(3) == 'r' && header.get_char(4) == 'e' && header.get_char(5) == 'r'
        && header.get_char(6) == ' ' {
        assert(header@.subrange(0, 7) =~= seq!['B', 'e', 'a', 'r', 'e', 'r', ' ']);
        Some(header.substring_char(7, n).to_owned())
    } else {
        assert(header@.subrange(0, 7) != seq!['B', 'e', 'a', 'r', 'e', 'r', ' ']) by {
            let p = header@.subrange(0, 7);
            let q = seq!['B', 'e', 'a', 'r', 'e', 'r', ' '];
            if p == q {
                assert(p[0] == q[0] && p[1] == q[1] && p[2] == q[2] && p[3] == q[3] && p[4] == q[4]
                    && p[5] == q[5] && p[6] == q[6]);
            }
        }
        None
    }
}

/// The claims a request is let in under at `now`: those of the bearer token
/// in its `Authorization` header, where there is such a header, it holds a
/// bearer token, and the token is good at `now` under `secret`.
pub open spec fn admitted(authorization: Option<Seq<char>>, secret: Seq<char>, now: int) -> Option<
    crate::auth::ClaimsView,
> {
    match authorization {
        Some(header) => match bearer_of(header) {
            Some(token) => if token_valid_at(token, secret, now) {
                token_claims(token, secret)
            } else {
                None
            },
            None => None,
        },
        None => None,
    }
}

/// The view of an optional header value.
pub open spec fn header_view(authorization: Option<String>) -> Option<Seq<char>> {
    match authorization {
        Some(h) => Some(h@),
        None => None,
    }
}

/// Passes a request through the guard at `now`: hands out the claims it is
/// let in under, or nothing where it is turned away.
pub fn admit_at(authorization: &Option<String>, secret: &str, now: u64) -> (r: Option<Claims>)
    ensures
        match r {
            Some(c) => admitted(header_view(*authorization), secret@, now as int) == Some(c@),
            None => admitted(header_view(*authorization), secret@, now as int) is None,
        },
{
    let header = match authorization {
        Some(header) => header,
        None => {
            return None;
        },
    };
    let token = match bearer_token(header.as_str()) {
        Some(token) => token,
        None => {
            return None;
        },
    };
    match read_token(token.as_str(), secret) {
        Some(claims) => {
            if claims_live_at(&claims, now) {
                Some(claims)
            } else {
                None
            }
        },
        None => None,
    }
}

/// The guard's verdict at `now`: the request goes on to its handler, or is
/// answered with status 401. It goes on exactly when its `Authorization`
/// header holds a bearer token that is good at `now` under `secret`.
pub fn intercept_request_at(authorization: &Option<String>, secret: &str, now: u64) -> (r: Result<
    (),
    u16,
>)
    ensures
        r is Ok <==> admitted(header_view(*authorization), secret@, now as int) is Some,
        r matches Err(status) ==> status == UNAUTHORIZED,
{
    match admit_at(authorization, secret, now) {
        Some(_) => Ok(()),
        None => Err(UNAUTHORIZED),
    }
}

/// Passes a request through the guard right now, by the system clock.
/// Where the clock gives no reading the request is turned away.
///
/// Whatever the clock says: claims that are handed out are those the guard
/// admits the request under at some instant.
pub fn admit_now(authorization: &Option<String>, secret: &str) -> (r: Option<Claims>)
    ensures
        r matches Some(c) ==> exists|now: int|
            0 <= now && #[trigger] admitted(header_view(*authorization), secret@, now) == Some(c@),
{
    let reading = system_time();
    let r = admit_reading(authorization, secret, reading);
    proof {
        match reading {
            Some(at) => {
                if r is Some {
                    assert(admitted(header_view(*authorization), secret@, at.0 as int) == Some(
                        r->0@,
                    ));
                }
            },
            None => {},
        }
    }
    r
}

/// The guard's verdict right now, by the system clock. Where the clock gives
/// no reading the request is turned away.
///
/// Whatever the clock says: a request that goes on is one that the guard
/// admits at some instant, and one that is turned away is answered with
/// status 401.
pub fn intercept_request(authorization: &Option<String>, secret: &str) -> (r: Result<(), u16>)
    ensures
        r is Ok ==> exists|now: int|
            0 <= now && (#[trigger] admitted(header_view(*authorization), secret@, now)) is Some,
        r matches Err(status) ==> status == UNAUTHORIZED,
{
    match system_time() {
        Some(reading) => {
            let r = intercept_request_at(authorization, secret, reading.0);
            proof {
                if r is Ok {
                    assert(admitted(header_view(*authorization), secret@, reading.0 as int) is Some);
                }
            }
            r
        },
        None => Err(UNAUTHORIZED),
    }
}

/// The claims a request is let in under at the instant the clock read:
/// `reading` is the seconds and nanoseconds since the Unix epoch, or `None`
/// where the clock gave nothing, which turns every request away.
pub open spec fn admitted_on(
    authorization: Option<Seq<char>>,
    secret: Seq<char>,
    reading: Option<(u64, u32)>,
) -> Option<crate::auth::ClaimsView> {
    match reading {
        Some(at) => admitted(authorization, secret, at.0 as int),
        None => None,
    }
}

/// Passes a request through the guard by a clock reading: it is let in
/// where there is a reading and the guard admits it at that second. A
/// missing reading turns the request away, whatever it presents.
pub fn admit_reading(
    authorization: &Option<String>,
    secret: &str,
    reading: Option<(u64, u32)>,
) -> (r: Option<Claims>)
    ensures
        match r {
            Some(c) => admitted_on(header_view(*authorization), secret@, reading) == Some(c@),
            None => admitted_on(header_view(*authorization), secret@, reading) is None,
        },
{
    match reading {
        Some(at) => admit_at(authorization, secret, at.0),
        None => None,
    }
}

/// The header value that presents `token` as a bearer token.
pub open spec fn bearer_header(token: Seq<char>) -> Seq<char> {
    seq!['B', 'e', 'a', 'r', 'e', 'r', ' '] + token
}

/// A request that presents a token as bearer token is let in exactly while
/// the token is good: under the token's claims at every instant before
/// their expiry, and not at all from then on. A token that carries no
/// claims under the secret lets nothing in.
pub proof fn lemma_bearer_admitted_while_good(token: Seq<char>, secret: Seq<char>, now: int)
    ensures
        bearer_of(bearer_header(token)) == Some(token),
        admitted(Some(bearer_header(token)), secret, now) == (if token_valid_at(
            token,
            secret,
            now,
        ) {
            token_claims(token, secret)
        } else {
            None
        }),
        token_claims(token, secret) matches Some(c) ==> (admitted(
            Some(bearer_header(token)),
            secret,
            now,
        ) is Some <==> now < c.exp),
        token_claims(token, secret) is None ==> admitted(
            Some(bearer_header(token)),
            secret,
            now,
        ) is None,
{
    let header = bearer_header(token);
    assert(header.subrange(0, 7) =~= seq!['B', 'e', 'a', 'r', 'e', 'r', ' ']);
    assert(header.subrange(7, header.len() as int) =~= token);
}

/// A request without a header, or whose header holds no bearer token, is
/// turned away at every instant and under every secret.
pub proof fn lemma_no_bearer_no_entry(authorization: Option<Seq<char>>, secret: Seq<char>, now: int)
    requires
        authorization matches Some(h) ==> bearer_of(h) is None,
    ensures
        admitted(authorization, secret, now) is None,
{
}

} // verus!
