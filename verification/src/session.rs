//! Session tokens: HS256-signed claims that name a board and expire a day
//! after they were issued.

use vstd::prelude::*;
use vstd::string::*;
use crate::clock::{on_clock, unix_now};
use crate::error::BoardError;

verus! {

/// `jsonwebtoken::errors::Error`, carried from the call to the place that
/// maps it; nothing is read from it.
#[verifier::external_type_specification]
#[verifier::external_body]
pub struct ExJwtError(jsonwebtoken::errors::Error);

/// What a token asserts: the board it was issued for and the Unix time at
/// which it expires.
#[derive(Clone, Debug)]
pub struct Claims {
    pub sub: String,
    pub exp: u64,
}

/// The credential taken from an `Authorization` header.
#[derive(Clone, Debug)]
pub struct BearerToken {
    pub token: String,
}

/// Why a presented credential was not accepted. The kinds are told apart
/// inside the library only: to a caller each of them is `Unauthorized`.
#[derive(Clone, Copy, Debug, PartialEq, Eq, Structural)]
pub enum TokenFailure {
    /// No header, or one that does not start with `Bearer `.
    Missing,
    /// The token cannot be parsed, its signature does not verify, or it
    /// lacks a subject or an expiry.
    Malformed,
    /// The signature verifies and the expiry has passed.
    Expired,
}

impl TokenFailure {
    /// The one outcome that every kind of failure is reported as.
    pub fn outcome(self) -> (error: BoardError)
        ensures
            error == BoardError::Unauthorized,
    {
        BoardError::Unauthorized
    }
}

/// Seconds for which a token is valid.
pub const TOKEN_LIFETIME: i64 = 86400;

/// The token that `jsonwebtoken::encode` makes of the claims `sub` and `exp`
/// under the default header and an HMAC secret; `None` where it fails.
pub uninterp spec fn hs256_token(subject: Seq<char>, expires: u64, secret: Seq<u8>) -> Option<
    Seq<char>,
>;

/// The claims `sub` (where it is a string) and `exp` (where it is an
/// unsigned integer) that `jsonwebtoken::decode` reads from a token whose
/// HS256 signature verifies under the secret, expiry left unchecked; `None`
/// where it rejects the token.
pub uninterp spec fn hs256_claims(token: Seq<char>, secret: Seq<u8>) -> Option<
    (Option<Seq<char>>, Option<u64>),
>;

/// Calls `jsonwebtoken::encode` with `Header::default()`, an object of the
/// two claims `sub` and `exp`, and `EncodingKey::from_secret`. Trusted: the
/// token is a function of the three arguments alone, named `hs256_token`;
/// an error stands for `None`; and a token that comes back is one that
/// `jsonwebtoken::decode` accepts under the same secret and reads the same
/// two claims from, since it verifies the signature by signing the same
/// message again and parses the claims that were serialised.
#[verifier::external_body]
pub(crate) fn encode_hs256(subject: &str, expires: u64, secret: &[u8]) -> (token: Result<
    String,
    jsonwebtoken::errors::Error,
>)
    ensures
        match token {
            Ok(t) => hs256_token(subject@, expires, secret@) == Some(t@) && hs256_claims(
                t@,
                secret@,
            ) == Some((Some(subject@), Some(expires))),
            Err(_) => hs256_token(subject@, expires, secret@).is_none(),
        },
{
    let mut claims = serde_json::Map::new();
    claims.insert("sub".to_string(), serde_json::Value::from(subject));
    claims.insert("exp".to_string(), serde_json::Value::from(expires));
    let key = jsonwebtoken::EncodingKey::from_secret(secret);
    jsonwebtoken::encode(&jsonwebtoken::Header::default(), &claims, &key)
}

/// Calls `jsonwebtoken::decode` with `DecodingKey::from_secret` and
/// `Validation::default()` with `validate_exp` switched off, so that the
/// system clock is not read, and picks `sub` and `exp` out of the claims.
/// Trusted: the result is a function of the two arguments alone, named
/// `hs256_claims`; an error stands for `None`.
#[verifier::external_body]
pub(crate) fn decode_hs256(token: &str, secret: &[u8]) -> (decoded: Result<
    (Option<String>, Option<u64>),
    jsonwebtoken::errors::Error,
>)
    ensures
        match decoded {
            Ok((subject, expires)) => hs256_claims(token@, secret@) == Some(
                (
                    match subject {
                        Some(s) => Some(s@),
                        None => None,
                    },
                    expires,
                ),
            ),
            Err(_) => hs256_claims(token@, secret@).is_none(),
        },
{
    let mut validation = jsonwebtoken::Validation::default();
    validation.validate_exp = false;
    let key = jsonwebtoken::DecodingKey::from_secret(secret);
    let data = jsonwebtoken::decode::<serde_json::Value>(token, &key, &validation)?;
    let subject = data.claims.get("sub").and_then(|v| v.as_str()).map(|s| s.to_string());
    let expires = data.claims.get("exp").and_then(|v| v.as_u64());
    Ok((subject, expires))
}

/// The token that an `Authorization` header carries: what follows the
/// prefix `Bearer `; `None` without a header or without that prefix.
pub open spec fn bearer_of(header: Option<Seq<char>>) -> Option<Seq<char>> {
    match header {
        Some(h) => if h.len() >= 7 && h.subrange(0, 7) == "Bearer "@ {
            Some(h.skip(7))
        } else {
            None
        },
        None => None,
    }
}

impl BearerToken {
    /// Takes the bearer token out of the first `Authorization` header of a
    /// request, where there is one. Nothing is checked of the token itself.
    pub fn from_header(header: Option<&str>) -> (bearer: Result<BearerToken, TokenFailure>)
        ensures
            match bearer_of(
                match header {
                    Some(h) => Some(h@),
                    None => None,
                },
            ) {
                Some(token) => bearer matches Ok(b) && b.token@ == token,
                None => bearer == Err::<BearerToken, TokenFailure>(TokenFailure::Missing),
            },
    {
        let h = match header {
            Some(h) => h,
            None => {
                return Err(TokenFailure::Missing);
            },
        };
        let n = h.unicode_len();
        if n < 7 {
            return Err(TokenFailure::Missing);
        }
        let prefix = "Bearer ";
        proof {
            reveal_strlit("Bearer ");
        }
        let mut i: usize = 0;
        while i < 7
            invariant
                i <= 7,
                header == Some(h),
                n == h@.len(),
                n >= 7,
                prefix@ == "Bearer "@,
                prefix@.len() == 7,
                forall|k: int| 0 <= k < i ==> h@[k] == prefix@[k],
            decreases 7 - i,
        {
            if h.get_char(i) != prefix.get_char(i) {
                assert(h@.subrange(0, 7)[i as int] != prefix@[i as int]);
                return Err(TokenFailure::Missing);
            }
            i = i + 1;
        }
        assert(h@.subrange(0, 7) =~= prefix@);
        let rest = h.substring_char(7, n);
        assert(rest@ =~= h@.skip(7));
        Ok(BearerToken { token: rest.to_string() })
    }
}

/// Whether a token can be issued at the Unix time `now`: the time is not
/// before the epoch and its expiry is still a time.
pub open spec fn issuable(now: i64) -> bool {
    0 <= now <= i64::MAX - TOKEN_LIFETIME
}

/// The Unix time at which a token issued at `now` expires.
pub open spec fn expiry(now: i64) -> int {
    now + TOKEN_LIFETIME
}

/// What decoded claims are worth at the Unix time `now`: the subject and
/// the expiry where both are present and `now` is not past the expiry;
/// else the kind of failure.
pub open spec fn claims_verdict(
    decoded: Option<(Option<Seq<char>>, Option<u64>)>,
    now: i64,
) -> Result<(Seq<char>, u64), TokenFailure> {
    match decoded {
        Some((Some(subject), Some(expires))) => if now > expires {
            Err(TokenFailure::Expired)
        } else {
            Ok((subject, expires))
        },
        _ => Err(TokenFailure::Malformed),
    }
}

/// Whether `outcome` says what `verdict` says: the same subject and expiry
/// where it grants claims, the same failure where it does not.
pub open spec fn agrees(
    outcome: Result<Claims, TokenFailure>,
    verdict: Result<(Seq<char>, u64), TokenFailure>,
) -> bool {
    match outcome {
        Ok(claims) => verdict == Ok::<(Seq<char>, u64), TokenFailure>(
            (claims.sub@, claims.exp),
        ),
        Err(failure) => verdict == Err::<(Seq<char>, u64), TokenFailure>(failure),
    }
}

/// Judges claims that were read from a token whose signature verified:
/// they hold at `now` where the subject and the expiry are there and `now`
/// is not past the expiry.
pub fn judge_claims(subject: Option<String>, expires: Option<u64>, now: i64) -> (outcome: Result<
    Claims,
    TokenFailure,
>)
    ensures
        agrees(
            outcome,
            claims_verdict(
                Some(
                    (
                        match subject {
                            Some(s) => Some(s@),
                            None => None,
                        },
                        expires,
                    ),
                ),
                now,
            ),
        ),
{
    match (subject, expires) {
        (Some(sub), Some(expires)) => {
            if now >= 0 && now as u64 > expires {
                Err(TokenFailure::Expired)
            } else {
                Ok(Claims { sub, exp: expires })
            }
        },
        _ => Err(TokenFailure::Malformed),
    }
}

/// Validates `token` at the Unix time `now`: the claims it carries where
/// its signature verifies under `secret` and `now` is not past its expiry.
pub fn validate(token: &str, secret: &[u8], now: i64) -> (outcome: Result<Claims, TokenFailure>)
    ensures
        agrees(outcome, claims_verdict(hs256_claims(token@, secret@), now)),
{
    match decode_hs256(token, secret) {
        Ok((subject, expires)) => judge_claims(subject, expires, now),
        Err(_) => Err(TokenFailure::Malformed),
    }
}

/// Whether `token` is a token for `subject` issued at the Unix time `now`
/// under `secret`: the signed claims with the expiry of `now`, which decode
/// under the same secret to that subject and that expiry.
pub open spec fn issued(subject: Seq<char>, secret: Seq<u8>, now: i64, token: Seq<char>) -> bool {
    &&& issuable(now)
    &&& hs256_token(subject, expiry(now) as u64, secret) == Some(token)
    &&& hs256_claims(token, secret) == Some((Some(subject), Some(expiry(now) as u64)))
}

/// Whether `outcome` is what issuing a token for `subject` at the Unix
/// time `now` gives: a refusal of a time without an expiry, else the
/// signed token, or a failure of the service where the signing fails.
pub open spec fn issue_outcome(
    subject: Seq<char>,
    secret: Seq<u8>,
    now: i64,
    outcome: Result<String, BoardError>,
) -> bool {
    if !issuable(now) {
        outcome == Err::<String, BoardError>(BoardError::ValidationFailed)
    } else {
        match hs256_token(subject, expiry(now) as u64, secret) {
            Some(signed) => outcome matches Ok(t) && t@ == signed && issued(
                subject,
                secret,
                now,
                t@,
            ),
            None => outcome == Err::<String, BoardError>(BoardError::StoreFailure),
        }
    }
}

/// Whether `outcome` is what checking `token` at the Unix time `now`
/// gives a caller: the claims where the token holds, and `Unauthorized`
/// for every kind of failure.
pub open spec fn check_outcome(
    token: Seq<char>,
    secret: Seq<u8>,
    now: i64,
    outcome: Result<Claims, BoardError>,
) -> bool {
    match claims_verdict(hs256_claims(token, secret), now) {
        Ok((subject, expires)) => outcome matches Ok(claims) && claims.sub@ == subject
            && claims.exp == expires,
        Err(_) => outcome == Err::<Claims, BoardError>(BoardError::Unauthorized),
    }
}

/// Issues a token for `subject` at the Unix time `now`; it expires
/// `TOKEN_LIFETIME` seconds later. A time before the epoch, or so late that
/// its expiry is no time, is refused; a failure of the signing is a failure
/// of the service.
pub fn issue(subject: &str, secret: &[u8], now: i64) -> (token: Result<String, BoardError>)
    ensures
        issue_outcome(subject@, secret@, now, token),
{
    if now < 0 || now > i64::MAX - TOKEN_LIFETIME {
        return Err(BoardError::ValidationFailed);
    }
    let expires: u64 = (now + TOKEN_LIFETIME) as u64;
    match encode_hs256(subject, expires, secret) {
        Ok(token) => Ok(token),
        Err(_) => Err(BoardError::StoreFailure),
    }
}

/// Issues a token for `user_id` at the time on the system clock. Whatever
/// the clock says, the result is the one that `issue` gives for some time
/// at which a token can be issued: the token, unless the signing fails.
pub fn generate_token(user_id: &str, secret: &[u8]) -> (token: Result<String, BoardError>)
    ensures
        exists|now: i64|
            on_clock(now) && issuable(now) && #[trigger] issue_outcome(user_id@, secret@, now, token),
{
    let now = unix_now();
    issue(user_id, secret, now)
}

/// Validates `token` at the Unix time `now` for a caller: the claims where
/// it holds, and `Unauthorized` whatever the kind of failure.
pub fn token_valid_at(token: &str, secret: &[u8], now: i64) -> (outcome: Result<
    Claims,
    BoardError,
>)
    ensures
        check_outcome(token@, secret@, now, outcome),
{
    match validate(token, secret, now) {
        Ok(claims) => Ok(claims),
        Err(failure) => Err(failure.outcome()),
    }
}

/// Validates `token` at the time on the system clock. Whatever the clock
/// says, the result is the one that `token_valid_at` gives for some time.
pub fn token_valid(token: &str, secret: &[u8]) -> (outcome: Result<Claims, BoardError>)
    ensures
        exists|now: i64| on_clock(now) && #[trigger] check_outcome(token@, secret@, now, outcome),
{
    let now = unix_now();
    token_valid_at(token, secret, now)
}

/// A token issued for a subject holds a minute before a day has passed,
/// and names that subject; a minute after a day it has expired, which a
/// caller sees as `Unauthorized`.
pub proof fn lemma_issued_token_lifetime(
    subject: Seq<char>,
    secret: Seq<u8>,
    start: i64,
    token: Seq<char>,
    early: Result<Claims, BoardError>,
    late: Result<Claims, BoardError>,
)
    requires
        issued(subject, secret, start, token),
        expiry(start) + 60 <= i64::MAX,
        check_outcome(token, secret, (start + 86340) as i64, early),
        check_outcome(token, secret, (start + 86460) as i64, late),
    ensures
        claims_verdict(hs256_claims(token, secret), (start + 86340) as i64) == Ok::<
            (Seq<char>, u64),
            TokenFailure,
        >((subject, expiry(start) as u64)),
        claims_verdict(hs256_claims(token, secret), (start + 86460) as i64) == Err::<
            (Seq<char>, u64),
            TokenFailure,
        >(TokenFailure::Expired),
        early matches Ok(claims) && claims.sub@ == subject,
        late == Err::<Claims, BoardError>(BoardError::Unauthorized),
{
}

/// Claims with the expiry of a token issued at `start` hold a minute
/// before a day has passed and have expired a minute after, whatever their
/// subject.
pub proof fn lemma_token_lifetime(subject: Seq<char>, start: i64)
    requires
        issuable(start),
        expiry(start) + 60 <= i64::MAX,
    ensures
        claims_verdict(
            Some((Some(subject), Some(expiry(start) as u64))),
            (start + 86340) as i64,
        ) == Ok::<(Seq<char>, u64), TokenFailure>((subject, expiry(start) as u64)),
        claims_verdict(
            Some((Some(subject), Some(expiry(start) as u64))),
            (start + 86460) as i64,
        ) == Err::<(Seq<char>, u64), TokenFailure>(TokenFailure::Expired),
{
}

} // verus!
