//! The decisions of the token-guarded endpoints. Each function takes what
//! the request carried and what the store returned, and says what to answer
//! and what to write.

use vstd::prelude::*;
use crate::board::{MonthWrite, TableDTO, TableSQL};
use crate::clock::{on_clock, unix_now};
use crate::error::BoardError;
use crate::identity::{explicit_step, verify_or_create, Resolution, TableData};
use crate::orm::BoardORM;
use crate::session::{
    bearer_of, claims_verdict, expiry, hs256_claims, hs256_token, issuable, issue, issued,
    validate, BearerToken, Claims, TokenFailure,
};

verus! {

/// The body of a request that changes a board's description.
#[derive(Clone, Debug)]
pub struct DescriptionData {
    pub description: String,
}

/// The answer to a successful authentication: a session token and the
/// public projection of the board.
#[derive(Clone, Debug)]
pub struct AuthResponse {
    pub token: String,
    pub data: TableDTO,
}

/// What an authentication ends in: the answer, and the record to insert
/// where the board was created by it.
#[derive(Clone, Debug)]
pub struct AuthGrant {
    pub response: AuthResponse,
    pub insert: Option<TableSQL>,
}

/// The one column that a change of description writes.
#[derive(Clone, Debug)]
pub struct DescriptionWrite {
    pub id: String,
    pub description: String,
}

/// The view of an optional header.
pub open spec fn header_view(header: Option<&str>) -> Option<Seq<char>> {
    match header {
        Some(h) => Some(h@),
        None => None,
    }
}

/// What a request's `Authorization` header is worth at the Unix time
/// `now`: the claims of the bearer token it carries, or why not.
pub open spec fn header_verdict(header: Option<Seq<char>>, secret: Seq<u8>, now: i64) -> Result<
    (Seq<char>, u64),
    TokenFailure,
> {
    match bearer_of(header) {
        Some(token) => claims_verdict(hs256_claims(token, secret), now),
        None => Err(TokenFailure::Missing),
    }
}

/// Whether `guard` is what guarding a request at the Unix time `now`
/// gives: the claims of the bearer token in its header where they hold,
/// and `Unauthorized` where the header is missing or the token is
/// malformed or expired.
pub open spec fn guarded(
    header: Option<Seq<char>>,
    secret: Seq<u8>,
    now: i64,
    guard: Result<Claims, BoardError>,
) -> bool {
    match header_verdict(header, secret, now) {
        Ok((subject, expires)) => guard matches Ok(claims) && claims.sub@ == subject
            && claims.exp == expires,
        Err(_) => guard == Err::<Claims, BoardError>(BoardError::Unauthorized),
    }
}

/// Guards a request at the Unix time `now`: the claims of the bearer token
/// in its `Authorization` header. A missing header, a malformed token and
/// an expired one are all `Unauthorized`, and nothing tells them apart.
pub fn authorize_at(header: Option<&str>, secret: &[u8], now: i64) -> (guard: Result<
    Claims,
    BoardError,
>)
    ensures
        guarded(header_view(header), secret@, now, guard),
{
    match BearerToken::from_header(header) {
        Ok(bearer) => match validate(bearer.token.as_str(), secret, now) {
            Ok(claims) => Ok(claims),
            Err(failure) => Err(failure.outcome()),
        },
        Err(failure) => Err(failure.outcome()),
    }
}

/// Guards a request at the time on the system clock. Whatever the clock
/// says, the result is the one that `authorize_at` gives for some time.
pub fn authorize(header: Option<&str>, secret: &[u8]) -> (guard: Result<Claims, BoardError>)
    ensures
        exists|now: i64|
            on_clock(now) && #[trigger] guarded(header_view(header), secret@, now, guard),
{
    let now = unix_now();
    authorize_at(header, secret, now)
}

/// Whether `probe` is the answer of the token probe at the Unix time
/// `now`: success where the request's bearer token holds, `Unauthorized`
/// where it does not.
pub open spec fn probed(
    header: Option<Seq<char>>,
    secret: Seq<u8>,
    now: i64,
    probe: Result<(), BoardError>,
) -> bool {
    probe == if header_verdict(header, secret, now).is_ok() {
        Ok::<(), BoardError>(())
    } else {
        Err::<(), BoardError>(BoardError::Unauthorized)
    }
}

/// The token probe at the Unix time `now`.
pub fn validate_token_at(header: Option<&str>, secret: &[u8], now: i64) -> (probe: Result<
    (),
    BoardError,
>)
    ensures
        probed(header_view(header), secret@, now, probe),
{
    match authorize_at(header, secret, now) {
        Ok(_) => Ok(()),
        Err(e) => Err(e),
    }
}

/// The token probe at the time on the system clock. Whatever the clock
/// says, the answer is the one that `validate_token_at` gives for some
/// time.
pub fn validate_token(header: Option<&str>, secret: &[u8]) -> (probe: Result<(), BoardError>)
    ensures
        exists|now: i64|
            on_clock(now) && #[trigger] probed(header_view(header), secret@, now, probe),
{
    let now = unix_now();
    validate_token_at(header, secret, now)
}

/// The public fetch: the projection of the record that a lookup found, or
/// `NotFound`.
pub fn get(found: Option<TableSQL>) -> (shown: Result<TableDTO, BoardError>)
    ensures
        match found {
            Some(record) => shown matches Ok(dto) && dto.shows(record),
            None => shown == Err::<TableDTO, BoardError>(BoardError::NotFound),
        },
{
    BoardORM::find_by_id(found)
}

/// Whether `done` is the answer to a check-in request at the Unix time
/// `now`: `Unauthorized`, with nothing to write, where the request's
/// bearer token does not hold or names another board than the record that
/// the lookup found; else what the check-in gives on that record.
pub open spec fn check_in_outcome(
    header: Option<Seq<char>>,
    secret: Seq<u8>,
    found: Option<TableSQL>,
    now: i64,
    done: Result<(TableSQL, MonthWrite), BoardError>,
) -> bool {
    match header_verdict(header, secret, now) {
        Err(_) => done == Err::<(TableSQL, MonthWrite), BoardError>(BoardError::Unauthorized),
        Ok((subject, _)) => if found matches Some(record) && record.id@ != subject {
            done == Err::<(TableSQL, MonthWrite), BoardError>(BoardError::Unauthorized)
        } else {
            BoardORM::check_in_outcome(found, now, done)
        },
    }
}

/// The check-in that a request asks for, at the Unix time `now`, where
/// `found` is what the store holds for the board. A request whose bearer
/// token is missing, malformed or expired is `Unauthorized` and nothing is
/// to be written, whatever the store holds; so is one whose token names
/// another board than the record found. Otherwise the answer is the record
/// after the check-in and the one column to write back.
pub fn check_in_at(header: Option<&str>, secret: &[u8], found: Option<TableSQL>, now: i64) -> (done:
    Result<(TableSQL, MonthWrite), BoardError>)
    ensures
        check_in_outcome(header_view(header), secret@, found, now, done),
{
    match authorize_at(header, secret, now) {
        Ok(claims) => {
            let owned = match &found {
                Some(record) => record.id == claims.sub,
                None => true,
            };
            if owned {
                BoardORM::check_in_at(found, now)
            } else {
                Err(BoardError::Unauthorized)
            }
        },
        Err(e) => Err(e),
    }
}

/// The check-in that a request asks for, today by the system clock.
/// Whatever the clock says, the answer is the one that `check_in_at` gives
/// for some time.
pub fn check_in(header: Option<&str>, secret: &[u8], found: Option<TableSQL>) -> (done: Result<
    (TableSQL, MonthWrite),
    BoardError,
>)
    ensures
        exists|now: i64|
            on_clock(now) && #[trigger] check_in_outcome(header_view(header), secret@, found, now, done),
{
    let now = unix_now();
    check_in_at(header, secret, found, now)
}

/// Whether `write` is the answer to a change of description at the Unix
/// time `now`: the write of the new description to the board that the
/// bearer token names, or `Unauthorized`.
pub open spec fn described(
    header: Option<Seq<char>>,
    secret: Seq<u8>,
    form_data: DescriptionData,
    now: i64,
    write: Result<DescriptionWrite, BoardError>,
) -> bool {
    match header_verdict(header, secret, now) {
        Ok((subject, _)) => write matches Ok(w) && w.id@ == subject && w.description
            == form_data.description,
        Err(_) => write == Err::<DescriptionWrite, BoardError>(BoardError::Unauthorized),
    }
}

/// The change of description that a request asks for, at the Unix time
/// `now`: the write to the board that the bearer token names, or
/// `Unauthorized`. Only the description column is written.
pub fn description_at(
    header: Option<&str>,
    secret: &[u8],
    form_data: DescriptionData,
    now: i64,
) -> (write: Result<DescriptionWrite, BoardError>)
    ensures
        described(header_view(header), secret@, form_data, now, write),
{
    match authorize_at(header, secret, now) {
        Ok(claims) => Ok(DescriptionWrite { id: claims.sub, description: form_data.description }),
        Err(e) => Err(e),
    }
}

/// The change of description that a request asks for, at the time on the
/// system clock. Whatever the clock says, the answer is the one that
/// `description_at` gives for some time.
pub fn description(header: Option<&str>, secret: &[u8], form_data: DescriptionData) -> (write:
    Result<DescriptionWrite, BoardError>)
    ensures
        exists|now: i64|
            on_clock(now) && #[trigger] described(header_view(header), secret@, form_data, now, write),
{
    let now = unix_now();
    description_at(header, secret, form_data, now)
}

/// Whether `outcome` is an outcome of an authentication at the Unix time
/// `now`: the resolution `resolved` of the submission, then a token for
/// the resolved board.
pub open spec fn granted(
    resolved: Result<Resolution, BoardError>,
    secret: Seq<u8>,
    now: i64,
    outcome: Result<AuthGrant, BoardError>,
) -> bool {
    match resolved {
        Err(e) => outcome == Err::<AuthGrant, BoardError>(e),
        Ok(resolution) => if !issuable(now) {
            outcome == Err::<AuthGrant, BoardError>(BoardError::ValidationFailed)
        } else {
            match hs256_token(resolution.record().id@, expiry(now) as u64, secret) {
                None => outcome == Err::<AuthGrant, BoardError>(BoardError::StoreFailure),
                Some(token) => outcome matches Ok(grant) && {
                    &&& grant.response.token@ == token
                    &&& issued(resolution.record().id@, secret, now, token)
                    &&& grant.response.data.shows(resolution.record())
                    &&& grant.insert == match resolution {
                        Resolution::Created(made) => Some(made),
                        Resolution::Existing(_) => None::<TableSQL>,
                    }
                },
            }
        },
    }
}

/// Finishes an authentication at the Unix time `now`: issues the token for
/// the board that the submission resolved to, and says whether its record
/// is to be inserted.
pub fn grant(resolved: Result<Resolution, BoardError>, secret: &[u8], now: i64) -> (outcome:
    Result<AuthGrant, BoardError>)
    ensures
        granted(resolved, secret@, now, outcome),
{
    match resolved {
        Err(e) => Err(e),
        Ok(Resolution::Existing(record)) => {
            match issue(record.id.as_str(), secret, now) {
                Ok(token) => Ok(
                    AuthGrant {
                        response: AuthResponse { token, data: record.to_dto() },
                        insert: None,
                    },
                ),
                Err(e) => Err(e),
            }
        },
        Ok(Resolution::Created(made)) => {
            match issue(made.id.as_str(), secret, now) {
                Ok(token) => Ok(
                    AuthGrant {
                        response: AuthResponse { token, data: made.to_dto() },
                        insert: Some(made),
                    },
                ),
                Err(e) => Err(e),
            }
        },
    }
}

/// Authenticates a submission under the explicit-password scheme at the
/// Unix time `now`, where the store holds `found` under the submitted id.
/// The outcome is that of `verify_or_create`, followed by a token for the
/// board: a wrong password is `Unauthorized` and nothing is inserted.
pub fn auth_at(form: TableData, found: Option<TableSQL>, secret: &[u8], now: i64) -> (outcome:
    Result<AuthGrant, BoardError>)
    ensures
        exists|resolved: Result<Resolution, BoardError>|
            explicit_step(form, found, resolved) && #[trigger] granted(
                resolved,
                secret@,
                now,
                outcome,
            ),
{
    let resolved = verify_or_create(form, found);
    grant(resolved, secret, now)
}

/// Authenticates a submission at the time on the system clock. Whatever
/// the clock says, the outcome is the one that `auth_at` gives for some
/// time at which a token can be issued: where the submission resolves to
/// a board, the answer carries a token for it, unless the signing fails.
pub fn auth(form: TableData, found: Option<TableSQL>, secret: &[u8]) -> (outcome: Result<
    AuthGrant,
    BoardError,
>)
    ensures
        exists|resolved: Result<Resolution, BoardError>, now: i64|
            on_clock(now) && issuable(now) && explicit_step(form, found, resolved) && #[trigger] granted(
                resolved,
                secret@,
                now,
                outcome,
            ),
{
    let now = unix_now();
    auth_at(form, found, secret, now)
}

} // verus!
