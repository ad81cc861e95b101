//! The decisions around the store: what to show, what to write, and what to
//! answer when a board is not there. The store itself is the caller's; these
//! functions take what it returned.

use vstd::prelude::*;
use crate::board::{MonthWrite, TableDTO, TableSQL};
use crate::clock::{on_clock, unix_now};
use crate::credential::bcrypt_accepts;
use crate::error::BoardError;
use crate::identity::default_description;

verus! {

/// The operations on boards, as the pages use them.
pub struct BoardORM;

impl BoardORM {
    /// The public projection of the record that a lookup found, or
    /// `NotFound` where it found none.
    pub fn find_by_id(found: Option<TableSQL>) -> (shown: Result<TableDTO, BoardError>)
        ensures
            match found {
                Some(record) => shown matches Ok(dto) && dto.shows(record),
                None => shown == Err::<TableDTO, BoardError>(BoardError::NotFound),
            },
    {
        match found {
            Some(record) => Ok(record.to_dto()),
            None => Err(BoardError::NotFound),
        }
    }

    /// The record of a new board with the default description, to be
    /// inserted. An empty id is refused; a failure of the hashing is a
    /// failure of the service.
    pub fn create(id: String, name: String, password: String) -> (made: Result<
        TableSQL,
        BoardError,
    >)
        ensures
            id@.len() == 0 ==> made == Err::<TableSQL, BoardError>(BoardError::ValidationFailed),
            id@.len() > 0 ==> (made matches Err(e) ==> e == BoardError::StoreFailure),
            made matches Ok(record) ==> {
                &&& record.id == id
                &&& record.name == name
                &&& record.description@ == default_description()
                &&& bcrypt_accepts(password@, record.password@) == Some(true)
                &&& record.blank()
                &&& record.well_formed()
            },
    {
        TableSQL::create(id, name, "I am trying to achieve...".to_string(), password)
    }

    /// Whether `done` is what a check-in at the Unix time `now` gives on
    /// what a lookup found: the record after it and the one column to write;
    /// `NotFound` where the lookup found none; a refusal of a date that the
    /// calendar does not have.
    pub open spec fn check_in_outcome(
        found: Option<TableSQL>,
        now: i64,
        done: Result<(TableSQL, MonthWrite), BoardError>,
    ) -> bool {
        match found {
            Some(record) => if TableSQL::accepts(now) {
                done matches Ok((after, write)) && TableSQL::check_in_outcome(
                    record,
                    now,
                    after,
                    Ok(write),
                )
            } else {
                done == Err::<(TableSQL, MonthWrite), BoardError>(BoardError::ValidationFailed)
            },
            None => done == Err::<(TableSQL, MonthWrite), BoardError>(BoardError::NotFound),
        }
    }

    /// A check-in at the Unix time `now` on the record that a lookup found:
    /// the record after it and the one column to write back. `NotFound`
    /// where the lookup found none; a date that the calendar does not have
    /// is refused.
    pub fn check_in_at(found: Option<TableSQL>, now: i64) -> (done: Result<
        (TableSQL, MonthWrite),
        BoardError,
    >)
        ensures
            Self::check_in_outcome(found, now, done),
    {
        match found {
            Some(record) => {
                let mut record = record;
                match record.check_in_at(now) {
                    Ok(write) => Ok((record, write)),
                    Err(e) => Err(e),
                }
            },
            None => Err(BoardError::NotFound),
        }
    }

    /// A check-in today, by the system clock, on the record that a lookup
    /// found. Whatever the clock says, the result is the one that
    /// `check_in_at` gives for some time.
    pub fn check_in(found: Option<TableSQL>) -> (done: Result<(TableSQL, MonthWrite), BoardError>)
        ensures
            exists|now: i64| on_clock(now) && #[trigger] Self::check_in_outcome(found, now, done),
    {
        let now = unix_now();
        Self::check_in_at(found, now)
    }

    /// The record that a lookup found, with its description replaced and
    /// nothing else changed; `NotFound` where the lookup found none.
    pub fn change_description(found: Option<TableSQL>, description: String) -> (changed: Result<
        TableSQL,
        BoardError,
    >)
        ensures
            changed == match found {
                Some(record) => Ok::<TableSQL, BoardError>(TableSQL { description, ..record }),
                None => Err::<TableSQL, BoardError>(BoardError::NotFound),
            },
    {
        match found {
            Some(record) => {
                let mut record = record;
                record.update_description(description);
                Ok(record)
            },
            None => Err(BoardError::NotFound),
        }
    }
}

} // verus!
