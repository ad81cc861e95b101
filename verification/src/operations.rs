//! The two operations of a board's page. Each answers with the month grids
//! of the board as it will be, and names the one column to write.

use vstd::prelude::*;
use crate::board::{MonthWrite, TableDTO, TableSQL};
use crate::clock::{on_clock, unix_now};
use crate::error::BoardError;
use crate::markup::{months_at, months_markup};
use crate::orm::BoardORM;
use crate::routes::DescriptionWrite;

verus! {

/// The description that the page's operation sets.
pub open spec fn new_description() -> Seq<char> {
    "New Description"@
}

/// Whether `done` is what a check-in from the page at the Unix time `now`
/// gives on what a lookup found: the grids of the board after it and the
/// one column to write; `NotFound` where the lookup found none; a refusal
/// of a date that the calendar does not have.
pub open spec fn check_in_outcome(
    found: Option<TableSQL>,
    now: i64,
    done: Result<(String, MonthWrite), BoardError>,
) -> bool {
    match found {
        Some(record) => if TableSQL::accepts(now) {
            done matches Ok((grids, write)) && {
                &&& TableSQL::check_in_outcome(
                    record,
                    now,
                    record.checked_in_at(now),
                    Ok(write),
                )
                &&& exists|table: TableDTO|
                    table.shows(record.checked_in_at(now)) && grids@ == #[trigger] months_markup(
                        table,
                        now,
                    )
            }
        } else {
            done == Err::<(String, MonthWrite), BoardError>(BoardError::ValidationFailed)
        },
        None => done == Err::<(String, MonthWrite), BoardError>(BoardError::NotFound),
    }
}

/// A check-in from the page at the Unix time `now`, on the record that a
/// lookup found: the grids of the board after it and the column to write.
pub fn check_in_at(found: Option<TableSQL>, now: i64) -> (done: Result<
    (String, MonthWrite),
    BoardError,
>)
    ensures
        check_in_outcome(found, now, done),
{
    match BoardORM::check_in_at(found, now) {
        Ok((after, write)) => {
            let table = after.to_dto();
            let ghost shown = table;
            let grids = months_at(table, now);
            assert(shown.shows(after) && grids@ == months_markup(shown, now));
            Ok((grids, write))
        },
        Err(e) => Err(e),
    }
}

/// A check-in from the page, today by the system clock. Whatever the clock
/// says, the answer is the one that `check_in_at` gives for some time.
pub fn check_in(found: Option<TableSQL>) -> (done: Result<(String, MonthWrite), BoardError>)
    ensures
        exists|now: i64| on_clock(now) && #[trigger] check_in_outcome(found, now, done),
{
    let now = unix_now();
    check_in_at(found, now)
}

/// The page's change of description at the Unix time `now`, on the
/// record that a lookup found: the grids of the board with its new
/// description, and the description to write.
pub fn change_description_at(found: Option<TableSQL>, now: i64) -> (done: Result<
    (String, DescriptionWrite),
    BoardError,
>)
    ensures
        match found {
            Some(record) => done matches Ok((grids, write)) && write.id == record.id
                && write.description@ == new_description() && exists|table: TableDTO|
                table.shows(TableSQL { description: write.description, ..record }) && grids@
                    == #[trigger] months_markup(table, now),
            None => done == Err::<(String, DescriptionWrite), BoardError>(BoardError::NotFound),
        },
{
    match BoardORM::change_description(found, "New Description".to_string()) {
        Ok(changed) => {
            let table = changed.to_dto();
            let ghost shown = table;
            let grids = months_at(table, now);
            assert(shown.shows(changed) && grids@ == months_markup(shown, now));
            Ok((grids, DescriptionWrite { id: changed.id, description: changed.description }))
        },
        Err(e) => Err(e),
    }
}

/// The page's change of description, laid out for the year on the system
/// clock.
pub fn change_description(found: Option<TableSQL>) -> (done: Result<
    (String, DescriptionWrite),
    BoardError,
>)
    ensures
        match found {
            Some(record) => done matches Ok((grids, write)) && write.id == record.id
                && write.description@ == new_description() && exists|now: i64, table: TableDTO|
                on_clock(now) && table.shows(TableSQL { description: write.description, ..record }) && grids@
                    == #[trigger] months_markup(table, now),
            None => done == Err::<(String, DescriptionWrite), BoardError>(BoardError::NotFound),
        },
{
    let now = unix_now();
    change_description_at(found, now)
}

} // verus!
