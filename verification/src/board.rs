//! The stored board record, its public projection, and the check-in transition.

use vstd::prelude::*;
use crate::calendar::{
    confined, days_in_month, decode, int_to_bool_array, lemma_with_day_confined,
    lemma_with_day_idempotent, lemma_zero_confined, mark, month_length, valid_day, with_day,
};
use crate::clock::{date_of, on_clock, unix_now, utc_date};
use crate::credential::{bcrypt_accepts, check_password, hash_password};
use crate::error::BoardError;

verus! {

/// A board as the store keeps it: identity, texts, the hashed credential and
/// one bitmask per month, where bit `day - 1` set means a check-in on `day`.
#[derive(Clone, Debug)]
pub struct TableSQL {
    pub id: String,
    pub name: String,
    pub description: String,
    pub password: String,
    pub january: i32,
    pub february: i32,
    pub march: i32,
    pub april: i32,
    pub may: i32,
    pub june: i32,
    pub july: i32,
    pub august: i32,
    pub september: i32,
    pub october: i32,
    pub november: i32,
    pub december: i32,
}

/// A board as it is shown: the record without its credential, each month
/// expanded to one boolean per day.
#[derive(Clone, Debug)]
pub struct TableDTO {
    pub id: String,
    pub name: String,
    pub description: String,
    pub january: Vec<bool>,
    pub february: Vec<bool>,
    pub march: Vec<bool>,
    pub april: Vec<bool>,
    pub may: Vec<bool>,
    pub june: Vec<bool>,
    pub july: Vec<bool>,
    pub august: Vec<bool>,
    pub september: Vec<bool>,
    pub october: Vec<bool>,
    pub november: Vec<bool>,
    pub december: Vec<bool>,
}

/// The single column that a check-in writes back to the store.
#[derive(Clone, Debug)]
pub struct MonthWrite {
    /// Name of the month column.
    pub column: String,
    /// The month's bitmask after the check-in.
    pub value: i32,
}

/// Name of the store column of `month` (1 is January).
pub open spec fn column_name(month: int) -> Seq<char> {
    if month == 1 {
        "january"@
    } else if month == 2 {
        "february"@
    } else if month == 3 {
        "march"@
    } else if month == 4 {
        "april"@
    } else if month == 5 {
        "may"@
    } else if month == 6 {
        "june"@
    } else if month == 7 {
        "july"@
    } else if month == 8 {
        "august"@
    } else if month == 9 {
        "september"@
    } else if month == 10 {
        "october"@
    } else if month == 11 {
        "november"@
    } else {
        "december"@
    }
}

/// Name of the store column of `month` (1 is January), from a fixed table;
/// `None` outside 1 to 12.
pub fn month_column(month: u32) -> (column: Option<&'static str>)
    ensures
        (1 <= month <= 12) == column.is_some(),
        column matches Some(name) ==> name@ == column_name(month as int),
{
    match month {
        1 => Some("january"),
        2 => Some("february"),
        3 => Some("march"),
        4 => Some("april"),
        5 => Some("may"),
        6 => Some("june"),
        7 => Some("july"),
        8 => Some("august"),
        9 => Some("september"),
        10 => Some("october"),
        11 => Some("november"),
        12 => Some("december"),
        _ => None,
    }
}

impl TableDTO {
    /// The days of `month` (1 is January); empty outside 1 to 12.
    pub open spec fn month_days(self, month: int) -> Seq<bool> {
        if month == 1 {
            self.january@
        } else if month == 2 {
            self.february@
        } else if month == 3 {
            self.march@
        } else if month == 4 {
            self.april@
        } else if month == 5 {
            self.may@
        } else if month == 6 {
            self.june@
        } else if month == 7 {
            self.july@
        } else if month == 8 {
            self.august@
        } else if month == 9 {
            self.september@
        } else if month == 10 {
            self.october@
        } else if month == 11 {
            self.november@
        } else if month == 12 {
            self.december@
        } else {
            Seq::empty()
        }
    }

    /// Whether this is the public projection of `record`: the same id, name
    /// and description, and each month decoded to as many days as it has.
    pub open spec fn shows(self, record: TableSQL) -> bool {
        &&& self.id == record.id
        &&& self.name == record.name
        &&& self.description == record.description
        &&& forall|month: int|
            1 <= month <= 12 ==> #[trigger] self.month_days(month) == decode(
                record.month_mask(month),
                month_length(month),
            )
    }
}

impl TableSQL {
    /// The bitmask of `month` (1 is January); zero outside 1 to 12.
    pub open spec fn month_mask(self, month: int) -> i32 {
        if month == 1 {
            self.january
        } else if month == 2 {
            self.february
        } else if month == 3 {
            self.march
        } else if month == 4 {
            self.april
        } else if month == 5 {
            self.may
        } else if month == 6 {
            self.june
        } else if month == 7 {
            self.july
        } else if month == 8 {
            self.august
        } else if month == 9 {
            self.september
        } else if month == 10 {
            self.october
        } else if month == 11 {
            self.november
        } else if month == 12 {
            self.december
        } else {
            0
        }
    }

    /// This record with the bitmask of `month` replaced by `value`; the
    /// record itself outside 1 to 12.
    pub open spec fn with_month(self, month: int, value: i32) -> TableSQL {
        if month == 1 {
            TableSQL { january: value, ..self }
        } else if month == 2 {
            TableSQL { february: value, ..self }
        } else if month == 3 {
            TableSQL { march: value, ..self }
        } else if month == 4 {
            TableSQL { april: value, ..self }
        } else if month == 5 {
            TableSQL { may: value, ..self }
        } else if month == 6 {
            TableSQL { june: value, ..self }
        } else if month == 7 {
            TableSQL { july: value, ..self }
        } else if month == 8 {
            TableSQL { august: value, ..self }
        } else if month == 9 {
            TableSQL { september: value, ..self }
        } else if month == 10 {
            TableSQL { october: value, ..self }
        } else if month == 11 {
            TableSQL { november: value, ..self }
        } else if month == 12 {
            TableSQL { december: value, ..self }
        } else {
            self
        }
    }

    /// The record after a check-in on `day` of `month`: that day's bit set in
    /// that month's bitmask where the date is valid, else the record itself.
    pub open spec fn checked_in(self, month: int, day: int) -> TableSQL {
        if valid_day(month, day) {
            self.with_month(month, with_day(self.month_mask(month), day))
        } else {
            self
        }
    }

    /// The record after a check-in at the Unix time `now`: a check-in on the
    /// UTC date of `now`, or the record itself where `now` has no date.
    pub open spec fn checked_in_at(self, now: i64) -> TableSQL {
        match utc_date(now) {
            Some((_, month, day)) => self.checked_in(month as int, day as int),
            None => self,
        }
    }

    /// Whether a check-in at the Unix time `now` is accepted: `now` falls on
    /// a date that the board's calendar has.
    pub open spec fn accepts(now: i64) -> bool {
        match utc_date(now) {
            Some((_, month, day)) => valid_day(month as int, day as int),
            None => false,
        }
    }

    /// Whether no day of the year is marked.
    pub open spec fn blank(self) -> bool {
        forall|month: int| 1 <= month <= 12 ==> #[trigger] self.month_mask(month) == 0
    }

    /// The record's invariant: the id is not empty, and no month has a bit
    /// set at or beyond its number of days.
    pub open spec fn well_formed(self) -> bool {
        &&& self.id@.len() > 0
        &&& forall|month: int|
            1 <= month <= 12 ==> confined(
                #[trigger] self.month_mask(month),
                month_length(month),
            )
    }

    /// Marks `day` of `month` (both counted from 1) as attended. Only that
    /// month's bitmask changes, and it changes only by that day's bit; a day
    /// already marked stays marked. A date that the calendar does not have is
    /// refused and the record is left as it was. On success the result names
    /// the one column to write back and its new value.
    pub fn mark_day(&mut self, month: u32, day: u32) -> (written: Result<MonthWrite, BoardError>)
        ensures
            *final(self) == old(self).checked_in(month as int, day as int),
            valid_day(month as int, day as int) == written.is_ok(),
            written matches Ok(w) ==> w.column@ == column_name(month as int),
            written matches Ok(w) ==> w.value == final(self).month_mask(month as int),
            written matches Err(e) ==> e == BoardError::ValidationFailed,
            old(self).well_formed() ==> final(self).well_formed(),
    {
        let days = days_in_month(month);
        let column = month_column(month);
        match (days, column) {
            (Some(days), Some(column)) => {
                if day < 1 || day > days {
                    return Err(BoardError::ValidationFailed);
                }
                let value: i32 = match month {
                    1 => {
                        self.january = mark(self.january, day);
                        self.january
                    },
                    2 => {
                        self.february = mark(self.february, day);
                        self.february
                    },
                    3 => {
                        self.march = mark(self.march, day);
                        self.march
                    },
                    4 => {
                        self.april = mark(self.april, day);
                        self.april
                    },
                    5 => {
                        self.may = mark(self.may, day);
                        self.may
                    },
                    6 => {
                        self.june = mark(self.june, day);
                        self.june
                    },
                    7 => {
                        self.july = mark(self.july, day);
                        self.july
                    },
                    8 => {
                        self.august = mark(self.august, day);
                        self.august
                    },
                    9 => {
                        self.september = mark(self.september, day);
                        self.september
                    },
                    10 => {
                        self.october = mark(self.october, day);
                        self.october
                    },
                    11 => {
                        self.november = mark(self.november, day);
                        self.november
                    },
                    _ => {
                        self.december = mark(self.december, day);
                        self.december
                    },
                };
                proof {
                    if old(self).well_formed() {
                        lemma_checked_in_well_formed(*old(self), month as int, day as int);
                    }
                }
                Ok(MonthWrite { column: column.to_string(), value })
            },
            _ => Err(BoardError::ValidationFailed),
        }
    }

    /// Whether `after` and `written` are what a check-in on `before` at the
    /// Unix time `now` gives: the record with the UTC day of `now` marked and
    /// the one column to write, or a refusal that leaves the record as it
    /// was.
    pub open spec fn check_in_outcome(
        before: TableSQL,
        now: i64,
        after: TableSQL,
        written: Result<MonthWrite, BoardError>,
    ) -> bool {
        &&& after == before.checked_in_at(now)
        &&& if Self::accepts(now) {
            written matches Ok(w) && utc_date(now) matches Some((_, month, _)) && w.column@
                == column_name(month as int) && w.value == after.month_mask(month as int)
        } else {
            written == Err::<MonthWrite, BoardError>(BoardError::ValidationFailed)
        }
    }

    /// Checks in at the Unix time `now`: marks the UTC day on which `now`
    /// falls. A time without a date, or on a day that the board's calendar
    /// does not have (the 29th of February), is refused and changes nothing.
    pub fn check_in_at(&mut self, now: i64) -> (written: Result<MonthWrite, BoardError>)
        ensures
            Self::check_in_outcome(*old(self), now, *final(self), written),
            old(self).well_formed() ==> final(self).well_formed(),
    {
        match date_of(now) {
            Some((_, month, day)) => self.mark_day(month, day),
            None => Err(BoardError::ValidationFailed),
        }
    }

    /// Checks in today: reads the system clock and checks in at that time.
    /// Whatever the clock says, the record and the result are what
    /// `check_in_at` gives for some time.
    pub fn check_in(&mut self) -> (written: Result<MonthWrite, BoardError>)
        ensures
            exists|now: i64|
                on_clock(now) && #[trigger] Self::check_in_outcome(*old(self), now, *final(self), written),
            old(self).well_formed() ==> final(self).well_formed(),
    {
        let now = unix_now();
        self.check_in_at(now)
    }

    /// A record with no check-ins, holding `credential_hash` as its hashed
    /// secret. An empty id is refused: every record has an id.
    pub fn new_record(
        id: String,
        name: String,
        description: String,
        credential_hash: String,
    ) -> (made: Result<TableSQL, BoardError>)
        ensures
            id@.len() == 0 ==> made == Err::<TableSQL, BoardError>(BoardError::ValidationFailed),
            id@.len() > 0 ==> made == Ok::<TableSQL, BoardError>(
                TableSQL {
                    id,
                    name,
                    description,
                    password: credential_hash,
                    january: 0,
                    february: 0,
                    march: 0,
                    april: 0,
                    may: 0,
                    june: 0,
                    july: 0,
                    august: 0,
                    september: 0,
                    october: 0,
                    november: 0,
                    december: 0,
                },
            ),
            made matches Ok(record) ==> record.blank() && record.well_formed(),
    {
        if id.as_str().unicode_len() == 0 {
            return Err(BoardError::ValidationFailed);
        }
        let record = TableSQL {
            id,
            name,
            description,
            password: credential_hash,
            january: 0,
            february: 0,
            march: 0,
            april: 0,
            may: 0,
            june: 0,
            july: 0,
            august: 0,
            september: 0,
            october: 0,
            november: 0,
            december: 0,
        };
        proof {
            lemma_blank_well_formed(record);
        }
        Ok(record)
    }

    /// Creates the record of a new board: hashes `password` with a fresh
    /// salt and keeps only the hash. An empty id is refused before anything
    /// is hashed. The hashing draws on the system's randomness and may fail,
    /// which is reported as a failure of the service; otherwise the record
    /// carries the given id, name and description, no check-in, and a
    /// credential that bcrypt accepts for `password`.
    pub fn create(id: String, name: String, description: String, password: String) -> (made:
        Result<TableSQL, BoardError>)
        ensures
            id@.len() == 0 ==> made == Err::<TableSQL, BoardError>(BoardError::ValidationFailed),
            id@.len() > 0 ==> (made matches Err(e) ==> e == BoardError::StoreFailure),
            made matches Ok(record) ==> {
                &&& record.id == id
                &&& record.name == name
                &&& record.description == description
                &&& bcrypt_accepts(password@, record.password@) == Some(true)
                &&& record.blank()
                &&& record.well_formed()
            },
    {
        if id.as_str().unicode_len() == 0 {
            return Err(BoardError::ValidationFailed);
        }
        match hash_password(password.as_str()) {
            Ok(credential_hash) => Self::new_record(id, name, description, credential_hash),
            Err(_) => Err(BoardError::StoreFailure),
        }
    }

    /// Whether `password` matches the stored hash. A stored hash that bcrypt
    /// cannot read matches nothing.
    pub fn verify_password(&self, password: &str) -> (matches: bool)
        ensures
            matches == (bcrypt_accepts(password@, self.password@) == Some(true)),
    {
        match check_password(password, self.password.as_str()) {
            Ok(matches) => matches,
            Err(_) => false,
        }
    }

    /// Replaces the description and nothing else: the id, the name, the
    /// credential and every month stay as they were.
    pub fn update_description(&mut self, description: String)
        ensures
            *final(self) == (TableSQL { description, ..*old(self) }),
    {
        self.description = description;
    }

    /// The public projection of the record: the credential is left out and
    /// each month's bitmask becomes one boolean per day of that month.
    pub fn to_dto(&self) -> (dto: TableDTO)
        ensures
            dto.shows(*self),
    {
        TableDTO {
            id: self.id.clone(),
            name: self.name.clone(),
            description: self.description.clone(),
            january: int_to_bool_array(self.january, 31),
            february: int_to_bool_array(self.february, 28),
            march: int_to_bool_array(self.march, 31),
            april: int_to_bool_array(self.april, 30),
            may: int_to_bool_array(self.may, 31),
            june: int_to_bool_array(self.june, 30),
            july: int_to_bool_array(self.july, 31),
            august: int_to_bool_array(self.august, 31),
            september: int_to_bool_array(self.september, 30),
            october: int_to_bool_array(self.october, 31),
            november: int_to_bool_array(self.november, 30),
            december: int_to_bool_array(self.december, 31),
        }
    }
}

/// A record without check-ins and with an id is well formed.
pub proof fn lemma_blank_well_formed(record: TableSQL)
    requires
        record.blank(),
        record.id@.len() > 0,
    ensures
        record.well_formed(),
{
    assert forall|month: int| 1 <= month <= 12 implies confined(
        #[trigger] record.month_mask(month),
        month_length(month),
    ) by {
        assert(record.month_mask(month) == 0);
        lemma_zero_confined(month_length(month));
    }
}

/// A check-in keeps a well-formed record well formed.
pub proof fn lemma_checked_in_well_formed(record: TableSQL, month: int, day: int)
    requires
        record.well_formed(),
    ensures
        record.checked_in(month, day).well_formed(),
{
    if valid_day(month, day) {
        let after = record.checked_in(month, day);
        assert forall|m: int| 1 <= m <= 12 implies confined(
            #[trigger] after.month_mask(m),
            month_length(m),
        ) by {
            assert(confined(record.month_mask(m), month_length(m)));
            if m == month {
                lemma_with_day_confined(record.month_mask(m), day, month_length(m));
            }
        }
    }
}

/// Checking in twice on one day gives the record that checking in once gives.
pub proof fn lemma_check_in_idempotent(record: TableSQL, month: int, day: int)
    ensures
        record.checked_in(month, day).checked_in(month, day) == record.checked_in(month, day),
{
    if valid_day(month, day) {
        lemma_with_day_idempotent(record.month_mask(month), day);
    }
}

/// Checking in twice at one time gives the record that checking in once gives.
pub proof fn lemma_check_in_at_idempotent(record: TableSQL, now: i64)
    ensures
        record.checked_in_at(now).checked_in_at(now) == record.checked_in_at(now),
{
    match utc_date(now) {
        Some((_, month, day)) => lemma_check_in_idempotent(record, month as int, day as int),
        None => {},
    }
}

/// A check-in in one month leaves every bit of every other month, and the
/// record's identity, texts and credential, as they were.
pub proof fn lemma_check_in_isolated(record: TableSQL, month: int, day: int, other: int)
    requires
        other != month,
    ensures
        record.checked_in(month, day).month_mask(other) == record.month_mask(other),
        record.checked_in(month, day).id == record.id,
        record.checked_in(month, day).name == record.name,
        record.checked_in(month, day).description == record.description,
        record.checked_in(month, day).password == record.password,
{
}

} // verus!
