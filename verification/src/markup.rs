//! The markup of a board: one grid per month, one cell per day.

use vstd::prelude::*;
use vstd::string::*;
use crate::board::TableDTO;
use crate::clock::{date_of, first_weekday, month_start, on_clock, unix_now, utc_date};

verus! {

/// The cell of one day: green where the day is marked, grey where not.
pub open spec fn day_markup(is_completed: bool) -> Seq<char> {
    "\n    <div class=\"w-4 h-4 rounded-sm "@ + (if is_completed {
        "bg-green-500"@
    } else {
        "bg-gray-300 dark:bg-gray-600 shadow-inner"@
    }) + " \"> </div>\n"@
}

/// The cells of the days of a month, in order.
pub open spec fn days_markup(days: Seq<bool>) -> Seq<char>
    decreases days.len(),
{
    if days.len() == 0 {
        Seq::empty()
    } else {
        days_markup(days.drop_last()) + day_markup(days.last())
    }
}

/// `count` empty cells.
pub open spec fn padding_markup(count: nat) -> Seq<char>
    decreases count,
{
    if count == 0 {
        Seq::empty()
    } else {
        padding_markup((count - 1) as nat) + "<div class=\"w-4 h-4\"></div>"@
    }
}

/// The empty cells before the first day of the month with the given index
/// (0 is January) in the year of the Unix time `now`: one for each weekday
/// from Sunday up to the weekday of the first; none where the month or the
/// time has no date.
pub open spec fn empty_days_markup(month_index: u32, now: i64) -> Seq<char> {
    match utc_date(now) {
        Some((year, _, _)) => if month_index < 12 {
            match month_start(year, (month_index + 1) as u32) {
                Some(offset) => padding_markup(offset as nat),
                None => Seq::empty(),
            }
        } else {
            Seq::empty()
        },
        None => Seq::empty(),
    }
}

/// The grid of one month: its name, the empty cells before its first day,
/// and one cell per day.
pub open spec fn month_markup(days: Seq<bool>, name: Seq<char>, month_index: u32, now: i64) -> Seq<
    char,
> {
    "\n    <div>\n    <span class=\"text-gray-600 dark:text-gray-400 p-1\">\n        "@
        + name + "\n    </span>\n    <div class=\"grid grid-rows-7 grid-flow-col gap-1\">"@
        + empty_days_markup(month_index, now) + days_markup(days) + "</div></div>"@
}

/// The grids of the twelve months of a board, January first.
pub open spec fn months_markup(table: TableDTO, now: i64) -> Seq<char> {
    month_markup(table.january@, "January"@, 0, now)
        + month_markup(table.february@, "February"@, 1, now)
        + month_markup(table.march@, "March"@, 2, now)
        + month_markup(table.april@, "April"@, 3, now)
        + month_markup(table.may@, "May"@, 4, now)
        + month_markup(table.june@, "June"@, 5, now)
        + month_markup(table.july@, "July"@, 6, now)
        + month_markup(table.august@, "August"@, 7, now)
        + month_markup(table.september@, "September"@, 8, now)
        + month_markup(table.october@, "October"@, 9, now)
        + month_markup(table.november@, "November"@, 10, now)
        + month_markup(table.december@, "December"@, 11, now)
}

/// The cell of one day.
pub fn day(is_completed: bool) -> (cell: String)
    ensures
        cell@ == day_markup(is_completed),
{
    let shade = if is_completed {
        "bg-green-500"
    } else {
        "bg-gray-300 dark:bg-gray-600 shadow-inner"
    };
    String::from_str("\n    <div class=\"w-4 h-4 rounded-sm ").concat(shade).concat(
        " \"> </div>\n",
    )
}

/// The empty cells before the first day of a month, in the year of the
/// Unix time `now`.
pub fn get_empty_days_at(month_index: u32, now: i64) -> (cells: String)
    ensures
        cells@ == empty_days_markup(month_index, now),
{
    let year = match date_of(now) {
        Some((year, _, _)) => year,
        None => {
            return String::new();
        },
    };
    if month_index >= 12 {
        return String::new();
    }
    match first_weekday(year, month_index + 1) {
        Some(offset) => {
            let mut empty_days = String::new();
            let mut i: u32 = 0;
            while i < offset
                invariant
                    i <= offset,
                    empty_days@ == padding_markup(i as nat),
                decreases offset - i,
            {
                empty_days.append("<div class=\"w-4 h-4\"></div>");
                i = i + 1;
            }
            empty_days
        },
        None => String::new(),
    }
}

/// The empty cells before the first day of a month, in the year on the
/// system clock.
pub fn get_empty_days(month_index: u32) -> (cells: String)
    ensures
        exists|now: i64| on_clock(now) && cells@ == #[trigger] empty_days_markup(month_index, now),
{
    let now = unix_now();
    get_empty_days_at(month_index, now)
}

/// The grid of one month, laid out for the year of the Unix time `now`.
pub fn month_at(month: Vec<bool>, name: &str, month_index: u32, now: i64) -> (grid: String)
    ensures
        grid@ == month_markup(month@, name@, month_index, now),
{
    let mut string = String::from_str(
        "\n    <div>\n    <span class=\"text-gray-600 dark:text-gray-400 p-1\">\n        ",
    ).concat(name).concat(
        "\n    </span>\n    <div class=\"grid grid-rows-7 grid-flow-col gap-1\">",
    );
    string.append(get_empty_days_at(month_index, now).as_str());
    let ghost head = string@;
    let mut i: usize = 0;
    while i < month.len()
        invariant
            i <= month.len(),
            string@ == head + days_markup(month@.take(i as int)),
        decreases month.len() - i,
    {
        let cell = day(month[i]);
        proof {
            let before = month@.take(i as int);
            let after = month@.take(i + 1);
            assert(after.drop_last() =~= before);
            assert(after.last() == month@[i as int]);
            assert(head + days_markup(before) + cell@ =~= head + days_markup(after));
        }
        string.append(cell.as_str());
        i = i + 1;
    }
    proof {
        assert(month@.take(i as int) =~= month@);
    }
    string.append("</div></div>");
    string
}

/// The grid of one month, laid out for the year on the system clock.
pub fn month(days: Vec<bool>, name: &str, month_index: u32) -> (grid: String)
    ensures
        exists|now: i64|
            on_clock(now) && grid@ == #[trigger] month_markup(days@, name@, month_index, now),
{
    let now = unix_now();
    month_at(days, name, month_index, now)
}

/// The grids of the twelve months of a board, laid out for the year of the
/// Unix time `now`.
pub fn months_at(table: TableDTO, now: i64) -> (page: String)
    ensures
        page@ == months_markup(table, now),
{
    let mut page = month_at(table.january, "January", 0, now);
    page.append(month_at(table.february, "February", 1, now).as_str());
    page.append(month_at(table.march, "March", 2, now).as_str());
    page.append(month_at(table.april, "April", 3, now).as_str());
    page.append(month_at(table.may, "May", 4, now).as_str());
    page.append(month_at(table.june, "June", 5, now).as_str());
    page.append(month_at(table.july, "July", 6, now).as_str());
    page.append(month_at(table.august, "August", 7, now).as_str());
    page.append(month_at(table.september, "September", 8, now).as_str());
    page.append(month_at(table.october, "October", 9, now).as_str());
    page.append(month_at(table.november, "November", 10, now).as_str());
    page.append(month_at(table.december, "December", 11, now).as_str());
    page
}

/// The grids of the twelve months of a board, laid out for the year on the
/// system clock.
pub fn months(table: TableDTO) -> (page: String)
    ensures
        exists|now: i64| on_clock(now) && page@ == #[trigger] months_markup(table, now),
{
    let now = unix_now();
    months_at(table, now)
}

} // verus!
