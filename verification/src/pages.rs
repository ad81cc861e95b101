//! The pages of a board, filled into templates that the caller has read.

use vstd::prelude::*;
use vstd::string::*;
use crate::board::{TableDTO, TableSQL};
use crate::clock::{on_clock, unix_now};
use crate::error::BoardError;
use crate::identity::{derived_step, lookup_or_create, BoardForm, Resolution};
use crate::markup::{months_at, months_markup};
use crate::orm::BoardORM;

verus! {

/// What `str::replace` makes of `text`: every match of `from` replaced by
/// `to`.
pub uninterp spec fn replaced(text: Seq<char>, from: Seq<char>, to: Seq<char>) -> Seq<char>;

/// Calls `str::replace`. Trusted: the result is a function of the three
/// strings alone, named `replaced`.
#[verifier::external_body]
pub(crate) fn replace_all(text: &str, from: &str, to: &str) -> (filled: String)
    ensures
        filled@ == replaced(text@, from@, to@),
{
    text.replace(from, to)
}

/// A page fragment together with the address that the browser is to show
/// for it.
#[derive(Clone, Debug)]
pub struct HTMXReplace {
    pub body: String,
    pub header: String,
}

/// A hidden text field that holds `value`.
pub open spec fn input_markup(value: Seq<char>) -> Seq<char> {
    "\n    <input type=\"text\" value=\""@ + value
        + "\"\n        style=\"min-width: 0px;\"\n        class=\"mr-2 mt-1 block w-fit\n            text-2xl text-gray-900\n            border-0 border-b-2 border-gray-300\n            bg-transparent appearance-none dark:text-white dark:border-gray-600\n            dark:focus:border-green-500focus:outline-none focus:ring-0 focus:border-green-600\n        \"\n        hidden\n    >\n"@
}

/// The button that checks in on the board `id`.
pub open spec fn button_markup(id: Seq<char>) -> Seq<char> {
    "\n    <button id=\"gradientButton\" hx-post=\"/check-in/"@ + id
        + "\" hx-target=\"#monthsContainer\" class=\"w-48 h-16 relative flex justify-center place-items-center items-center mb-10 bg-green-400 rounded-lg group\">\n    <span id=\"gradientBackground\" class=\"absolute inset-0 bg-gradient-to-r opacity-0 group-hover:opacity-100 transition-opacity duration-300\" style=\"background-size: 200% 200%;\"></span>\n    <p class=\"z-50 text-xl font-bold text-white text-nowrap w-min h-min\"> Check in</p>\n    </button>\n\n    <script>\n        document.body.addEventListener('htmx:load', function() {\n            var gradientButton = document.getElementById('gradientButton');\n            if (gradientButton) {\n                var gradientBackground = document.getElementById('gradientBackground');\n\n                gradientButton.addEventListener('mousemove', function(e) {\n                    var rect = gradientButton.getBoundingClientRect();\n                    var x = (e.clientX - rect.left) / gradientButton.offsetWidth * 100;\n                    var y = (e.clientY - rect.top) / gradientButton.offsetHeight * 100;\n                    gradientBackground.style.backgroundPosition = x + '% ' + y + '%';\n                });\n            }\n        });\n    </script>\n"@
}

/// The board template `template` filled for `table`, laid out for the year
/// of the Unix time `now`: name, description and months are put in their
/// places, and the check-in button only where the viewer owns the board.
pub open spec fn page_markup(
    template: Seq<char>,
    table: TableDTO,
    is_authenticated: bool,
    now: i64,
) -> Seq<char> {
    let named = replaced(template, "{{ name }}"@, table.name@);
    let described = replaced(named, "{{ description }}"@, table.description@);
    let dated = replaced(described, "{{ months }}"@, months_markup(table, now));
    let buttoned = replaced(
        dated,
        "{{ checkInButton }}"@,
        if is_authenticated {
            button_markup(table.id@)
        } else {
            Seq::empty()
        },
    );
    let shown = replaced(buttoned, "{{ descriptionHidden }}"@, Seq::empty());
    replaced(shown, "{{ input }}"@, Seq::empty())
}

/// A hidden text field that holds `value`.
pub fn input(value: &str) -> (field: String)
    ensures
        field@ == input_markup(value@),
{
    String::from_str("\n    <input type=\"text\" value=\"").concat(value).concat(
        "\"\n        style=\"min-width: 0px;\"\n        class=\"mr-2 mt-1 block w-fit\n            text-2xl text-gray-900\n            border-0 border-b-2 border-gray-300\n            bg-transparent appearance-none dark:text-white dark:border-gray-600\n            dark:focus:border-green-500focus:outline-none focus:ring-0 focus:border-green-600\n        \"\n        hidden\n    >\n",
    )
}

/// The button that checks in on the board `id`.
pub fn check_in_button(id: &str) -> (button: String)
    ensures
        button@ == button_markup(id@),
{
    String::from_str("\n    <button id=\"gradientButton\" hx-post=\"/check-in/").concat(id).concat(
        "\" hx-target=\"#monthsContainer\" class=\"w-48 h-16 relative flex justify-center place-items-center items-center mb-10 bg-green-400 rounded-lg group\">\n    <span id=\"gradientBackground\" class=\"absolute inset-0 bg-gradient-to-r opacity-0 group-hover:opacity-100 transition-opacity duration-300\" style=\"background-size: 200% 200%;\"></span>\n    <p class=\"z-50 text-xl font-bold text-white text-nowrap w-min h-min\"> Check in</p>\n    </button>\n\n    <script>\n        document.body.addEventListener('htmx:load', function() {\n            var gradientButton = document.getElementById('gradientButton');\n            if (gradientButton) {\n                var gradientBackground = document.getElementById('gradientBackground');\n\n                gradientButton.addEventListener('mousemove', function(e) {\n                    var rect = gradientButton.getBoundingClientRect();\n                    var x = (e.clientX - rect.left) / gradientButton.offsetWidth * 100;\n                    var y = (e.clientY - rect.top) / gradientButton.offsetHeight * 100;\n                    gradientBackground.style.backgroundPosition = x + '% ' + y + '%';\n                });\n            }\n        });\n    </script>\n",
    )
}

/// Fills the board template for `table`, laid out for the year of the Unix
/// time `now`.
pub fn board_page_at(template: String, table: TableDTO, is_authenticated: bool, now: i64) -> (page:
    String)
    ensures
        page@ == page_markup(template@, table, is_authenticated, now),
{
    let template = replace_all(template.as_str(), "{{ name }}", table.name.as_str());
    let template = replace_all(
        template.as_str(),
        "{{ description }}",
        table.description.as_str(),
    );
    let button = if is_authenticated {
        check_in_button(table.id.as_str())
    } else {
        String::new()
    };
    let grids = months_at(table, now);
    let template = replace_all(template.as_str(), "{{ months }}", grids.as_str());
    let template = replace_all(template.as_str(), "{{ checkInButton }}", button.as_str());
    let empty = String::new();
    let template = replace_all(template.as_str(), "{{ descriptionHidden }}", empty.as_str());
    replace_all(template.as_str(), "{{ input }}", empty.as_str())
}

/// Fills the board template for `table`, laid out for the year on the
/// system clock.
pub fn board_page(template: String, table: TableDTO, is_authenticated: bool) -> (page: String)
    ensures
        exists|now: i64|
            on_clock(now) && page@ == #[trigger] page_markup(template@, table, is_authenticated, now),
{
    let now = unix_now();
    board_page_at(template, table, is_authenticated, now)
}

/// The home page: the site template with the home text as its body.
pub fn home(template: &str, body: &str) -> (page: String)
    ensures
        page@ == replaced(template@, "{{ body }}"@, body@),
{
    replace_all(template, "{{ body }}", body)
}

/// The public page of the board that a lookup found, laid out for the year
/// of the Unix time `now`: the board template filled without the check-in
/// button, as the body of the site template. `NotFound` where the lookup
/// found none.
pub fn board_at(found: Option<TableSQL>, template: &str, board_template: String, now: i64) -> (page:
    Result<String, BoardError>)
    ensures
        match found {
            Some(record) => page matches Ok(text) && exists|table: TableDTO|
                table.shows(record) && text@ == replaced(
                    template@,
                    "{{ body }}"@,
                    #[trigger] page_markup(board_template@, table, false, now),
                ),
            None => page == Err::<String, BoardError>(BoardError::NotFound),
        },
{
    match BoardORM::find_by_id(found) {
        Ok(table) => {
            let body = board_page_at(board_template, table, false, now);
            Ok(replace_all(template, "{{ body }}", body.as_str()))
        },
        Err(e) => Err(e),
    }
}

/// The public page of the board that a lookup found, laid out for the year
/// on the system clock.
pub fn board(found: Option<TableSQL>, template: &str, board_template: String) -> (page: Result<
    String,
    BoardError,
>)
    ensures
        match found {
            Some(record) => page matches Ok(text) && exists|now: i64, table: TableDTO|
                on_clock(now) && table.shows(record) && text@ == replaced(
                    template@,
                    "{{ body }}"@,
                    #[trigger] page_markup(board_template@, table, false, now),
                ),
            None => page == Err::<String, BoardError>(BoardError::NotFound),
        },
{
    let now = unix_now();
    board_at(found, template, board_template, now)
}

/// Whether `outcome` is an outcome of opening a board under the
/// derived-id scheme at the Unix time `now`: the board that the submission
/// resolved to, shown to its owner, under the address `/` and its id; and
/// the record to insert where the board was made by it.
pub open spec fn opened(
    resolved: Result<Resolution, BoardError>,
    board_template: Seq<char>,
    now: i64,
    outcome: Result<(HTMXReplace, Option<TableSQL>), BoardError>,
) -> bool {
    match resolved {
        Err(e) => outcome == Err::<(HTMXReplace, Option<TableSQL>), BoardError>(e),
        Ok(resolution) => outcome matches Ok((page, insert)) && {
            &&& page.header@ == "/"@ + resolution.record().id@
            &&& exists|table: TableDTO|
                table.shows(resolution.record()) && page.body@ == #[trigger] page_markup(
                    board_template,
                    table,
                    true,
                    now,
                )
            &&& insert == match resolution {
                Resolution::Created(made) => Some(made),
                Resolution::Existing(_) => None::<TableSQL>,
            }
        },
    }
}

/// Opens a board under the derived-id scheme at the Unix time `now`,
/// where the store holds `found` under the id derived from the submission.
pub fn board_auth_at(
    form_data: BoardForm,
    found: Option<TableSQL>,
    board_template: String,
    now: i64,
) -> (outcome: Result<(HTMXReplace, Option<TableSQL>), BoardError>)
    ensures
        exists|resolved: Result<Resolution, BoardError>|
            derived_step(form_data, found, resolved) && #[trigger] opened(
                resolved,
                board_template@,
                now,
                outcome,
            ),
{
    let resolved = lookup_or_create(form_data, found);
    let ghost kept = resolved;
    let outcome = match resolved {
        Err(e) => Err(e),
        Ok(Resolution::Existing(record)) => {
            let table = record.to_dto();
            let header = String::from_str("/").concat(table.id.as_str());
            let body = board_page_at(board_template, table, true, now);
            Ok((HTMXReplace { body, header }, None))
        },
        Ok(Resolution::Created(made)) => {
            let table = made.to_dto();
            let header = String::from_str("/").concat(table.id.as_str());
            let body = board_page_at(board_template, table, true, now);
            Ok((HTMXReplace { body, header }, Some(made)))
        },
    };
    proof {
        assert(opened(kept, board_template@, now, outcome));
    }
    outcome
}

/// Opens a board under the derived-id scheme at the time on the system
/// clock.
pub fn board_auth(form_data: BoardForm, found: Option<TableSQL>, board_template: String) -> (outcome:
    Result<(HTMXReplace, Option<TableSQL>), BoardError>)
    ensures
        exists|resolved: Result<Resolution, BoardError>, now: i64|
            on_clock(now) && derived_step(form_data, found, resolved) && #[trigger] opened(
                resolved,
                board_template@,
                now,
                outcome,
            ),
{
    let now = unix_now();
    board_auth_at(form_data, found, board_template, now)
}

} // verus!
