use checkin_board::board::{TableDTO, TableSQL};
use checkin_board::error::BoardError;
use checkin_board::identity::{get_id, BoardForm};
use checkin_board::markup::{
    day, get_empty_days, get_empty_days_at, month, month_at, months, months_at,
};
use checkin_board::operations::{change_description, change_description_at, check_in, check_in_at};
use checkin_board::pages::{
    board, board_at, board_auth, board_auth_at, board_page, board_page_at, check_in_button, home,
    input,
};

const JUNE_15: i64 = 1_718_452_800;
const JAN_2023: i64 = 1_672_574_400;
const EMPTY: &str = "<div class=\"w-4 h-4\"></div>";
const TEMPLATE: &str = "<h1>{{ name }}</h1><p>{{ description }}</p>{{ input }}\
<div id=\"monthsContainer\" {{ descriptionHidden }}>{{ months }}</div>{{ checkInButton }}";

fn expected_input(value: &str) -> String {
    format!("
    <input type=\"text\" value=\"{}\"
        style=\"min-width: 0px;\"
        class=\"mr-2 mt-1 block w-fit
            text-2xl text-gray-900
            border-0 border-b-2 border-gray-300
            bg-transparent appearance-none dark:text-white dark:border-gray-600
            dark:focus:border-green-500focus:outline-none focus:ring-0 focus:border-green-600
        \"
        hidden
    >
", value)
}

fn expected_button(id: &str) -> String {
    format!("
    <button id=\"gradientButton\" hx-post=\"/check-in/{}\" hx-target=\"#monthsContainer\" class=\"w-48 h-16 relative flex justify-center place-items-center items-center mb-10 bg-green-400 rounded-lg group\">
    <span id=\"gradientBackground\" class=\"absolute inset-0 bg-gradient-to-r opacity-0 group-hover:opacity-100 transition-opacity duration-300\" style=\"background-size: 200% 200%;\"></span>
    <p class=\"z-50 text-xl font-bold text-white text-nowrap w-min h-min\"> Check in</p>
    </button>

    <script>
        document.body.addEventListener('htmx:load', function() {{
            var gradientButton = document.getElementById('gradientButton');
            if (gradientButton) {{
                var gradientBackground = document.getElementById('gradientBackground');

                gradientButton.addEventListener('mousemove', function(e) {{
                    var rect = gradientButton.getBoundingClientRect();
                    var x = (e.clientX - rect.left) / gradientButton.offsetWidth * 100;
                    var y = (e.clientY - rect.top) / gradientButton.offsetHeight * 100;
                    gradientBackground.style.backgroundPosition = x + '% ' + y + '%';
                }});
            }}
        }});
    </script>
", id)
}

fn expected_day(is_completed: bool) -> String {
    format!("
    <div class=\"w-4 h-4 rounded-sm {} \"> </div>
", if is_completed { "bg-green-500" } else { "bg-gray-300 dark:bg-gray-600 shadow-inner" })
}

fn expected_month(days: &[bool], name: &str, offset: usize) -> String {
    let mut string = format!("
    <div>
    <span class=\"text-gray-600 dark:text-gray-400 p-1\">
        {}
    </span>
    <div class=\"grid grid-rows-7 grid-flow-col gap-1\">", name);
    string += &EMPTY.repeat(offset);
    for is_completed in days {
        string += &expected_day(*is_completed);
    }
    string += "</div></div>";
    string
}

fn expected_months(table: &TableDTO, offsets: [usize; 12]) -> String {
    [
        expected_month(&table.january, "January", offsets[0]),
        expected_month(&table.february, "February", offsets[1]),
        expected_month(&table.march, "March", offsets[2]),
        expected_month(&table.april, "April", offsets[3]),
        expected_month(&table.may, "May", offsets[4]),
        expected_month(&table.june, "June", offsets[5]),
        expected_month(&table.july, "July", offsets[6]),
        expected_month(&table.august, "August", offsets[7]),
        expected_month(&table.september, "September", offsets[8]),
        expected_month(&table.october, "October", offsets[9]),
        expected_month(&table.november, "November", offsets[10]),
        expected_month(&table.december, "December", offsets[11]),
    ]
    .join("")
}

const OFFSETS_2024: [usize; 12] = [1, 4, 5, 1, 3, 6, 1, 4, 0, 2, 5, 0];

fn record() -> TableSQL {
    let mut record = TableSQL::new_record(
        "alice".to_string(),
        "Alice".to_string(),
        "run daily".to_string(),
        "hash".to_string(),
    )
    .unwrap();
    record.mark_day(6, 15).unwrap();
    record.mark_day(1, 1).unwrap();
    record
}

#[test]
fn day_cell_is_green_or_grey() {
    assert_eq!(day(true), "\n    <div class=\"w-4 h-4 rounded-sm bg-green-500 \"> </div>\n");
    assert_eq!(day(true), expected_day(true));
    assert_eq!(day(false), expected_day(false));
    assert!(day(false).contains("bg-gray-300 dark:bg-gray-600 shadow-inner"));
}

#[test]
fn empty_days_count_up_to_the_first_weekday() {
    for (index, offset) in OFFSETS_2024.iter().enumerate() {
        assert_eq!(get_empty_days_at(index as u32, JUNE_15), EMPTY.repeat(*offset));
    }
    assert_eq!(get_empty_days_at(0, JAN_2023), "");
    assert_eq!(get_empty_days_at(1, JAN_2023), EMPTY.repeat(3));
}

#[test]
fn empty_days_of_no_month_are_none() {
    assert_eq!(get_empty_days_at(12, JUNE_15), "");
    assert_eq!(get_empty_days_at(u32::MAX, JUNE_15), "");
    assert_eq!(get_empty_days_at(5, i64::MAX), "");
}

#[test]
fn empty_days_today_are_fewer_than_a_week() {
    for index in 0..12 {
        let cells = get_empty_days(index);
        assert_eq!(cells.len() % EMPTY.len(), 0);
        assert!(cells.len() / EMPTY.len() < 7);
        assert_eq!(cells, EMPTY.repeat(cells.len() / EMPTY.len()));
    }
}

#[test]
fn month_grid_has_name_padding_and_days() {
    let days = vec![true, false, true];
    assert_eq!(month_at(days.clone(), "June", 5, JUNE_15), expected_month(&days, "June", 6));
    assert_eq!(month_at(vec![], "None", 12, JUNE_15), expected_month(&[], "None", 0));
    let january = record().to_dto().january;
    assert_eq!(month_at(january.clone(), "January", 0, JAN_2023), expected_month(&january, "January", 0));
}

#[test]
fn month_grid_today_has_a_cell_per_day() {
    let grid = month(vec![true, false], "June", 5);
    assert!(grid.starts_with(&expected_month(&[], "June", 0).replace("</div></div>", "")));
    assert!(grid.ends_with(&format!("{}{}</div></div>", expected_day(true), expected_day(false))));
    assert_eq!(grid.matches("rounded-sm").count(), 2);
}

#[test]
fn months_are_twelve_grids_in_order() {
    let table = record().to_dto();
    let page = months_at(table.clone(), JUNE_15);
    assert_eq!(page, expected_months(&table, OFFSETS_2024));
    assert_eq!(page.matches("bg-green-500").count(), 2);
    assert_eq!(page.matches("rounded-sm").count(), 365);
    assert_eq!(months(table).matches("rounded-sm").count(), 365);
}

#[test]
fn input_and_button_hold_their_value() {
    assert_eq!(input("run daily"), expected_input("run daily"));
    assert_eq!(input(""), expected_input(""));
    assert_eq!(check_in_button("alice"), expected_button("alice"));
    assert!(check_in_button("alice").contains("hx-post=\"/check-in/alice\""));
    assert!(check_in_button("a").contains("function() {\n"));
}

#[test]
fn home_puts_the_body_in_the_template() {
    assert_eq!(home("<html>{{ body }}</html>", "<p>hi</p>"), "<html><p>hi</p></html>");
    assert_eq!(home("{{ body }}{{ body }}", "x"), "xx");
    assert_eq!(home("no slot", "x"), "no slot");
}

#[test]
fn board_page_fills_every_slot() {
    let table = record().to_dto();
    let grids = expected_months(&table, OFFSETS_2024);
    let owner = board_page_at(TEMPLATE.to_string(), table.clone(), true, JUNE_15);
    let expected = format!(
        "<h1>Alice</h1><p>run daily</p><div id=\"monthsContainer\" >{}</div>{}",
        grids,
        expected_button("alice")
    );
    assert_eq!(owner, expected);
    let visitor = board_page_at(TEMPLATE.to_string(), table.clone(), false, JUNE_15);
    let expected = format!("<h1>Alice</h1><p>run daily</p><div id=\"monthsContainer\" >{}</div>", grids);
    assert_eq!(visitor, expected);
    assert!(board_page(TEMPLATE.to_string(), table, true).starts_with("<h1>Alice</h1>"));
}

#[test]
fn public_board_page_has_no_button() {
    let page = board_at(Some(record()), "<body>{{ body }}</body>", TEMPLATE.to_string(), JUNE_15);
    let table = record().to_dto();
    let inner = board_page_at(TEMPLATE.to_string(), table, false, JUNE_15);
    assert_eq!(page.unwrap(), format!("<body>{}</body>", inner));
    let missing = board_at(None, "<body>{{ body }}</body>", TEMPLATE.to_string(), JUNE_15);
    assert_eq!(missing.err(), Some(BoardError::NotFound));
    assert_eq!(board(None, "{{ body }}", TEMPLATE.to_string()).err(), Some(BoardError::NotFound));
    assert!(!board(Some(record()), "{{ body }}", TEMPLATE.to_string()).unwrap().contains("button"));
}

#[test]
fn opening_a_new_board_inserts_and_shows_it() {
    let form = BoardForm { name: "alice".to_string(), password: "pw123".to_string() };
    let id = get_id(form.name.clone(), form.password.clone());
    let (page, insert) = board_auth_at(form.clone(), None, TEMPLATE.to_string(), JUNE_15).unwrap();
    let made = insert.expect("a record to insert");
    assert_eq!(made.id, id);
    assert_eq!(page.header, format!("/{}", id));
    assert_eq!(page.body, board_page_at(TEMPLATE.to_string(), made.to_dto(), true, JUNE_15));
    assert!(page.body.contains(&format!("/check-in/{}", id)));

    let (again, insert) =
        board_auth_at(form.clone(), Some(made.clone()), TEMPLATE.to_string(), JUNE_15).unwrap();
    assert!(insert.is_none());
    assert_eq!(again.header, page.header);
    assert_eq!(again.body, page.body);
    let (now, insert) = board_auth(form, Some(made), TEMPLATE.to_string()).unwrap();
    assert!(insert.is_none());
    assert_eq!(now.header, page.header);
}

#[test]
fn opening_with_a_short_name_is_refused() {
    let form = BoardForm { name: "al".to_string(), password: "pw123".to_string() };
    let outcome = board_auth_at(form, None, TEMPLATE.to_string(), JUNE_15);
    assert!(matches!(outcome, Err(BoardError::ValidationFailed)));
}

#[test]
fn page_check_in_answers_with_the_new_grids() {
    let (grids, write) = check_in_at(Some(record()), JUNE_15 + 86400).unwrap();
    assert_eq!(write.column, "june");
    assert_eq!(write.value, (1 << 14) | (1 << 15));
    let mut after = record();
    after.mark_day(6, 16).unwrap();
    assert_eq!(grids, expected_months(&after.to_dto(), OFFSETS_2024));
    assert_eq!(check_in_at(None, JUNE_15).err(), Some(BoardError::NotFound));
    assert_eq!(check_in(None).err(), Some(BoardError::NotFound));
    let leap = check_in_at(Some(record()), 1709164800);
    assert_eq!(leap.err(), Some(BoardError::ValidationFailed));
}

#[test]
fn page_description_change_writes_the_fixed_text() {
    let (grids, write) = change_description_at(Some(record()), JUNE_15).unwrap();
    assert_eq!(write.id, "alice");
    assert_eq!(write.description, "New Description");
    assert_eq!(grids, expected_months(&record().to_dto(), OFFSETS_2024));
    assert_eq!(change_description_at(None, JUNE_15).err(), Some(BoardError::NotFound));
    assert_eq!(change_description(None).err(), Some(BoardError::NotFound));
    assert_eq!(change_description(Some(record())).unwrap().1.description, "New Description");
}
