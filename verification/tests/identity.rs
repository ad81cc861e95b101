use checkin_board::board::TableSQL;
use checkin_board::error::BoardError;
use checkin_board::identity::{
    get_id, lookup_or_create, verify_or_create, BoardForm, Resolution, TableData,
};
use checkin_board::orm::BoardORM;
use checkin_board::routes::{auth_at, check_in, check_in_at, get, grant};
use checkin_board::session::{generate_token, issue, validate};
use std::collections::HashMap;

const SECRET: &[u8] = b"a server-held secret";
const JUNE_15: i64 = 1_718_452_800;

fn alice(password: &str) -> TableData {
    TableData {
        id: "alice".to_string(),
        name: "Alice".to_string(),
        description: "a board".to_string(),
        password: password.to_string(),
    }
}

fn months(record: &TableSQL) -> [i32; 12] {
    [
        record.january, record.february, record.march, record.april, record.may, record.june,
        record.july, record.august, record.september, record.october, record.november,
        record.december,
    ]
}

#[test]
fn derived_id_is_the_digest_of_name_then_password() {
    let id = get_id("alice".to_string(), "pw123".to_string());
    assert_eq!(id, "a2ffdea4c2b348af09ef095df9bc615916d651dfdfce192e147f3cde18405e63");
    let abc = "ba7816bf8f01cfea414140de5dae2223b00361a396177a9cb410ff61f20015ad";
    assert_eq!(get_id("abc".to_string(), String::new()), abc);
    assert_eq!(get_id("a".to_string(), "bc".to_string()), abc);
    assert_eq!(get_id(String::new(), String::new()).len(), 64);
}

#[test]
fn derived_id_is_repeatable() {
    let first = get_id("alice".to_string(), "pw123".to_string());
    let second = get_id("alice".to_string(), "pw123".to_string());
    assert_eq!(first, second);
    assert_ne!(first, get_id("alice".to_string(), "pw124".to_string()));
}

#[test]
fn name_needs_three_characters() {
    for (name, ok) in [("", false), ("ab", false), ("abc", true), ("\u{e9}\u{e9}", false),
        ("\u{e9}\u{e9}\u{e9}", true), ("a longer name", true)] {
        let form = BoardForm { name: name.to_string(), password: "pw".to_string() };
        let expected = if ok { Ok(()) } else { Err(BoardError::ValidationFailed) };
        assert_eq!(form.validate(), expected);
        let mut data = alice("pw");
        data.name = name.to_string();
        assert_eq!(data.validate(), expected);
    }
}

#[test]
fn create_hashes_the_password() {
    let record = TableSQL::create(
        "alice".to_string(),
        "Alice".to_string(),
        "a board".to_string(),
        "pw123".to_string(),
    )
    .unwrap();
    assert_eq!(record.id, "alice");
    assert_eq!(record.name, "Alice");
    assert_eq!(record.description, "a board");
    assert_ne!(record.password, "pw123");
    assert!(record.password.starts_with("$2b$12$"));
    assert_eq!(months(&record), [0; 12]);
    assert!(record.verify_password("pw123"));
    assert!(!record.verify_password("pw124"));
    assert!(!record.verify_password(""));
}

#[test]
fn create_refuses_an_empty_id() {
    let made = TableSQL::create(String::new(), "Alice".to_string(), String::new(), "pw".to_string());
    assert_eq!(made.err(), Some(BoardError::ValidationFailed));
    let made = BoardORM::create(String::new(), "Alice".to_string(), "pw".to_string());
    assert_eq!(made.err(), Some(BoardError::ValidationFailed));
}

#[test]
fn unreadable_hash_matches_nothing() {
    let record = TableSQL::new_record(
        "alice".to_string(),
        "Alice".to_string(),
        String::new(),
        "pw123".to_string(),
    )
    .unwrap();
    assert!(!record.verify_password("pw123"));
}

#[test]
fn known_hash_matches_its_password() {
    let hash = "$2b$04$EGdrhbKUv8Oc9vGiXX0HQOxSg445d458Muh7DAHskb6QbtCvdxcie";
    let record = TableSQL::new_record(
        "alice".to_string(),
        "Alice".to_string(),
        String::new(),
        hash.to_string(),
    )
    .unwrap();
    assert!(record.verify_password("correctbatteryhorsestapler"));
    assert!(!record.verify_password("wrong"));
}

#[test]
fn orm_create_uses_the_default_description() {
    let record = BoardORM::create("b1".to_string(), "Board".to_string(), "pw".to_string()).unwrap();
    assert_eq!(record.description, "I am trying to achieve...");
    assert_eq!(record.id, "b1");
    assert!(record.verify_password("pw"));
}

#[test]
fn wrong_password_is_unauthorized_and_makes_no_record() {
    let existing = match verify_or_create(alice("pw123"), None).unwrap() {
        Resolution::Created(record) => record,
        Resolution::Existing(_) => panic!("nothing existed"),
    };
    let outcome = verify_or_create(alice("wrong"), Some(existing.clone()));
    assert!(matches!(outcome, Err(BoardError::Unauthorized)));
    let outcome = auth_at(alice("wrong"), Some(existing), SECRET, JUNE_15);
    assert!(matches!(outcome, Err(BoardError::Unauthorized)));
}

#[test]
fn right_password_gives_the_existing_record() {
    let existing = match verify_or_create(alice("pw123"), None).unwrap() {
        Resolution::Created(record) => record,
        Resolution::Existing(_) => panic!("nothing existed"),
    };
    let mut marked = existing.clone();
    marked.mark_day(6, 15).unwrap();
    match verify_or_create(alice("pw123"), Some(marked.clone())).unwrap() {
        Resolution::Existing(record) => {
            assert_eq!(record.password, marked.password);
            assert_eq!(record.june, 16384);
        }
        Resolution::Created(_) => panic!("a second record was made"),
    }
    let grant = auth_at(alice("pw123"), Some(marked), SECRET, JUNE_15).unwrap();
    assert!(grant.insert.is_none());
    assert!(grant.response.data.june[14]);
}

#[test]
fn short_name_is_refused_before_anything_else() {
    let mut form = alice("pw123");
    form.name = "Al".to_string();
    let outcome = verify_or_create(form.clone(), None);
    assert!(matches!(outcome, Err(BoardError::ValidationFailed)));
    let existing = TableSQL::create("alice".into(), "Alice".into(), "".into(), "pw123".into());
    let outcome = verify_or_create(form, Some(existing.unwrap()));
    assert!(matches!(outcome, Err(BoardError::ValidationFailed)));
    let short = BoardForm { name: "Al".to_string(), password: "pw".to_string() };
    assert!(matches!(lookup_or_create(short, None), Err(BoardError::ValidationFailed)));
}

#[test]
fn empty_id_is_refused_on_creation() {
    let mut form = alice("pw123");
    form.id = String::new();
    assert!(matches!(verify_or_create(form, None), Err(BoardError::ValidationFailed)));
}

#[test]
fn derived_scheme_resolves_twice_to_one_record() {
    let mut store: HashMap<String, TableSQL> = HashMap::new();
    let form = BoardForm { name: "alice".to_string(), password: "pw123".to_string() };
    let id = get_id(form.name.clone(), form.password.clone());
    let first = match lookup_or_create(form.clone(), store.get(&id).cloned()).unwrap() {
        Resolution::Created(record) => record,
        Resolution::Existing(_) => panic!("nothing existed"),
    };
    assert_eq!(first.id, id);
    assert_eq!(first.name, "alice");
    assert_eq!(first.description, "I am trying to achieve...");
    store.insert(first.id.clone(), first.clone());
    let again = get_id(form.name.clone(), form.password.clone());
    assert_eq!(again, id);
    match lookup_or_create(form, store.get(&again).cloned()).unwrap() {
        Resolution::Existing(record) => {
            assert_eq!(record.id, first.id);
            assert_eq!(record.password, first.password);
        }
        Resolution::Created(_) => panic!("a second record was made"),
    }
    assert_eq!(store.len(), 1);
}

#[test]
fn derived_scheme_checks_no_password_against_the_hash() {
    let record = TableSQL::new_record(
        "some id".to_string(),
        "alice".to_string(),
        String::new(),
        "not a hash".to_string(),
    )
    .unwrap();
    let form = BoardForm { name: "alice".to_string(), password: "anything".to_string() };
    let outcome = lookup_or_create(form, Some(record)).unwrap();
    assert!(matches!(outcome, Resolution::Existing(r) if r.id == "some id"));
}

#[test]
fn grant_passes_a_refusal_on() {
    for e in [BoardError::Unauthorized, BoardError::ValidationFailed, BoardError::StoreFailure] {
        assert!(matches!(grant(Err(e), SECRET, JUNE_15), Err(got) if got == e));
    }
    let record = TableSQL::new_record("a".into(), "Abc".into(), "".into(), "h".into()).unwrap();
    let early = grant(Ok(Resolution::Existing(record)), SECRET, -1);
    assert!(matches!(early, Err(BoardError::ValidationFailed)));
}

#[test]
fn board_of_alice_from_creation_to_view() {
    let mut store: HashMap<String, TableSQL> = HashMap::new();
    let grant = auth_at(alice("pw123"), store.get("alice").cloned(), SECRET, JUNE_15).unwrap();
    let claims = validate(&grant.response.token, SECRET, JUNE_15).unwrap();
    assert_eq!(claims.sub, "alice");
    let made = grant.insert.expect("a record to insert");
    assert_eq!(months(&made), [0; 12]);
    assert!(grant.response.data.june.iter().all(|d| !d));
    store.insert(made.id.clone(), made);

    let header = format!("Bearer {}", grant.response.token);
    let bearer = Some(header.as_str());
    let found = store.get(&claims.sub).cloned();
    let (after, write) = check_in_at(bearer, SECRET, found, JUNE_15).unwrap();
    assert_eq!(write.column, "june");
    assert_eq!(write.value, 0b100000000000000);
    assert_eq!(after.june, 16384);
    store.get_mut("alice").unwrap().june = write.value;

    let found = store.get("alice").cloned();
    let (again, write) = check_in_at(bearer, SECRET, found, JUNE_15).unwrap();
    assert_eq!(write.value, 16384);
    assert_eq!(again.june, 16384);
    store.get_mut("alice").unwrap().june = write.value;

    let view = get(store.get("alice").cloned()).unwrap();
    assert_eq!(view.june.len(), 30);
    for (i, day) in view.june.iter().enumerate() {
        assert_eq!(*day, i == 14);
    }
    let others = [
        &view.january, &view.february, &view.march, &view.april, &view.may, &view.july,
        &view.august, &view.september, &view.october, &view.november, &view.december,
    ];
    assert!(others.iter().all(|month| month.iter().all(|d| !d)));
    assert_eq!(store.len(), 1);
}

#[test]
fn unknown_id_is_not_found() {
    assert!(matches!(get(None), Err(BoardError::NotFound)));
    assert!(matches!(BoardORM::find_by_id(None), Err(BoardError::NotFound)));
    let header = format!("Bearer {}", issue("ghost", SECRET, JUNE_15).unwrap());
    let missing = check_in_at(Some(&header), SECRET, None, JUNE_15);
    assert!(matches!(missing, Err(BoardError::NotFound)));
    assert!(matches!(BoardORM::check_in_at(None, JUNE_15), Err(BoardError::NotFound)));
    assert!(matches!(BoardORM::check_in(None), Err(BoardError::NotFound)));
    let changed = BoardORM::change_description(None, "x".to_string());
    assert!(matches!(changed, Err(BoardError::NotFound)));
}

#[test]
fn check_in_on_the_leap_day_is_refused() {
    let record = TableSQL::new_record("a".into(), "Abc".into(), "".into(), "h".into()).unwrap();
    let done = BoardORM::check_in_at(Some(record), 1709164800);
    assert!(matches!(done, Err(BoardError::ValidationFailed)));
}

#[test]
fn change_description_keeps_the_rest() {
    let mut record = TableSQL::new_record("a".into(), "Abc".into(), "".into(), "h".into()).unwrap();
    record.mark_day(1, 1).unwrap();
    let changed = BoardORM::change_description(Some(record), "New Description".to_string()).unwrap();
    assert_eq!(changed.description, "New Description");
    assert_eq!((changed.id.as_str(), changed.password.as_str(), changed.january), ("a", "h", 1));
}

fn stored(id: &str) -> TableSQL {
    TableSQL::new_record(id.into(), "Abc".into(), "".into(), "h".into()).unwrap()
}

#[test]
fn check_in_without_a_valid_token_is_unauthorized() {
    let token = issue("alice", SECRET, JUNE_15).unwrap();
    let good = format!("Bearer {}", token);
    let forged = format!("Bearer {}", issue("alice", b"another secret", JUNE_15).unwrap());
    let headers = [None, Some(""), Some(token.as_str()), Some("Bearer a.b.c"), Some(forged.as_str())];
    for header in headers {
        let done = check_in_at(header, SECRET, Some(stored("alice")), JUNE_15);
        assert!(matches!(done, Err(BoardError::Unauthorized)));
        let done = check_in_at(header, SECRET, None, JUNE_15);
        assert!(matches!(done, Err(BoardError::Unauthorized)));
        let done = check_in(header, SECRET, Some(stored("alice")));
        assert!(matches!(done, Err(BoardError::Unauthorized)));
    }
    let late = check_in_at(Some(&good), SECRET, Some(stored("alice")), JUNE_15 + 86401);
    assert!(matches!(late, Err(BoardError::Unauthorized)));
    let (after, write) = check_in_at(Some(&good), SECRET, Some(stored("alice")), JUNE_15).unwrap();
    assert_eq!((after.june, write.value, write.column.as_str()), (16384, 16384, "june"));
}

#[test]
fn check_in_on_another_board_is_unauthorized() {
    let header = format!("Bearer {}", issue("alice", SECRET, JUNE_15).unwrap());
    let done = check_in_at(Some(&header), SECRET, Some(stored("bob")), JUNE_15);
    assert!(matches!(done, Err(BoardError::Unauthorized)));
}

#[test]
fn check_in_today_with_a_fresh_token() {
    let header = format!("Bearer {}", generate_token("alice", SECRET).unwrap());
    match check_in(Some(&header), SECRET, Some(stored("alice"))) {
        Ok((after, write)) => {
            assert_eq!(after.id, "alice");
            assert_eq!(write.value.count_ones(), 1);
            assert!(checkin_board::board::month_column(1).is_some());
            let names = (1..=12).filter_map(checkin_board::board::month_column);
            assert!(names.into_iter().any(|name| name == write.column));
        }
        Err(e) => assert_eq!(e, BoardError::ValidationFailed),
    }
    assert!(matches!(check_in(Some(&header), SECRET, None), Err(BoardError::NotFound)));
}

#[test]
fn created_credential_is_a_hash_that_accepts_the_password() {
    for outcome in [
        verify_or_create(alice("pw123"), None),
        lookup_or_create(BoardForm { name: "alice".into(), password: "pw123".into() }, None),
    ] {
        match outcome.unwrap() {
            Resolution::Created(record) => {
                assert_ne!(record.password, "pw123");
                assert!(record.password.starts_with("$2b$12$"));
                assert_eq!(record.password.len(), 60);
                assert!(record.verify_password("pw123"));
                assert!(!record.verify_password(""));
            }
            Resolution::Existing(_) => panic!("nothing existed"),
        }
    }
}

#[test]
fn derived_id_is_lower_case_hex() {
    let id = get_id("Alice".to_string(), "PW".to_string());
    assert_eq!(id.len(), 64);
    assert!(id.chars().all(|c| c.is_ascii_digit() || ('a'..='f').contains(&c)));
}

#[test]
fn granted_token_names_the_board_and_holds_for_a_day() {
    let grant = auth_at(alice("pw123"), None, SECRET, JUNE_15).unwrap();
    let early = validate(&grant.response.token, SECRET, JUNE_15 + 86340).unwrap();
    assert_eq!(early.sub, "alice");
    assert!(validate(&grant.response.token, SECRET, JUNE_15 + 86460).is_err());
}
