//! Who owns a board. Two schemes exist side by side. Under the first a
//! client names the board's id and proves ownership with a password that is
//! checked against the stored hash. Under the second the id is derived from
//! name and password, and knowing the two is the whole proof: nothing is
//! checked against the stored hash, so the scheme is only as strong as the
//! digest is against a second preimage.

use vstd::prelude::*;
use vstd::string::*;
use crate::board::TableSQL;
use crate::credential::{bcrypt_accepts, lower_hex, sha256_hex, sha256_hex_of};
use crate::error::BoardError;

verus! {

/// Least number of characters of a board's name.
pub const MIN_NAME_CHARS: u64 = 3;

/// The description that a board gets where its form carries none.
pub open spec fn default_description() -> Seq<char> {
    "I am trying to achieve..."@
}

/// Whether `text` has at least `min` characters. Characters are counted,
/// not bytes.
fn at_least_chars(text: &str, min: u64) -> (enough: bool)
    ensures
        enough == (text@.len() >= min),
{
    text.unicode_len() as u64 >= min
}

/// What a client submits under the first scheme.
#[derive(Clone, Debug)]
pub struct TableData {
    pub id: String,
    pub name: String,
    pub description: String,
    pub password: String,
}

/// What a client submits under the second scheme.
#[derive(Clone, Debug)]
pub struct BoardForm {
    pub name: String,
    pub password: String,
}

/// How a submission was resolved to a record.
#[derive(Clone, Debug)]
pub enum Resolution {
    /// The board existed; this is its record, unchanged.
    Existing(TableSQL),
    /// The board did not exist; this record is to be inserted.
    Created(TableSQL),
}

impl Resolution {
    /// The record that the submission resolved to.
    pub open spec fn record(self) -> TableSQL {
        match self {
            Resolution::Existing(record) => record,
            Resolution::Created(record) => record,
        }
    }
}

impl TableData {
    /// Whether the submission has the required shape: a name of at least
    /// `MIN_NAME_CHARS` characters.
    pub open spec fn acceptable(self) -> bool {
        self.name@.len() >= MIN_NAME_CHARS
    }

    /// Checks the shape of the submission.
    pub fn validate(&self) -> (checked: Result<(), BoardError>)
        ensures
            checked == if self.acceptable() {
                Ok::<(), BoardError>(())
            } else {
                Err::<(), BoardError>(BoardError::ValidationFailed)
            },
    {
        if at_least_chars(self.name.as_str(), MIN_NAME_CHARS) {
            Ok(())
        } else {
            Err(BoardError::ValidationFailed)
        }
    }
}

impl BoardForm {
    /// Whether the submission has the required shape: a name of at least
    /// `MIN_NAME_CHARS` characters.
    pub open spec fn acceptable(self) -> bool {
        self.name@.len() >= MIN_NAME_CHARS
    }

    /// Checks the shape of the submission.
    pub fn validate(&self) -> (checked: Result<(), BoardError>)
        ensures
            checked == if self.acceptable() {
                Ok::<(), BoardError>(())
            } else {
                Err::<(), BoardError>(BoardError::ValidationFailed)
            },
    {
        if at_least_chars(self.name.as_str(), MIN_NAME_CHARS) {
            Ok(())
        } else {
            Err(BoardError::ValidationFailed)
        }
    }
}

/// The id that the second scheme derives: the SHA-256 digest, in hex, of
/// the name followed by the password.
pub open spec fn derived_id(name: Seq<char>, password: Seq<char>) -> Seq<char> {
    sha256_hex(name + password)
}

/// Derives a board's id from its name and password. Equal inputs give equal
/// ids, and an id is 64 digits of lower-case hexadecimal, so never empty.
pub fn get_id(name: String, password: String) -> (id: String)
    ensures
        id@ == derived_id(name@, password@),
        id@.len() == 64,
        forall|i: int| 0 <= i < 64 ==> lower_hex(#[trigger] id@[i]),
{
    let joined = name.concat(password.as_str());
    sha256_hex_of(joined.as_str())
}

/// Whether `made` is a fresh record for the given id, texts and password:
/// no check-in, well formed, and a credential that bcrypt accepts for the
/// password.
pub open spec fn fresh(
    made: TableSQL,
    id: Seq<char>,
    name: String,
    description: Seq<char>,
    password: Seq<char>,
) -> bool {
    &&& made.id@ == id
    &&& made.name == name
    &&& made.description@ == description
    &&& bcrypt_accepts(password, made.password@) == Some(true)
    &&& made.blank()
    &&& made.well_formed()
}

/// Whether `outcome` is an outcome of the first scheme for the submission
/// `form`, where the store holds `found` under the submitted id.
pub open spec fn explicit_step(
    form: TableData,
    found: Option<TableSQL>,
    outcome: Result<Resolution, BoardError>,
) -> bool {
    if !form.acceptable() {
        outcome == Err::<Resolution, BoardError>(BoardError::ValidationFailed)
    } else {
        match found {
            Some(record) => if bcrypt_accepts(form.password@, record.password@) == Some(true) {
                outcome == Ok::<Resolution, BoardError>(Resolution::Existing(record))
            } else {
                outcome == Err::<Resolution, BoardError>(BoardError::Unauthorized)
            },
            None => if form.id@.len() == 0 {
                outcome == Err::<Resolution, BoardError>(BoardError::ValidationFailed)
            } else {
                match outcome {
                    Ok(Resolution::Created(made)) => fresh(
                        made,
                        form.id@,
                        form.name,
                        form.description@,
                        form.password@,
                    ),
                    Ok(Resolution::Existing(_)) => false,
                    Err(e) => e == BoardError::StoreFailure,
                }
            },
        }
    }
}

/// Whether `outcome` is an outcome of the second scheme for the submission
/// `form`, where the store holds `found` under the id derived from it.
pub open spec fn derived_step(
    form: BoardForm,
    found: Option<TableSQL>,
    outcome: Result<Resolution, BoardError>,
) -> bool {
    if !form.acceptable() {
        outcome == Err::<Resolution, BoardError>(BoardError::ValidationFailed)
    } else {
        match found {
            Some(record) => outcome == Ok::<Resolution, BoardError>(Resolution::Existing(record)),
            None => match outcome {
                Ok(Resolution::Created(made)) => fresh(
                    made,
                    derived_id(form.name@, form.password@),
                    form.name,
                    default_description(),
                    form.password@,
                ),
                Ok(Resolution::Existing(_)) => false,
                Err(e) => e == BoardError::StoreFailure,
            },
        }
    }
}

/// The first scheme. A submission of the wrong shape is refused before
/// anything else happens. Where the board exists, the password is checked
/// against the stored hash: a match gives the record, anything else is
/// `Unauthorized`, and no record is made. Where it does not exist, a record
/// is made for it with a freshly salted hash of the password.
pub fn verify_or_create(form: TableData, found: Option<TableSQL>) -> (outcome: Result<
    Resolution,
    BoardError,
>)
    ensures
        explicit_step(form, found, outcome),
{
    if form.validate().is_err() {
        return Err(BoardError::ValidationFailed);
    }
    match found {
        Some(record) => {
            if record.verify_password(form.password.as_str()) {
                Ok(Resolution::Existing(record))
            } else {
                Err(BoardError::Unauthorized)
            }
        },
        None => {
            match TableSQL::create(form.id, form.name, form.description, form.password) {
                Ok(made) => Ok(Resolution::Created(made)),
                Err(e) => Err(e),
            }
        },
    }
}

/// The second scheme, after the id was derived with `get_id` and looked up.
/// A submission of the wrong shape is refused. Where the board exists its
/// record is the answer, with no check of the password against the stored
/// hash; where it does not, a record is made under the derived id.
pub fn lookup_or_create(form: BoardForm, found: Option<TableSQL>) -> (outcome: Result<
    Resolution,
    BoardError,
>)
    ensures
        derived_step(form, found, outcome),
{
    if form.validate().is_err() {
        return Err(BoardError::ValidationFailed);
    }
    match found {
        Some(record) => Ok(Resolution::Existing(record)),
        None => {
            let id = get_id(form.name.clone(), form.password.clone());
            let description = "I am trying to achieve...".to_string();
            match TableSQL::create(id, form.name, description, form.password) {
                Ok(made) => Ok(Resolution::Created(made)),
                Err(e) => Err(e),
            }
        },
    }
}

/// What the store holds under `id`.
pub open spec fn lookup(store: Map<Seq<char>, TableSQL>, id: Seq<char>) -> Option<TableSQL> {
    if store.dom().contains(id) {
        Some(store[id])
    } else {
        None
    }
}

/// The store after an outcome was acted on: a created record is inserted
/// under its id, and nothing else ever changes the store.
pub open spec fn store_after(
    store: Map<Seq<char>, TableSQL>,
    outcome: Result<Resolution, BoardError>,
) -> Map<Seq<char>, TableSQL> {
    match outcome {
        Ok(Resolution::Created(made)) => store.insert(made.id@, made),
        _ => store,
    }
}

/// Under the first scheme a wrong password for a board that exists is
/// always `Unauthorized`, never `NotFound`, and the store stays as it was:
/// no second record is made for the id.
pub proof fn lemma_wrong_password_unauthorized(
    store: Map<Seq<char>, TableSQL>,
    form: TableData,
    outcome: Result<Resolution, BoardError>,
)
    requires
        form.acceptable(),
        lookup(store, form.id@) matches Some(record) && bcrypt_accepts(
            form.password@,
            record.password@,
        ) != Some(true),
        explicit_step(form, lookup(store, form.id@), outcome),
    ensures
        outcome == Err::<Resolution, BoardError>(BoardError::Unauthorized),
        store_after(store, outcome) == store,
{
}

/// Under the first scheme no outcome replaces a record that exists: the
/// store only ever grows by a record under an id it did not hold.
pub proof fn lemma_explicit_never_overwrites(
    store: Map<Seq<char>, TableSQL>,
    form: TableData,
    outcome: Result<Resolution, BoardError>,
    id: Seq<char>,
)
    requires
        explicit_step(form, lookup(store, form.id@), outcome),
        store.dom().contains(id),
    ensures
        store_after(store, outcome).dom().contains(id),
        store_after(store, outcome)[id] == store[id],
{
}

/// Under the second scheme two submissions of one name and password derive
/// one id, and the second resolves to the record that the first resolved
/// to, without making another.
pub proof fn lemma_derived_repeatable(
    store: Map<Seq<char>, TableSQL>,
    first: BoardForm,
    second: BoardForm,
    first_outcome: Result<Resolution, BoardError>,
    second_outcome: Result<Resolution, BoardError>,
)
    requires
        first.name@ == second.name@,
        first.password@ == second.password@,
        derived_step(
            first,
            lookup(store, derived_id(first.name@, first.password@)),
            first_outcome,
        ),
        first_outcome.is_ok(),
        derived_step(
            second,
            lookup(
                store_after(store, first_outcome),
                derived_id(second.name@, second.password@),
            ),
            second_outcome,
        ),
    ensures
        derived_id(first.name@, first.password@) == derived_id(second.name@, second.password@),
        second_outcome == Ok::<Resolution, BoardError>(
            Resolution::Existing(first_outcome->Ok_0.record()),
        ),
        store_after(store_after(store, first_outcome), second_outcome) == store_after(
            store,
            first_outcome,
        ),
{
}

} // verus!
