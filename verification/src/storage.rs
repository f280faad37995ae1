//! What the desktop shell decides around its encrypted store: the key it
//! generates, the state of the vault, and the answers it gives.

use vstd::prelude::*;
use vstd::string::*;
use crate::text::{decimal, decimal_text, signed_decimal_text};
use crate::json::{
    as_flag, as_integer, as_text, base64_standard, base64_text, flag, integer, is_null, is_number,
    map_members, members_new, no_members, null, number_as_i64, object, render, render_outcome,
    text, value_tree, with_member, JsonTree,
};

verus! {

/// The characters of which an encryption key is made.
pub const KEY_CHARSET: &'static str =
    "ABCDEFGHIJKLMNOPQRSTUVWXYZabcdefghijklmnopqrstuvwxyz0123456789!@#$%^&*()-_=+";

/// The number of characters of an encryption key.
pub const KEY_LEN: usize = 32;

/// How the vault's password is remembered in the system's keychain.
pub const REMEMBER_IN_KEYCHAIN: &'static str = "os-keychain";

/// How the vault's password is not remembered at all.
pub const REMEMBER_NEVER: &'static str = "never";

/// `rand::rngs::ThreadRng`, carried as it is.
#[verifier::external_type_specification]
#[verifier::external_body]
pub struct ExThreadRng(rand::rngs::ThreadRng);

/// `rand::rng`: the random number generator of this thread.
#[verifier::external_body]
fn thread_rng() -> (r: rand::rngs::ThreadRng) {
    rand::rng()
}

/// `Rng::random_range` on `0..bound`: a number below the bound. Which one
/// is left open. The range must not be empty.
#[verifier::external_body]
fn random_below(rng: &mut rand::rngs::ThreadRng, bound: usize) -> (r: usize)
    requires
        bound > 0,
    ensures
        r < bound,
{
    rand::Rng::random_range(rng, 0..bound)
}

/// The answer to a greeting.
#[derive(Debug, Clone, PartialEq, Eq)]
pub struct GreetResponse {
    pub message: String,
}

/// Greets by name.
pub fn greet(name: &str) -> (r: GreetResponse)
    ensures
        r.message@ == "Hello, "@ + name@ + "! You've been greeted from Rust!"@,
{
    GreetResponse {
        message: String::from_str("Hello, ").concat(name).concat(
            "! You've been greeted from Rust!",
        ),
    }
}

/// The answer to a statement or a query on the store.
#[derive(Debug, Clone, PartialEq, Eq)]
pub struct SqlResponse {
    pub success: bool,
    pub message: String,
    pub rows: Option<Vec<serde_json::Value>>,
}

/// The parameters of a statement or a query.
#[derive(Debug, Clone, PartialEq, Eq)]
pub struct SqlParams {
    pub params: Vec<serde_json::Value>,
}

impl SqlResponse {
    /// The answer that reports success with a message and no rows.
    pub fn done(message: &str) -> (r: SqlResponse)
        ensures
            r.success,
            r.message@ == message@,
            r.rows is None,
    {
        SqlResponse { success: true, message: String::from_str(message), rows: None }
    }

    /// The answer to a statement that changed `rows_affected` rows.
    pub fn executed(rows_affected: usize) -> (r: SqlResponse)
        ensures
            r.success,
            r.message@ == "Query executed successfully. Rows affected: "@ + decimal_text(
                rows_affected as nat,
            ),
            r.rows is None,
    {
        let count = decimal(rows_affected);
        SqlResponse {
            success: true,
            message: String::from_str("Query executed successfully. Rows affected: ").concat(
                count.as_str(),
            ),
            rows: None,
        }
    }

    /// The answer to a query that found the given rows.
    pub fn queried(rows: Vec<serde_json::Value>) -> (r: SqlResponse)
        ensures
            r.success,
            r.message@ == "Query returned "@ + decimal_text(rows@.len()) + " rows"@,
            r.rows == Some(rows),
    {
        let count = decimal(rows.len());
        SqlResponse {
            success: true,
            message: String::from_str("Query returned ").concat(count.as_str()).concat(" rows"),
            rows: Some(rows),
        }
    }
}

/// The state of the vault.
#[derive(Debug, Clone, Copy, PartialEq, Eq, Structural)]
pub struct StrongholdResponse {
    pub initialized: bool,
    pub unlocked: bool,
}

/// The state of the vault: it is initialized and unlocked exactly when its
/// password is known.
pub fn check_stronghold_status(password_known: bool) -> (r: StrongholdResponse)
    ensures
        r.initialized == password_known,
        r.unlocked == password_known,
{
    StrongholdResponse { initialized: password_known, unlocked: password_known }
}

/// Whether the password goes to the system's keychain when the vault is
/// initialized: only where the option is `os-keychain`.
pub fn init_stronghold(remember_option: &str) -> (r: (StrongholdResponse, bool))
    ensures
        r.0.initialized && r.0.unlocked,
        r.1 == (remember_option@ == REMEMBER_IN_KEYCHAIN@),
{
    let wanted = String::from_str(remember_option);
    let keychain = String::from_str(REMEMBER_IN_KEYCHAIN);
    (StrongholdResponse { initialized: true, unlocked: true }, wanted == keychain)
}

/// How the password is remembered, given whether the keychain holds one.
pub fn get_password_storage_option(found: bool) -> (r: String)
    ensures
        r@ == if found {
            REMEMBER_IN_KEYCHAIN@
        } else {
            REMEMBER_NEVER@
        },
{
    if found {
        String::from_str(REMEMBER_IN_KEYCHAIN)
    } else {
        String::from_str(REMEMBER_NEVER)
    }
}

/// The document that reports an attempt to unlock the vault with the
/// password of the keychain.
pub open spec fn unlock_report(found: bool) -> JsonTree {
    JsonTree::Object(
        no_members().insert("success"@, JsonTree::Bool(found)).insert(
            "storageOption"@,
            JsonTree::Text(
                if found {
                    REMEMBER_IN_KEYCHAIN@
                } else {
                    REMEMBER_NEVER@
                },
            ),
        ),
    )
}

/// Reports an attempt to unlock the vault, given whether the keychain held
/// a password.
pub fn try_auto_unlock_stronghold(found: bool) -> (r: serde_json::Value)
    ensures
        value_tree(r) == unlock_report(found),
{
    let option = get_password_storage_option(found);
    let members = with_member(members_new(), "success", flag(found));
    let members = with_member(members, "storageOption", text(option.as_str()));
    object(members)
}

/// The key that a list of positions in the character set spells.
pub open spec fn key_of(indices: Seq<usize>) -> Seq<char> {
    Seq::new(indices.len(), |i: int| KEY_CHARSET@[indices[i] as int])
}

/// Spells a key from positions in the character set; nothing where a
/// position lies outside the set.
pub fn key_from_indices(indices: &Vec<usize>) -> (r: Option<String>)
    ensures
        match r {
            Some(key) => key@ == key_of(indices@) && forall|i: int|
                0 <= i < indices@.len() ==> indices@[i] < KEY_CHARSET@.len(),
            None => exists|i: int| 0 <= i < indices@.len() && indices@[i] >= KEY_CHARSET@.len(),
        },
{
    let bound = KEY_CHARSET.unicode_len();
    let mut key = String::new();
    let mut i: usize = 0;
    while i < indices.len()
        invariant
            i <= indices.len(),
            bound == KEY_CHARSET@.len(),
            key@.len() == i,
            forall|k: int|
                0 <= k < i ==> (#[trigger] indices@[k]) < bound && key@[k] == KEY_CHARSET@[indices@[k] as int],
        decreases indices.len() - i,
    {
        let at = indices[i];
        if at >= bound {
            return None;
        }
        let ghost before = key@;
        let piece = KEY_CHARSET.substring_char(at, at + 1);
        key.append(piece);
        proof {
            assert(piece@.len() == 1);
            assert(piece@[0] == KEY_CHARSET@[at as int]);
            assert(key@ == before + piece@);
            assert(key@[i as int] == KEY_CHARSET@[at as int]);
            assert forall|k: int| 0 <= k < i implies key@[k] == before[k] by {}
        }
        i = i + 1;
    }
    assert(key@ =~= key_of(indices@));
    Some(key)
}

/// A fresh encryption key: `KEY_LEN` characters, each drawn at random from
/// the character set.
pub fn generate_encryption_key() -> (key: String)
    ensures
        key@.len() == KEY_LEN,
        forall|i: int| 0 <= i < key@.len() ==> KEY_CHARSET@.contains(#[trigger] key@[i]),
{
    proof {
        reveal_strlit(
            "ABCDEFGHIJKLMNOPQRSTUVWXYZabcdefghijklmnopqrstuvwxyz0123456789!@#$%^&*()-_=+",
        );
    }
    let bound = KEY_CHARSET.unicode_len();
    let mut rng = thread_rng();
    let mut indices: Vec<usize> = Vec::new();
    let mut i: usize = 0;
    while i < KEY_LEN
        invariant
            i <= KEY_LEN,
            bound == KEY_CHARSET@.len(),
            bound > 0,
            indices@.len() == i,
            forall|k: int| 0 <= k < i ==> indices@[k] < bound,
        decreases KEY_LEN - i,
    {
        let at = random_below(&mut rng, bound);
        indices.push(at);
        i = i + 1;
    }
    match key_from_indices(&indices) {
        Some(key) => key,
        None => String::new(),
    }
}

/// A value of the store.
#[derive(Debug, Clone, PartialEq, Eq)]
pub enum SqlValue {
    Null,
    Integer(i64),
    /// A number that is no integer of 64 bits, kept as the JSON number.
    Real(serde_json::Value),
    Text(String),
    Blob(Vec<u8>),
}

/// A value of the store as a mathematical value.
pub enum SqlModel {
    Null,
    Integer(i64),
    Real(JsonTree),
    Text(Seq<char>),
    Blob(Seq<u8>),
}

impl View for SqlValue {
    type V = SqlModel;

    open spec fn view(&self) -> SqlModel {
        match self {
            SqlValue::Null => SqlModel::Null,
            SqlValue::Integer(i) => SqlModel::Integer(*i),
            SqlValue::Real(v) => SqlModel::Real(value_tree(*v)),
            SqlValue::Text(s) => SqlModel::Text(s@),
            SqlValue::Blob(b) => SqlModel::Blob(b@),
        }
    }
}

/// The value of the store that a document is bound as: `null` as null, a
/// boolean as 0 or 1, a number as an integer where it is one of 64 bits
/// and as itself otherwise, a string as text, and an array or an object as
/// the text that it is written as. The error is that of the writing.
pub open spec fn sql_of_tree(t: JsonTree) -> Result<SqlModel, Seq<char>> {
    match t {
        JsonTree::Null => Ok(SqlModel::Null),
        JsonTree::Bool(b) => Ok(
            SqlModel::Integer(
                if b {
                    1
                } else {
                    0
                },
            ),
        ),
        JsonTree::Number(digits) => match number_as_i64(digits) {
            Some(i) => Ok(SqlModel::Integer(i)),
            None => Ok(SqlModel::Real(t)),
        },
        JsonTree::Text(s) => Ok(SqlModel::Text(s)),
        _ => match render_outcome(t) {
            Ok(s) => Ok(SqlModel::Text(s)),
            Err(m) => Err(m),
        },
    }
}

/// Binds a JSON value as a value of the store.
pub fn json_to_sql(json: &serde_json::Value) -> (r: Result<SqlValue, String>)
    ensures
        match r {
            Ok(v) => sql_of_tree(value_tree(*json)) == Ok::<SqlModel, Seq<char>>(v@),
            Err(m) => sql_of_tree(value_tree(*json)) == Err::<SqlModel, Seq<char>>(m@),
        },
{
    if is_null(json) {
        return Ok(SqlValue::Null);
    }
    if let Some(b) = as_flag(json) {
        return Ok(
            SqlValue::Integer(
                if b {
                    1
                } else {
                    0
                },
            ),
        );
    }
    if is_number(json) {
        return match as_integer(json) {
            Some(i) => Ok(SqlValue::Integer(i)),
            None => Ok(SqlValue::Real(json.clone())),
        };
    }
    if let Some(s) = as_text(json) {
        return Ok(SqlValue::Text(String::from_str(s)));
    }
    match render(json) {
        Ok(s) => Ok(SqlValue::Text(s)),
        Err(m) => Err(m),
    }
}

/// The document that a value of the store is shown as: a blob as the text
/// of its base64 encoding, everything else as itself. Nothing where a blob
/// is too long to be encoded.
pub open spec fn tree_of_sql(v: SqlModel) -> Option<JsonTree> {
    match v {
        SqlModel::Null => Some(JsonTree::Null),
        SqlModel::Integer(i) => Some(JsonTree::Number(signed_decimal_text(i as int))),
        SqlModel::Real(t) => Some(t),
        SqlModel::Text(s) => Some(JsonTree::Text(s)),
        SqlModel::Blob(b) => if b.len() < usize::MAX / 2 {
            Some(JsonTree::Text(base64_standard(b)))
        } else {
            None
        },
    }
}

/// Shows a value of the store as a JSON value.
pub fn sql_to_json(value: &SqlValue) -> (r: Option<serde_json::Value>)
    ensures
        match r {
            Some(j) => tree_of_sql(value@) == Some(value_tree(j)),
            None => tree_of_sql(value@) is None,
        },
{
    match value {
        SqlValue::Null => Some(null()),
        SqlValue::Integer(i) => Some(integer(*i)),
        SqlValue::Real(v) => Some(v.clone()),
        SqlValue::Text(s) => Some(text(s.as_str())),
        SqlValue::Blob(b) => {
            if b.len() < usize::MAX / 2 {
                let encoded = base64_text(b);
                Some(text(encoded.as_str()))
            } else {
                None
            }
        },
    }
}

/// The members of the object that shows a row: each cell under the name of
/// its column, a later cell in place of an earlier one of the same name.
pub open spec fn row_members(columns: Seq<String>, cells: Seq<SqlValue>) -> Map<Seq<char>, JsonTree>
    decreases columns.len(),
{
    if columns.len() == 0 || cells.len() != columns.len() {
        no_members()
    } else {
        row_members(columns.drop_last(), cells.drop_last()).insert(
            columns.last()@,
            tree_of_sql(cells.last()@)->0,
        )
    }
}

/// Whether a row can be shown: it has a cell for each column, and every
/// cell can be shown.
pub open spec fn row_shown(columns: Seq<String>, cells: Seq<SqlValue>) -> bool {
    &&& columns.len() == cells.len()
    &&& forall|i: int| 0 <= i < cells.len() ==> tree_of_sql(#[trigger] cells[i]@) is Some
}

/// Shows a row as a JSON object; nothing where the row cannot be shown.
pub fn row_to_json(columns: &Vec<String>, cells: &Vec<SqlValue>) -> (r: Option<serde_json::Value>)
    ensures
        match r {
            Some(j) => row_shown(columns@, cells@) && value_tree(j) == JsonTree::Object(
                row_members(columns@, cells@),
            ),
            None => !row_shown(columns@, cells@),
        },
{
    if columns.len() != cells.len() {
        return None;
    }
    let mut members = members_new();
    let mut i: usize = 0;
    while i < columns.len()
        invariant
            i <= columns.len(),
            columns.len() == cells.len(),
            forall|k: int| 0 <= k < i ==> tree_of_sql(#[trigger] cells@[k]@) is Some,
            map_members(members) == row_members(columns@.take(i as int), cells@.take(i as int)),
        decreases columns.len() - i,
    {
        let shown = match sql_to_json(&cells[i]) {
            Some(j) => j,
            None => {
                return None;
            },
        };
        proof {
            let cols = columns@.take(i + 1);
            let vals = cells@.take(i + 1);
            assert(cols.drop_last() =~= columns@.take(i as int));
            assert(vals.drop_last() =~= cells@.take(i as int));
            assert(cols.last() == columns@[i as int]);
            assert(vals.last() == cells@[i as int]);
        }
        members = with_member(members, columns[i].as_str(), shown);
        i = i + 1;
    }
    proof {
        assert(columns@.take(i as int) =~= columns@);
        assert(cells@.take(i as int) =~= cells@);
    }
    Some(object(members))
}

} // verus!
