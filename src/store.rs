//! The credential store: one SQLite table of users, each with a unique
//! email and an Argon2 password hash that embeds its own salt and parameters.
use vstd::prelude::*;
use vstd::string::StringSliceAdditionalSpecFns;
use crate::entropy::{is_alphanumeric, random_alphanumeric};
use crate::error::{text_result, AuthError};
use crate::text::{decimal, decimal_string};

verus! {

/// Creates the users table unless it exists; safe to run any number of times.
pub const USERS_SCHEMA: &'static str = "create table if not exists users (
    id integer primary key,
    email text not null unique,
    password text not null
)";

/// Adds one record; `?1` is the email, `?2` the password hash.
pub const INSERT_USER: &'static str = "insert into users (email, password) values (?1, ?2)";

/// Finds the id and the password hash of the record with email `?1`.
pub const FIND_USER: &'static str = "select id, password from users where email = ?1";

/// SQLite's extended result code for a violated UNIQUE constraint.
pub const SQLITE_CONSTRAINT_UNIQUE: i32 = 2067;

/// The number of random bytes in a password salt.
pub const SALT_LEN: usize = 32;

#[verifier::external_type_specification]
#[verifier::external_body]
pub struct ExConnection(rusqlite::Connection);

#[verifier::external_type_specification]
#[verifier::external_body]
pub struct ExSqlError(rusqlite::Error);

#[verifier::external_type_specification]
#[verifier::external_body]
pub struct ExHashError(argon2::Error);

/// The Argon2 hash, in its encoded form, that rust-argon2's `hash_encoded`
/// makes of `pwd` with `salt` under its default configuration.
pub uninterp spec fn argon2_encoded(pwd: Seq<char>, salt: Seq<u8>) -> Seq<char>;

/// Whether rust-argon2's `verify_encoded` finds that `pwd` matches the
/// encoded hash `encoded`.
pub uninterp spec fn argon2_verifies(encoded: Seq<char>, pwd: Seq<char>) -> bool;

/// How a storage operation failed.
#[derive(Clone, Copy, Debug, PartialEq, Eq, Structural)]
pub enum StoreFault {
    /// A query for one row found none.
    NoRows,
    /// SQLite reported a failure with this extended result code.
    Sqlite(i32),
    /// Any other failure.
    Other,
}

/// Relies on rusqlite's `Error` variants: a SQLite failure keeps its
/// extended result code, a query without rows is told apart.
#[verifier::external_body]
fn fault_of(e: &rusqlite::Error) -> StoreFault {
    match e {
        rusqlite::Error::SqliteFailure(f, _) => StoreFault::Sqlite(f.extended_code),
        rusqlite::Error::QueryReturnedNoRows => StoreFault::NoRows,
        _ => StoreFault::Other,
    }
}

/// Relies on rusqlite's `Connection::open`, which opens or creates the
/// database file at `path`.
#[verifier::external_body]
fn open_connection(path: &str) -> (r: Result<rusqlite::Connection, rusqlite::Error>) {
    rusqlite::Connection::open(path)
}

/// Relies on rusqlite's `Connection::execute_batch`, which runs the SQL
/// statements of `sql`.
#[verifier::external_body]
fn execute_batch(conn: &rusqlite::Connection, sql: &str) -> (r: Result<(), rusqlite::Error>) {
    conn.execute_batch(sql)
}

/// Relies on rusqlite's `Connection::execute`, which runs `sql` with the
/// two text parameters `a` and `b`.
#[verifier::external_body]
fn execute_with(conn: &rusqlite::Connection, sql: &str, a: &str, b: &str) -> (r: Result<usize, rusqlite::Error>) {
    conn.execute(sql, [a, b])
}

/// Relies on rusqlite's `Connection::last_insert_rowid`: the row id of the
/// last successful insert on this connection.
#[verifier::external_body]
fn last_insert_rowid(conn: &rusqlite::Connection) -> (r: i64) {
    conn.last_insert_rowid()
}

/// Relies on rusqlite's `Connection::query_row`, which runs `sql` with the
/// text parameter `a` and reads the first row as an integer and a text.
#[verifier::external_body]
fn query_id_and_text(conn: &rusqlite::Connection, sql: &str, a: &str) -> (r: Result<(i64, String), rusqlite::Error>) {
    conn.query_row(sql, [a], |row| <(i64, String)>::try_from(row))
}

/// Relies on rust-argon2's `hash_encoded` with `Config::default()`, which
/// fails only on a salt shorter than 8 bytes or on a password or salt longer
/// than `u32::MAX` bytes.
#[verifier::external_body]
fn hash_password(pwd: &str, salt: &[u8]) -> (r: Result<String, argon2::Error>)
    ensures
        8 <= salt@.len() <= u32::MAX && pwd.spec_bytes().len() <= u32::MAX ==> r is Ok,
        r matches Ok(h) ==> h@ == argon2_encoded(pwd@, salt@),
{
    argon2::hash_encoded(pwd.as_bytes(), salt, &argon2::Config::default())
}

/// Relies on rust-argon2's `verify_encoded`, which reads the parameters and
/// the salt from `encoded` and checks `pwd` against it.
#[verifier::external_body]
fn verify_password(encoded: &str, pwd: &str) -> (r: Result<bool, argon2::Error>)
    ensures
        r matches Ok(b) ==> b == argon2_verifies(encoded@, pwd@),
{
    argon2::verify_encoded(encoded, pwd.as_bytes())
}

/// An open credential store.
pub struct CredentialStore {
    conn: rusqlite::Connection,
}

/// Opens the credential store at `path` and makes sure its table exists.
pub fn initialize_users(path: &str) -> (r: Result<CredentialStore, AuthError>)
    ensures
        r matches Err(e) ==> e == AuthError::StoreUnavailable,
{
    let conn = match open_connection(path) {
        Ok(c) => c,
        Err(_) => return Err(AuthError::StoreUnavailable),
    };
    match execute_batch(&conn, USERS_SCHEMA) {
        Ok(()) => Ok(CredentialStore { conn }),
        Err(_) => Err(AuthError::StoreUnavailable),
    }
}

/// What an insert that ended with `r` yields: the new subject id in
/// decimal, `UserExists` where the email was already taken, `Unknown` for
/// any other failure.
pub open spec fn insert_outcome(r: Result<i64, StoreFault>) -> Result<Seq<char>, AuthError> {
    match r {
        Ok(id) => Ok(decimal(id as int)),
        Err(StoreFault::Sqlite(code)) => if code == SQLITE_CONSTRAINT_UNIQUE {
            Err(AuthError::UserExists)
        } else {
            Err(AuthError::Unknown)
        },
        Err(_) => Err(AuthError::Unknown),
    }
}

/// Turns the end of an insert into the result of account creation.
pub fn insert_result(r: Result<i64, StoreFault>) -> (out: Result<String, AuthError>)
    ensures
        text_result(out) == insert_outcome(r),
{
    match r {
        Ok(id) => Ok(decimal_string(id)),
        Err(StoreFault::Sqlite(code)) => {
            if code == SQLITE_CONSTRAINT_UNIQUE {
                Err(AuthError::UserExists)
            } else {
                Err(AuthError::Unknown)
            }
        },
        Err(_) => Err(AuthError::Unknown),
    }
}

/// What a login yields from the lookup of the email and, where a record
/// was found, the password check on its hash: the subject id in decimal
/// when the password matches, `WrongCredentials` for an unknown email,
/// `BadPassword` for a wrong password, `Unknown` for any fault.
pub open spec fn login_outcome(lookup: Result<(i64, Seq<char>), StoreFault>, verdict: Option<bool>) -> Result<Seq<char>, AuthError> {
    match lookup {
        Err(StoreFault::NoRows) => Err(AuthError::WrongCredentials),
        Err(_) => Err(AuthError::Unknown),
        Ok((id, _)) => match verdict {
            Some(true) => Ok(decimal(id as int)),
            Some(false) => Err(AuthError::BadPassword),
            None => Err(AuthError::Unknown),
        },
    }
}

/// The lookup of a record in plain values.
pub open spec fn lookup_view(lookup: Result<(i64, String), StoreFault>) -> Result<(i64, Seq<char>), StoreFault> {
    match lookup {
        Ok((id, hash)) => Ok((id, hash@)),
        Err(f) => Err(f),
    }
}

/// Turns a lookup and a password check into the result of a login.
pub fn login_result(lookup: Result<(i64, String), StoreFault>, verdict: Option<bool>) -> (out: Result<String, AuthError>)
    ensures
        text_result(out) == login_outcome(lookup_view(lookup), verdict),
{
    match lookup {
        Err(StoreFault::NoRows) => Err(AuthError::WrongCredentials),
        Err(_) => Err(AuthError::Unknown),
        Ok((id, _)) => match verdict {
            Some(true) => Ok(decimal_string(id)),
            Some(false) => Err(AuthError::BadPassword),
            None => Err(AuthError::Unknown),
        },
    }
}

/// Hashes `password` with a fresh random salt of `SALT_LEN` ASCII letters
/// and digits; the salt and the parameters are embedded in the result.
pub fn hash_new_password(password: &str) -> (r: Result<String, AuthError>)
    ensures
        password.spec_bytes().len() <= u32::MAX ==> r is Ok,
        r matches Ok(h) ==> exists|salt: Seq<u8>|
            salt.len() == SALT_LEN
            && (forall|i: int| 0 <= i < salt.len() ==> is_alphanumeric(#[trigger] salt[i]))
            && h@ == argon2_encoded(password@, salt),
        r matches Err(e) ==> e == AuthError::Unknown,
{
    let salt = random_alphanumeric(SALT_LEN);
    match hash_password(password, salt.as_slice()) {
        Ok(h) => Ok(h),
        Err(_) => Err(AuthError::Unknown),
    }
}

/// The two fields of a new record: the email as given, and the hash of
/// `password` with a fresh random salt of `SALT_LEN` ASCII letters and digits.
pub fn new_record(email: &str, password: &str) -> (r: Result<(String, String), AuthError>)
    ensures
        password.spec_bytes().len() <= u32::MAX ==> r is Ok,
        r matches Ok((e, h)) ==> e@ == email@ && exists|salt: Seq<u8>|
            salt.len() == SALT_LEN
            && (forall|i: int| 0 <= i < salt.len() ==> is_alphanumeric(#[trigger] salt[i]))
            && h@ == argon2_encoded(password@, salt),
        r matches Err(e) ==> e == AuthError::Unknown,
{
    match hash_new_password(password) {
        Ok(h) => Ok((String::from_str(email), h)),
        Err(e) => Err(e),
    }
}

/// Registers `email` with `password`, hashed with a fresh random salt.
/// Yields the new subject id in decimal. An email that is taken is refused
/// by the table's uniqueness constraint, not by a check made beforehand.
pub fn create_user(store: &CredentialStore, email: &str, password: &str) -> (r: Result<String, AuthError>)
    ensures
        r matches Ok(s) ==> exists|id: i64| s@ == decimal(id as int),
        r matches Err(e) ==> e == AuthError::UserExists || e == AuthError::Unknown,
{
    let (email, hash) = match new_record(email, password) {
        Ok(record) => record,
        Err(e) => return Err(e),
    };
    let inserted = match execute_with(&store.conn, INSERT_USER, email.as_str(), hash.as_str()) {
        Ok(_) => Ok(last_insert_rowid(&store.conn)),
        Err(e) => Err(fault_of(&e)),
    };
    insert_result(inserted)
}

/// Checks `password` against the record of `email`. Yields its subject id
/// in decimal. The password is checked against the hash stored in the record
/// that the lookup found.
pub fn password_login(store: &CredentialStore, email: &str, password: &str) -> (r: Result<String, AuthError>)
    ensures
        exists|lookup: Result<(i64, Seq<char>), StoreFault>, verdict: Option<bool>|
            text_result(r) == login_outcome(lookup, verdict)
            && (lookup matches Ok((_, h)) ==> (verdict matches Some(b) ==> b == argon2_verifies(h, password@))),
        r matches Err(e) ==> e == AuthError::WrongCredentials || e == AuthError::BadPassword
            || e == AuthError::Unknown,
{
    let lookup = match query_id_and_text(&store.conn, FIND_USER, email) {
        Ok(found) => Ok(found),
        Err(e) => Err(fault_of(&e)),
    };
    let verdict = match &lookup {
        Ok((_, hash)) => match verify_password(hash.as_str(), password) {
            Ok(b) => Some(b),
            Err(_) => None,
        },
        Err(_) => None,
    };
    let ghost seen = lookup_view(lookup);
    let r = login_result(lookup, verdict);
    assert(text_result(r) == login_outcome(seen, verdict)
        && (seen matches Ok((_, h)) ==> (verdict matches Some(b) ==> b == argon2_verifies(h, password@))));
    r
}

} // verus!
