//! The PostgreSQL binding: statements carry translated SQL, and a cursor over
//! `tokio_postgres` rows reads typed columns. Network work (connecting,
//! executing, pulling rows) is done by the caller with the values kept here.
use vstd::prelude::*;
use tokio_postgres::{Client, Error as PgError, Row};
use crate::cursor::{Pull, ResultCursor, is_no_row_error};
use crate::model::{self, Column};
use crate::translate::{translate_placeholders, translated_sql};

verus! {

#[verifier::external_type_specification]
#[verifier::external_body]
pub struct ExClient(tokio_postgres::Client);

#[verifier::external_type_specification]
#[verifier::external_body]
pub struct ExRow(tokio_postgres::Row);

#[verifier::external_type_specification]
#[verifier::external_body]
pub struct ExPgError(PgError);

/// Relies on the `Debug` formatting of `tokio_postgres::Error`, used as the
/// diagnostic text; it always writes the struct's name, so it is never empty.
#[verifier::external_body]
fn pg_error_text(e: &PgError) -> (r: String)
    ensures
        r@.len() > 0,
{
    format!("{:?}", e)
}

/// Wraps a backend error into the library's error kind.
pub fn to_rsdb_err(e: &PgError) -> (r: model::Error)
    ensures
        r.message().len() > 0,
{
    model::Error::General(pg_error_text(e))
}

/// Keeps a backend success, wraps a backend failure.
fn from_pg<T>(r: Result<T, PgError>) -> (out: Result<T, model::Error>)
    ensures
        r matches Ok(v) ==> out matches Ok(w) && w == v,
        r is Err ==> out is Err,
{
    match r {
        Ok(v) => Ok(v),
        Err(e) => Err(to_rsdb_err(&e)),
    }
}

/// Column `i` of `row` read as `i8`, where that read succeeds.
pub uninterp spec fn row_i8_of(row: Row, i: usize) -> Option<i8>;

/// Relies on `tokio_postgres::Row::try_get` as `i8`; the outcome
/// depends on the row and the index alone. It fails, without panicking, on
/// a bad index, another column type or a null.
#[verifier::external_body]
fn row_i8(row: &Row, i: usize) -> (r: Result<i8, PgError>)
    ensures
        r matches Ok(v) ==> row_i8_of(*row, i) == Some(v),
        r is Err ==> row_i8_of(*row, i) is None,
{
    row.try_get(i)
}

/// Column `i` of `row` read as `i16`, where that read succeeds.
pub uninterp spec fn row_i16_of(row: Row, i: usize) -> Option<i16>;

/// Relies on `tokio_postgres::Row::try_get` as `i16`; the outcome
/// depends on the row and the index alone. It fails, without panicking, on
/// a bad index, another column type or a null.
#[verifier::external_body]
fn row_i16(row: &Row, i: usize) -> (r: Result<i16, PgError>)
    ensures
        r matches Ok(v) ==> row_i16_of(*row, i) == Some(v),
        r is Err ==> row_i16_of(*row, i) is None,
{
    row.try_get(i)
}

/// Column `i` of `row` read as `i32`, where that read succeeds.
pub uninterp spec fn row_i32_of(row: Row, i: usize) -> Option<i32>;

/// Relies on `tokio_postgres::Row::try_get` as `i32`; the outcome
/// depends on the row and the index alone. It fails, without panicking, on
/// a bad index, another column type or a null.
#[verifier::external_body]
fn row_i32(row: &Row, i: usize) -> (r: Result<i32, PgError>)
    ensures
        r matches Ok(v) ==> row_i32_of(*row, i) == Some(v),
        r is Err ==> row_i32_of(*row, i) is None,
{
    row.try_get(i)
}

/// Column `i` of `row` read as `i64`, where that read succeeds.
pub uninterp spec fn row_i64_of(row: Row, i: usize) -> Option<i64>;

/// Relies on `tokio_postgres::Row::try_get` as `i64`; the outcome
/// depends on the row and the index alone. It fails, without panicking, on
/// a bad index, another column type or a null.
#[verifier::external_body]
fn row_i64(row: &Row, i: usize) -> (r: Result<i64, PgError>)
    ensures
        r matches Ok(v) ==> row_i64_of(*row, i) == Some(v),
        r is Err ==> row_i64_of(*row, i) is None,
{
    row.try_get(i)
}

/// Column `i` of `row` read as `String`, where that read succeeds.
pub uninterp spec fn row_string_of(row: Row, i: usize) -> Option<Seq<char>>;

/// Relies on `tokio_postgres::Row::try_get` as `String`; the outcome
/// depends on the row and the index alone. It fails, without panicking, on
/// a bad index, another column type or a null.
#[verifier::external_body]
fn row_string(row: &Row, i: usize) -> (r: Result<String, PgError>)
    ensures
        r matches Ok(v) ==> row_string_of(*row, i) == Some(v@),
        r is Err ==> row_string_of(*row, i) is None,
{
    row.try_get(i)
}

/// Column `i` of `row` read as `Vec<u8>`, where that read succeeds.
pub uninterp spec fn row_bytes_of(row: Row, i: usize) -> Option<Seq<u8>>;

/// Relies on `tokio_postgres::Row::try_get` as `Vec<u8>`; the outcome
/// depends on the row and the index alone. It fails, without panicking, on
/// a bad index, another column type or a null.
#[verifier::external_body]
fn row_bytes(row: &Row, i: usize) -> (r: Result<Vec<u8>, PgError>)
    ensures
        r matches Ok(v) ==> row_bytes_of(*row, i) == Some(v@),
        r is Err ==> row_bytes_of(*row, i) is None,
{
    row.try_get(i)
}

/// A driver for PostgreSQL; it holds no state.
pub struct PostgresDriver {}

impl PostgresDriver {
    pub fn new() -> (r: Self) {
        PostgresDriver {}
    }
}

/// A live PostgreSQL session.
pub struct PConnection {
    conn: Client,
}

impl PConnection {
    /// The session's client.
    pub closed spec fn spec_client(&self) -> Client {
        self.conn
    }

    pub fn new(conn: Client) -> (r: Self)
        ensures
            r.spec_client() == conn,
    {
        PConnection { conn }
    }

    /// The session's client.
    pub fn client(&self) -> (r: &Client)
        ensures
            *r == self.spec_client(),
    {
        &self.conn
    }

    /// Prepares a statement: the portable SQL is translated on the client
    /// side, nothing is sent to the server.
    pub fn prepare(&self, sql: &str) -> (r: Result<PStatement<'_>, model::Error>)
        ensures
            match translated_sql(sql@) {
                Some(t) => r matches Ok(s) && s.spec_sql() == t && s.spec_client() == self.spec_client(),
                None => r is Err,
            },
    {
        match translate_placeholders(sql) {
            Ok(native) => Ok(PStatement { conn: &self.conn, sql: native }),
            Err(e) => Err(e),
        }
    }

    /// The same as `prepare`: there is no separate unprepared path.
    pub fn create(&self, sql: &str) -> (r: Result<PStatement<'_>, model::Error>)
        ensures
            match translated_sql(sql@) {
                Some(t) => r matches Ok(s) && s.spec_sql() == t && s.spec_client() == self.spec_client(),
                None => r is Err,
            },
    {
        self.prepare(sql)
    }
}

/// A statement of a session, holding PostgreSQL's text of it.
pub struct PStatement<'a> {
    conn: &'a Client,
    sql: String,
}

impl<'a> PStatement<'a> {
    /// The statement's PostgreSQL text.
    pub closed spec fn spec_sql(&self) -> Seq<char> {
        self.sql@
    }

    /// The statement's PostgreSQL text.
    pub fn sql(&self) -> (r: &str)
        ensures
            r@ == self.spec_sql(),
    {
        self.sql.as_str()
    }

    /// The session the statement runs on.
    pub closed spec fn spec_client(&self) -> Client {
        *self.conn
    }

    /// The session the statement runs on.
    pub fn client(&self) -> (r: &'a Client)
        ensures
            *r == self.spec_client(),
    {
        self.conn
    }
}

/// The outcome of an update: the number of affected rows the server
/// reported, or its failure.
pub fn update_count(r: Result<u64, PgError>) -> (out: Result<u64, model::Error>)
    ensures
        r matches Ok(n) ==> out matches Ok(m) && m == n,
        r is Err ==> out is Err,
{
    from_pg(r)
}

/// What one item of a row stream means to a cursor.
pub fn pull_of(item: Option<Result<Row, PgError>>) -> (p: Pull<Row>)
    ensures
        item matches Some(Ok(row)) ==> p matches Pull::Row(r) && r == row,
        item is None ==> p is End,
        item matches Some(Err(_)) ==> p is Failed,
{
    match item {
        Some(Ok(row)) => Pull::Row(row),
        Some(Err(e)) => Pull::Failed(to_rsdb_err(&e)),
        None => Pull::End,
    }
}

/// The error for a column index beyond the machine's addresses.
fn index_error() -> (e: model::Error) {
    model::Error::General(String::from_str("column index out of range"))
}

impl ResultCursor<Row> {
    /// Column metadata is not available without another round trip.
    pub fn meta_data(&self) -> (r: Result<Vec<Column>, model::Error>)
        ensures
            r is Err && r->Err_0.message() == "No Metadata"@,
    {
        Err(model::Error::General(String::from_str("No Metadata")))
    }

    pub fn get_i8(&self, i: u64) -> (r: Result<i8, model::Error>)
        ensures
            self.model().current is None ==> r is Err && is_no_row_error(r->Err_0),
            self.model().current matches Some(row) ==> if i <= usize::MAX {
                match row_i8_of(row, i as usize) {
                    Some(v) => r matches Ok(w) && w == v,
                    None => r is Err,
                }
            } else {
                r is Err
            },
    {
        match self.current_row() {
            Ok(row) => if i <= usize::MAX as u64 {
                from_pg(row_i8(row, i as usize))
            } else {
                Err(index_error())
            },
            Err(e) => Err(e),
        }
    }

    pub fn get_i16(&self, i: u64) -> (r: Result<i16, model::Error>)
        ensures
            self.model().current is None ==> r is Err && is_no_row_error(r->Err_0),
            self.model().current matches Some(row) ==> if i <= usize::MAX {
                match row_i16_of(row, i as usize) {
                    Some(v) => r matches Ok(w) && w == v,
                    None => r is Err,
                }
            } else {
                r is Err
            },
    {
        match self.current_row() {
            Ok(row) => if i <= usize::MAX as u64 {
                from_pg(row_i16(row, i as usize))
            } else {
                Err(index_error())
            },
            Err(e) => Err(e),
        }
    }

    pub fn get_i32(&self, i: u64) -> (r: Result<i32, model::Error>)
        ensures
            self.model().current is None ==> r is Err && is_no_row_error(r->Err_0),
            self.model().current matches Some(row) ==> if i <= usize::MAX {
                match row_i32_of(row, i as usize) {
                    Some(v) => r matches Ok(w) && w == v,
                    None => r is Err,
                }
            } else {
                r is Err
            },
    {
        match self.current_row() {
            Ok(row) => if i <= usize::MAX as u64 {
                from_pg(row_i32(row, i as usize))
            } else {
                Err(index_error())
            },
            Err(e) => Err(e),
        }
    }

    pub fn get_i64(&self, i: u64) -> (r: Result<i64, model::Error>)
        ensures
            self.model().current is None ==> r is Err && is_no_row_error(r->Err_0),
            self.model().current matches Some(row) ==> if i <= usize::MAX {
                match row_i64_of(row, i as usize) {
                    Some(v) => r matches Ok(w) && w == v,
                    None => r is Err,
                }
            } else {
                r is Err
            },
    {
        match self.current_row() {
            Ok(row) => if i <= usize::MAX as u64 {
                from_pg(row_i64(row, i as usize))
            } else {
                Err(index_error())
            },
            Err(e) => Err(e),
        }
    }

    pub fn get_string(&self, i: u64) -> (r: Result<String, model::Error>)
        ensures
            self.model().current is None ==> r is Err && is_no_row_error(r->Err_0),
            self.model().current matches Some(row) ==> if i <= usize::MAX {
                match row_string_of(row, i as usize) {
                    Some(v) => r matches Ok(w) && w@ == v,
                    None => r is Err,
                }
            } else {
                r is Err
            },
    {
        match self.current_row() {
            Ok(row) => if i <= usize::MAX as u64 {
                from_pg(row_string(row, i as usize))
            } else {
                Err(index_error())
            },
            Err(e) => Err(e),
        }
    }

    pub fn get_bytes(&self, i: u64) -> (r: Result<Vec<u8>, model::Error>)
        ensures
            self.model().current is None ==> r is Err && is_no_row_error(r->Err_0),
            self.model().current matches Some(row) ==> if i <= usize::MAX {
                match row_bytes_of(row, i as usize) {
                    Some(v) => r matches Ok(w) && w@ == v,
                    None => r is Err,
                }
            } else {
                r is Err
            },
    {
        match self.current_row() {
            Ok(row) => if i <= usize::MAX as u64 {
                from_pg(row_bytes(row, i as usize))
            } else {
                Err(index_error())
            },
            Err(e) => Err(e),
        }
    }
}

} // verus!
