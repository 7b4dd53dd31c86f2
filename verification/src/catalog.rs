//! The catalog reader: one filtered, bounded query against the feed
//! catalog, materialised into candidate records.
//!
//! The store is reached through small trusted wrappers around rusqlite;
//! every row comes back as plain values. The freshness predicate and the
//! result bound are then enforced by verified code, so the guarantee that
//! every returned candidate is strictly newer than the cutoff — and that
//! at most `limit` are returned — does not rest on the storage engine.

use vstd::prelude::*;

use crate::model::{CatalogError, FeedCandidate};

verus! {

/// The result of one catalog scan: the selected candidates, plus a count
/// of rows that could not be decoded. A malformed row is skipped and
/// counted, never fatal to the scan.
pub struct CatalogScan {
    pub candidates: Vec<FeedCandidate>,
    pub malformed_rows: u64,
}

/// The candidates selected from `rows`, in order: the first `limit` rows
/// whose last-known-update timestamp is strictly greater than `cutoff`.
pub open spec fn selected(rows: Seq<FeedCandidate>, cutoff: u64, limit: nat) -> Seq<
    FeedCandidate,
>
    decreases rows.len(),
{
    if rows.len() == 0 || limit == 0 {
        Seq::empty()
    } else if rows.first().last_updated > cutoff {
        seq![rows.first()] + selected(rows.drop_first(), cutoff, (limit - 1) as nat)
    } else {
        selected(rows.drop_first(), cutoff, limit)
    }
}

/// For every cutoff, every bound and every row sequence, the selection
/// respects both: each selected candidate's last-updated timestamp is
/// strictly greater than the cutoff, and at most `limit` are selected.
pub proof fn lemma_selected_fresh_and_bounded(rows: Seq<FeedCandidate>, cutoff: u64, limit: nat)
    ensures
        selected(rows, cutoff, limit).len() <= limit,
        forall|i: int|
            0 <= i < selected(rows, cutoff, limit).len() ==> (#[trigger] selected(
                rows,
                cutoff,
                limit,
            )[i]).last_updated > cutoff,
    decreases rows.len(),
{
    if rows.len() == 0 || limit == 0 {
    } else if rows.first().last_updated > cutoff {
        lemma_selected_fresh_and_bounded(rows.drop_first(), cutoff, (limit - 1) as nat);
        assert forall|i: int| 0 <= i < selected(rows, cutoff, limit).len() implies (
        #[trigger] selected(rows, cutoff, limit)[i]).last_updated > cutoff by {
            if i > 0 {
                assert(selected(rows, cutoff, limit)[i] == selected(
                    rows.drop_first(),
                    cutoff,
                    (limit - 1) as nat,
                )[i - 1]);
            }
        }
    } else {
        lemma_selected_fresh_and_bounded(rows.drop_first(), cutoff, limit);
    }
}

/// Apply the selection predicate to materialised rows: keep, in order, the
/// first `limit` rows strictly newer than `cutoff`.
pub fn select_candidates(rows: Vec<FeedCandidate>, cutoff: u64, limit: usize) -> (r: Vec<
    FeedCandidate,
>)
    ensures
        r@ == selected(rows@, cutoff, limit as nat),
{
    let ghost orig = rows@;
    let mut rows = rows;
    let mut r: Vec<FeedCandidate> = Vec::new();
    while rows.len() > 0 && r.len() < limit
        invariant
            r@.len() <= limit,
            selected(orig, cutoff, limit as nat) == r@ + selected(
                rows@,
                cutoff,
                (limit - r@.len()) as nat,
            ),
        decreases rows@.len(),
    {
        let ghost rows_before = rows@;
        let ghost r_before = r@;
        let c = rows.remove(0);
        proof {
            assert(rows@ =~= rows_before.drop_first());
        }
        if c.last_updated > cutoff {
            r.push(c);
            proof {
                assert(selected(rows_before, cutoff, (limit - r_before.len()) as nat) =~= seq![c]
                    + selected(rows@, cutoff, (limit - r@.len()) as nat));
                assert(r_before + (seq![c] + selected(rows@, cutoff, (limit - r@.len()) as nat))
                    =~= r@ + selected(rows@, cutoff, (limit - r@.len()) as nat));
            }
        }
    }
    proof {
        if rows@.len() == 0 {
            assert(selected(rows@, cutoff, (limit - r@.len()) as nat) =~= Seq::<
                FeedCandidate,
            >::empty());
        } else {
            assert(selected(rows@, cutoff, 0nat) =~= Seq::<FeedCandidate>::empty());
        }
        assert(r@ + Seq::<FeedCandidate>::empty() =~= r@);
    }
    r
}

#[verifier::external_type_specification]
#[verifier::external_body]
pub struct ExConnection(rusqlite::Connection);

#[verifier::external_type_specification]
#[verifier::external_body]
pub struct ExStatement<'conn>(rusqlite::Statement<'conn>);

#[verifier::external_type_specification]
#[verifier::external_body]
pub struct ExRows<'stmt>(rusqlite::Rows<'stmt>);

#[verifier::external_type_specification]
#[verifier::external_body]
pub struct ExRow<'stmt>(rusqlite::Row<'stmt>);

#[verifier::external_type_specification]
#[verifier::external_body]
pub struct ExSqliteError(rusqlite::Error);

/// Relies on `rusqlite::Connection::open_with_flags`: opens the database
/// file at `path` strictly read-only — a missing file is an error, never
/// created — or reports why it cannot be opened.
#[verifier::external_body]
fn sqlite_open(path: &str) -> (r: Result<rusqlite::Connection, rusqlite::Error>) {
    rusqlite::Connection::open_with_flags(
        path,
        rusqlite::OpenFlags::SQLITE_OPEN_READ_ONLY | rusqlite::OpenFlags::SQLITE_OPEN_URI
            | rusqlite::OpenFlags::SQLITE_OPEN_NO_MUTEX,
    )
}

/// Relies on `rusqlite::Error`'s `Display` implementation: renders the
/// underlying cause as text, so fatal errors can surface it verbatim.
#[verifier::external_body]
fn sqlite_error_text(e: &rusqlite::Error) -> String {
    format!("{}", e)
}

/// Relies on `rusqlite::Connection::prepare`: compiles one SQL statement
/// against the open database, or reports why it cannot be compiled.
#[verifier::external_body]
fn sqlite_prepare<'conn>(conn: &'conn rusqlite::Connection, sql: &str) -> (r: Result<
    rusqlite::Statement<'conn>,
    rusqlite::Error,
>) {
    conn.prepare(sql)
}

/// Relies on `rusqlite::Statement::query`: binds `cutoff` and `limit` as
/// the statement's two typed parameters and starts the row cursor.
#[verifier::external_body]
fn sqlite_query<'conn, 'stmt>(
    stmt: &'stmt mut rusqlite::Statement<'conn>,
    cutoff: i64,
    limit: i64,
) -> (r: Result<rusqlite::Rows<'stmt>, rusqlite::Error>) {
    let params: [&dyn rusqlite::types::ToSql; 2] = [&cutoff, &limit];
    stmt.query(&params[..])
}

/// Relies on `rusqlite::Rows::next`: advances the cursor, yielding the
/// next row, `None` once the result set is exhausted, or the error that
/// ended the scan.
#[verifier::external_body]
fn sqlite_rows_next<'stmt, 'rows>(rows: &'rows mut rusqlite::Rows<'stmt>) -> (r: Result<
    Option<&'rows rusqlite::Row<'stmt>>,
    rusqlite::Error,
>) {
    rows.next()
}

/// Relies on `rusqlite::Row::get` at type `i64`, the store's native
/// integer type: reads one column of the row as an integer, or reports
/// that it has no such value.
#[verifier::external_body]
fn sqlite_row_i64(row: &rusqlite::Row, idx: usize) -> (r: Result<i64, rusqlite::Error>) {
    row.get(idx)
}

/// Relies on `rusqlite::Row::get` at type `String`: reads one column of
/// the row as text, or reports that it has no such value.
#[verifier::external_body]
fn sqlite_row_text(row: &rusqlite::Row, idx: usize) -> (r: Result<String, rusqlite::Error>) {
    row.get(idx)
}

/// The per-row decode rule, on plain values: a row forms a candidate
/// exactly when its identifier and its timestamp lie in their unsigned
/// domain — a negative integer in either column is a malformed row, not a
/// value — and the formed candidate carries the four columns unchanged.
pub fn decode_fields(id_raw: i64, endpoint_url: String, title: String, ts_raw: i64) -> (r:
    Option<FeedCandidate>)
    ensures
        r is Some <==> id_raw >= 0 && ts_raw >= 0,
        r matches Some(c) ==> c.id == id_raw as u64 && c.endpoint_url@ == endpoint_url@ && c.title@
            == title@ && c.last_updated == ts_raw as u64,
{
    if id_raw >= 0 && ts_raw >= 0 {
        Some(
            FeedCandidate {
                id: id_raw as u64,
                endpoint_url,
                title,
                last_updated: ts_raw as u64,
            },
        )
    } else {
        None
    }
}

/// Clamp an unsigned bound into the store's native signed integer domain.
pub fn clamp_to_store_int(x: u64) -> (r: i64)
    ensures
        r == (if x > i64::MAX as u64 {
            i64::MAX
        } else {
            x as i64
        }),
{
    if x > (i64::MAX as u64) {
        i64::MAX
    } else {
        x as i64
    }
}

/// Decode one catalog row into a candidate; `None` when any of the four
/// columns does not carry a value of the expected type, or when the
/// decode rule of `decode_fields` rejects the values it does carry.
fn decode_row(row: &rusqlite::Row) -> Option<FeedCandidate> {
    let id_raw = match sqlite_row_i64(row, 0) {
        Ok(v) => v,
        Err(_) => return None,
    };
    let endpoint_url = match sqlite_row_text(row, 1) {
        Ok(v) => v,
        Err(_) => return None,
    };
    let title = match sqlite_row_text(row, 2) {
        Ok(v) => v,
        Err(_) => return None,
    };
    let ts_raw = match sqlite_row_i64(row, 3) {
        Ok(v) => v,
        Err(_) => return None,
    };
    decode_fields(id_raw, endpoint_url, title, ts_raw)
}

/// Open a read-only handle to the catalog store; a missing store is an
/// error, never created. The only error this returns is
/// `CatalogUnavailable`, carrying the underlying cause's text: the store
/// could not be opened, which is fatal to a whole pipeline run.
pub fn open_catalog(path: &str) -> (r: Result<rusqlite::Connection, CatalogError>)
    ensures
        r matches Err(e) ==> e is CatalogUnavailable,
{
    match sqlite_open(path) {
        Ok(conn) => Ok(conn),
        Err(e) => Err(CatalogError::CatalogUnavailable(sqlite_error_text(&e))),
    }
}

/// Execute the filtered, bounded catalog query: one pass over the cursor,
/// each row decoded to plain values, then the freshness predicate and the
/// bound enforced in verified code. Whatever rows the store hands back,
/// every candidate in an `Ok` scan is strictly newer than `cutoff` and at
/// most `limit` candidates are returned; a row that cannot be decoded is
/// counted, not fatal; the only error returned is `CatalogQueryError`,
/// raised when the query cannot be prepared or fails mid-scan, carrying
/// the underlying cause's text.
pub fn list_recent_candidates(conn: &rusqlite::Connection, cutoff: u64, limit: usize) -> (r:
    Result<CatalogScan, CatalogError>)
    ensures
        r matches Ok(scan) ==> scan.candidates@.len() <= limit,
        r matches Ok(scan) ==> forall|i: int|
            0 <= i < scan.candidates@.len() ==> (#[trigger] scan.candidates@[i]).last_updated
                > cutoff,
        r matches Err(e) ==> e is CatalogQueryError,
{
    let mut stmt = match sqlite_prepare(
        conn,
        "SELECT id, url, title, newestItemPubdate FROM podcasts WHERE newestItemPubdate > ?1 LIMIT ?2",
    ) {
        Ok(s) => s,
        Err(e) => return Err(CatalogError::CatalogQueryError(sqlite_error_text(&e))),
    };
    // The store's native integer type is i64; the bound parameters are
    // clamped into it. The verified selection below re-checks the real
    // cutoff and limit, so the guarantees do not rest on these bindings.
    let cutoff_db: i64 = clamp_to_store_int(cutoff);
    let limit_db: i64 = clamp_to_store_int(limit as u64);
    let mut rows = match sqlite_query(&mut stmt, cutoff_db, limit_db) {
        Ok(r) => r,
        Err(e) => return Err(CatalogError::CatalogQueryError(sqlite_error_text(&e))),
    };
    let mut collected: Vec<FeedCandidate> = Vec::new();
    let mut malformed_rows: u64 = 0;
    // The query's LIMIT bounds the result set, so at most `limit` data
    // rows are read; stopping there also keeps the scan's cost bounded
    // should the store misbehave and keep yielding rows.
    let mut reads_left: usize = limit;
    let mut more = true;
    while more && reads_left > 0
        decreases (if more { 1int } else { 0int }), reads_left,
    {
        match sqlite_rows_next(&mut rows) {
            Err(e) => return Err(CatalogError::CatalogQueryError(sqlite_error_text(&e))),
            Ok(None) => {
                more = false;
            },
            Ok(Some(row)) => {
                reads_left = reads_left - 1;
                match decode_row(row) {
                    Some(c) => collected.push(c),
                    None => if malformed_rows < u64::MAX {
                        malformed_rows = malformed_rows + 1;
                    },
                }
            },
        }
    }
    let ghost collected_view = collected@;
    let candidates = select_candidates(collected, cutoff, limit);
    proof {
        lemma_selected_fresh_and_bounded(collected_view, cutoff, limit as nat);
    }
    Ok(CatalogScan { candidates, malformed_rows })
}

} // verus!
