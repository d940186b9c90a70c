//! The persisted browser store (bookmarks, folders, history, downloads and
//! per-site settings) over an SQLite connection.

use vstd::prelude::*;
use crate::text::{chars_of, decimal, push_decimal, string_of};
use rusqlite::types::Value as V;

verus! {

#[verifier::external_type_specification]
#[verifier::external_body]
pub struct ExConnection(rusqlite::Connection);

#[verifier::external_type_specification]
#[verifier::external_body]
pub struct ExSqlError(rusqlite::Error);

#[verifier::external_type_specification]
#[verifier::external_body]
pub struct ExStatement<'conn>(rusqlite::Statement<'conn>);

#[verifier::external_type_specification]
#[verifier::external_body]
pub struct ExSqliteValue(rusqlite::types::Value);

/// A value bound to a statement parameter.
pub enum SqlParam {
    Null,
    Integer(i64),
    Text(String),
}

/// A column value of a result row; reals and blobs are not read by this
/// store and come back as `Other`.
pub enum SqlValue {
    Null,
    Integer(i64),
    Text(String),
    Other,
}

/// Relies on rusqlite's types::Value: the parameter as the SQLite value of
/// the same type.
#[verifier::external_body]
fn to_sqlite_value(p: &SqlParam) -> V
{
    match p {
        SqlParam::Null => V::Null,
        SqlParam::Integer(i) => V::Integer(*i),
        SqlParam::Text(t) => V::Text(t.clone()),
    }
}

/// Relies on rusqlite's types::Value: the column value as this store reads
/// it.
#[verifier::external_body]
fn from_sqlite_value(v: &V) -> SqlValue
{
    match v {
        V::Null => SqlValue::Null,
        V::Integer(i) => SqlValue::Integer(*i),
        V::Text(t) => SqlValue::Text(t.clone()),
        V::Real(_) => SqlValue::Other,
        V::Blob(_) => SqlValue::Other,
    }
}

/// Relies on rusqlite's Connection::execute with the parameters bound in
/// order: the number of rows changed, or the error.
#[verifier::external_body]
fn sql_execute_values(conn: &rusqlite::Connection, sql: &str, params: Vec<V>) -> Result<usize, rusqlite::Error>
{
    conn.execute(sql, rusqlite::params_from_iter(params))
}

/// Relies on rusqlite's Connection::prepare: the compiled statement, or the
/// error.
#[verifier::external_body]
fn sql_prepare<'c>(conn: &'c rusqlite::Connection, sql: &str) -> Result<rusqlite::Statement<'c>, rusqlite::Error>
{
    conn.prepare(sql)
}

/// Relies on rusqlite's Statement::query_map with the parameters bound in
/// order: every result row as its first `columns` values, or `None` for a
/// row that could not be read.
#[verifier::external_body]
fn sql_query_values(stmt: &mut rusqlite::Statement, params: Vec<V>, columns: usize) -> Result<Vec<Option<Vec<V>>>, rusqlite::Error>
{
    let rows = stmt.query_map(rusqlite::params_from_iter(params), |row| {
        (0..columns).map(|i| row.get::<usize, V>(i)).collect::<Result<Vec<V>, rusqlite::Error>>()
    })?;
    Ok(rows.map(|r| r.ok()).collect())
}

fn bind_params(params: &Vec<SqlParam>) -> (r: Vec<V>)
    ensures
        r@.len() == params@.len(),
{
    let mut out: Vec<V> = Vec::new();
    let mut i: usize = 0;
    while i < params.len()
        invariant
            i <= params@.len(),
            out@.len() == i,
        decreases params@.len() - i,
    {
        out.push(to_sqlite_value(&params[i]));
        i = i + 1;
    }
    out
}

fn decode_row(cols: &Vec<V>) -> (r: Vec<SqlValue>)
    ensures
        r@.len() == cols@.len(),
{
    let mut out: Vec<SqlValue> = Vec::new();
    let mut i: usize = 0;
    while i < cols.len()
        invariant
            i <= cols@.len(),
            out@.len() == i,
        decreases cols@.len() - i,
    {
        out.push(from_sqlite_value(&cols[i]));
        i = i + 1;
    }
    out
}

fn decode_rows(rows: &Vec<Option<Vec<V>>>) -> (r: Vec<Option<Vec<SqlValue>>>)
    ensures
        r@.len() == rows@.len(),
        forall|i: int| 0 <= i < rows@.len() ==> ((#[trigger] r@[i]) is Some <==> rows@[i] is Some),
{
    let mut out: Vec<Option<Vec<SqlValue>>> = Vec::new();
    let mut i: usize = 0;
    while i < rows.len()
        invariant
            i <= rows@.len(),
            out@.len() == i,
            forall|k: int| 0 <= k < i ==> ((#[trigger] out@[k]) is Some <==> rows@[k] is Some),
        decreases rows@.len() - i,
    {
        match &rows[i] {
            Some(cols) => out.push(Some(decode_row(cols))),
            None => out.push(None),
        }
        i = i + 1;
    }
    out
}

fn sql_execute(conn: &rusqlite::Connection, sql: &str, params: &Vec<SqlParam>) -> Result<usize, rusqlite::Error> {
    sql_execute_values(conn, sql, bind_params(params))
}

/// Relies on rusqlite's Connection::last_insert_rowid.
#[verifier::external_body]
fn sql_last_insert_rowid(conn: &rusqlite::Connection) -> (r: i64)
{
    conn.last_insert_rowid()
}

/// Relies on rusqlite's Connection::execute_batch.
#[verifier::external_body]
fn sql_execute_batch(conn: &rusqlite::Connection, sql: &str) -> (r: Result<(), rusqlite::Error>)
{
    conn.execute_batch(sql)
}

/// The tables and indexes of the store.
pub const SCHEMA_SQL: &'static str = "
    CREATE TABLE IF NOT EXISTS bookmarks (
        id INTEGER PRIMARY KEY AUTOINCREMENT,
        url TEXT NOT NULL,
        title TEXT NOT NULL DEFAULT '',
        folder_id INTEGER,
        created_at TEXT NOT NULL DEFAULT (datetime('now')),
        position INTEGER NOT NULL DEFAULT 0,
        UNIQUE(url)
    );

    CREATE TABLE IF NOT EXISTS history (
        id INTEGER PRIMARY KEY AUTOINCREMENT,
        url TEXT NOT NULL UNIQUE,
        title TEXT NOT NULL DEFAULT '',
        visit_count INTEGER NOT NULL DEFAULT 1,
        last_visited TEXT NOT NULL DEFAULT (datetime('now'))
    );

    CREATE TABLE IF NOT EXISTS site_settings (
        host TEXT PRIMARY KEY NOT NULL,
        content_blocking INTEGER NOT NULL DEFAULT 1,
        cookie_allow INTEGER NOT NULL DEFAULT 0,
        fingerprint_protection INTEGER NOT NULL DEFAULT 1
    );

    CREATE TABLE IF NOT EXISTS downloads (
        id INTEGER PRIMARY KEY AUTOINCREMENT,
        url TEXT NOT NULL,
        filename TEXT NOT NULL,
        path TEXT NOT NULL,
        size_bytes INTEGER NOT NULL DEFAULT 0,
        status TEXT NOT NULL DEFAULT 'complete',
        created_at TEXT NOT NULL DEFAULT (datetime('now'))
    );

    CREATE TABLE IF NOT EXISTS bookmark_folders (
        id INTEGER PRIMARY KEY AUTOINCREMENT,
        name TEXT NOT NULL,
        parent_id INTEGER REFERENCES bookmark_folders(id) ON DELETE CASCADE,
        position INTEGER NOT NULL DEFAULT 0,
        created_at TEXT NOT NULL DEFAULT (datetime('now'))
    );

    CREATE INDEX IF NOT EXISTS idx_history_last_visited ON history(last_visited DESC);
    CREATE INDEX IF NOT EXISTS idx_bookmarks_folder ON bookmarks(folder_id);
    CREATE INDEX IF NOT EXISTS idx_downloads_created ON downloads(created_at DESC);
    CREATE INDEX IF NOT EXISTS idx_folders_parent ON bookmark_folders(parent_id);
";

/// Creates the store's tables and indexes where they are missing.
pub fn create_schema(conn: &rusqlite::Connection) -> Result<(), rusqlite::Error> {
    sql_execute_batch(conn, SCHEMA_SQL)
}

// ── Reading result rows ─────────────────────────────────────────────────

pub open spec fn int_of(v: SqlValue) -> i64 {
    match v {
        SqlValue::Integer(n) => n,
        _ => 0,
    }
}

pub open spec fn text_of(v: SqlValue) -> Seq<char> {
    match v {
        SqlValue::Text(t) => t@,
        _ => Seq::empty(),
    }
}

pub open spec fn opt_int_of(v: SqlValue) -> Option<i64> {
    match v {
        SqlValue::Integer(n) => Some(n),
        _ => None,
    }
}

pub open spec fn is_int(row: Seq<SqlValue>, i: int) -> bool {
    i < row.len() && row[i] is Integer
}

pub open spec fn is_text(row: Seq<SqlValue>, i: int) -> bool {
    i < row.len() && row[i] is Text
}

pub open spec fn is_opt_int(row: Seq<SqlValue>, i: int) -> bool {
    i < row.len() && (row[i] is Integer || row[i] is Null)
}

fn int_at(row: &Vec<SqlValue>, i: usize) -> (r: Option<i64>)
    ensures
        r == if is_int(row@, i as int) {
            Some(int_of(row@[i as int]))
        } else {
            None
        },
{
    if i < row.len() {
        match &row[i] {
            SqlValue::Integer(n) => Some(*n),
            _ => None,
        }
    } else {
        None
    }
}

fn text_at(row: &Vec<SqlValue>, i: usize) -> (r: Option<String>)
    ensures
        r is Some <==> is_text(row@, i as int),
        r is Some ==> r->0@ == text_of(row@[i as int]),
{
    if i < row.len() {
        match &row[i] {
            SqlValue::Text(t) => Some(t.clone()),
            _ => None,
        }
    } else {
        None
    }
}

fn opt_int_at(row: &Vec<SqlValue>, i: usize) -> (r: Option<Option<i64>>)
    ensures
        r == if is_opt_int(row@, i as int) {
            Some(opt_int_of(row@[i as int]))
        } else {
            None
        },
{
    if i < row.len() {
        match &row[i] {
            SqlValue::Integer(n) => Some(Some(*n)),
            SqlValue::Null => Some(None),
            _ => None,
        }
    } else {
        None
    }
}

/// A record read from one result row.
pub trait FromRow: Sized {
    /// The row's columns have the types the record needs.
    spec fn row_fits(row: Seq<SqlValue>) -> bool;

    /// The record holds the row's values.
    spec fn made_from(&self, row: Seq<SqlValue>) -> bool;

    fn from_row(row: &Vec<SqlValue>) -> (r: Option<Self>)
        ensures
            r is Some <==> Self::row_fits(row@),
            r is Some ==> r->0.made_from(row@),
    ;
}

/// The rows that could be read and fit the record type, in order.
pub open spec fn readable_rows<T: FromRow>(rows: Seq<Option<Vec<SqlValue>>>) -> Seq<Seq<SqlValue>>
    decreases rows.len(),
{
    if rows.len() == 0 {
        Seq::empty()
    } else {
        let prev = readable_rows::<T>(rows.drop_last());
        match rows.last() {
            Some(r) => if T::row_fits(r@) {
                prev.push(r@)
            } else {
                prev
            },
            None => prev,
        }
    }
}

/// The records of the rows that can be read; the others are skipped.
pub fn records_from_rows<T: FromRow>(rows: &Vec<Option<Vec<SqlValue>>>) -> (r: Vec<T>)
    ensures
        r@.len() == readable_rows::<T>(rows@).len(),
        forall|i: int| 0 <= i < r@.len() ==> (#[trigger] r@[i]).made_from(readable_rows::<T>(rows@)[i]),
{
    let mut out: Vec<T> = Vec::new();
    let mut i: usize = 0;
    while i < rows.len()
        invariant
            i <= rows@.len(),
            out@.len() == readable_rows::<T>(rows@.subrange(0, i as int)).len(),
            forall|k: int|
                0 <= k < out@.len() ==> (#[trigger] out@[k]).made_from(readable_rows::<T>(rows@.subrange(0, i as int))[k]),
        decreases rows@.len() - i,
    {
        assert(rows@.subrange(0, i + 1).drop_last() =~= rows@.subrange(0, i as int));
        match &rows[i] {
            Some(row) => {
                match T::from_row(row) {
                    Some(rec) => {
                        out.push(rec);
                    },
                    None => {},
                }
            },
            None => {},
        }
        i = i + 1;
    }
    assert(rows@.subrange(0, rows@.len() as int) =~= rows@);
    out
}

fn query_rows(conn: &rusqlite::Connection, sql: &str, params: &Vec<SqlParam>, columns: usize) -> Result<Vec<Option<Vec<SqlValue>>>, rusqlite::Error> {
    match sql_prepare(conn, sql) {
        Ok(mut stmt) => match sql_query_values(&mut stmt, bind_params(params), columns) {
            Ok(rows) => Ok(decode_rows(&rows)),
            Err(e) => Err(e),
        },
        Err(e) => Err(e),
    }
}

fn query_records<T: FromRow>(conn: &rusqlite::Connection, sql: &str, params: &Vec<SqlParam>, columns: usize) -> Vec<T> {
    match query_rows(conn, sql, params, columns) {
        Ok(rows) => records_from_rows(&rows),
        Err(_) => Vec::new(),
    }
}

/// A row limit as SQLite takes it; one beyond `i64` means no limit at all.
fn limit_param(limit: usize) -> (r: SqlParam)
    ensures
        r == if limit <= i64::MAX {
            SqlParam::Integer(limit as i64)
        } else {
            SqlParam::Integer(i64::MAX)
        },
{
    if (limit as u64) <= (i64::MAX as u64) {
        SqlParam::Integer(limit as i64)
    } else {
        SqlParam::Integer(i64::MAX)
    }
}

fn text_param(s: &str) -> (r: SqlParam)
    ensures
        r is Text && r->Text_0@ == s@,
{
    SqlParam::Text(s.to_owned())
}

fn opt_int_param(v: Option<i64>) -> (r: SqlParam)
    ensures
        r == match v {
            Some(n) => SqlParam::Integer(n),
            None => SqlParam::Null,
        },
{
    match v {
        Some(n) => SqlParam::Integer(n),
        None => SqlParam::Null,
    }
}

// ── Bookmarks ───────────────────────────────────────────────────────────

#[derive(Debug, Clone)]
pub struct Bookmark {
    pub id: i64,
    pub url: String,
    pub title: String,
    pub folder_id: Option<i64>,
    pub position: i64,
    pub created_at: String,
}

#[derive(Debug, Clone)]
pub struct BookmarkFolder {
    pub id: i64,
    pub name: String,
    pub parent_id: Option<i64>,
    pub position: i64,
}

impl FromRow for Bookmark {
    open spec fn row_fits(row: Seq<SqlValue>) -> bool {
        is_int(row, 0) && is_text(row, 1) && is_text(row, 2) && is_opt_int(row, 3) && is_int(row, 4)
            && is_text(row, 5)
    }

    open spec fn made_from(&self, row: Seq<SqlValue>) -> bool {
        self.id == int_of(row[0]) && self.url@ == text_of(row[1]) && self.title@ == text_of(row[2])
            && self.folder_id == opt_int_of(row[3]) && self.position == int_of(row[4])
            && self.created_at@ == text_of(row[5])
    }

    fn from_row(row: &Vec<SqlValue>) -> (r: Option<Self>) {
        let id = int_at(row, 0)?;
        let url = text_at(row, 1)?;
        let title = text_at(row, 2)?;
        let folder_id = opt_int_at(row, 3)?;
        let position = int_at(row, 4)?;
        let created_at = text_at(row, 5)?;
        Some(Bookmark { id, url, title, folder_id, position, created_at })
    }
}

impl FromRow for BookmarkFolder {
    open spec fn row_fits(row: Seq<SqlValue>) -> bool {
        is_int(row, 0) && is_text(row, 1) && is_opt_int(row, 2) && is_int(row, 3)
    }

    open spec fn made_from(&self, row: Seq<SqlValue>) -> bool {
        self.id == int_of(row[0]) && self.name@ == text_of(row[1]) && self.parent_id == opt_int_of(row[2])
            && self.position == int_of(row[3])
    }

    fn from_row(row: &Vec<SqlValue>) -> (r: Option<Self>) {
        let id = int_at(row, 0)?;
        let name = text_at(row, 1)?;
        let parent_id = opt_int_at(row, 2)?;
        let position = int_at(row, 3)?;
        Some(BookmarkFolder { id, name, parent_id, position })
    }
}

pub fn add_bookmark_with_conn(conn: &rusqlite::Connection, url: &str, title: &str) -> Result<usize, rusqlite::Error> {
    let params = vec![text_param(url), text_param(title)];
    sql_execute(conn, "INSERT OR REPLACE INTO bookmarks (url, title) VALUES (?1, ?2)", &params)
}

/// Bookmarks `url` under `title`, replacing an earlier bookmark of it;
/// whether the store took it.
pub fn add_bookmark(conn: &rusqlite::Connection, url: &str, title: &str) -> bool {
    add_bookmark_with_conn(conn, url, title).is_ok()
}

pub fn remove_bookmark_with_conn(conn: &rusqlite::Connection, url: &str) -> Result<usize, rusqlite::Error> {
    let params = vec![text_param(url)];
    sql_execute(conn, "DELETE FROM bookmarks WHERE url = ?1", &params)
}

/// Whether a delete changed at least one row.
pub fn removed_any(result: &Result<usize, rusqlite::Error>) -> (r: bool)
    ensures
        r == match result {
            Ok(n) => *n > 0,
            Err(_) => false,
        },
{
    match result {
        Ok(n) => *n > 0,
        Err(_) => false,
    }
}

/// Removes the bookmark of `url`; whether there was one.
pub fn remove_bookmark(conn: &rusqlite::Connection, url: &str) -> bool {
    removed_any(&remove_bookmark_with_conn(conn, url))
}

/// Whether a `COUNT(*)` result counts anything: its first row's first
/// column is a positive integer.
pub fn count_is_positive(rows: &Vec<Option<Vec<SqlValue>>>) -> (r: bool)
    ensures
        r == (rows@.len() > 0 && rows@[0] is Some && is_int(rows@[0]->0@, 0) && int_of(rows@[0]->0@[0]) > 0),
{
    if rows.len() == 0 {
        return false;
    }
    match &rows[0] {
        Some(row) => match int_at(row, 0) {
            Some(n) => n > 0,
            None => false,
        },
        None => false,
    }
}

pub fn is_bookmarked_with_conn(conn: &rusqlite::Connection, url: &str) -> bool {
    let params = vec![text_param(url)];
    match query_rows(conn, "SELECT COUNT(*) FROM bookmarks WHERE url = ?1", &params, 1) {
        Ok(rows) => count_is_positive(&rows),
        Err(_) => false,
    }
}

pub fn is_bookmarked(conn: &rusqlite::Connection, url: &str) -> bool {
    is_bookmarked_with_conn(conn, url)
}

pub fn get_all_bookmarks_with_conn(conn: &rusqlite::Connection) -> Vec<Bookmark> {
    let params: Vec<SqlParam> = Vec::new();
    query_records(
        conn,
        "SELECT id, url, title, folder_id, position, created_at FROM bookmarks ORDER BY position, created_at DESC",
        &params,
        6,
    )
}

pub fn get_all_bookmarks(conn: &rusqlite::Connection) -> Vec<Bookmark> {
    get_all_bookmarks_with_conn(conn)
}


// ── History ─────────────────────────────────────────────────────────────

#[derive(Debug, Clone)]
pub struct HistoryEntry {
    pub id: i64,
    pub url: String,
    pub title: String,
    pub visit_count: i64,
    pub last_visited: String,
}

impl FromRow for HistoryEntry {
    open spec fn row_fits(row: Seq<SqlValue>) -> bool {
        is_int(row, 0) && is_text(row, 1) && is_text(row, 2) && is_int(row, 3) && is_text(row, 4)
    }

    open spec fn made_from(&self, row: Seq<SqlValue>) -> bool {
        self.id == int_of(row[0]) && self.url@ == text_of(row[1]) && self.title@ == text_of(row[2])
            && self.visit_count == int_of(row[3]) && self.last_visited@ == text_of(row[4])
    }

    fn from_row(row: &Vec<SqlValue>) -> (r: Option<Self>) {
        let id = int_at(row, 0)?;
        let url = text_at(row, 1)?;
        let title = text_at(row, 2)?;
        let visit_count = int_at(row, 3)?;
        let last_visited = text_at(row, 4)?;
        Some(HistoryEntry { id, url, title, visit_count, last_visited })
    }
}

pub fn record_visit_with_conn(conn: &rusqlite::Connection, url: &str, title: &str) -> Result<usize, rusqlite::Error> {
    let params = vec![text_param(url), text_param(title)];
    sql_execute(
        conn,
        "INSERT INTO history (url, title) VALUES (?1, ?2)
         ON CONFLICT(url) DO UPDATE SET
            title = ?2,
            visit_count = visit_count + 1,
            last_visited = datetime('now')",
        &params,
    )
}

/// Records a visit: a new entry, or one more visit and the new title for a
/// known URL.
pub fn record_visit(conn: &rusqlite::Connection, url: &str, title: &str) {
    let _ = record_visit_with_conn(conn, url, title);
}

/// A character of a LIKE pattern, taken literally under `ESCAPE '\'`.
pub open spec fn like_escaped_char(c: char) -> Seq<char> {
    if c == '\\' || c == '%' || c == '_' {
        seq!['\\', c]
    } else {
        seq![c]
    }
}

pub open spec fn like_escaped_prefix(s: Seq<char>, n: nat) -> Seq<char>
    decreases n,
{
    if n == 0 {
        Seq::empty()
    } else {
        like_escaped_prefix(s, (n - 1) as nat) + like_escaped_char(s[n - 1])
    }
}

/// The LIKE pattern that finds `query` anywhere: `%`, the query with `\`,
/// `%` and `_` escaped by a backslash, `%`.
pub open spec fn like_pattern_spec(query: Seq<char>) -> Seq<char> {
    seq!['%'] + like_escaped_prefix(query, query.len()) + seq!['%']
}

pub fn like_contains_pattern(query: &str) -> (r: String)
    ensures
        r@ == like_pattern_spec(query@),
{
    let q = chars_of(query);
    let mut out: Vec<char> = Vec::new();
    out.push('%');
    let mut i: usize = 0;
    while i < q.len()
        invariant
            i <= q@.len(),
            out@ == seq!['%'] + like_escaped_prefix(q@, i as nat),
        decreases q@.len() - i,
    {
        let c = q[i];
        if c == '\\' || c == '%' || c == '_' {
            out.push('\\');
        }
        out.push(c);
        assert(out@ =~= seq!['%'] + like_escaped_prefix(q@, (i + 1) as nat));
        i = i + 1;
    }
    out.push('%');
    string_of(&out)
}

pub fn search_history_with_conn(conn: &rusqlite::Connection, query: &str, limit: usize) -> Vec<HistoryEntry> {
    let pattern = like_contains_pattern(query);
    let params = vec![SqlParam::Text(pattern), limit_param(limit)];
    query_records(
        conn,
        "SELECT id, url, title, visit_count, last_visited FROM history
         WHERE url LIKE ?1 ESCAPE '\\' OR title LIKE ?1 ESCAPE '\\'
         ORDER BY last_visited DESC LIMIT ?2",
        &params,
        5,
    )
}

/// Up to `limit` history entries whose URL or title holds `query`
/// literally, most recent first.
pub fn search_history(conn: &rusqlite::Connection, query: &str, limit: usize) -> Vec<HistoryEntry> {
    search_history_with_conn(conn, query, limit)
}

pub fn get_recent_history_with_conn(conn: &rusqlite::Connection, limit: usize) -> Vec<HistoryEntry> {
    let params = vec![limit_param(limit)];
    query_records(
        conn,
        "SELECT id, url, title, visit_count, last_visited FROM history
         ORDER BY last_visited DESC LIMIT ?1",
        &params,
        5,
    )
}

pub fn get_recent_history(conn: &rusqlite::Connection, limit: usize) -> Vec<HistoryEntry> {
    get_recent_history_with_conn(conn, limit)
}

pub fn clear_all_history_with_conn(conn: &rusqlite::Connection) -> Result<usize, rusqlite::Error> {
    let params: Vec<SqlParam> = Vec::new();
    sql_execute(conn, "DELETE FROM history", &params)
}

pub fn clear_all_history(conn: &rusqlite::Connection) {
    let _ = clear_all_history_with_conn(conn);
}

// ── Downloads ───────────────────────────────────────────────────────────

#[derive(Debug, Clone)]
pub struct DownloadRecord {
    pub id: i64,
    pub url: String,
    pub filename: String,
    pub path: String,
    pub size_bytes: i64,
    pub status: String,
    pub created_at: String,
}

impl FromRow for DownloadRecord {
    open spec fn row_fits(row: Seq<SqlValue>) -> bool {
        is_int(row, 0) && is_text(row, 1) && is_text(row, 2) && is_text(row, 3) && is_int(row, 4)
            && is_text(row, 5) && is_text(row, 6)
    }

    open spec fn made_from(&self, row: Seq<SqlValue>) -> bool {
        self.id == int_of(row[0]) && self.url@ == text_of(row[1]) && self.filename@ == text_of(row[2])
            && self.path@ == text_of(row[3]) && self.size_bytes == int_of(row[4]) && self.status@
            == text_of(row[5]) && self.created_at@ == text_of(row[6])
    }

    fn from_row(row: &Vec<SqlValue>) -> (r: Option<Self>) {
        let id = int_at(row, 0)?;
        let url = text_at(row, 1)?;
        let filename = text_at(row, 2)?;
        let path = text_at(row, 3)?;
        let size_bytes = int_at(row, 4)?;
        let status = text_at(row, 5)?;
        let created_at = text_at(row, 6)?;
        Some(DownloadRecord { id, url, filename, path, size_bytes, status, created_at })
    }
}

pub fn record_download_with_conn(
    conn: &rusqlite::Connection,
    url: &str,
    filename: &str,
    path: &str,
    size_bytes: i64,
) -> Result<usize, rusqlite::Error> {
    let params = vec![text_param(url), text_param(filename), text_param(path), SqlParam::Integer(size_bytes)];
    sql_execute(
        conn,
        "INSERT INTO downloads (url, filename, path, size_bytes, status)
         VALUES (?1, ?2, ?3, ?4, 'complete')",
        &params,
    )
}

/// Records a finished download.
pub fn record_download(conn: &rusqlite::Connection, url: &str, filename: &str, path: &str, size_bytes: i64) {
    let _ = record_download_with_conn(conn, url, filename, path, size_bytes);
}

pub fn get_recent_downloads_with_conn(conn: &rusqlite::Connection, limit: usize) -> Vec<DownloadRecord> {
    let params = vec![limit_param(limit)];
    query_records(
        conn,
        "SELECT id, url, filename, path, size_bytes, status, created_at
         FROM downloads ORDER BY created_at DESC LIMIT ?1",
        &params,
        7,
    )
}

pub fn get_recent_downloads(conn: &rusqlite::Connection, limit: usize) -> Vec<DownloadRecord> {
    get_recent_downloads_with_conn(conn, limit)
}

pub fn clear_all_downloads_with_conn(conn: &rusqlite::Connection) -> Result<usize, rusqlite::Error> {
    let params: Vec<SqlParam> = Vec::new();
    sql_execute(conn, "DELETE FROM downloads", &params)
}

pub fn clear_all_downloads(conn: &rusqlite::Connection) {
    let _ = clear_all_downloads_with_conn(conn);
}

// ── Bookmark folders ────────────────────────────────────────────────────

pub fn create_folder_with_conn(conn: &rusqlite::Connection, name: &str, parent_id: Option<i64>) -> Result<i64, rusqlite::Error> {
    let params = vec![text_param(name), opt_int_param(parent_id)];
    sql_execute(conn, "INSERT INTO bookmark_folders (name, parent_id) VALUES (?1, ?2)", &params)?;
    Ok(sql_last_insert_rowid(conn))
}

/// Creates a folder; its id, or `None` when the store refused it.
pub fn create_folder(conn: &rusqlite::Connection, name: &str, parent_id: Option<i64>) -> Option<i64> {
    create_folder_with_conn(conn, name, parent_id).ok()
}

pub fn rename_folder_with_conn(conn: &rusqlite::Connection, id: i64, name: &str) -> Result<usize, rusqlite::Error> {
    let params = vec![text_param(name), SqlParam::Integer(id)];
    sql_execute(conn, "UPDATE bookmark_folders SET name = ?1 WHERE id = ?2", &params)
}

pub fn rename_folder(conn: &rusqlite::Connection, id: i64, name: &str) {
    let _ = rename_folder_with_conn(conn, id, name);
}

pub fn delete_folder_with_conn(conn: &rusqlite::Connection, id: i64) -> Result<usize, rusqlite::Error> {
    let params = vec![SqlParam::Integer(id)];
    sql_execute(conn, "UPDATE bookmarks SET folder_id = NULL WHERE folder_id = ?1", &params)?;
    sql_execute(conn, "DELETE FROM bookmark_folders WHERE id = ?1", &params)
}

/// Deletes a folder; its bookmarks move to the root first.
pub fn delete_folder(conn: &rusqlite::Connection, id: i64) {
    let _ = delete_folder_with_conn(conn, id);
}

pub fn get_all_folders_with_conn(conn: &rusqlite::Connection) -> Vec<BookmarkFolder> {
    let params: Vec<SqlParam> = Vec::new();
    query_records(
        conn,
        "SELECT id, name, parent_id, position FROM bookmark_folders ORDER BY position, name",
        &params,
        4,
    )
}

pub fn get_all_folders(conn: &rusqlite::Connection) -> Vec<BookmarkFolder> {
    get_all_folders_with_conn(conn)
}

pub fn get_bookmarks_in_folder_with_conn(conn: &rusqlite::Connection, folder_id: Option<i64>) -> Vec<Bookmark> {
    match folder_id {
        Some(fid) => {
            let params = vec![SqlParam::Integer(fid)];
            query_records(
                conn,
                "SELECT id, url, title, folder_id, position, created_at FROM bookmarks WHERE folder_id = ?1 ORDER BY position, created_at DESC",
                &params,
                6,
            )
        },
        None => {
            let params: Vec<SqlParam> = Vec::new();
            query_records(
                conn,
                "SELECT id, url, title, folder_id, position, created_at FROM bookmarks WHERE folder_id IS NULL ORDER BY position, created_at DESC",
                &params,
                6,
            )
        },
    }
}

/// The bookmarks of a folder, or of the root for `None`.
pub fn get_bookmarks_in_folder(conn: &rusqlite::Connection, folder_id: Option<i64>) -> Vec<Bookmark> {
    get_bookmarks_in_folder_with_conn(conn, folder_id)
}

pub fn move_bookmark_to_folder_with_conn(conn: &rusqlite::Connection, bookmark_id: i64, folder_id: Option<i64>) -> Result<usize, rusqlite::Error> {
    let params = vec![opt_int_param(folder_id), SqlParam::Integer(bookmark_id)];
    sql_execute(conn, "UPDATE bookmarks SET folder_id = ?1 WHERE id = ?2", &params)
}

pub fn move_bookmark_to_folder(conn: &rusqlite::Connection, bookmark_id: i64, folder_id: Option<i64>) {
    let _ = move_bookmark_to_folder_with_conn(conn, bookmark_id, folder_id);
}

pub fn add_bookmark_to_folder_with_conn(conn: &rusqlite::Connection, url: &str, title: &str, folder_id: Option<i64>) -> Result<usize, rusqlite::Error> {
    let params = vec![text_param(url), text_param(title), opt_int_param(folder_id)];
    sql_execute(conn, "INSERT OR REPLACE INTO bookmarks (url, title, folder_id) VALUES (?1, ?2, ?3)", &params)
}

/// Bookmarks `url` into a folder; whether the store took it.
pub fn add_bookmark_to_folder(conn: &rusqlite::Connection, url: &str, title: &str, folder_id: Option<i64>) -> bool {
    add_bookmark_to_folder_with_conn(conn, url, title, folder_id).is_ok()
}

// ── Site settings ───────────────────────────────────────────────────────

#[derive(Debug, Clone)]
pub struct SiteSettings {
    pub host: String,
    pub content_blocking: bool,
    pub cookie_allow: bool,
    pub fingerprint_protection: bool,
}

impl Default for SiteSettings {
    fn default() -> (r: Self)
        ensures
            r.host@ == Seq::<char>::empty(),
            r.content_blocking,
            !r.cookie_allow,
            r.fingerprint_protection,
    {
        SiteSettings {
            host: String::new(),
            content_blocking: true,
            cookie_allow: false,
            fingerprint_protection: true,
        }
    }
}

impl FromRow for SiteSettings {
    open spec fn row_fits(row: Seq<SqlValue>) -> bool {
        is_text(row, 0) && is_int(row, 1) && is_int(row, 2) && is_int(row, 3)
    }

    open spec fn made_from(&self, row: Seq<SqlValue>) -> bool {
        self.host@ == text_of(row[0]) && self.content_blocking == (int_of(row[1]) != 0)
            && self.cookie_allow == (int_of(row[2]) != 0) && self.fingerprint_protection == (int_of(
            row[3],
        ) != 0)
    }

    fn from_row(row: &Vec<SqlValue>) -> (r: Option<Self>) {
        let host = text_at(row, 0)?;
        let content_blocking = int_at(row, 1)?;
        let cookie_allow = int_at(row, 2)?;
        let fingerprint_protection = int_at(row, 3)?;
        Some(
            SiteSettings {
                host,
                content_blocking: content_blocking != 0,
                cookie_allow: cookie_allow != 0,
                fingerprint_protection: fingerprint_protection != 0,
            },
        )
    }
}

/// The settings of the first row when it can be read, else the defaults
/// for `host`: content blocking and fingerprint protection on, cookies
/// refused.
pub fn settings_or_default(host: &str, rows: &Vec<Option<Vec<SqlValue>>>) -> (r: SiteSettings)
    ensures
        if rows@.len() > 0 && rows@[0] is Some && SiteSettings::row_fits(rows@[0]->0@) {
            r.made_from(rows@[0]->0@)
        } else {
            r.host@ == host@ && r.content_blocking && !r.cookie_allow && r.fingerprint_protection
        },
{
    if rows.len() > 0 {
        match &rows[0] {
            Some(row) => match SiteSettings::from_row(row) {
                Some(settings) => {
                    return settings;
                },
                None => {},
            },
            None => {},
        }
    }
    SiteSettings { host: host.to_owned(), ..SiteSettings::default() }
}

pub fn get_site_settings_with_conn(conn: &rusqlite::Connection, host: &str) -> SiteSettings {
    let params = vec![text_param(host)];
    match query_rows(
        conn,
        "SELECT host, content_blocking, cookie_allow, fingerprint_protection
         FROM site_settings WHERE host = ?1",
        &params,
        4,
    ) {
        Ok(rows) => settings_or_default(host, &rows),
        Err(_) => {
            let none: Vec<Option<Vec<SqlValue>>> = Vec::new();
            settings_or_default(host, &none)
        },
    }
}

/// The stored settings of `host`, or the defaults for it.
pub fn get_site_settings(conn: &rusqlite::Connection, host: &str) -> SiteSettings {
    get_site_settings_with_conn(conn, host)
}

/// A flag as the store keeps it.
fn flag_param(b: bool) -> (r: SqlParam)
    ensures
        r == SqlParam::Integer(if b { 1 } else { 0 }),
{
    SqlParam::Integer(if b { 1 } else { 0 })
}

pub fn save_site_settings_with_conn(conn: &rusqlite::Connection, settings: &SiteSettings) -> Result<usize, rusqlite::Error> {
    let params = vec![
        SqlParam::Text(settings.host.clone()),
        flag_param(settings.content_blocking),
        flag_param(settings.cookie_allow),
        flag_param(settings.fingerprint_protection),
    ];
    sql_execute(
        conn,
        "INSERT INTO site_settings (host, content_blocking, cookie_allow, fingerprint_protection)
         VALUES (?1, ?2, ?3, ?4)
         ON CONFLICT(host) DO UPDATE SET
            content_blocking = ?2,
            cookie_allow = ?3,
            fingerprint_protection = ?4",
        &params,
    )
}

/// Stores the settings of a host, replacing earlier ones.
pub fn save_site_settings(conn: &rusqlite::Connection, settings: &SiteSettings) {
    let _ = save_site_settings_with_conn(conn, settings);
}

// ── Clearing ────────────────────────────────────────────────────────────

/// The SQLite date modifier that goes `hours` hours back: `-<hours> hours`.
pub fn hours_back_modifier(hours: u64) -> (r: String)
    ensures
        r@ == seq!['-'] + decimal(hours as nat) + " hours"@,
{
    let mut out: Vec<char> = Vec::new();
    out.push('-');
    push_decimal(&mut out, hours);
    let mut tail = chars_of(" hours");
    out.append(&mut tail);
    string_of(&out)
}

pub fn clear_history_since_hours_with_conn(conn: &rusqlite::Connection, hours: u64) -> Result<usize, rusqlite::Error> {
    if hours == 0 {
        let params: Vec<SqlParam> = Vec::new();
        return sql_execute(conn, "DELETE FROM history", &params);
    }
    let params = vec![SqlParam::Text(hours_back_modifier(hours))];
    sql_execute(conn, "DELETE FROM history WHERE last_visited >= datetime('now', ?1)", &params)
}

/// Clears the history of the last `hours` hours; all of it for 0.
pub fn clear_history_since_hours(conn: &rusqlite::Connection, hours: u64) {
    let _ = clear_history_since_hours_with_conn(conn, hours);
}

pub fn clear_downloads_since_hours_with_conn(conn: &rusqlite::Connection, hours: u64) -> Result<usize, rusqlite::Error> {
    if hours == 0 {
        let params: Vec<SqlParam> = Vec::new();
        return sql_execute(conn, "DELETE FROM downloads", &params);
    }
    let params = vec![SqlParam::Text(hours_back_modifier(hours))];
    sql_execute(conn, "DELETE FROM downloads WHERE created_at >= datetime('now', ?1)", &params)
}

/// Clears the downloads of the last `hours` hours; all of them for 0.
pub fn clear_downloads_since_hours(conn: &rusqlite::Connection, hours: u64) {
    let _ = clear_downloads_since_hours_with_conn(conn, hours);
}

pub fn clear_all_bookmarks_with_conn(conn: &rusqlite::Connection) -> Result<usize, rusqlite::Error> {
    let params: Vec<SqlParam> = Vec::new();
    sql_execute(conn, "DELETE FROM bookmarks", &params)
}

pub fn clear_all_bookmarks(conn: &rusqlite::Connection) {
    let _ = clear_all_bookmarks_with_conn(conn);
}

pub fn clear_all_site_settings_with_conn(conn: &rusqlite::Connection) -> Result<usize, rusqlite::Error> {
    let params: Vec<SqlParam> = Vec::new();
    sql_execute(conn, "DELETE FROM site_settings", &params)
}

pub fn clear_all_site_settings(conn: &rusqlite::Connection) {
    let _ = clear_all_site_settings_with_conn(conn);
}

} // verus!
