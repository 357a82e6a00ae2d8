//! The clipboard history database (SQLite).
use vstd::prelude::*;
use rusqlite::Connection;
use crate::hash::hex_digit;
use crate::item::{ClipboardItem, ClipboardPayload, opt_bytes_view, opt_text_view};
use crate::search::{rank_items, ranked};
use crate::text::{lemma_starts_with_concat, starts_with};

verus! {

#[verifier::external_type_specification]
#[verifier::external_body]
pub struct ExConnection(rusqlite::Connection);

#[verifier::external_type_specification]
#[verifier::external_body]
pub struct ExSqliteError(rusqlite::Error);

#[verifier::external_type_specification]
#[verifier::external_body]
pub struct ExUuidError(uuid::Error);

#[verifier::external_type_specification]
#[verifier::external_body]
pub struct ExTimeParseError(chrono::ParseError);

#[verifier::external_type_specification]
#[verifier::external_body]
pub struct ExJsonError(serde_json::Error);

/// How long a connection waits for a locked database, in milliseconds.
pub const BUSY_TIMEOUT_MS: u64 = 5000;

/// How many of the most recently used items a search considers.
pub const SEARCH_LIMIT: usize = 500;

/// The last `n` hexadecimal digits of `v` in lower case, most significant
/// first.
pub open spec fn hex_digits(v: nat, n: nat) -> Seq<char>
    decreases n,
{
    if n == 0 {
        Seq::empty()
    } else {
        hex_digits(v / 16, (n - 1) as nat).push(hex_digit((v % 16) as int))
    }
}

/// The hyphenated lower-case text of the UUID `id` (its 128 bits big-endian):
/// 32 hexadecimal digits grouped 8-4-4-4-12.
pub open spec fn uuid_text(id: u128) -> Seq<char> {
    let h = hex_digits(id as nat, 32);
    h.subrange(0, 8) + seq!['-'] + h.subrange(8, 12) + seq!['-'] + h.subrange(12, 16) + seq![
        '-',
    ] + h.subrange(16, 20) + seq!['-'] + h.subrange(20, 32)
}

/// The UUID written in `s`, as `uuid::Uuid::parse_str` reads it.
pub uninterp spec fn uuid_value(s: Seq<char>) -> Option<u128>;

/// The RFC 3339 text of the instant `secs` seconds and `subsec` nanoseconds
/// after the Unix epoch, as `chrono` writes it for UTC.
pub uninterp spec fn rfc3339_text(secs: i64, subsec: u32) -> Seq<char>;

/// The instant written in `s` (RFC 3339), as `chrono` reads it: its seconds
/// since the Unix epoch and its nanoseconds within the second; `None` when
/// `s` is not RFC 3339.
pub uninterp spec fn rfc3339_value(s: Seq<char>) -> Option<(i64, u32)>;

/// The JSON array of strings `list`, as `serde_json` writes it.
pub uninterp spec fn json_string_list(list: Seq<Seq<char>>) -> Seq<char>;

/// The array of strings written in the JSON text `s`, as `serde_json` reads it.
pub uninterp spec fn json_string_list_value(s: Seq<char>) -> Option<Seq<Seq<char>>>;

/// Formats a UUID with `uuid::Uuid::from_u128` and `to_string` (the
/// hyphenated lower-case form); `uuid::Uuid::parse_str` reads the text back.
#[verifier::external_body]
pub(crate) fn uuid_to_text(id: u128) -> (s: String)
    ensures
        s@ == uuid_text(id),
        uuid_value(s@) == Some(id),
{
    uuid::Uuid::from_u128(id).to_string()
}

/// Parses a UUID with `uuid::Uuid::parse_str`.
#[verifier::external_body]
fn parse_uuid(s: &str) -> (r: Result<u128, uuid::Error>)
    ensures
        r is Ok <==> uuid_value(s@) is Some,
        r matches Ok(v) ==> uuid_value(s@) == Some(v),
{
    uuid::Uuid::parse_str(s).map(|u| u.as_u128())
}

/// Makes the instant with `chrono::DateTime::from_timestamp` and formats it
/// with `to_rfc3339`. For an instant in chrono's range (`MIN_UTC` to
/// `MAX_UTC`, the seconds below) `from_timestamp` gives `Some`. For one in
/// the years 0000 to 9999 `to_rfc3339` writes a four-digit year, and
/// `chrono::DateTime::parse_from_rfc3339` reads the text back; other years
/// are written with a sign and more digits, which it does not read.
#[verifier::external_body]
fn format_rfc3339(secs: i64, subsec: u32) -> (r: Option<String>)
    requires
        -8334601228800 <= secs <= 8210266876799,
        subsec < 1_000_000_000,
    ensures
        r is Some,
        r matches Some(s) ==> s@ == rfc3339_text(secs, subsec),
        -62167219200 <= secs <= 253402300799 ==> (r matches Some(s) ==> rfc3339_value(s@)
            == Some((secs, subsec))),
{
    chrono::DateTime::from_timestamp(secs, subsec).map(|t| t.to_rfc3339())
}

/// Parses an instant with `chrono::DateTime::parse_from_rfc3339`, giving
/// its `timestamp` and `timestamp_subsec_nanos`.
#[verifier::external_body]
fn parse_rfc3339(s: &str) -> (r: Result<(i64, u32), chrono::ParseError>)
    ensures
        r is Ok <==> rfc3339_value(s@) is Some,
        r matches Ok(v) ==> rfc3339_value(s@) == Some(v),
{
    chrono::DateTime::parse_from_rfc3339(s).map(|t| (t.timestamp(), t.timestamp_subsec_nanos()))
}

/// Writes a list of strings with `serde_json::to_string`, which fails only
/// for a `Serialize` impl that fails or a map with non-string keys, neither
/// of which a list of strings has; `serde_json::from_str` reads it back.
#[verifier::external_body]
fn list_to_json(list: &Vec<String>) -> (r: Result<String, serde_json::Error>)
    ensures
        r is Ok,
        r matches Ok(s) ==> s@ == json_string_list(list@.map_values(|x: String| x@)),
        r matches Ok(s) ==> json_string_list_value(s@) == Some(
            list@.map_values(|x: String| x@),
        ),
{
    serde_json::to_string(list)
}

/// Reads a list of strings with `serde_json::from_str`.
#[verifier::external_body]
fn list_from_json(s: &str) -> (r: Result<Vec<String>, serde_json::Error>)
    ensures
        r is Ok <==> json_string_list_value(s@) is Some,
        r matches Ok(v) ==> json_string_list_value(s@) == Some(v@.map_values(|x: String| x@)),
{
    serde_json::from_str(s)
}

/// The message of a SQLite error (`Display` of `rusqlite::Error`).
#[verifier::external_body]
fn sqlite_error_text(e: &rusqlite::Error) -> String {
    e.to_string()
}

/// The message of a UUID error (`Display` of `uuid::Error`).
#[verifier::external_body]
fn uuid_error_text(e: &uuid::Error) -> String {
    e.to_string()
}

/// The message of a time error (`Display` of `chrono::ParseError`).
#[verifier::external_body]
fn time_error_text(e: &chrono::ParseError) -> String {
    e.to_string()
}

/// The message of a JSON error (`Display` of `serde_json::Error`).
#[verifier::external_body]
fn json_error_text(e: &serde_json::Error) -> String {
    e.to_string()
}

/// A history row as stored: texts, integers and bytes.
#[derive(Clone, Debug)]
pub struct StoredRow {
    pub id: String,
    pub created_at: String,
    pub last_used_at: String,
    pub content_hash: String,
    pub mime_types: String,
    pub text_plain: Option<String>,
    pub text_html: Option<String>,
    pub image_png: Option<Vec<u8>>,
    pub is_pinned: i64,
    pub is_favorite: i64,
    pub deleted_at: Option<String>,
}

/// A row as read from the database: the read of each column, which fails
/// when the column does not hold a value of the field's type.
#[derive(Debug)]
pub struct FetchedRow {
    pub id: Result<String, rusqlite::Error>,
    pub created_at: Result<String, rusqlite::Error>,
    pub last_used_at: Result<String, rusqlite::Error>,
    pub content_hash: Result<String, rusqlite::Error>,
    pub mime_types: Result<String, rusqlite::Error>,
    pub text_plain: Result<Option<String>, rusqlite::Error>,
    pub text_html: Result<Option<String>, rusqlite::Error>,
    pub image_png: Result<Option<Vec<u8>>, rusqlite::Error>,
    pub is_pinned: Result<i64, rusqlite::Error>,
    pub is_favorite: Result<i64, rusqlite::Error>,
    pub deleted_at: Result<Option<String>, rusqlite::Error>,
}

/// The row whose columns all read: the values read.
pub open spec fn fetched_row(f: FetchedRow) -> Option<StoredRow> {
    if f.id is Ok && f.created_at is Ok && f.last_used_at is Ok && f.content_hash is Ok
        && f.mime_types is Ok && f.text_plain is Ok && f.text_html is Ok && f.image_png is Ok
        && f.is_pinned is Ok && f.is_favorite is Ok && f.deleted_at is Ok {
        Some(
            StoredRow {
                id: f.id->Ok_0,
                created_at: f.created_at->Ok_0,
                last_used_at: f.last_used_at->Ok_0,
                content_hash: f.content_hash->Ok_0,
                mime_types: f.mime_types->Ok_0,
                text_plain: f.text_plain->Ok_0,
                text_html: f.text_html->Ok_0,
                image_png: f.image_png->Ok_0,
                is_pinned: f.is_pinned->Ok_0,
                is_favorite: f.is_favorite->Ok_0,
                deleted_at: f.deleted_at->Ok_0,
            },
        )
    } else {
        None
    }
}

/// A value bound to a statement parameter.
pub enum SqlValue {
    Text(Seq<char>),
    Integer(int),
    Blob(Seq<u8>),
    Null,
}

/// What was done on a history database, in order: opening it, setting its
/// lock wait, and each statement run with its parameters.
pub enum SqlCall {
    Open(Seq<char>),
    OpenInMemory,
    BusyTimeout(u64),
    Batch(Seq<char>),
    Execute(Seq<char>, Seq<SqlValue>),
    QueryRow(Seq<char>, Seq<SqlValue>),
    Query(Seq<char>, Seq<SqlValue>),
}

/// What the database gave back for a call, in the order of `calls`.
pub enum SqlAnswer {
    /// The call worked and gives nothing back.
    Done,
    /// The call failed.
    Failed,
    /// The statement changed this many rows.
    Changed(nat),
    /// The row read holds this text.
    Text(Seq<char>),
    /// The row read holds this integer.
    Integer(int),
    /// The query stepped through these rows.
    Rows(Seq<Result<FetchedRow, rusqlite::Error>>),
}

/// `after` is `before` with one more answer.
pub open spec fn one_more(before: Seq<SqlAnswer>, after: Seq<SqlAnswer>) -> bool {
    &&& after.len() == before.len() + 1
    &&& forall|i: int| 0 <= i < before.len() ==> after[i] == before[i]
}

/// `found` says whether the statement answered by `a` changed a row, or is
/// the SQLite error when it failed.
pub open spec fn found_answer(found: Result<bool, StorageError>, a: SqlAnswer) -> bool {
    match a {
        SqlAnswer::Changed(n) => found == Ok::<bool, StorageError>(n > 0),
        SqlAnswer::Failed => found matches Err(StorageError::Sqlite(_)),
        _ => false,
    }
}

/// `r` is what the lookup answered by `a` gives; see [`first_item_outcome`].
pub open spec fn lookup_answer(r: Result<Option<ClipboardItem>, StorageError>, a: SqlAnswer) -> bool {
    match a {
        SqlAnswer::Rows(rows) => first_item_outcome(rows, r),
        SqlAnswer::Failed => r matches Err(StorageError::Sqlite(_)),
        _ => false,
    }
}

/// `r` is what the search for `query` answered by `a` gives; see
/// [`search_outcome`].
pub open spec fn search_answer(query: Seq<char>, r: Result<Vec<ClipboardItem>, StorageError>, a: SqlAnswer) -> bool {
    match a {
        SqlAnswer::Rows(rows) => search_outcome(query, rows, r),
        SqlAnswer::Failed => r matches Err(StorageError::Sqlite(_)),
        _ => false,
    }
}

/// `r` is the id the upsert answered by `a` gives back, read as a UUID.
pub open spec fn upsert_answer(r: Result<u128, StorageError>, a: SqlAnswer) -> bool {
    match a {
        SqlAnswer::Text(t) => match uuid_value(t) {
            Some(v) => r == Ok::<u128, StorageError>(v),
            None => r matches Err(StorageError::Uuid(_)),
        },
        SqlAnswer::Failed => r matches Err(StorageError::Sqlite(_)),
        _ => false,
    }
}

/// Whether a statement changed a row, from the number of rows it changed.
pub fn found_from_count(n: usize) -> (found: bool)
    ensures
        found == (n > 0),
{
    n > 0
}

/// A text parameter, or `NULL` for none.
pub open spec fn text_or_null(o: Option<Seq<char>>) -> SqlValue {
    match o {
        Some(t) => SqlValue::Text(t),
        None => SqlValue::Null,
    }
}

/// A blob parameter, or `NULL` for none.
pub open spec fn blob_or_null(o: Option<Seq<u8>>) -> SqlValue {
    match o {
        Some(b) => SqlValue::Blob(b),
        None => SqlValue::Null,
    }
}

/// The eleven parameters that store the row `r`, in column order.
pub open spec fn row_params(r: StoredRow) -> Seq<SqlValue> {
    seq![
        SqlValue::Text(r.id@),
        SqlValue::Text(r.created_at@),
        SqlValue::Text(r.last_used_at@),
        SqlValue::Text(r.content_hash@),
        SqlValue::Text(r.mime_types@),
        text_or_null(opt_text_view(r.text_plain)),
        text_or_null(opt_text_view(r.text_html)),
        blob_or_null(opt_bytes_view(r.image_png)),
        SqlValue::Integer(r.is_pinned as int),
        SqlValue::Integer(r.is_favorite as int),
        text_or_null(opt_text_view(r.deleted_at)),
    ]
}

/// The eleven parameters that store `item`, in column order.
pub open spec fn item_params(item: ClipboardItem) -> Seq<SqlValue> {
    seq![
        SqlValue::Text(uuid_text(item.id)),
        SqlValue::Text(time_field(item.created_at)),
        SqlValue::Text(time_field(item.last_used_at)),
        SqlValue::Text(item.content_hash@),
        SqlValue::Text(json_string_list(item.mime_types@.map_values(|x: String| x@))),
        text_or_null(item.payload@.text_plain),
        text_or_null(item.payload@.text_html),
        blob_or_null(item.payload@.image_png),
        SqlValue::Integer(if item.is_pinned { 1 } else { 0 }),
        SqlValue::Integer(if item.is_favorite { 1 } else { 0 }),
        match item.deleted_at {
            Some(n) => SqlValue::Text(time_field(n)),
            None => SqlValue::Null,
        },
    ]
}

/// The upsert of `item`.
pub open spec fn upsert_call(item: ClipboardItem) -> SqlCall {
    SqlCall::QueryRow(UPSERT@, item_params(item))
}

/// The lookup of the item `id`.
pub open spec fn lookup_call(id: u128) -> SqlCall {
    SqlCall::Query(SELECT_BY_ID@, seq![SqlValue::Text(uuid_text(id))])
}

/// The read of the most recently used items.
pub open spec fn recent_call() -> SqlCall {
    SqlCall::Query(SELECT_RECENT@, Seq::empty())
}

/// Marking the item `id` deleted at `now`.
pub open spec fn soft_delete_call(id: u128, now: i128) -> SqlCall {
    SqlCall::Execute(SOFT_DELETE@, seq![SqlValue::Text(uuid_text(id)), SqlValue::Text(time_field(now))])
}

/// Recording the use of the item `id` at `now`.
pub open spec fn mark_used_call(id: u128, now: i128) -> SqlCall {
    SqlCall::Execute(MARK_USED@, seq![SqlValue::Text(uuid_text(id)), SqlValue::Text(time_field(now))])
}

/// `1` for true and `0` for false.
pub open spec fn flag_value(value: bool) -> SqlValue {
    SqlValue::Integer(if value { 1 } else { 0 })
}

/// Setting the pinned flag of the item `id` to `value`.
pub open spec fn set_pinned_call(id: u128, value: bool) -> SqlCall {
    SqlCall::Execute(SET_PINNED@, seq![SqlValue::Text(uuid_text(id)), flag_value(value)])
}

/// Setting the favorite flag of the item `id` to `value`.
pub open spec fn set_favorite_call(id: u128, value: bool) -> SqlCall {
    SqlCall::Execute(SET_FAVORITE@, seq![SqlValue::Text(uuid_text(id)), flag_value(value)])
}

/// Opens the database file with `rusqlite::Connection::open`.
#[verifier::external_body]
fn sqlite_open(path: &str) -> (r: Result<Repository, rusqlite::Error>)
    ensures
        r matches Ok(repo) ==> repo.calls() == seq![SqlCall::Open(path@)],
        r matches Ok(repo) ==> repo.answers() == seq![SqlAnswer::Done],
{
    Connection::open(path).map(|conn| Repository {
        conn,
        log: Ghost(seq![SqlCall::Open(path@)]),
        answered: Ghost(seq![SqlAnswer::Done]),
    })
}

/// Opens a private in-memory database with `rusqlite::Connection::open_in_memory`.
#[verifier::external_body]
fn sqlite_open_in_memory() -> (r: Result<Repository, rusqlite::Error>)
    ensures
        r matches Ok(repo) ==> repo.calls() == seq![SqlCall::OpenInMemory],
        r matches Ok(repo) ==> repo.answers() == seq![SqlAnswer::Done],
{
    Connection::open_in_memory().map(|conn| Repository {
        conn,
        log: Ghost(seq![SqlCall::OpenInMemory]),
        answered: Ghost(seq![SqlAnswer::Done]),
    })
}

/// Sets the lock wait with `rusqlite::Connection::busy_timeout`, which
/// panics on a wait of more than `i32::MAX` milliseconds.
#[verifier::external_body]
fn sqlite_busy_timeout(repo: &mut Repository, millis: u64) -> (r: Result<(), rusqlite::Error>)
    requires
        millis <= 2147483647,
    ensures
        final(repo).calls() == old(repo).calls().push(SqlCall::BusyTimeout(millis)),
        final(repo).answers() == old(repo).answers().push(
            if r is Ok {
                SqlAnswer::Done
            } else {
                SqlAnswer::Failed
            },
        ),
{
    repo.conn.busy_timeout(std::time::Duration::from_millis(millis))
}

/// Runs statements with `rusqlite::Connection::execute_batch`.
#[verifier::external_body]
fn sqlite_execute_batch(repo: &mut Repository, sql: &str) -> (r: Result<(), rusqlite::Error>)
    ensures
        final(repo).calls() == old(repo).calls().push(SqlCall::Batch(sql@)),
        final(repo).answers() == old(repo).answers().push(
            if r is Ok {
                SqlAnswer::Done
            } else {
                SqlAnswer::Failed
            },
        ),
{
    repo.conn.execute_batch(sql)
}

/// Runs a statement with two text parameters with
/// `rusqlite::Connection::execute`; gives the number of changed rows.
#[verifier::external_body]
fn sqlite_execute_texts(repo: &mut Repository, sql: &str, first: &str, second: &str) -> (r: Result<
    usize,
    rusqlite::Error,
>)
    ensures
        final(repo).calls() == old(repo).calls().push(
            SqlCall::Execute(sql@, seq![SqlValue::Text(first@), SqlValue::Text(second@)]),
        ),
        final(repo).answers() == old(repo).answers().push(
            match r {
                Ok(n) => SqlAnswer::Changed(n as nat),
                Err(_) => SqlAnswer::Failed,
            },
        ),
{
    repo.conn.execute(sql, (first, second))
}

/// Runs a statement with a text and an integer parameter with
/// `rusqlite::Connection::execute`; gives the number of changed rows.
#[verifier::external_body]
fn sqlite_execute_text_int(repo: &mut Repository, sql: &str, first: &str, second: i64) -> (r: Result<
    usize,
    rusqlite::Error,
>)
    ensures
        final(repo).calls() == old(repo).calls().push(
            SqlCall::Execute(sql@, seq![SqlValue::Text(first@), SqlValue::Integer(second as int)]),
        ),
        final(repo).answers() == old(repo).answers().push(
            match r {
                Ok(n) => SqlAnswer::Changed(n as nat),
                Err(_) => SqlAnswer::Failed,
            },
        ),
{
    repo.conn.execute(sql, (first, second))
}

/// Runs the row-returning statement `sql` (with the row's fields as its
/// eleven parameters) through `rusqlite::Connection::query_row`, and gives
/// the first column of the row it returns.
#[verifier::external_body]
fn sqlite_query_text(repo: &mut Repository, sql: &str, row: &StoredRow) -> (r: Result<String, rusqlite::Error>)
    ensures
        final(repo).calls() == old(repo).calls().push(SqlCall::QueryRow(sql@, row_params(*row))),
        final(repo).answers() == old(repo).answers().push(
            match r {
                Ok(t) => SqlAnswer::Text(t@),
                Err(_) => SqlAnswer::Failed,
            },
        ),
{
    repo.conn.query_row(
        sql,
        (&row.id, &row.created_at, &row.last_used_at, &row.content_hash, &row.mime_types,
            &row.text_plain, &row.text_html, &row.image_png, row.is_pinned, row.is_favorite,
            &row.deleted_at),
        |found| found.get::<_, String>(0),
    )
}

/// Runs the row-returning statement `sql` (without parameters) through
/// `rusqlite::Connection::query_row`, and gives the integer in the first
/// column of the row it returns.
#[verifier::external_body]
fn sqlite_query_int(repo: &mut Repository, sql: &str) -> (r: Result<i64, rusqlite::Error>)
    ensures
        final(repo).calls() == old(repo).calls().push(SqlCall::QueryRow(sql@, Seq::empty())),
        final(repo).answers() == old(repo).answers().push(
            match r {
                Ok(n) => SqlAnswer::Integer(n as int),
                Err(_) => SqlAnswer::Failed,
            },
        ),
{
    repo.conn.query_row(sql, [], |row| row.get::<_, i64>(0))
}

/// Runs the query `sql` (with `param` as its one parameter, if given)
/// through `rusqlite::Statement::query_map`; gives, for each row stepped to,
/// the reads of its eleven columns, and the error of a failed step.
#[verifier::external_body]
fn sqlite_query_rows(repo: &mut Repository, sql: &str, param: Option<&str>) -> (r: Result<
    Vec<Result<FetchedRow, rusqlite::Error>>,
    rusqlite::Error,
>)
    ensures
        final(repo).calls() == old(repo).calls().push(
            SqlCall::Query(
                sql@,
                match param {
                    Some(p) => seq![SqlValue::Text(p@)],
                    None => Seq::empty(),
                },
            ),
        ),
        final(repo).answers() == old(repo).answers().push(
            match r {
                Ok(rows) => SqlAnswer::Rows(rows@),
                Err(_) => SqlAnswer::Failed,
            },
        ),
{
    let mut stmt = repo.conn.prepare(sql)?;
    let rows = stmt.query_map(rusqlite::params_from_iter(param), |r| Ok(FetchedRow {
        id: r.get(0), created_at: r.get(1), last_used_at: r.get(2), content_hash: r.get(3),
        mime_types: r.get(4), text_plain: r.get(5), text_html: r.get(6), image_png: r.get(7),
        is_pinned: r.get(8), is_favorite: r.get(9), deleted_at: r.get(10),
    }))?;
    Ok(rows.collect())
}

/// A failed history access.
#[derive(Debug)]
pub enum StorageError {
    Sqlite(rusqlite::Error),
    Uuid(uuid::Error),
    Time(chrono::ParseError),
    TimeOutOfRange,
    Json(serde_json::Error),
}

impl StorageError {
    /// The error's message: the kind of error, then the outside library's
    /// description of it.
    pub fn message(&self) -> (m: String)
        ensures
            self is Sqlite ==> starts_with(m@, "sqlite error: "@),
            self is Uuid ==> starts_with(m@, "uuid parse error: "@),
            self is Time ==> starts_with(m@, "time parse error: "@),
            self is TimeOutOfRange ==> m@ == "time error: instant out of range"@,
            self is Json ==> starts_with(m@, "json error: "@),
    {
        proof {
            lemma_starts_with_concat("sqlite error: "@);
            lemma_starts_with_concat("uuid parse error: "@);
            lemma_starts_with_concat("time parse error: "@);
            lemma_starts_with_concat("json error: "@);
        }
        match self {
            StorageError::Sqlite(e) => {
                let mut m = String::from_str("sqlite error: ");
                m.append(sqlite_error_text(e).as_str());
                m
            },
            StorageError::Uuid(e) => {
                let mut m = String::from_str("uuid parse error: ");
                m.append(uuid_error_text(e).as_str());
                m
            },
            StorageError::Time(e) => {
                let mut m = String::from_str("time parse error: ");
                m.append(time_error_text(e).as_str());
                m
            },
            StorageError::TimeOutOfRange => String::from_str("time error: instant out of range"),
            StorageError::Json(e) => {
                let mut m = String::from_str("json error: ");
                m.append(json_error_text(e).as_str());
                m
            },
        }
    }
}

/// One second in nanoseconds.
pub open spec fn nanos_per_second() -> int {
    1_000_000_000
}

/// The first second of the year 0000, in seconds after the Unix epoch.
pub open spec fn first_second() -> int {
    -62167219200
}

/// The last second of the year 9999, in seconds after the Unix epoch.
pub open spec fn last_second() -> int {
    253402300799
}

/// The instant `nanos` nanoseconds after the Unix epoch lies in the years
/// 0000 to 9999, the instants whose stored text reads back.
pub open spec fn instant_readable(nanos: i128) -> bool {
    first_second() <= (nanos as int) / nanos_per_second() <= last_second()
}

/// Every time of `item` reads back once stored.
pub open spec fn times_readable(item: ClipboardItem) -> bool {
    &&& instant_readable(item.created_at)
    &&& instant_readable(item.last_used_at)
    &&& (item.deleted_at matches Some(n) ==> instant_readable(n))
}

/// The first second chrono can hold (`DateTime::<Utc>::MIN_UTC`), in
/// seconds after the Unix epoch.
pub open spec fn first_chrono_second() -> int {
    -8334601228800
}

/// The last second chrono can hold (`DateTime::<Utc>::MAX_UTC`), in seconds
/// after the Unix epoch.
pub open spec fn last_chrono_second() -> int {
    8210266876799
}

/// The instant `nanos` nanoseconds after the Unix epoch is one chrono can
/// hold, and so can be stored.
pub open spec fn instant_storable(nanos: i128) -> bool {
    first_chrono_second() <= (nanos as int) / nanos_per_second() <= last_chrono_second()
}

/// Every time of `item` can be stored.
pub open spec fn times_storable(item: ClipboardItem) -> bool {
    &&& instant_storable(item.created_at)
    &&& instant_storable(item.last_used_at)
    &&& (item.deleted_at matches Some(n) ==> instant_storable(n))
}

/// The stored text of the instant `nanos` nanoseconds after the Unix epoch.
pub open spec fn time_field(nanos: i128) -> Seq<char> {
    rfc3339_text(
        ((nanos as int) / nanos_per_second()) as i64,
        ((nanos as int) % nanos_per_second()) as u32,
    )
}

/// The instant a stored time holds, in nanoseconds after the Unix epoch, if
/// it is a valid one.
pub open spec fn time_of(s: Seq<char>) -> Option<i128> {
    match rfc3339_value(s) {
        Some((secs, subsec)) => Some((secs * nanos_per_second() + subsec) as i128),
        None => None,
    }
}

/// The seconds and nanoseconds within the second of the instant `nanos`
/// nanoseconds after the Unix epoch; `None` when the seconds do not fit in
/// an `i64`.
fn split_instant(nanos: i128) -> (r: Option<(i64, u32)>)
    ensures
        match r {
            Some((secs, subsec)) => secs == (nanos as int) / nanos_per_second() && subsec == (
                nanos as int) % nanos_per_second(),
            None => !(i64::MIN <= (nanos as int) / nanos_per_second() <= i64::MAX),
        },
{
    let d: u128 = 1_000_000_000;
    if nanos >= 0 {
        let m = nanos as u128;
        let q = m / d;
        let rem = m % d;
        proof {
            vstd::arithmetic::div_mod::lemma_fundamental_div_mod(m as int, d as int);
            vstd::arithmetic::div_mod::lemma_fundamental_div_mod_converse(
                nanos as int,
                d as int,
                q as int,
                rem as int,
            );
        }
        if q > 0x7fff_ffff_ffff_ffffu128 {
            None
        } else {
            Some((q as i64, rem as u32))
        }
    } else {
        let m = (-(nanos + 1)) as u128;
        let q0 = m / d;
        let r0 = m % d;
        proof {
            vstd::arithmetic::div_mod::lemma_fundamental_div_mod(m as int, d as int);
            assert(nanos == (-(q0 as int) - 1) * (d as int) + ((d - 1 - r0) as int)) by (nonlinear_arith)
                requires
                    nanos == -(m as int) - 1,
                    m == (d as int) * (q0 as int) + (r0 as int),
            ;
            vstd::arithmetic::div_mod::lemma_fundamental_div_mod_converse(
                nanos as int,
                d as int,
                -(q0 as int) - 1,
                (d - 1 - r0) as int,
            );
        }
        if q0 > 0x7fff_ffff_ffff_ffffu128 {
            None
        } else {
            Some((-(q0 as i64) - 1, (d - 1 - r0) as u32))
        }
    }
}

/// The stored text of the instant `nanos` nanoseconds after the Unix epoch;
/// `None` when chrono cannot hold it. The text reads back for an instant in
/// the years 0000 to 9999.
fn format_instant(nanos: i128) -> (r: Option<String>)
    ensures
        r is Some <==> instant_storable(nanos),
        r matches Some(s) ==> s@ == time_field(nanos),
        instant_readable(nanos) ==> (r matches Some(s) ==> time_of(s@) == Some(nanos)),
{
    match split_instant(nanos) {
        Some((secs, subsec)) => {
            if secs < -8334601228800i64 || secs > 8210266876799i64 {
                return None;
            }
            let r = format_rfc3339(secs, subsec);
            proof {
                vstd::arithmetic::div_mod::lemma_fundamental_div_mod(
                    nanos as int,
                    nanos_per_second(),
                );
            }
            r
        },
        None => None,
    }
}

/// Whether every field of a stored row can be read back.
pub open spec fn row_readable(r: StoredRow) -> bool {
    &&& uuid_value(r.id@) is Some
    &&& time_of(r.created_at@) is Some
    &&& time_of(r.last_used_at@) is Some
    &&& json_string_list_value(r.mime_types@) is Some
    &&& (r.deleted_at matches Some(d) ==> time_of(d@) is Some)
}

/// The item read from a readable stored row.
pub open spec fn row_item_matches(r: StoredRow, item: ClipboardItem) -> bool {
    &&& uuid_value(r.id@) == Some(item.id)
    &&& time_of(r.created_at@) == Some(item.created_at)
    &&& time_of(r.last_used_at@) == Some(item.last_used_at)
    &&& item.content_hash@ == r.content_hash@
    &&& json_string_list_value(r.mime_types@) == Some(
        item.mime_types@.map_values(|x: String| x@),
    )
    &&& opt_text_view(item.payload.text_plain) == opt_text_view(r.text_plain)
    &&& opt_text_view(item.payload.text_html) == opt_text_view(r.text_html)
    &&& opt_bytes_view(item.payload.image_png) == opt_bytes_view(r.image_png)
    &&& item.is_pinned == (r.is_pinned != 0)
    &&& item.is_favorite == (r.is_favorite != 0)
    &&& match (item.deleted_at, r.deleted_at) {
        (None, None) => true,
        (Some(n), Some(d)) => time_of(d@) == Some(n),
        _ => false,
    }
}

/// The stored row written for an item.
pub open spec fn item_row_matches(item: ClipboardItem, r: StoredRow) -> bool {
    &&& r.id@ == uuid_text(item.id)
    &&& r.created_at@ == time_field(item.created_at)
    &&& r.last_used_at@ == time_field(item.last_used_at)
    &&& r.content_hash@ == item.content_hash@
    &&& r.mime_types@ == json_string_list(item.mime_types@.map_values(|x: String| x@))
    &&& opt_text_view(r.text_plain) == opt_text_view(item.payload.text_plain)
    &&& opt_text_view(r.text_html) == opt_text_view(item.payload.text_html)
    &&& opt_bytes_view(r.image_png) == opt_bytes_view(item.payload.image_png)
    &&& r.is_pinned == (if item.is_pinned { 1i64 } else { 0i64 })
    &&& r.is_favorite == (if item.is_favorite { 1i64 } else { 0i64 })
    &&& match (item.deleted_at, r.deleted_at) {
        (None, None) => true,
        (Some(n), Some(d)) => d@ == time_field(n),
        _ => false,
    }
}

fn read_time(s: &str) -> (r: Result<i128, StorageError>)
    ensures
        r is Ok <==> time_of(s@) is Some,
        r matches Ok(n) ==> time_of(s@) == Some(n),
        r matches Err(e) ==> time_failure(s@, e),
{
    match parse_rfc3339(s) {
        Ok((secs, subsec)) => Ok(secs as i128 * 1_000_000_000 + subsec as i128),
        Err(e) => Err(StorageError::Time(e)),
    }
}

/// The error reading the stored time `s` gives: `Time`, when it is not
/// RFC 3339.
pub open spec fn time_failure(s: Seq<char>, e: StorageError) -> bool {
    match rfc3339_value(s) {
        None => e is Time,
        Some(_) => false,
    }
}

/// `e` is the error of the failed column read `c`.
pub open spec fn read_error<T>(c: Result<T, rusqlite::Error>, e: StorageError) -> bool {
    match c {
        Err(se) => e == StorageError::Sqlite(se),
        Ok(_) => false,
    }
}

/// The error reading the row `f` gives, in the order the reads and checks
/// are made: the id, created, last used, MIME types and deleted columns are
/// read; the id and the two times are checked; the content hash is read;
/// the MIME types are checked; the payload and flag columns are read; the
/// deleted time is checked.
pub open spec fn read_failure(f: FetchedRow, e: StorageError) -> bool {
    if f.id is Err {
        read_error(f.id, e)
    } else if f.created_at is Err {
        read_error(f.created_at, e)
    } else if f.last_used_at is Err {
        read_error(f.last_used_at, e)
    } else if f.mime_types is Err {
        read_error(f.mime_types, e)
    } else if f.deleted_at is Err {
        read_error(f.deleted_at, e)
    } else if uuid_value((f.id->Ok_0)@) is None {
        e is Uuid
    } else if time_of((f.created_at->Ok_0)@) is None {
        time_failure((f.created_at->Ok_0)@, e)
    } else if time_of((f.last_used_at->Ok_0)@) is None {
        time_failure((f.last_used_at->Ok_0)@, e)
    } else if f.content_hash is Err {
        read_error(f.content_hash, e)
    } else if json_string_list_value((f.mime_types->Ok_0)@) is None {
        e is Json
    } else if f.text_plain is Err {
        read_error(f.text_plain, e)
    } else if f.text_html is Err {
        read_error(f.text_html, e)
    } else if f.image_png is Err {
        read_error(f.image_png, e)
    } else if f.is_pinned is Err {
        read_error(f.is_pinned, e)
    } else if f.is_favorite is Err {
        read_error(f.is_favorite, e)
    } else {
        match f.deleted_at->Ok_0 {
            Some(d) => time_failure(d@, e),
            None => false,
        }
    }
}

/// The row `f` reads as a stored row every field of which can be read back.
pub open spec fn fetched_readable(f: FetchedRow) -> bool {
    fetched_row(f) matches Some(row) && row_readable(row)
}

/// The item a row read from the database holds; an error when a column
/// cannot be read or a field cannot be read back; see [`read_failure`].
pub fn row_to_item(row: FetchedRow) -> (r: Result<ClipboardItem, StorageError>)
    ensures
        r is Ok <==> fetched_readable(row),
        r matches Ok(item) ==> fetched_row(row) matches Some(stored) && row_item_matches(
            stored,
            item,
        ),
        r matches Err(e) ==> read_failure(row, e),
{
    let ghost f = row;
    let id = match row.id {
        Ok(v) => v,
        Err(e) => return Err(StorageError::Sqlite(e)),
    };
    let created_at = match row.created_at {
        Ok(v) => v,
        Err(e) => return Err(StorageError::Sqlite(e)),
    };
    let last_used_at = match row.last_used_at {
        Ok(v) => v,
        Err(e) => return Err(StorageError::Sqlite(e)),
    };
    let mime_types = match row.mime_types {
        Ok(v) => v,
        Err(e) => return Err(StorageError::Sqlite(e)),
    };
    let deleted_at = match row.deleted_at {
        Ok(v) => v,
        Err(e) => return Err(StorageError::Sqlite(e)),
    };
    let id = match parse_uuid(id.as_str()) {
        Ok(v) => v,
        Err(e) => return Err(StorageError::Uuid(e)),
    };
    let created_at = match read_time(created_at.as_str()) {
        Ok(n) => n,
        Err(e) => return Err(e),
    };
    let last_used_at = match read_time(last_used_at.as_str()) {
        Ok(n) => n,
        Err(e) => return Err(e),
    };
    let content_hash = match row.content_hash {
        Ok(v) => v,
        Err(e) => return Err(StorageError::Sqlite(e)),
    };
    let mime_types = match list_from_json(mime_types.as_str()) {
        Ok(v) => v,
        Err(e) => return Err(StorageError::Json(e)),
    };
    let text_plain = match row.text_plain {
        Ok(v) => v,
        Err(e) => return Err(StorageError::Sqlite(e)),
    };
    let text_html = match row.text_html {
        Ok(v) => v,
        Err(e) => return Err(StorageError::Sqlite(e)),
    };
    let image_png = match row.image_png {
        Ok(v) => v,
        Err(e) => return Err(StorageError::Sqlite(e)),
    };
    let is_pinned = match row.is_pinned {
        Ok(v) => v,
        Err(e) => return Err(StorageError::Sqlite(e)),
    };
    let is_favorite = match row.is_favorite {
        Ok(v) => v,
        Err(e) => return Err(StorageError::Sqlite(e)),
    };
    let deleted_at = match deleted_at {
        Some(d) => match read_time(d.as_str()) {
            Ok(n) => Some(n),
            Err(e) => return Err(e),
        },
        None => None,
    };
    Ok(ClipboardItem {
        id,
        created_at,
        last_used_at,
        content_hash,
        mime_types,
        payload: ClipboardPayload { text_plain, text_html, image_png },
        is_pinned: is_pinned != 0,
        is_favorite: is_favorite != 0,
        deleted_at,
    })
}

/// The stored row for an item, which reads back as the item when its times
/// lie in the years 0000 to 9999; `TimeOutOfRange` when one of its times is
/// outside chrono's range.
pub fn item_to_row(item: &ClipboardItem) -> (r: Result<StoredRow, StorageError>)
    ensures
        r is Ok <==> times_storable(*item),
        r matches Ok(row) ==> item_row_matches(*item, row) && row_params(row) == item_params(
            *item,
        ),
        times_readable(*item) ==> (r matches Ok(row) ==> row_item_matches(row, *item)),
        r is Err ==> r matches Err(StorageError::TimeOutOfRange),
{
    let mime_types = match list_to_json(&item.mime_types) {
        Ok(s) => s,
        Err(e) => return Err(StorageError::Json(e)),
    };
    let payload = item.payload.duplicate();
    let deleted_at = match item.deleted_at {
        Some(n) => match format_instant(n) {
            Some(t) => Some(t),
            None => return Err(StorageError::TimeOutOfRange),
        },
        None => None,
    };
    let created_at = match format_instant(item.created_at) {
        Some(t) => t,
        None => return Err(StorageError::TimeOutOfRange),
    };
    let last_used_at = match format_instant(item.last_used_at) {
        Some(t) => t,
        None => return Err(StorageError::TimeOutOfRange),
    };
    Ok(StoredRow {
        id: uuid_to_text(item.id),
        created_at,
        last_used_at,
        content_hash: item.content_hash.clone(),
        mime_types,
        text_plain: payload.text_plain,
        text_html: payload.text_html,
        image_png: payload.image_png,
        is_pinned: if item.is_pinned {
            1
        } else {
            0
        },
        is_favorite: if item.is_favorite {
            1
        } else {
            0
        },
        deleted_at,
    })
}

/// Reading back a row that holds `item`, as the row `item_to_row` writes for
/// it does, gives an item with the same contents.
pub proof fn lemma_row_round_trip(item: ClipboardItem, row: StoredRow, back: ClipboardItem)
    requires
        row_item_matches(row, item),
        row_item_matches(row, back),
    ensures
        row_readable(row),
        back.id == item.id,
        back.created_at == item.created_at,
        back.last_used_at == item.last_used_at,
        back.content_hash@ == item.content_hash@,
        back.mime_types@.map_values(|x: String| x@) == item.mime_types@.map_values(
            |x: String| x@,
        ),
        back.payload@ == item.payload@,
        back.is_pinned == item.is_pinned,
        back.is_favorite == item.is_favorite,
        back.deleted_at == item.deleted_at,
{
}

pub const MIGRATION: &'static str = "CREATE TABLE IF NOT EXISTS clipboard_items (
    id TEXT PRIMARY KEY,
    created_at TEXT NOT NULL,
    last_used_at TEXT NOT NULL,
    content_hash TEXT NOT NULL UNIQUE,
    mime_types TEXT NOT NULL,
    text_plain TEXT,
    text_html TEXT,
    image_png BLOB,
    is_pinned INTEGER NOT NULL DEFAULT 0,
    is_favorite INTEGER NOT NULL DEFAULT 0,
    deleted_at TEXT
);
CREATE INDEX IF NOT EXISTS idx_clipboard_items_last_used
ON clipboard_items(last_used_at DESC);
CREATE INDEX IF NOT EXISTS idx_clipboard_items_deleted
ON clipboard_items(deleted_at);";

pub const UPSERT: &'static str = "INSERT INTO clipboard_items
    (id, created_at, last_used_at, content_hash, mime_types, text_plain, text_html, image_png, is_pinned, is_favorite, deleted_at)
    VALUES (?1, ?2, ?3, ?4, ?5, ?6, ?7, ?8, ?9, ?10, ?11)
    ON CONFLICT(content_hash) DO UPDATE SET
        last_used_at = excluded.last_used_at,
        mime_types = excluded.mime_types,
        text_plain = excluded.text_plain,
        text_html = excluded.text_html,
        image_png = excluded.image_png,
        deleted_at = NULL
    RETURNING id";

pub const SELECT_BY_ID: &'static str = "SELECT id, created_at, last_used_at, content_hash, mime_types, text_plain, text_html, image_png, is_pinned, is_favorite, deleted_at
    FROM clipboard_items WHERE id = ?1";

pub const SELECT_RECENT: &'static str = "SELECT id, created_at, last_used_at, content_hash, mime_types, text_plain, text_html, image_png, is_pinned, is_favorite, deleted_at
    FROM clipboard_items WHERE deleted_at IS NULL ORDER BY last_used_at DESC LIMIT 500";

pub const SOFT_DELETE: &'static str = "UPDATE clipboard_items SET deleted_at = ?2 WHERE id = ?1";

pub const MARK_USED: &'static str = "UPDATE clipboard_items SET last_used_at = ?2 WHERE id = ?1";

pub const SET_PINNED: &'static str = "UPDATE clipboard_items SET is_pinned = ?2 WHERE id = ?1";

pub const SET_FAVORITE: &'static str = "UPDATE clipboard_items SET is_favorite = ?2 WHERE id = ?1";

pub const JOURNAL_WAL: &'static str = "PRAGMA journal_mode = WAL;";

pub const BUSY_TIMEOUT_QUERY: &'static str = "PRAGMA busy_timeout";

/// `e` is the error the row step `x` gives: the step's own error, or that
/// of reading the row.
pub open spec fn step_failure(x: Result<FetchedRow, rusqlite::Error>, e: StorageError) -> bool {
    match x {
        Err(se) => e == StorageError::Sqlite(se),
        Ok(f) => read_failure(f, e),
    }
}

/// The row step `x` gave a row that reads back.
pub open spec fn step_readable(x: Result<FetchedRow, rusqlite::Error>) -> bool {
    x matches Ok(f) && fetched_readable(f)
}

/// The stored row the step `x` gave, when it did.
pub open spec fn step_row(x: Result<FetchedRow, rusqlite::Error>) -> StoredRow {
    fetched_row(x->Ok_0)->Some_0
}

/// What reading the first of the rows `rows` found for an id gives: no item
/// for no row, the item of the first row when it reads back, and the error
/// of its step or read otherwise.
pub open spec fn first_item_outcome(
    rows: Seq<Result<FetchedRow, rusqlite::Error>>,
    r: Result<Option<ClipboardItem>, StorageError>,
) -> bool {
    if rows.len() == 0 {
        r matches Ok(None)
    } else if step_readable(rows[0]) {
        r matches Ok(Some(item)) && row_item_matches(step_row(rows[0]), item)
    } else {
        r matches Err(e) && step_failure(rows[0], e)
    }
}

/// The item of the first of `rows`, the rows found for one id; see
/// [`first_item_outcome`].
pub fn first_item(rows: Vec<Result<FetchedRow, rusqlite::Error>>) -> (r: Result<
    Option<ClipboardItem>,
    StorageError,
>)
    ensures
        first_item_outcome(rows@, r),
{
    let mut rows = rows;
    if rows.len() == 0 {
        return Ok(None);
    }
    match rows.swap_remove(0) {
        Ok(row) => match row_to_item(row) {
            Ok(item) => Ok(Some(item)),
            Err(e) => Err(e),
        },
        Err(e) => Err(StorageError::Sqlite(e)),
    }
}

/// What searching the rows `rows` for `query` gives: when every row reads
/// back, the ranked matches among their items; otherwise the error of the
/// first row that does not.
pub open spec fn search_outcome(
    query: Seq<char>,
    rows: Seq<Result<FetchedRow, rusqlite::Error>>,
    r: Result<Vec<ClipboardItem>, StorageError>,
) -> bool {
    if forall|i: int| 0 <= i < rows.len() ==> step_readable(#[trigger] rows[i]) {
        r matches Ok(found) && exists|items: Seq<ClipboardItem>|
            {
                &&& items.len() == rows.len()
                &&& forall|i: int|
                    0 <= i < rows.len() ==> row_item_matches(step_row(#[trigger] rows[i]), items[i])
                &&& found@ == ranked(query, items)
            }
    } else {
        r matches Err(e) && exists|k: int|
            {
                &&& 0 <= k < rows.len()
                &&& forall|j: int| 0 <= j < k ==> step_readable(#[trigger] rows[j])
                &&& step_failure(rows[k], e)
            }
    }
}

/// The items shown for `query` among the items the rows `rows` hold, read
/// in order; see [`search_outcome`].
pub fn search_rows(query: &str, rows: Vec<Result<FetchedRow, rusqlite::Error>>) -> (r: Result<
    Vec<ClipboardItem>,
    StorageError,
>)
    ensures
        search_outcome(query@, rows@, r),
{
    let ghost all = rows@;
    let mut items: Vec<ClipboardItem> = Vec::new();
    for step in it: rows
        invariant
            it.seq() == all,
            items@.len() == it.index(),
            forall|i: int| 0 <= i < it.index() ==> step_readable(#[trigger] all[i]),
            forall|i: int|
                0 <= i < it.index() ==> row_item_matches(step_row(#[trigger] all[i]), items@[i]),
    {
        let ghost k = it.index() as int;
        match step {
            Ok(row) => match row_to_item(row) {
                Ok(item) => items.push(item),
                Err(e) => {
                    proof {
                        assert(!step_readable(all[k]));
                        assert(step_failure(all[k], e));
                    }
                    return Err(e);
                },
            },
            Err(e) => {
                proof {
                    assert(!step_readable(all[k]));
                    assert(step_failure(all[k], StorageError::Sqlite(e)));
                }
                return Err(StorageError::Sqlite(e));
            },
        }
    }
    let found = rank_items(query, items);
    proof {
        assert(items@.len() == all.len());
    }
    Ok(found)
}

/// The id text the upsert gave back, read as a UUID.
pub fn stored_id(text: &str) -> (r: Result<u128, StorageError>)
    ensures
        r is Ok <==> uuid_value(text@) is Some,
        r matches Ok(v) ==> uuid_value(text@) == Some(v),
        r is Err ==> r matches Err(StorageError::Uuid(_)),
{
    match parse_uuid(text) {
        Ok(id) => Ok(id),
        Err(e) => Err(StorageError::Uuid(e)),
    }
}

/// The clipboard history, kept in a SQLite database.
///
/// Each item is stored once per content hash; storing a payload that is
/// already there updates the stored item instead of adding one. `calls`
/// records what was done on the database.
pub struct Repository {
    conn: Connection,
    log: Ghost<Seq<SqlCall>>,
    answered: Ghost<Seq<SqlAnswer>>,
}

impl Repository {
    /// What was done on the database since it was opened, in order.
    pub closed spec fn calls(&self) -> Seq<SqlCall> {
        self.log@
    }

    /// What the database gave back for each of `calls`, in order.
    pub closed spec fn answers(&self) -> Seq<SqlAnswer> {
        self.answered@
    }

    /// Opens (creating if needed) the history database at `path`, in
    /// write-ahead-log mode.
    pub fn open(path: &str) -> (r: Result<Self, StorageError>)
        ensures
            r matches Ok(repo) ==> repo.calls() == seq![
                SqlCall::Open(path@),
                SqlCall::BusyTimeout(BUSY_TIMEOUT_MS),
                SqlCall::Batch(JOURNAL_WAL@),
                SqlCall::Batch(MIGRATION@),
            ],
            r matches Ok(repo) ==> repo.answers() == seq![
                SqlAnswer::Done,
                SqlAnswer::Done,
                SqlAnswer::Done,
                SqlAnswer::Done,
            ],
            r is Err ==> r matches Err(StorageError::Sqlite(_)),
    {
        let mut repo = match sqlite_open(path) {
            Ok(repo) => repo,
            Err(e) => return Err(StorageError::Sqlite(e)),
        };
        if let Err(e) = configure_connection(&mut repo, true) {
            return Err(e);
        }
        match repo.migrate() {
            Ok(()) => Ok(repo),
            Err(e) => Err(e),
        }
    }

    /// Opens a private history held in memory.
    pub fn open_in_memory() -> (r: Result<Self, StorageError>)
        ensures
            r matches Ok(repo) ==> repo.calls() == seq![
                SqlCall::OpenInMemory,
                SqlCall::BusyTimeout(BUSY_TIMEOUT_MS),
                SqlCall::Batch(MIGRATION@),
            ],
            r matches Ok(repo) ==> repo.answers() == seq![
                SqlAnswer::Done,
                SqlAnswer::Done,
                SqlAnswer::Done,
            ],
            r is Err ==> r matches Err(StorageError::Sqlite(_)),
    {
        let mut repo = match sqlite_open_in_memory() {
            Ok(repo) => repo,
            Err(e) => return Err(StorageError::Sqlite(e)),
        };
        if let Err(e) = configure_connection(&mut repo, false) {
            return Err(e);
        }
        match repo.migrate() {
            Ok(()) => Ok(repo),
            Err(e) => Err(e),
        }
    }

    fn migrate(&mut self) -> (r: Result<(), StorageError>)
        ensures
            final(self).calls() == old(self).calls().push(SqlCall::Batch(MIGRATION@)),
            r is Ok ==> final(self).answers() == old(self).answers().push(SqlAnswer::Done),
            r is Err ==> r matches Err(StorageError::Sqlite(_)),
    {
        match sqlite_execute_batch(self, MIGRATION) {
            Ok(()) => Ok(()),
            Err(e) => Err(StorageError::Sqlite(e)),
        }
    }

    /// The lock wait the connection has, in milliseconds (`PRAGMA
    /// busy_timeout`).
    pub fn busy_timeout_ms(&mut self) -> (r: Result<i64, StorageError>)
        ensures
            final(self).calls() == old(self).calls().push(
                SqlCall::QueryRow(BUSY_TIMEOUT_QUERY@, Seq::empty()),
            ),
            one_more(old(self).answers(), final(self).answers()),
            match final(self).answers().last() {
                SqlAnswer::Integer(n) => r matches Ok(v) && v == n,
                _ => r matches Err(StorageError::Sqlite(_)),
            },
    {
        match sqlite_query_int(self, BUSY_TIMEOUT_QUERY) {
            Ok(n) => Ok(n),
            Err(e) => Err(StorageError::Sqlite(e)),
        }
    }

    /// Stores `item`, or, when an item with the same content hash is stored,
    /// updates that one (its last use, MIME types and payload, and undeletes
    /// it); gives the id of the stored item, as the database gives it back.
    /// `TimeOutOfRange`, with nothing done, when a time of the item cannot
    /// be stored.
    pub fn upsert_item(&mut self, item: &ClipboardItem) -> (r: Result<u128, StorageError>)
        ensures
            times_storable(*item) ==> final(self).calls() == old(self).calls().push(
                upsert_call(*item),
            ),
            !times_storable(*item) ==> (r matches Err(StorageError::TimeOutOfRange)
                && final(self).calls() == old(self).calls()),
            times_storable(*item) ==> !(r matches Err(StorageError::TimeOutOfRange)),
            times_storable(*item) ==> one_more(old(self).answers(), final(self).answers())
                && upsert_answer(r, final(self).answers().last()),
            !times_storable(*item) ==> final(self).answers() == old(self).answers(),
            r is Err ==> (r matches Err(StorageError::Sqlite(_)) || r matches Err(
                StorageError::Uuid(_),
            ) || r matches Err(StorageError::TimeOutOfRange)),
    {
        let row = match item_to_row(item) {
            Ok(row) => row,
            Err(e) => return Err(e),
        };
        let id_text = match sqlite_query_text(self, UPSERT, &row) {
            Ok(t) => t,
            Err(e) => return Err(StorageError::Sqlite(e)),
        };
        stored_id(id_text.as_str())
    }

    /// The stored item `id`, deleted or not.
    pub fn get_item(&mut self, id: u128) -> (r: Result<Option<ClipboardItem>, StorageError>)
        ensures
            final(self).calls() == old(self).calls().push(lookup_call(id)),
            one_more(old(self).answers(), final(self).answers()),
            lookup_answer(r, final(self).answers().last()),
    {
        let id_text = uuid_to_text(id);
        let rows = match sqlite_query_rows(self, SELECT_BY_ID, Some(id_text.as_str())) {
            Ok(rows) => rows,
            Err(e) => return Err(StorageError::Sqlite(e)),
        };
        first_item(rows)
    }

    /// The items shown for `query` among the 500 most recently used items
    /// that are not deleted; see [`rank_items`].
    pub fn search(&mut self, query: &str) -> (r: Result<Vec<ClipboardItem>, StorageError>)
        ensures
            final(self).calls() == old(self).calls().push(recent_call()),
            one_more(old(self).answers(), final(self).answers()),
            search_answer(query@, r, final(self).answers().last()),
    {
        let rows = match sqlite_query_rows(self, SELECT_RECENT, None) {
            Ok(rows) => rows,
            Err(e) => return Err(StorageError::Sqlite(e)),
        };
        search_rows(query, rows)
    }

    /// Marks the item `id` deleted at `now` (nanoseconds since the Unix
    /// epoch); false when there is no such item. `TimeOutOfRange`, with
    /// nothing done, when `now` cannot be stored.
    pub fn soft_delete(&mut self, id: u128, now: i128) -> (r: Result<bool, StorageError>)
        ensures
            instant_storable(now) ==> final(self).calls() == old(self).calls().push(
                soft_delete_call(id, now),
            ),
            instant_storable(now) ==> one_more(old(self).answers(), final(self).answers())
                && found_answer(r, final(self).answers().last()),
            !instant_storable(now) ==> final(self).answers() == old(self).answers(),
            !instant_storable(now) ==> (r matches Err(StorageError::TimeOutOfRange)
                && final(self).calls() == old(self).calls()),
            r is Err ==> (r matches Err(StorageError::Sqlite(_)) || r matches Err(
                StorageError::TimeOutOfRange,
            )),
    {
        let id_text = uuid_to_text(id);
        let now = match format_instant(now) {
            Some(t) => t,
            None => return Err(StorageError::TimeOutOfRange),
        };
        match sqlite_execute_texts(self, SOFT_DELETE, id_text.as_str(), now.as_str()) {
            Ok(n) => Ok(found_from_count(n)),
            Err(e) => Err(StorageError::Sqlite(e)),
        }
    }

    /// Records that the item `id` was used at `now` (nanoseconds since the
    /// Unix epoch); false when there is no such item. `TimeOutOfRange`, with
    /// nothing done, when `now` cannot be stored.
    pub fn mark_used(&mut self, id: u128, now: i128) -> (r: Result<bool, StorageError>)
        ensures
            instant_storable(now) ==> final(self).calls() == old(self).calls().push(
                mark_used_call(id, now),
            ),
            instant_storable(now) ==> one_more(old(self).answers(), final(self).answers())
                && found_answer(r, final(self).answers().last()),
            !instant_storable(now) ==> final(self).answers() == old(self).answers(),
            !instant_storable(now) ==> (r matches Err(StorageError::TimeOutOfRange)
                && final(self).calls() == old(self).calls()),
            r is Err ==> (r matches Err(StorageError::Sqlite(_)) || r matches Err(
                StorageError::TimeOutOfRange,
            )),
    {
        let id_text = uuid_to_text(id);
        let now = match format_instant(now) {
            Some(t) => t,
            None => return Err(StorageError::TimeOutOfRange),
        };
        match sqlite_execute_texts(self, MARK_USED, id_text.as_str(), now.as_str()) {
            Ok(n) => Ok(found_from_count(n)),
            Err(e) => Err(StorageError::Sqlite(e)),
        }
    }

    /// Sets the pinned flag of the item `id`; false when there is no such item.
    pub fn set_pinned(&mut self, id: u128, value: bool) -> (r: Result<bool, StorageError>)
        ensures
            final(self).calls() == old(self).calls().push(set_pinned_call(id, value)),
            one_more(old(self).answers(), final(self).answers()),
            found_answer(r, final(self).answers().last()),
            r is Err ==> r matches Err(StorageError::Sqlite(_)),
    {
        self.set_flag(SET_PINNED, id, value)
    }

    /// Sets the favorite flag of the item `id`; false when there is no such
    /// item.
    pub fn set_favorite(&mut self, id: u128, value: bool) -> (r: Result<bool, StorageError>)
        ensures
            final(self).calls() == old(self).calls().push(set_favorite_call(id, value)),
            one_more(old(self).answers(), final(self).answers()),
            found_answer(r, final(self).answers().last()),
            r is Err ==> r matches Err(StorageError::Sqlite(_)),
    {
        self.set_flag(SET_FAVORITE, id, value)
    }

    fn set_flag(&mut self, sql: &str, id: u128, value: bool) -> (r: Result<bool, StorageError>)
        ensures
            final(self).calls() == old(self).calls().push(
                SqlCall::Execute(sql@, seq![SqlValue::Text(uuid_text(id)), flag_value(value)]),
            ),
            one_more(old(self).answers(), final(self).answers()),
            found_answer(r, final(self).answers().last()),
            r is Err ==> r matches Err(StorageError::Sqlite(_)),
    {
        let id_text = uuid_to_text(id);
        let flag: i64 = if value {
            1
        } else {
            0
        };
        match sqlite_execute_text_int(self, sql, id_text.as_str(), flag) {
            Ok(n) => Ok(found_from_count(n)),
            Err(e) => Err(StorageError::Sqlite(e)),
        }
    }
}

fn configure_connection(repo: &mut Repository, file_backed: bool) -> (r: Result<(), StorageError>)
    ensures
        r is Ok ==> final(repo).calls() == old(repo).calls().push(SqlCall::BusyTimeout(BUSY_TIMEOUT_MS))
            + if file_backed {
            seq![SqlCall::Batch(JOURNAL_WAL@)]
        } else {
            Seq::empty()
        },
        r is Ok ==> final(repo).answers() == old(repo).answers().push(SqlAnswer::Done)
            + if file_backed {
            seq![SqlAnswer::Done]
        } else {
            Seq::empty()
        },
        r is Err ==> r matches Err(StorageError::Sqlite(_)),
{
    if let Err(e) = sqlite_busy_timeout(repo, BUSY_TIMEOUT_MS) {
        return Err(StorageError::Sqlite(e));
    }
    if file_backed {
        if let Err(e) = sqlite_execute_batch(repo, JOURNAL_WAL) {
            return Err(StorageError::Sqlite(e));
        }
    }
    Ok(())
}

} // verus!
