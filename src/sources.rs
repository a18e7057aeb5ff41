use vstd::prelude::*;
use vstd::string::StringExecFns;

use rusqlite::types::ValueRef;
use rusqlite::{Connection, OpenFlags, Statement, ToSql};

use crate::data_type::{type_code, DataType};
use crate::error::Error;
use crate::frame::{encodable, encoded, Fragment};
use crate::pyramid::{
    detail_zoom, detail_zoom_spec, normalize, opt_text, selector_spec, Selector, TileQuery,
    MAX_STORAGE_ZOOM,
};
use crate::scan::{flatten, scan_complete, scan_done, ScanState};

verus! {

/// Rows of the tiles table with the given detail zoom, geometry code, key and
/// value whose tile is exactly `(x, y, z)`.
pub const EXACT_TILE_QUERY: &'static str = "SELECT x, y, z, data FROM tiles WHERE detail_zoom = ?1 AND object_type = ?2 AND osm_key = ?3 AND osm_value = ?4 AND x = ?5 AND y = ?6 AND z = ?7";

/// Rows of the tiles table with the given detail zoom, geometry code, key and
/// value whose tile lies in `[left, right) x [top, bottom)` at zoom `z`.
pub const RANGE_TILE_QUERY: &'static str = "SELECT x, y, z, data FROM tiles WHERE detail_zoom = ?1 AND object_type = ?2 AND osm_key = ?3 AND osm_value = ?4 AND x >= ?5 AND x < ?6 AND y >= ?7 AND y < ?8 AND z = ?9";

/// Message of the error returned when the tile store cannot be opened.
pub const OPEN_FAILED: &'static str = "cannot open the tile store";

/// Message of the error returned when a query on the tile store fails.
pub const QUERY_FAILED: &'static str = "tile query failed";

/// Message of the error returned when a count or payload length exceeds the
/// frame format's `u32` fields.
pub const TOO_LARGE: &'static str = "tile data does not fit the frame format";

/// The SQL text used for a lookup.
pub open spec fn query_sql(q: TileQuery) -> Seq<char> {
    match q {
        TileQuery::Exact { .. } => EXACT_TILE_QUERY@,
        TileQuery::Range { .. } => RANGE_TILE_QUERY@,
    }
}

/// The coordinate parameters of a lookup, in the order its SQL text numbers them.
pub open spec fn query_coords(q: TileQuery) -> Seq<i64> {
    match q {
        TileQuery::Exact { x, y, z } => seq![x as i64, y as i64, z as i64],
        TileQuery::Range { left, right, top, bottom, z } => seq![
            left as i64,
            right as i64,
            top as i64,
            bottom as i64,
            z as i64,
        ],
    }
}

/// The SQL text and coordinate parameters for a lookup.
pub fn query_args(q: TileQuery) -> (r: (&'static str, Vec<i64>))
    ensures
        r.0@ == query_sql(q),
        r.1@ == query_coords(q),
{
    match q {
        TileQuery::Exact { x, y, z } => (EXACT_TILE_QUERY, vec![x as i64, y as i64, z as i64]),
        TileQuery::Range { left, right, top, bottom, z } => (
            RANGE_TILE_QUERY,
            vec![left as i64, right as i64, top as i64, bottom as i64, z as i64],
        ),
    }
}

/// Everything bound to one query on the tile store.
pub struct StoreRequest {
    pub sql: &'static str,
    pub detail_zoom: u8,
    pub code: u8,
    pub key: String,
    pub value: String,
    pub coords: Vec<i64>,
}

/// The request for lookup `q` of the feature class `sel` at detail zoom `detail_zoom`.
pub open spec fn request_matches(
    r: StoreRequest,
    sel: (Seq<char>, Seq<char>, DataType),
    detail_zoom: u8,
    q: TileQuery,
) -> bool {
    &&& r.sql@ == query_sql(q)
    &&& r.detail_zoom == detail_zoom
    &&& r.code == type_code(sel.2)
    &&& r.key@ == sel.0
    &&& r.value@ == sel.1
    &&& r.coords@ == query_coords(q)
}

/// Builds the request for lookup `q` of the feature class `sel`.
pub fn tile_request(sel: &Selector, detail_zoom: u8, q: TileQuery) -> (r: StoreRequest)
    ensures
        request_matches(r, sel@, detail_zoom, q),
{
    let (sql, coords) = query_args(q);
    StoreRequest {
        sql,
        detail_zoom,
        code: sel.data_type.code(),
        key: sel.key.clone(),
        value: sel.value.clone(),
        coords,
    }
}

/// The kind of a stored column value, with the bytes of a text or a blob; a
/// number is only marked.
pub enum StoredValue {
    Null,
    Integer,
    Real,
    Text(Vec<u8>),
    Blob(Vec<u8>),
}

/// A row of the tiles table as the store returns it.
pub struct StoredRow {
    pub x: u32,
    pub y: u32,
    pub z: u8,
    pub value: StoredValue,
}

/// The payload of a stored value: the bytes of a text or a blob, nothing otherwise.
pub open spec fn payload_spec(v: StoredValue) -> Seq<u8> {
    match v {
        StoredValue::Text(b) => b@,
        StoredValue::Blob(b) => b@,
        _ => Seq::empty(),
    }
}

/// The payload bytes of a stored value.
pub fn payload(v: StoredValue) -> (r: Vec<u8>)
    ensures
        r@ == payload_spec(v),
{
    match v {
        StoredValue::Text(b) => b,
        StoredValue::Blob(b) => b,
        _ => Vec::new(),
    }
}

/// The fragment that a stored row stands for.
pub open spec fn row_fragment(row: StoredRow, f: Fragment) -> bool {
    f.x == row.x && f.y == row.y && f.z == row.z && f.data@ == payload_spec(row.value)
}

/// Turns stored rows into fragments, in the same order.
pub fn fragments_of(rows: Vec<StoredRow>) -> (r: Vec<Fragment>)
    ensures
        r@.len() == rows@.len(),
        forall|i: int| 0 <= i < rows@.len() ==> row_fragment(rows@[i], #[trigger] r@[i]),
{
    let ghost all = rows@;
    let mut rows = rows;
    let mut out: Vec<Fragment> = Vec::new();
    while rows.len() > 0
        invariant
            out@.len() + rows@.len() == all.len(),
            rows@ == all.subrange(out@.len() as int, all.len() as int),
            forall|i: int| 0 <= i < out@.len() ==> row_fragment(all[i], #[trigger] out@[i]),
        decreases rows@.len(),
    {
        let row = rows.remove(0);
        let ghost k = out@.len() as int;
        assert(row == all[k]);
        out.push(Fragment { x: row.x, y: row.y, z: row.z, data: payload(row.value) });
        assert(rows@ =~= all.subrange(out@.len() as int, all.len() as int));
    }
    out
}

/// What a successful tile request returns: for the selector that the request
/// names after aliasing and defaults, the encoding of every fragment of a scan
/// that ran to its end, at the detail zoom of that selector.
pub open spec fn raw_data_result(
    x: u32,
    y: u32,
    z: u8,
    key: Seq<char>,
    value: Option<Seq<char>>,
    data_type: Option<DataType>,
    buf: Seq<u8>,
) -> bool {
    let sel = selector_spec(key, value, data_type);
    let dz = detail_zoom_spec(z, sel.1, sel.2);
    &&& buf.len() >= 4
    &&& exists|levels: Seq<Seq<Fragment>>|
        {
            &&& #[trigger] scan_complete(levels, z)
            &&& encodable(flatten(levels))
            &&& buf == encoded(flatten(levels), dz)
        }
}

/// A store of pre-rendered tile fragments.
pub trait Source {
    /// The fragments stored for the tile `(x, y, z)` and the given feature class,
    /// gathered over the zoom pyramid and encoded into one buffer. A failed query
    /// ends the request with an error that carries the store's own text.
    fn get_raw_data(
        &self,
        x: u32,
        y: u32,
        z: u8,
        key: String,
        value: Option<String>,
        data_type: Option<DataType>,
    ) -> (r: Result<Vec<u8>, Error>)
        ensures
            r matches Ok(buf) ==> raw_data_result(x, y, z, key@, opt_text(value), data_type, buf@),
            r matches Err(Error::DbError { message, source }) ==> (message@ == QUERY_FAILED@
                && source is Some) || (message@ == TOO_LARGE@ && source is None),
    ;
}

/// A tile store in an SQLite database, opened read-only.
pub struct SQLite {
    pub conn: Connection,
}

/// Relies on rusqlite's `Connection::open_with_flags` with `SQLITE_OPEN_READ_ONLY`:
/// opens an existing database for reading; a failure is handed on as its text.
#[verifier::external_body]
fn open_read_only(path: &str) -> (r: Result<Connection, String>) {
    Connection::open_with_flags(path, OpenFlags::SQLITE_OPEN_READ_ONLY).map_err(|e| e.to_string())
}

/// Relies on rusqlite's `Connection::prepare`: compiles `sql` for `conn`; a failure
/// is handed on as its text.
#[verifier::external_body]
fn prepare<'a>(conn: &'a Connection, sql: &str) -> (r: Result<Statement<'a>, String>) {
    conn.prepare(sql).map_err(|e| e.to_string())
}

/// Relies on rusqlite's `Statement::query_map`, `Row::get` and `Row::get_ref`: runs
/// the statement with the request's parameters bound in order and returns each
/// row's x, y, z and its data column as stored; a failure is handed on as its text.
#[verifier::external_body]
fn select_tiles(stmt: &mut Statement, req: &StoreRequest) -> (r: Result<Vec<StoredRow>, String>) {
    let mut args = vec![&req.detail_zoom as &dyn ToSql, &req.code, &req.key, &req.value];
    for c in &req.coords {
        args.push(c);
    }
    stmt.query_map(&args[..], |row| Ok(StoredRow {
        x: row.get(0)?, y: row.get(1)?, z: row.get(2)?,
        value: match row.get_ref(3)? {
            ValueRef::Null => StoredValue::Null,
            ValueRef::Integer(_) => StoredValue::Integer,
            ValueRef::Real(_) => StoredValue::Real,
            ValueRef::Text(b) => StoredValue::Text(b.to_vec()),
            ValueRef::Blob(b) => StoredValue::Blob(b.to_vec()),
        },
    })).and_then(Iterator::collect).map_err(|e| e.to_string())
}

impl SQLite {
    /// Opens the tile database at `db_path` for reading; fails where it cannot be
    /// opened, for instance where no file is there, with the store's text as cause.
    pub fn new(db_path: &str) -> (r: Result<SQLite, Error>)
        ensures
            r matches Err(Error::DbError { message, source }) ==> message@ == OPEN_FAILED@
                && source is Some,
    {
        match open_read_only(db_path) {
            Ok(conn) => Ok(SQLite { conn }),
            Err(cause) => Err(
                Error::DbError { message: String::from_str(OPEN_FAILED), source: Some(cause) },
            ),
        }
    }
}

impl Source for SQLite {
    /// Looks at each storage zoom in turn, asking the store for exactly the
    /// request that `tile_request` builds from the scan's next lookup.
    fn get_raw_data(
        &self,
        x: u32,
        y: u32,
        z: u8,
        key: String,
        value: Option<String>,
        data_type: Option<DataType>,
    ) -> (r: Result<Vec<u8>, Error>) {
        let sel = normalize(key, value, data_type);
        let dz = detail_zoom(z, sel.value.as_str(), sel.data_type);
        let mut scan = ScanState::new(x, y, z, dz);
        loop
            invariant
                scan.wf(),
                scan.x == x && scan.y == y && scan.z == z && scan.detail_zoom == dz,
            ensures
                scan.wf(),
                scan.z == z && scan.detail_zoom == dz,
                scan_done(scan.levels@, z),
            decreases MAX_STORAGE_ZOOM + 1 - scan.level,
        {
            let q = match scan.next_query() {
                Some(q) => q,
                None => break,
            };
            let req = tile_request(&sel, dz, q);
            let found = match prepare(&self.conn, req.sql) {
                Ok(mut stmt) => select_tiles(&mut stmt, &req),
                Err(cause) => Err(cause),
            };
            match found {
                Ok(rows) => scan.absorb(fragments_of(rows)),
                Err(cause) => {
                    return Err(
                        Error::DbError {
                            message: String::from_str(QUERY_FAILED),
                            source: Some(cause),
                        },
                    );
                },
            }
        }
        let r = match scan.finish() {
            Some(buf) => Ok(buf),
            None => Err(Error::DbError { message: String::from_str(TOO_LARGE), source: None }),
        };
        proof {
            if r is Ok {
                crate::frame::lemma_le_round_trip(scan.frags@.len() as u32);
                assert(scan_complete(scan.levels@, z));
            }
        }
        r
    }
}

} // verus!
