use rusqlite::Connection;
use vms2_tile_db_reader::data_type::DataType;
use vms2_tile_db_reader::error::Error;
use vms2_tile_db_reader::frame::Fragment;
use vms2_tile_db_reader::pyramid::{normalize, TileQuery};
use vms2_tile_db_reader::sources::{
    fragments_of, payload, query_args, tile_request, SQLite, Source, StoredRow, StoredValue,
    EXACT_TILE_QUERY, OPEN_FAILED, QUERY_FAILED, RANGE_TILE_QUERY,
};

type Row = (u8, u8, &'static str, &'static str, u32, u32, u8, &'static [u8]);

const ROWS: [Row; 9] = [
    (14, 2, "building", "*", 34686, 21566, 16, b"building-16"),
    (14, 2, "building", "*", 8671, 5391, 14, b"building-14"),
    (14, 0, "place", "city", 8671, 5391, 14, b"city"),
    (14, 2, "locr", "land", 2167, 1347, 12, b"land-12"),
    (12, 2, "locr", "land", 4332, 2692, 14, b"land-14"),
    (0, 2, "locr", "land", 1, 1, 1, b""),
    (12, 2, "locr", "terrain", 1083, 673, 12, b"terrain"),
    (10, 2, "locr", "blue_marble", 0, 0, 0, b"marble"),
    (14, 2, "highway", "pedestrian", 34686, 21564, 16, b"street"),
];

/// Writes a tile database with the given rows under /tmp and returns its path.
fn fixture(name: &str, rows: &[Row]) -> String {
    let path = format!("/tmp/vms2_tile_db_reader_{}.sqlite", name);
    let conn = Connection::open(&path).unwrap();
    conn.execute(
        "CREATE TABLE IF NOT EXISTS tiles (detail_zoom INTEGER, object_type INTEGER, osm_key TEXT, osm_value TEXT, x INTEGER, y INTEGER, z INTEGER, data BLOB)",
        (),
    )
    .unwrap();
    conn.execute("DELETE FROM tiles", ()).unwrap();
    for r in rows {
        conn.execute(
            "INSERT INTO tiles VALUES (?1, ?2, ?3, ?4, ?5, ?6, ?7, ?8)",
            (r.0, r.1, r.2, r.3, r.4, r.5, r.6, r.7),
        )
        .unwrap();
    }
    path
}

fn count(buf: &[u8]) -> u32 {
    u32::from_le_bytes([buf[0], buf[1], buf[2], buf[3]])
}

#[test]
fn test_get_data_building_polygons() {
    let tile_db = SQLite::new(&fixture("building", &ROWS)).unwrap();
    let tile_data = tile_db
        .get_raw_data(
            34686,
            21566,
            16,
            String::from("building"),
            Some(String::from("*")),
            Some(DataType::Polygons),
        )
        .unwrap();

    assert!(tile_data.len() >= 4);
}

#[test]
fn test_get_data_city_points() {
    let tile_db = SQLite::new(&fixture("city", &ROWS)).unwrap();
    let tile_data = tile_db
        .get_raw_data(
            34686,
            21566,
            16,
            String::from("place"),
            Some(String::from("city")),
            Some(DataType::Points),
        )
        .unwrap();

    assert!(tile_data.len() >= 4);
}

#[test]
fn test_get_land_data() {
    let tile_db = SQLite::new(&fixture("land", &ROWS)).unwrap();
    let tile_data = tile_db
        .get_raw_data(34686, 21566, 16, String::from("land"), None, None)
        .unwrap();

    assert!(tile_data.len() >= 4);
}

#[test]
fn test_get_terrain_data() {
    let tile_db = SQLite::new(&fixture("terrain", &ROWS)).unwrap();
    let tile_data = tile_db
        .get_raw_data(34686, 21566, 16, String::from("terrain"), None, None)
        .unwrap();

    assert!(tile_data.len() >= 4);
}

#[test]
fn test_get_blue_marble_data() {
    let tile_db = SQLite::new(&fixture("blue_marble", &ROWS)).unwrap();
    let tile_data = tile_db
        .get_raw_data(34686, 21566, 16, String::from("blue_marble"), None, None)
        .unwrap();

    assert!(tile_data.len() >= 4);
}

#[test]
fn test_get_raw_data_where_zoom_is_zero() {
    let tile_db = SQLite::new(&fixture("zoom_zero", &ROWS)).unwrap();
    let tile_data = tile_db
        .get_raw_data(0, 0, 0, String::from("land"), None, None)
        .unwrap();

    assert!(tile_data.len() >= 4);
}

#[test]
fn test_get_data_from_internal_multi_tile_query() {
    let tile_db = SQLite::new(&fixture("multi_tile", &ROWS)).unwrap();
    let tile_data = tile_db
        .get_raw_data(1083, 673, 12, String::from("land"), None, None)
        .unwrap();

    assert!(tile_data.len() >= 4);
}

#[test]
fn test_db_file_does_not_exists() {
    let tile_db = SQLite::new("./tests/data/invalid.sqlite");
    assert!(tile_db.is_err());
}

#[test]
fn test_behaviour_when_max_tile_zoom_minus_z_is_negative() {
    let tile_db = SQLite::new(&fixture("negative", &ROWS)).unwrap();
    let tile_data = tile_db
        .get_raw_data(69372, 43129, 17, String::from("highway"), Some(String::from("pedestrian")), Some(DataType::Polygons))
        .unwrap();

    assert!(tile_data.len() >= 4);
}

#[test]
fn building_request_stops_at_the_covering_ancestor() {
    let tile_db = SQLite::new(&fixture("building_order", &ROWS)).unwrap();
    let buf = tile_db
        .get_raw_data(34686, 21566, 16, String::from("building"), Some(String::from("*")), Some(DataType::Polygons))
        .unwrap();
    // the zoom 14 ancestor covers the zoom 16 tile, so the scan ends there
    assert_eq!(count(&buf), 1);
    assert_eq!(&buf[4..24], &[223, 33, 0, 0, 15, 21, 0, 0, 14, 0, 0, 0, 14, 0, 0, 0, 11, 0, 0, 0]);
    assert_eq!(&buf[24..], b"building-14");
}

#[test]
fn missing_value_and_type_default_to_empty_and_polygons() {
    let tile_db = SQLite::new(&fixture("defaults", &ROWS)).unwrap();
    let buf = tile_db
        .get_raw_data(34686, 21566, 16, String::from("building"), None, None)
        .unwrap();
    assert_eq!(buf, vec![0, 0, 0, 0]);
}

#[test]
fn land_alias_reads_the_locr_rows() {
    let tile_db = SQLite::new(&fixture("alias", &ROWS)).unwrap();
    let aliased = tile_db
        .get_raw_data(34686, 21566, 16, String::from("land"), None, None)
        .unwrap();
    let direct = tile_db
        .get_raw_data(34686, 21566, 16, String::from("locr"), Some(String::from("land")), Some(DataType::Polygons))
        .unwrap();
    assert_eq!(aliased, direct);
    assert_eq!(count(&aliased), 1);
}

#[test]
fn whole_world_request_gathers_descendants() {
    let tile_db = SQLite::new(&fixture("world", &ROWS)).unwrap();
    let buf = tile_db
        .get_raw_data(0, 0, 0, String::from("land"), None, None)
        .unwrap();
    // detail zoom 0 holds one empty fragment at zoom 1
    assert_eq!(buf, vec![1, 0, 0, 0, 1, 0, 0, 0, 1, 0, 0, 0, 1, 0, 0, 0, 0, 0, 0, 0, 0, 0, 0, 0]);
}

#[test]
fn range_query_finds_children() {
    let tile_db = SQLite::new(&fixture("children", &ROWS)).unwrap();
    let buf = tile_db
        .get_raw_data(1083, 673, 12, String::from("land"), None, None)
        .unwrap();
    assert_eq!(count(&buf), 1);
    assert_eq!(&buf[4..8], &4332u32.to_le_bytes());
    assert_eq!(&buf[24..], b"land-14");
}

#[test]
fn store_without_tiles_table_fails() {
    let path = "/tmp/vms2_tile_db_reader_no_table.sqlite";
    let conn = Connection::open(path).unwrap();
    conn.execute("CREATE TABLE IF NOT EXISTS other (a INTEGER)", ()).unwrap();
    drop(conn);
    let tile_db = SQLite::new(path).unwrap();
    let r = tile_db.get_raw_data(0, 0, 0, String::from("land"), None, None);
    match r {
        Err(Error::DbError { message, source }) => {
            assert_eq!(message, QUERY_FAILED);
            assert!(source.unwrap().contains("no such table"));
        }
        Ok(_) => panic!("expected an error"),
    }
}

#[test]
fn missing_store_error_carries_the_cause() {
    match SQLite::new("/tmp/vms2_tile_db_reader_missing_dir/none.sqlite") {
        Err(Error::DbError { message, source }) => {
            assert_eq!(message, OPEN_FAILED);
            assert!(source.is_some());
        }
        Ok(_) => panic!("expected an error"),
    }
}

#[test]
fn exact_lookup_binds_the_tile() {
    let (sql, coords) = query_args(TileQuery::Exact { x: 8671, y: 5391, z: 14 });
    assert_eq!(sql, EXACT_TILE_QUERY);
    assert_eq!(coords, vec![8671, 5391, 14]);
}

#[test]
fn range_lookup_binds_the_bounds_in_order() {
    let (sql, coords) = query_args(TileQuery::Range { left: 4332, right: 4336, top: 2692, bottom: 2696, z: 14 });
    assert_eq!(sql, RANGE_TILE_QUERY);
    assert_eq!(coords, vec![4332, 4336, 2692, 2696, 14]);
}

#[test]
fn request_carries_the_normalized_selector() {
    let sel = normalize(String::from("land"), None, None);
    let req = tile_request(&sel, 12, TileQuery::Exact { x: 1, y: 2, z: 3 });
    assert_eq!(req.sql, EXACT_TILE_QUERY);
    assert_eq!((req.detail_zoom, req.code), (12, 2));
    assert_eq!((req.key.as_str(), req.value.as_str()), ("locr", "land"));
    assert_eq!(req.coords, vec![1, 2, 3]);
    let pts = normalize(String::from("place"), Some(String::from("city")), Some(DataType::Points));
    assert_eq!(tile_request(&pts, 14, TileQuery::Exact { x: 0, y: 0, z: 0 }).code, 0);
}

#[test]
fn payload_is_text_or_blob_bytes() {
    assert_eq!(payload(StoredValue::Text(b"abc".to_vec())), b"abc".to_vec());
    assert_eq!(payload(StoredValue::Blob(vec![1, 2])), vec![1, 2]);
    assert_eq!(payload(StoredValue::Null), Vec::<u8>::new());
    assert_eq!(payload(StoredValue::Integer), Vec::<u8>::new());
    assert_eq!(payload(StoredValue::Real), Vec::<u8>::new());
}

#[test]
fn rows_become_fragments_in_order() {
    let rows = vec![
        StoredRow { x: 1, y: 2, z: 3, value: StoredValue::Blob(vec![9]) },
        StoredRow { x: 4, y: 5, z: 6, value: StoredValue::Null },
        StoredRow { x: 7, y: 8, z: 9, value: StoredValue::Text(b"t".to_vec()) },
    ];
    let frags: Vec<Fragment> = fragments_of(rows);
    let got: Vec<(u32, u32, u8, Vec<u8>)> = frags.into_iter().map(|f| (f.x, f.y, f.z, f.data)).collect();
    assert_eq!(got, vec![(1, 2, 3, vec![9]), (4, 5, 6, vec![]), (7, 8, 9, b"t".to_vec())]);
}

#[test]
fn text_and_null_payloads_from_the_store() {
    let rows: [Row; 1] = [(14, 2, "building", "*", 34686, 21566, 16, b"")];
    let path = fixture("text_null", &rows);
    let conn = Connection::open(&path).unwrap();
    conn.execute("INSERT INTO tiles VALUES (14, 2, 'building', '*', 34686, 21566, 16, 'txt')", ()).unwrap();
    conn.execute("INSERT INTO tiles VALUES (14, 2, 'building', '*', 34686, 21566, 16, NULL)", ()).unwrap();
    drop(conn);
    let buf = SQLite::new(&path)
        .unwrap()
        .get_raw_data(34686, 21566, 16, String::from("building"), Some(String::from("*")), None)
        .unwrap();
    assert_eq!(count(&buf), 3);
    assert_eq!(buf.len(), 4 + 3 * 20 + 3);
}
