use vstd::prelude::*;
use vstd::string::StringExecFns;

use crate::data_type::DataType;
use crate::text::same_text;

verus! {

/// Finest storage zoom that the tile store holds.
pub const MAX_STORAGE_ZOOM: u8 = 16;

/// Finest detail zoom that any feature class is stored at.
pub const MAX_DETAIL_ZOOM: u8 = 14;

/// Values whose geometry is stored at most at detail zoom 12.
pub open spec fn is_terrain_family(v: Seq<char>) -> bool {
    v == "terrain"@ || v == "depth"@
}

/// Values whose geometry is stored at most at detail zoom 10.
pub open spec fn is_imagery_family(v: Seq<char>) -> bool {
    v == "bathymetry"@ || v == "blue_marble"@ || v == "elevation"@
}

/// Finest detail zoom for the feature family of a value.
pub open spec fn detail_cap(v: Seq<char>) -> u8 {
    if is_terrain_family(v) {
        12
    } else if is_imagery_family(v) {
        10
    } else {
        14
    }
}

/// Detail zoom of a feature class requested at zoom `z`: the requested zoom,
/// taken no higher than 14 and rounded down to an even number, capped by the
/// value's family; point features are always stored at 14.
pub open spec fn detail_zoom_spec(z: u8, value: Seq<char>, t: DataType) -> u8 {
    if t == DataType::Points {
        14
    } else {
        let c: int = if z > 14 { 14 } else { z as int };
        let even: int = c - c % 2;
        if even > detail_cap(value) as int { detail_cap(value) } else { even as u8 }
    }
}

/// Computes the zoom level at which a feature class keeps its finest geometry.
pub fn detail_zoom(z: u8, value: &str, data_type: DataType) -> (r: u8)
    ensures
        r == detail_zoom_spec(z, value@, data_type),
        r <= MAX_DETAIL_ZOOM,
{
    let cap: u8 = if same_text(value, "terrain") || same_text(value, "depth") {
        12
    } else if same_text(value, "bathymetry") || same_text(value, "blue_marble") || same_text(
        value,
        "elevation",
    ) {
        10
    } else {
        14
    };
    if let DataType::Points = data_type {
        return 14;
    }
    let c: u8 = if z > MAX_DETAIL_ZOOM { MAX_DETAIL_ZOOM } else { z };
    let even: u8 = c - c % 2;
    if even > cap { cap } else { even }
}

/// Position in the detail-zoom tables of a requested zoom: zooms above 14 share the last entry.
pub open spec fn table_index(z: u8) -> int {
    if z > 14 { 14 } else { z as int }
}

/// Detail zooms of the default family, by table index.
pub open spec fn default_table() -> Seq<u8> {
    seq![0u8, 0, 2, 2, 4, 4, 6, 6, 8, 8, 10, 10, 12, 12, 14]
}

/// Detail zooms of the terrain family, by table index.
pub open spec fn terrain_table() -> Seq<u8> {
    seq![0u8, 0, 2, 2, 4, 4, 6, 6, 8, 8, 10, 10, 12, 12, 12]
}

/// Detail zooms of the imagery family, by table index.
pub open spec fn imagery_table() -> Seq<u8> {
    seq![0u8, 0, 2, 2, 4, 4, 6, 6, 8, 8, 10, 10, 10, 10, 10]
}

/// For lines and polygons the detail zoom is the entry of the value's family
/// table at the requested zoom.
pub proof fn lemma_detail_zoom_tables(z: u8, value: Seq<char>, t: DataType)
    requires
        t != DataType::Points,
    ensures
        is_terrain_family(value) ==> detail_zoom_spec(z, value, t) == terrain_table()[table_index(z)],
        is_imagery_family(value) ==> detail_zoom_spec(z, value, t) == imagery_table()[table_index(z)],
        !is_terrain_family(value) && !is_imagery_family(value) ==> detail_zoom_spec(z, value, t)
            == default_table()[table_index(z)],
{
    reveal_strlit("terrain");
    reveal_strlit("depth");
    reveal_strlit("bathymetry");
    reveal_strlit("blue_marble");
    reveal_strlit("elevation");
    assert(is_imagery_family(value) ==> !is_terrain_family(value)) by {
        assert("terrain"@.len() == 7 && "depth"@.len() == 5);
        assert("bathymetry"@.len() == 10 && "blue_marble"@.len() == 11 && "elevation"@.len() == 9);
    }
    let i = table_index(z);
    assert(0 <= i <= 14);
    if i == 0 {
    } else if i == 1 {
    } else if i == 2 {
    } else if i == 3 {
    } else if i == 4 {
    } else if i == 5 {
    } else if i == 6 {
    } else if i == 7 {
    } else if i == 8 {
    } else if i == 9 {
    } else if i == 10 {
    } else if i == 11 {
    } else if i == 12 {
    } else if i == 13 {
    } else {
    }
}

/// Requesting a terrain-family value at zoom 14 or above gives detail zoom 12,
/// and a point feature gives 14 whatever its value and zoom.
pub proof fn lemma_detail_zoom_overrides(z: u8, value: Seq<char>)
    ensures
        z >= 14 ==> detail_zoom_spec(z, "terrain"@, DataType::Polygons) == 12,
        detail_zoom_spec(z, value, DataType::Points) == 14,
{
}

/// Keys that name a whole-surface layer; they are looked up under the key
/// `locr` with the layer's name as the value.
pub open spec fn is_alias_key(k: Seq<char>) -> bool {
    k == "land"@ || k == "terrain"@ || k == "blue_marble"@ || k == "elevation"@ || k
        == "bathymetry"@ || k == "depth"@
}

/// Feature selector after aliasing and defaults: key, value, geometry kind.
pub open spec fn selector_spec(key: Seq<char>, value: Option<Seq<char>>, t: Option<DataType>) -> (
    Seq<char>,
    Seq<char>,
    DataType,
) {
    if is_alias_key(key) {
        ("locr"@, key, DataType::Polygons)
    } else {
        (
            key,
            match value {
                Some(v) => v,
                None => Seq::empty(),
            },
            match t {
                Some(d) => d,
                None => DataType::Polygons,
            },
        )
    }
}

/// The text of an optional string.
pub open spec fn opt_text(o: Option<String>) -> Option<Seq<char>> {
    match o {
        Some(s) => Some(s@),
        None => None,
    }
}

/// The class of features a request asks for.
pub struct Selector {
    pub key: String,
    pub value: String,
    pub data_type: DataType,
}

impl View for Selector {
    type V = (Seq<char>, Seq<char>, DataType);

    open spec fn view(&self) -> Self::V {
        (self.key@, self.value@, self.data_type)
    }
}

/// Rewrites alias keys and fills in the defaults of a request: no value means
/// the empty value, no geometry kind means polygons.
pub fn normalize(key: String, value: Option<String>, data_type: Option<DataType>) -> (r: Selector)
    ensures
        r@ == selector_spec(key@, opt_text(value), data_type),
{
    let k = key.as_str();
    if same_text(k, "land") || same_text(k, "terrain") || same_text(k, "blue_marble")
        || same_text(k, "elevation") || same_text(k, "bathymetry") || same_text(k, "depth") {
        return Selector { key: String::from_str("locr"), value: key, data_type: DataType::Polygons };
    }
    let value = match value {
        Some(v) => v,
        None => String::new(),
    };
    let data_type = match data_type {
        Some(d) => d,
        None => DataType::Polygons,
    };
    Selector { key, value, data_type }
}

/// Asking for an alias key selects the same features as asking for `locr`
/// with that key as the value and polygons as the geometry kind.
pub proof fn lemma_alias_rewrite(key: Seq<char>, value: Option<Seq<char>>, t: Option<DataType>)
    requires
        is_alias_key(key),
    ensures
        selector_spec(key, value, t) == selector_spec("locr"@, Some(key), Some(DataType::Polygons)),
{
    reveal_strlit("locr");
    reveal_strlit("land");
    reveal_strlit("terrain");
    reveal_strlit("blue_marble");
    reveal_strlit("elevation");
    reveal_strlit("bathymetry");
    reveal_strlit("depth");
    assert("locr"@[1] != "land"@[1]);
    assert("locr"@.len() == 4);
    assert(!is_alias_key("locr"@));
}

/// What to look up at one storage zoom: the single tile that covers the
/// requested one, or the range of tiles that it covers.
#[derive(Clone, Copy, Debug, PartialEq, Eq, Structural)]
pub enum TileQuery {
    Exact { x: u32, y: u32, z: u8 },
    Range { left: u64, right: u64, top: u64, bottom: u64, z: u8 },
}

/// `v` shifted right by `s` bits; 0 once every bit has been shifted out.
pub open spec fn shr_or_zero(v: u32, s: int) -> u32 {
    if s < 32 { v >> (s as u32) } else { 0 }
}

/// The lookup at storage zoom `level` for the tile `(x, y, z)`: at a zoom no finer
/// than `z` the ancestor found by shifting right by `z - level` bits; at a finer
/// zoom the tiles `[x << d, (x << d) + (1 << d))` by `[y << d, (y << d) + (1 << d))`
/// with `d = level - z`.
pub open spec fn plan_spec(x: u32, y: u32, z: u8, level: u8) -> TileQuery {
    if level <= z {
        TileQuery::Exact {
            x: shr_or_zero(x, z - level),
            y: shr_or_zero(y, z - level),
            z: level,
        }
    } else {
        let d = (level - z) as u64;
        TileQuery::Range {
            left: (x as u64) << d,
            right: (((x as u64) << d) + (1u64 << d)) as u64,
            top: (y as u64) << d,
            bottom: (((y as u64) << d) + (1u64 << d)) as u64,
            z: level,
        }
    }
}

fn shr_or_zero_exec(v: u32, s: u8) -> (r: u32)
    ensures
        r == shr_or_zero(v, s as int),
{
    if s < 32 {
        v >> (s as u32)
    } else {
        0
    }
}

/// The coordinates `[v << d, (v << d) + (1 << d))` covered at a zoom `d` levels finer.
fn child_span(v: u32, d: u8) -> (r: (u64, u64))
    requires
        d <= MAX_STORAGE_ZOOM,
    ensures
        r.0 == (v as u64) << (d as u64),
        r.1 == (((v as u64) << (d as u64)) + (1u64 << (d as u64))) as u64,
{
    let w: u64 = v as u64;
    let s: u64 = d as u64;
    assert(w <= 0xffff_ffffu64 && s <= 16u64 ==> (w << s) <= 0xffff_ffff_0000u64) by (bit_vector);
    assert(s <= 16u64 ==> (1u64 << s) <= 0x10000u64) by (bit_vector);
    let left: u64 = w << s;
    (left, left + (1u64 << s))
}

/// Computes what to look up at storage zoom `level` for the tile `(x, y, z)`.
pub fn plan_level(x: u32, y: u32, z: u8, level: u8) -> (r: TileQuery)
    requires
        level <= MAX_STORAGE_ZOOM,
    ensures
        r == plan_spec(x, y, z, level),
{
    if level <= z {
        TileQuery::Exact {
            x: shr_or_zero_exec(x, z - level),
            y: shr_or_zero_exec(y, z - level),
            z: level,
        }
    } else {
        let (left, right) = child_span(x, level - z);
        let (top, bottom) = child_span(y, level - z);
        TileQuery::Range { left, right, top, bottom, z: level }
    }
}

/// 4 to the power `n`.
pub open spec fn pow4(n: nat) -> nat
    decreases n,
{
    if n == 0 { 1 } else { 4 * pow4((n - 1) as nat) }
}

/// Area of one tile at storage zoom `level`, in tiles of the finest storage zoom.
pub open spec fn level_weight(level: int) -> nat {
    pow4((MAX_STORAGE_ZOOM - level) as nat)
}

/// Coverage at which a scan for a tile at zoom `z` has gathered its whole area:
/// the tile's own area, and for a tile finer than the finest storage zoom any
/// coverage at all.
pub open spec fn coverage_threshold(z: u8) -> nat {
    if z >= MAX_STORAGE_ZOOM { 1 } else { level_weight(z as int) }
}

/// Powers of four grow with the exponent.
pub proof fn lemma_pow4_monotonic(a: nat, b: nat)
    requires
        a <= b,
    ensures
        1 <= pow4(a) <= pow4(b),
    decreases b,
{
    if a < b {
        lemma_pow4_monotonic(a, (b - 1) as nat);
    } else if a > 0 {
        lemma_pow4_monotonic((a - 1) as nat, (a - 1) as nat);
    }
}

/// The largest weight of a storage zoom, that of zoom 0.
pub proof fn lemma_pow4_16()
    ensures
        pow4(16) == 0x1_0000_0000,
{
    reveal_with_fuel(pow4, 17);
}

/// 4 to the power `n`, for `n` at most 16.
fn pow4_exec(n: u8) -> (r: u64)
    requires
        n <= MAX_STORAGE_ZOOM,
    ensures
        r == pow4(n as nat),
{
    let mut r: u64 = 1;
    let mut i: u8 = 0;
    while i < n
        invariant
            i <= n <= MAX_STORAGE_ZOOM,
            r == pow4(i as nat),
        decreases n - i,
    {
        proof {
            lemma_pow4_monotonic((i + 1) as nat, 16);
            lemma_pow4_16();
        }
        r = r * 4;
        i = i + 1;
    }
    r
}

/// Area weight of one tile at storage zoom `level`.
pub fn weight_of_level(level: u8) -> (r: u64)
    requires
        level <= MAX_STORAGE_ZOOM,
    ensures
        r == level_weight(level as int),
{
    pow4_exec(MAX_STORAGE_ZOOM - level)
}

/// Coverage at which a scan for a tile at zoom `z` stops.
pub fn threshold_of(z: u8) -> (r: u64)
    ensures
        r == coverage_threshold(z),
{
    if z >= MAX_STORAGE_ZOOM {
        1
    } else {
        weight_of_level(z)
    }
}

} // verus!
