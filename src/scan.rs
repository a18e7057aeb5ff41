use vstd::prelude::*;

use crate::frame::{encodable, encode_fragments, encoded, frames_bytes, le_bytes, Fragment};
use crate::pyramid::{
    coverage_threshold, level_weight, lemma_pow4_16, lemma_pow4_monotonic, plan_level, plan_spec,
    threshold_of, weight_of_level, TileQuery, MAX_STORAGE_ZOOM,
};

verus! {

/// All fragments of a scan, level after level, each level in the order the store gave.
pub open spec fn flatten(levels: Seq<Seq<Fragment>>) -> Seq<Fragment>
    decreases levels.len(),
{
    if levels.len() == 0 {
        Seq::empty()
    } else {
        flatten(levels.drop_last()) + levels.last()
    }
}

/// Coverage gathered by a scan: the weight of every storage zoom at which
/// something was found (level `i` of the scan is storage zoom `i`).
pub open spec fn found_weight(levels: Seq<Seq<Fragment>>) -> nat
    decreases levels.len(),
{
    if levels.len() == 0 {
        0
    } else {
        found_weight(levels.drop_last()) + if levels.last().len() > 0 {
            level_weight(levels.len() - 1)
        } else {
            0
        }
    }
}

/// A scan for a tile at zoom `z` stops once every storage zoom has been looked
/// at or the coverage reaches the tile's area.
pub open spec fn scan_done(levels: Seq<Seq<Fragment>>, z: u8) -> bool {
    levels.len() > MAX_STORAGE_ZOOM || found_weight(levels) >= coverage_threshold(z)
}

/// The levels were looked at one after another, each while the scan was not done.
pub open spec fn scan_trace(levels: Seq<Seq<Fragment>>, z: u8) -> bool {
    &&& levels.len() <= MAX_STORAGE_ZOOM + 1
    &&& forall|i: int| 0 <= i < levels.len() ==> !#[trigger] scan_done(levels.take(i), z)
}

/// A scan that was run to its end.
pub open spec fn scan_complete(levels: Seq<Seq<Fragment>>, z: u8) -> bool {
    scan_trace(levels, z) && scan_done(levels, z)
}

/// A scan looks at no more than every storage zoom once, and one that has looked
/// at all of them is over, whether or not the coverage was reached.
pub proof fn lemma_scan_bounded(levels: Seq<Seq<Fragment>>, z: u8)
    requires
        scan_trace(levels, z),
    ensures
        levels.len() <= MAX_STORAGE_ZOOM + 1,
        levels.len() == MAX_STORAGE_ZOOM + 1 ==> scan_done(levels, z),
{
}

proof fn lemma_empty_levels(levels: Seq<Seq<Fragment>>)
    requires
        forall|i: int| 0 <= i < levels.len() ==> (#[trigger] levels[i]).len() == 0,
    ensures
        flatten(levels) == Seq::<Fragment>::empty(),
        found_weight(levels) == 0,
    decreases levels.len(),
{
    if levels.len() > 0 {
        let dl = levels.drop_last();
        assert forall|i: int| 0 <= i < dl.len() implies (#[trigger] dl[i]).len() == 0 by {
            assert(dl[i] == levels[i]);
        }
        lemma_empty_levels(dl);
        assert(levels.last().len() == 0);
        assert(flatten(levels) =~= Seq::<Fragment>::empty());
    }
}

/// A scan that found nothing anywhere looked at every storage zoom, and its
/// buffer is the zero count alone.
pub proof fn lemma_empty_scan(levels: Seq<Seq<Fragment>>, z: u8, detail_zoom: u8)
    requires
        scan_complete(levels, z),
        forall|i: int| 0 <= i < levels.len() ==> (#[trigger] levels[i]).len() == 0,
    ensures
        levels.len() == MAX_STORAGE_ZOOM + 1,
        encoded(flatten(levels), detail_zoom) == seq![0u8, 0, 0, 0],
{
    lemma_empty_levels(levels);
    lemma_pow4_monotonic(0, (MAX_STORAGE_ZOOM - (if z >= MAX_STORAGE_ZOOM { MAX_STORAGE_ZOOM } else { z })) as nat);
    reveal(le_bytes);
    assert(frames_bytes(Seq::<Fragment>::empty(), detail_zoom) =~= Seq::<u8>::empty());
    assert(encoded(flatten(levels), detail_zoom) =~= seq![0u8, 0, 0, 0]);
}

proof fn lemma_found_weight_bound(levels: Seq<Seq<Fragment>>)
    requires
        levels.len() <= MAX_STORAGE_ZOOM + 1,
    ensures
        found_weight(levels) <= levels.len() * 0x1_0000_0000,
    decreases levels.len(),
{
    if levels.len() > 0 {
        lemma_found_weight_bound(levels.drop_last());
        lemma_pow4_monotonic((MAX_STORAGE_ZOOM - (levels.len() - 1)) as nat, 16);
        lemma_pow4_16();
        assert(level_weight(levels.len() - 1) <= 0x1_0000_0000);
        assert(found_weight(levels) <= found_weight(levels.drop_last()) + 0x1_0000_0000);
    }
}

/// Progress of the pyramid scan for one tile request: the storage zooms looked
/// at so far and what was found there.
pub struct ScanState {
    pub x: u32,
    pub y: u32,
    pub z: u8,
    pub detail_zoom: u8,
    pub level: u8,
    pub weight: u64,
    pub frags: Vec<Fragment>,
    pub levels: Ghost<Seq<Seq<Fragment>>>,
}

impl ScanState {
    /// The state agrees with the levels it has absorbed.
    pub open spec fn wf(&self) -> bool {
        &&& scan_trace(self.levels@, self.z)
        &&& self.level == self.levels@.len()
        &&& self.frags@ == flatten(self.levels@)
        &&& self.weight == found_weight(self.levels@)
    }

    /// A scan for the tile `(x, y, z)` that has looked at nothing yet.
    pub fn new(x: u32, y: u32, z: u8, detail_zoom: u8) -> (r: ScanState)
        ensures
            r.wf(),
            r.x == x && r.y == y && r.z == z && r.detail_zoom == detail_zoom,
            r.levels@ == Seq::<Seq<Fragment>>::empty(),
    {
        ScanState {
            x,
            y,
            z,
            detail_zoom,
            level: 0,
            weight: 0,
            frags: Vec::new(),
            levels: Ghost(Seq::empty()),
        }
    }

    /// Whether the scan is over.
    pub fn is_done(&self) -> (r: bool)
        requires
            self.wf(),
        ensures
            r == scan_done(self.levels@, self.z),
    {
        self.level > MAX_STORAGE_ZOOM || self.weight >= threshold_of(self.z)
    }

    /// What to look up next, or `None` once the scan is over.
    pub fn next_query(&self) -> (r: Option<TileQuery>)
        requires
            self.wf(),
        ensures
            r is None <==> scan_done(self.levels@, self.z),
            r matches Some(q) ==> q == plan_spec(self.x, self.y, self.z, self.level),
    {
        if self.is_done() {
            None
        } else {
            Some(plan_level(self.x, self.y, self.z, self.level))
        }
    }

    /// Takes in what the store returned for the next storage zoom.
    pub fn absorb(&mut self, rows: Vec<Fragment>)
        requires
            old(self).wf(),
            !scan_done(old(self).levels@, old(self).z),
        ensures
            final(self).wf(),
            final(self).levels@ == old(self).levels@.push(rows@),
            final(self).x == old(self).x,
            final(self).y == old(self).y,
            final(self).z == old(self).z,
            final(self).detail_zoom == old(self).detail_zoom,
    {
        let ghost old_levels = self.levels@;
        let ghost new_levels = old_levels.push(rows@);
        proof {
            lemma_found_weight_bound(old_levels);
            lemma_pow4_16();
            lemma_pow4_monotonic((MAX_STORAGE_ZOOM - self.level) as nat, 16);
            assert(new_levels.drop_last() =~= old_levels);
            assert forall|i: int| 0 <= i < new_levels.len() implies !#[trigger] scan_done(
                new_levels.take(i),
                self.z,
            ) by {
                if i < old_levels.len() {
                    assert(new_levels.take(i) =~= old_levels.take(i));
                    assert(!scan_done(old_levels.take(i), self.z));
                } else {
                    assert(new_levels.take(i) =~= old_levels);
                }
            }
        }
        if rows.len() > 0 {
            self.weight = self.weight + weight_of_level(self.level);
        }
        let mut rows = rows;
        self.frags.append(&mut rows);
        self.level = self.level + 1;
        self.levels = Ghost(new_levels);
    }

    /// The buffer for everything found, or `None` where the count or a payload
    /// length does not fit the format's `u32` fields.
    pub fn finish(&self) -> (r: Option<Vec<u8>>)
        requires
            self.wf(),
        ensures
            r is None <==> !encodable(self.frags@),
            r matches Some(buf) ==> buf@ == encoded(self.frags@, self.detail_zoom),
    {
        if self.frags.len() as u64 > u32::MAX as u64 {
            return None;
        }
        let mut i: usize = 0;
        while i < self.frags.len()
            invariant
                i <= self.frags@.len() <= u32::MAX,
                forall|j: int| 0 <= j < i ==> #[trigger] self.frags@[j].data@.len() <= u32::MAX,
            decreases self.frags@.len() - i,
        {
            if self.frags[i].data.len() as u64 > u32::MAX as u64 {
                return None;
            }
            i = i + 1;
        }
        Some(encode_fragments(&self.frags, self.detail_zoom))
    }
}

} // verus!
