use vstd::prelude::*;

use byteorder::{LittleEndian, WriteBytesExt};

verus! {

/// One row of the tile store: the tile it is indexed under and its payload.
#[derive(Debug)]
pub struct Fragment {
    pub x: u32,
    pub y: u32,
    pub z: u8,
    pub data: Vec<u8>,
}

/// The four little-endian bytes of `v`.
#[verifier::opaque]
pub open spec fn le_bytes(v: u32) -> Seq<u8> {
    let q1 = v as int / 256;
    let q2 = q1 / 256;
    let q3 = q2 / 256;
    seq![(v as int % 256) as u8, (q1 % 256) as u8, (q2 % 256) as u8, (q3 % 256) as u8]
}

/// The number that four bytes spell in little-endian order.
pub open spec fn le_value(b: Seq<u8>) -> nat {
    (b[0] + 256 * (b[1] + 256 * (b[2] + 256 * b[3]))) as nat
}

/// Reading back the four bytes of a `u32` gives the number.
pub proof fn lemma_le_round_trip(v: u32)
    ensures
        le_bytes(v).len() == 4,
        le_value(le_bytes(v)) == v as nat,
{
    reveal(le_bytes);
    let q1 = v as int / 256;
    let q2 = q1 / 256;
    let q3 = q2 / 256;
    assert(v as int == v as int % 256 + 256 * q1);
    assert(q1 == q1 % 256 + 256 * q2);
    assert(q2 == q2 % 256 + 256 * q3);
    assert(q3 < 256);
}

/// Bytes of one frame: tile x, tile y, tile zoom, detail zoom and payload length as
/// little-endian `u32`s, then the payload.
pub open spec fn frame_bytes(f: Fragment, detail_zoom: u8) -> Seq<u8> {
    le_bytes(f.x) + le_bytes(f.y) + le_bytes(f.z as u32) + le_bytes(detail_zoom as u32) + le_bytes(
        f.data@.len() as u32,
    ) + f.data@
}

/// The frames of a sequence of fragments, one after the other, in order.
pub open spec fn frames_bytes(fs: Seq<Fragment>, detail_zoom: u8) -> Seq<u8>
    decreases fs.len(),
{
    if fs.len() == 0 {
        Seq::empty()
    } else {
        frames_bytes(fs.drop_last(), detail_zoom) + frame_bytes(fs.last(), detail_zoom)
    }
}

/// Whether the count and every payload length fit in the format's `u32` fields.
pub open spec fn encodable(fs: Seq<Fragment>) -> bool {
    fs.len() <= u32::MAX && forall|i: int| 0 <= i < fs.len() ==> #[trigger] fs[i].data@.len() <= u32::MAX
}

/// The buffer for a sequence of fragments: their count as a little-endian `u32`,
/// then their frames.
pub open spec fn encoded(fs: Seq<Fragment>, detail_zoom: u8) -> Seq<u8> {
    le_bytes(fs.len() as u32) + frames_bytes(fs, detail_zoom)
}

/// Relies on byteorder's `WriteBytesExt::write_u32::<LittleEndian>`: it appends the
/// four little-endian bytes of `v`, and writing into a `Vec<u8>` does not fail.
#[verifier::external_body]
fn put_u32_le(buf: &mut Vec<u8>, v: u32)
    ensures
        final(buf)@ == old(buf)@ + le_bytes(v),
{
    let _ = buf.write_u32::<LittleEndian>(v);
}

/// Appends the frame of one fragment to `buf`.
pub fn append_frame(buf: &mut Vec<u8>, f: &Fragment, detail_zoom: u8)
    requires
        f.data@.len() <= u32::MAX,
    ensures
        final(buf)@ == old(buf)@ + frame_bytes(*f, detail_zoom),
{
    put_u32_le(buf, f.x);
    put_u32_le(buf, f.y);
    put_u32_le(buf, f.z as u32);
    put_u32_le(buf, detail_zoom as u32);
    put_u32_le(buf, f.data.len() as u32);
    let ghost head = buf@;
    let mut i: usize = 0;
    while i < f.data.len()
        invariant
            i <= f.data@.len(),
            buf@ == head + f.data@.take(i as int),
        decreases f.data@.len() - i,
    {
        buf.push(f.data[i]);
        i = i + 1;
        assert(buf@ =~= head + f.data@.take(i as int));
    }
    assert(f.data@.take(i as int) =~= f.data@);
    assert(buf@ =~= old(buf)@ + frame_bytes(*f, detail_zoom));
}

/// Encodes fragments into one buffer: their count, then each fragment's frame,
/// in the order given.
pub fn encode_fragments(frags: &Vec<Fragment>, detail_zoom: u8) -> (r: Vec<u8>)
    requires
        encodable(frags@),
    ensures
        r@ == encoded(frags@, detail_zoom),
        r@.len() >= 4,
{
    let mut buf: Vec<u8> = Vec::new();
    put_u32_le(&mut buf, frags.len() as u32);
    let mut i: usize = 0;
    while i < frags.len()
        invariant
            encodable(frags@),
            i <= frags@.len(),
            buf@ == le_bytes(frags@.len() as u32) + frames_bytes(frags@.take(i as int), detail_zoom),
        decreases frags@.len() - i,
    {
        assert(frags@[i as int].data@.len() <= u32::MAX);
        append_frame(&mut buf, &frags[i], detail_zoom);
        proof {
            let t = frags@.take(i as int + 1);
            assert(t.drop_last() =~= frags@.take(i as int));
            assert(t.last() == frags@[i as int]);
        }
        i = i + 1;
        assert(buf@ =~= le_bytes(frags@.len() as u32) + frames_bytes(frags@.take(i as int), detail_zoom));
    }
    assert(frags@.take(i as int) =~= frags@);
    proof {
        lemma_le_round_trip(frags@.len() as u32);
    }
    buf
}

/// What a decoder reads from one frame: tile x, y, zoom, detail zoom and payload.
pub open spec fn frame_record(f: Fragment, detail_zoom: u8) -> (nat, nat, nat, nat, Seq<u8>) {
    (f.x as nat, f.y as nat, f.z as nat, detail_zoom as nat, f.data@)
}

/// Reads consecutive frames until the bytes run out; `None` where a frame is cut short.
pub open spec fn decode_frames(b: Seq<u8>) -> Option<Seq<(nat, nat, nat, nat, Seq<u8>)>>
    decreases b.len(),
{
    if b.len() == 0 {
        Some(Seq::empty())
    } else if b.len() < 20 {
        None
    } else {
        let n = le_value(b.subrange(16, 20)) as int;
        if b.len() < 20 + n {
            None
        } else {
            match decode_frames(b.subrange(20 + n, b.len() as int)) {
                Some(rest) => Some(
                    seq![
                        (
                            le_value(b.subrange(0, 4)),
                            le_value(b.subrange(4, 8)),
                            le_value(b.subrange(8, 12)),
                            le_value(b.subrange(12, 16)),
                            b.subrange(20, 20 + n),
                        ),
                    ] + rest,
                ),
                None => None,
            }
        }
    }
}

/// Reads a whole buffer: the count prefix, then exactly that many frames.
pub open spec fn decode_buffer(b: Seq<u8>) -> Option<Seq<(nat, nat, nat, nat, Seq<u8>)>> {
    if b.len() < 4 {
        None
    } else {
        match decode_frames(b.subrange(4, b.len() as int)) {
            Some(fs) => if fs.len() == le_value(b.subrange(0, 4)) {
                Some(fs)
            } else {
                None
            },
            None => None,
        }
    }
}

proof fn lemma_frames_front(fs: Seq<Fragment>, dz: u8)
    requires
        fs.len() > 0,
    ensures
        frames_bytes(fs, dz) == frame_bytes(fs[0], dz) + frames_bytes(fs.drop_first(), dz),
    decreases fs.len(),
{
    if fs.len() == 1 {
        assert(fs.drop_last() =~= Seq::<Fragment>::empty());
        assert(fs.drop_first() =~= Seq::<Fragment>::empty());
        assert(frames_bytes(fs.drop_last(), dz) =~= Seq::<u8>::empty());
        assert(fs.last() == fs[0]);
        assert(frames_bytes(fs, dz) =~= frame_bytes(fs[0], dz));
        assert(frames_bytes(fs.drop_first(), dz) =~= Seq::<u8>::empty());
        assert(frames_bytes(fs, dz) =~= frame_bytes(fs[0], dz) + frames_bytes(fs.drop_first(), dz));
    } else {
        let dl = fs.drop_last();
        lemma_frames_front(dl, dz);
        assert(dl[0] == fs[0]);
        assert(fs.drop_first().drop_last() =~= dl.drop_first());
        assert(fs.drop_first().last() == fs.last());
        assert(frames_bytes(fs, dz) =~= frame_bytes(fs[0], dz) + frames_bytes(fs.drop_first(), dz));
    }
}

/// Where the fields of a frame stand when more bytes follow it.
proof fn lemma_frame_fields(f: Fragment, dz: u8, tail: Seq<u8>)
    requires
        f.data@.len() <= u32::MAX,
    ensures
        ({
            let b = frame_bytes(f, dz) + tail;
            let n = f.data@.len() as int;
            &&& b.len() == 20 + n + tail.len()
            &&& le_value(b.subrange(0, 4)) == f.x as nat
            &&& le_value(b.subrange(4, 8)) == f.y as nat
            &&& le_value(b.subrange(8, 12)) == f.z as nat
            &&& le_value(b.subrange(12, 16)) == dz as nat
            &&& le_value(b.subrange(16, 20)) == n
            &&& b.subrange(20, 20 + n) == f.data@
            &&& b.subrange(20 + n, b.len() as int) == tail
        }),
{
    let n = f.data@.len() as int;
    lemma_le_round_trip(f.x);
    lemma_le_round_trip(f.y);
    lemma_le_round_trip(f.z as u32);
    lemma_le_round_trip(dz as u32);
    lemma_le_round_trip(n as u32);
    let b = frame_bytes(f, dz) + tail;
    assert(b.subrange(0, 4) =~= le_bytes(f.x));
    assert(b.subrange(4, 8) =~= le_bytes(f.y));
    assert(b.subrange(8, 12) =~= le_bytes(f.z as u32));
    assert(b.subrange(12, 16) =~= le_bytes(dz as u32));
    assert(b.subrange(16, 20) =~= le_bytes(n as u32));
    assert(b.subrange(20, 20 + n) =~= f.data@);
    assert(b.subrange(20 + n, b.len() as int) =~= tail);
}

proof fn lemma_decode_frames(fs: Seq<Fragment>, dz: u8)
    requires
        forall|i: int| 0 <= i < fs.len() ==> #[trigger] fs[i].data@.len() <= u32::MAX,
    ensures
        decode_frames(frames_bytes(fs, dz)) == Some(fs.map_values(|f: Fragment| frame_record(f, dz))),
    decreases fs.len(),
{
    if fs.len() == 0 {
        assert(fs.map_values(|f: Fragment| frame_record(f, dz)) =~= Seq::empty());
    } else {
        lemma_frames_front(fs, dz);
        let f = fs[0];
        let rest = fs.drop_first();
        assert forall|i: int| 0 <= i < rest.len() implies #[trigger] rest[i].data@.len() <= u32::MAX by {
            assert(rest[i] == fs[i + 1]);
        }
        lemma_decode_frames(rest, dz);
        assert(f.data@.len() <= u32::MAX);
        lemma_frame_fields(f, dz, frames_bytes(rest, dz));
        let mapped_rest = rest.map_values(|g: Fragment| frame_record(g, dz));
        assert(decode_frames(frames_bytes(fs, dz)) == Some(seq![frame_record(f, dz)] + mapped_rest));
        assert(fs.map_values(|g: Fragment| frame_record(g, dz)) =~= seq![frame_record(f, dz)]
            + mapped_rest);
    }
}

/// Decoding an encoded buffer by the frame layout gives back, in order, each
/// fragment's tile coordinates, the detail zoom and the payload bytes.
pub proof fn lemma_encode_round_trip(fs: Seq<Fragment>, detail_zoom: u8)
    requires
        encodable(fs),
    ensures
        decode_buffer(encoded(fs, detail_zoom)) == Some(
            fs.map_values(|f: Fragment| frame_record(f, detail_zoom)),
        ),
{
    lemma_decode_frames(fs, detail_zoom);
    lemma_le_round_trip(fs.len() as u32);
    let b = encoded(fs, detail_zoom);
    assert(b.subrange(0, 4) =~= le_bytes(fs.len() as u32));
    assert(b.subrange(4, b.len() as int) =~= frames_bytes(fs, detail_zoom));
}

} // verus!
