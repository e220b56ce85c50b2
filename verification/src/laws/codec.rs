//! Laws of the speech framing.

use vstd::prelude::*;

use crate::amrnb::whole_frames;
use crate::codec::{
    block, codec2_mode, codec2_packed, codec2_unpacked, decode, decode_frames, decodes, encode,
    encode_frames, encodes, frame_bytes, frame_samples, mode_from_param, paired_blocks, Mode,
};
use crate::text::dec;

verus! {

/// Samples in one Codec2 frame: 20 ms in the two fastest modes, else 40 ms.
pub open spec fn samples(mode: u8) -> nat {
    if mode <= 1 {
        160
    } else {
        320
    }
}

/// The bit rate of a Codec2 mode.
pub open spec fn bit_rate(mode: u8) -> nat {
    if mode == 0 {
        3200
    } else if mode == 1 {
        2400
    } else if mode == 2 {
        1600
    } else if mode == 3 {
        1400
    } else if mode == 4 {
        1300
    } else {
        1200
    }
}

/// Whole bytes for the bits of one frame at the mode's rate.
pub open spec fn bytes(mode: u8) -> nat {
    (bit_rate(mode) * samples(mode) / 8000 + 7) / 8
}

/// The record of a coder joins `from` and `to` frame by frame: its `k`-th entry holds the
/// `k`-th run of `a` elements of `from` and the `k`-th run of `b` elements of `to`, element
/// by element in their order. Elements of `from` behind the last whole run are left out.
pub open spec fn joins<A, B>(
    record: Seq<(Seq<A>, Seq<B>)>,
    from: Seq<A>,
    a: nat,
    to: Seq<B>,
    b: nat,
) -> bool {
    &&& record.len() * a <= from.len() < record.len() * a + a
    &&& to.len() == record.len() * b
    &&& forall|k: int|
        0 <= k < record.len() ==> (#[trigger] record[k]).0.len() == a && record[k].1.len() == b
    &&& forall|k: int, i: int|
        0 <= k < record.len() && 0 <= i < a ==> #[trigger] record[k].0[i] == from[k * a + i]
    &&& forall|k: int, i: int|
        0 <= k < record.len() && 0 <= i < b ==> #[trigger] record[k].1[i] == to[k * b + i]
}

proof fn lemma_sizes(mode: u8)
    requires
        mode <= 5,
    ensures
        samples(mode) == frame_samples(mode),
        bytes(mode) == frame_bytes(mode),
{
    assert(bit_rate(mode) * samples(mode) == if mode == 0 {
        512000nat
    } else if mode == 1 {
        384000
    } else if mode == 2 {
        512000
    } else if mode == 3 {
        448000
    } else if mode == 4 {
        416000
    } else {
        384000
    }) by (nonlinear_arith)
        requires
            mode <= 5,
            samples(mode) == if mode <= 1 {
                160nat
            } else {
                320
            },
            bit_rate(mode) == if mode == 0 {
                3200nat
            } else if mode == 1 {
                2400
            } else if mode == 2 {
                1600
            } else if mode == 3 {
                1400
            } else if mode == 4 {
                1300
            } else {
                1200
            },
    ;
}

proof fn lemma_run(k: int, size: nat, count: nat)
    requires
        0 <= k < count,
        size > 0,
    ensures
        0 <= k * size,
        (k + 1) * size == k * size + size,
        (k + 1) * size <= count * size,
{
    assert(0 <= k * size && (k + 1) * size == k * size + size && (k + 1) * size <= count * size)
        by (nonlinear_arith)
        requires
            0 <= k < count,
            size > 0,
    ;
}

proof fn lemma_joins<A, B>(from: Seq<A>, a: nat, to: Seq<B>, b: nat)
    requires
        a > 0,
        b > 0,
        to.len() == (from.len() / a) * b,
    ensures
        joins(paired_blocks(from, a, to, b, from.len() / a), from, a, to, b),
{
    let count = from.len() / a;
    let record = paired_blocks(from, a, to, b, count);
    assert(count * a <= from.len() < count * a + a) by (nonlinear_arith)
        requires
            count == from.len() / a,
            a > 0,
    ;
    assert forall|k: int| 0 <= k < record.len() implies (#[trigger] record[k]).0.len() == a
        && record[k].1.len() == b by {
        assert(record[k] == (block(from, a, k), block(to, b, k)));
        lemma_run(k, a, count);
        lemma_run(k, b, count);
    }
    assert forall|k: int, i: int| 0 <= k < record.len() && 0 <= i < a implies #[trigger] record[k].0[i]
        == from[k * a + i] by {
        assert(record[k] == (block(from, a, k), block(to, b, k)));
        lemma_run(k, a, count);
    }
    assert forall|k: int, i: int| 0 <= k < record.len() && 0 <= i < b implies #[trigger] record[k].1[i]
        == to[k * b + i] by {
        assert(record[k] == (block(from, a, k), block(to, b, k)));
        lemma_run(k, b, count);
    }
}

/// The on-wire index counts the modes from the fastest to the slowest.
pub proof fn modes_are_counted_from_the_fastest(b: u8, r: Result<Mode, String>)
    requires
        call_ensures(mode_from_param, (b,), r),
    ensures
        b == 0 ==> r == Ok::<Mode, String>(Mode::Mode3200),
        b == 1 ==> r == Ok::<Mode, String>(Mode::Mode2400),
        b == 2 ==> r == Ok::<Mode, String>(Mode::Mode1600),
        b == 3 ==> r == Ok::<Mode, String>(Mode::Mode1400),
        b == 4 ==> r == Ok::<Mode, String>(Mode::Mode1300),
        b == 5 ==> r == Ok::<Mode, String>(Mode::Mode1200),
        b > 5 ==> (r matches Err(t) && t@ == "unknown codec2 mode index "@ + dec(b as nat)),
{
}

/// A clip is encoded by one coder for the mode that was asked for: the coder was given
/// the clip's frames one after the other, sample by sample, and the payload is what it
/// wrote for each, byte by byte in the same order.
pub proof fn a_clip_is_packed_frame_by_frame(
    pcm: &[i16],
    mode: u8,
    r: Result<Vec<u8>, String>,
)
    requires
        call_ensures(encode, (pcm, mode), r),
    ensures
        mode <= 5 ==> (r matches Ok(payload) && exists|c2: codec2::Codec2|
            codec2_mode(c2) == mode && joins(
                #[trigger] codec2_packed(c2),
                pcm@,
                samples(mode),
                payload@,
                bytes(mode),
            )),
        mode > 5 ==> (r matches Err(t) && t@ == "unknown codec2 mode index "@ + dec(mode as nat)),
{
    if mode <= 5 {
        lemma_sizes(mode);
        let payload = r->Ok_0;
        assert(encodes(pcm@, mode, payload@));
        lemma_joins(pcm@, samples(mode), payload@, bytes(mode));
        let c2 = choose|c2: codec2::Codec2|
            codec2_mode(c2) == mode && #[trigger] codec2_packed(c2) == paired_blocks(
                pcm@,
                frame_samples(mode),
                payload@,
                frame_bytes(mode),
                pcm@.len() / frame_samples(mode),
            );
        assert(joins(codec2_packed(c2), pcm@, samples(mode), payload@, bytes(mode)));
    }
}

/// A payload is decoded by one coder for the mode that was asked for: the coder was given
/// the packed frames one after the other, and the samples are what it wrote for each,
/// sample by sample in playing order.
pub proof fn a_payload_is_played_frame_by_frame(
    payload: &[u8],
    mode: u8,
    r: Result<(Vec<i16>, u32), String>,
)
    requires
        call_ensures(decode, (payload, mode), r),
    ensures
        mode <= 5 ==> (r matches Ok((pcm, rate)) && rate == 8000 && exists|c2: codec2::Codec2|
            codec2_mode(c2) == mode && joins(
                #[trigger] codec2_unpacked(c2),
                payload@,
                bytes(mode),
                pcm@,
                samples(mode),
            )),
        mode > 5 ==> (r matches Err(t) && t@ == "unknown codec2 mode index "@ + dec(mode as nat)),
{
    if mode <= 5 {
        lemma_sizes(mode);
        let pcm = r->Ok_0.0;
        assert(decodes(payload@, mode, pcm@));
        lemma_joins(payload@, bytes(mode), pcm@, samples(mode));
        let c2 = choose|c2: codec2::Codec2|
            codec2_mode(c2) == mode && #[trigger] codec2_unpacked(c2) == paired_blocks(
                payload@,
                frame_bytes(mode),
                pcm@,
                frame_samples(mode),
                payload@.len() / frame_bytes(mode),
            );
        assert(joins(codec2_unpacked(c2), payload@, bytes(mode), pcm@, samples(mode)));
    }
}

/// Decoding a concatenation begins with what the coder wrote for the first part: the
/// first entries of its record join the first part with the first samples.
pub proof fn the_first_part_is_played_first(
    first: Seq<u8>,
    second: Seq<u8>,
    count: nat,
    payload: &[u8],
    mode: u8,
    pcm: Vec<i16>,
    rate: u32,
)
    requires
        call_ensures(decode, (payload, mode), Ok::<(Vec<i16>, u32), String>((pcm, rate))),
        payload@ == first + second,
        first.len() == count * bytes(mode),
        mode <= 5,
    ensures
        count * samples(mode) <= pcm@.len(),
        exists|c2: codec2::Codec2|
            codec2_mode(c2) == mode && (#[trigger] codec2_unpacked(c2)).len() >= count && joins(
                codec2_unpacked(c2).take(count as int),
                first,
                bytes(mode),
                pcm@.take((count * samples(mode)) as int),
                samples(mode),
            ),
{
    a_payload_is_played_frame_by_frame(payload, mode, Ok((pcm, rate)));
    lemma_sizes(mode);
    let b = bytes(mode);
    let s = samples(mode);
    let c2 = choose|c2: codec2::Codec2|
        codec2_mode(c2) == mode && joins(#[trigger] codec2_unpacked(c2), payload@, b, pcm@, s);
    let all = codec2_unpacked(c2);
    let n = all.len();
    assert(count <= n) by (nonlinear_arith)
        requires
            count * b < n * b + b,
            b > 0,
    ;
    assert(count * s <= n * s) by (nonlinear_arith)
        requires
            count <= n,
    ;
    let record = all.take(count as int);
    let out = pcm@.take((count * s) as int);
    assert forall|k: int| 0 <= k < record.len() implies (#[trigger] record[k]).0.len() == b
        && record[k].1.len() == s by {
        assert(record[k] == all[k]);
    }
    assert forall|k: int, i: int| 0 <= k < record.len() && 0 <= i < b implies #[trigger] record[k].0[i]
        == first[k * b + i] by {
        assert(record[k] == all[k]);
        assert(all[k].0[i] == payload@[k * b + i]);
        assert(0 <= k * b + i < count * b) by (nonlinear_arith)
            requires
                0 <= k < count,
                0 <= i < b,
        ;
    }
    assert forall|k: int, i: int| 0 <= k < record.len() && 0 <= i < s implies #[trigger] record[k].1[i]
        == out[k * s + i] by {
        assert(record[k] == all[k]);
        assert(all[k].1[i] == pcm@[k * s + i]);
        assert(0 <= k * s + i < count * s) by (nonlinear_arith)
            requires
                0 <= k < count,
                0 <= i < s,
        ;
    }
    assert(joins(record, first, b, out, s));
}

/// Packing a clip with a coder adds to its record the clip's frames and what was written
/// for them, and leaves the mode and the other record alone.
pub proof fn packing_adds_to_the_record(c2: &mut codec2::Codec2, pcm: &[i16], r: Vec<u8>)
    requires
        call_ensures(encode_frames, (c2, pcm), r),
        codec2_mode(*old(c2)) <= 5,
    ensures
        codec2_mode(*final(c2)) == codec2_mode(*old(c2)),
        codec2_unpacked(*final(c2)) == codec2_unpacked(*old(c2)),
        codec2_packed(*final(c2)).len() >= codec2_packed(*old(c2)).len(),
        codec2_packed(*final(c2)).take(codec2_packed(*old(c2)).len() as int) == codec2_packed(
            *old(c2),
        ),
        joins(
            codec2_packed(*final(c2)).skip(codec2_packed(*old(c2)).len() as int),
            pcm@,
            samples(codec2_mode(*old(c2))),
            r@,
            bytes(codec2_mode(*old(c2))),
        ),
{
    let mode = codec2_mode(*old(c2));
    lemma_sizes(mode);
    lemma_joins(pcm@, samples(mode), r@, bytes(mode));
    let before = codec2_packed(*old(c2));
    let after = codec2_packed(*final(c2));
    let blocks = paired_blocks(
        pcm@,
        samples(mode),
        r@,
        bytes(mode),
        pcm@.len() / samples(mode),
    );
    assert(after == before + blocks);
    assert(after.take(before.len() as int) =~= before);
    assert(after.skip(before.len() as int) =~= blocks);
}

/// Unpacking a payload with a coder adds to its record the packed frames and what was
/// written for them, and leaves the mode and the other record alone.
pub proof fn unpacking_adds_to_the_record(c2: &mut codec2::Codec2, payload: &[u8], r: Vec<i16>)
    requires
        call_ensures(decode_frames, (c2, payload), r),
        codec2_mode(*old(c2)) <= 5,
    ensures
        codec2_mode(*final(c2)) == codec2_mode(*old(c2)),
        codec2_packed(*final(c2)) == codec2_packed(*old(c2)),
        codec2_unpacked(*final(c2)).len() >= codec2_unpacked(*old(c2)).len(),
        codec2_unpacked(*final(c2)).take(codec2_unpacked(*old(c2)).len() as int)
            == codec2_unpacked(*old(c2)),
        joins(
            codec2_unpacked(*final(c2)).skip(codec2_unpacked(*old(c2)).len() as int),
            payload@,
            bytes(codec2_mode(*old(c2))),
            r@,
            samples(codec2_mode(*old(c2))),
        ),
{
    let mode = codec2_mode(*old(c2));
    lemma_sizes(mode);
    lemma_joins(payload@, bytes(mode), r@, samples(mode));
    let before = codec2_unpacked(*old(c2));
    let after = codec2_unpacked(*final(c2));
    let blocks = paired_blocks(
        payload@,
        bytes(mode),
        r@,
        samples(mode),
        payload@.len() / bytes(mode),
    );
    assert(after == before + blocks);
    assert(after.take(before.len() as int) =~= before);
    assert(after.skip(before.len() as int) =~= blocks);
}

/// An AMR-NB clip keeps its first samples: a multiple of 160 of them, with fewer than 160
/// left out.
pub proof fn an_amrnb_clip_keeps_its_first_samples(speech: &[i16], r: Vec<i16>)
    requires
        call_ensures(whole_frames, (speech,), r),
    ensures
        r@.len() % 160 == 0,
        r@.len() <= speech@.len() < r@.len() + 160,
        forall|i: int| 0 <= i < r@.len() ==> #[trigger] r@[i] == speech@[i],
{
}

} // verus!
