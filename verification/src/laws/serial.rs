//! Laws of the serial framing.

use vstd::prelude::*;

use crate::serial::{
    contents, deframe, deframe_split, first_marker, frame_at, frame_of, frame_serial, marker_at,
    next_frame, next_of, noise_is_skipped, noisy_stream, Deframer,
};

verus! {

/// The two start bytes stand at position `i`.
pub open spec fn start_at(buf: Seq<u8>, i: int) -> bool {
    0 <= i && i + 1 < buf.len() && buf[i] == 0x94 && buf[i + 1] == 0xc3
}

/// Position `i` holds the earliest start bytes.
pub open spec fn first_start(buf: Seq<u8>, i: int) -> bool {
    start_at(buf, i) && forall|j: int| 0 <= j < i ==> !start_at(buf, j)
}

/// The length that a header at position `i` announces.
pub open spec fn announced(buf: Seq<u8>, i: int) -> int {
    buf[i + 2] * 256 + buf[i + 3]
}

/// The wire bytes of a payload that the radio accepts.
pub open spec fn wire(payload: Seq<u8>) -> Seq<u8> {
    seq![0x94u8, 0xc3u8, (payload.len() / 256) as u8, (payload.len() % 256) as u8] + payload
}

/// A frame is four bytes longer than its payload: the start bytes, the length with the
/// high byte first, and the payload byte by byte.
pub proof fn a_frame_is_header_and_payload(payload: &[u8], r: Vec<u8>)
    requires
        call_ensures(frame_serial, (payload,), r),
    ensures
        r@.len() == payload@.len() + 4,
        r@[0] == 0x94,
        r@[1] == 0xc3,
        payload@.len() < 65536 ==> r@[2] * 256 + r@[3] == payload@.len(),
        (r@[2] * 256 + r@[3]) % 65536 == payload@.len() % 65536,
        forall|i: int| 0 <= i < payload@.len() ==> #[trigger] r@[i + 4] == payload@[i],
{
    assert(r@ == frame_of(payload@));
    let n = payload@.len() as int;
    assert(r@[2] as int == (n / 256) % 256 && r@[3] as int == n % 256);
    assert forall|i: int| 0 <= i < payload@.len() implies #[trigger] r@[i + 4] == payload@[i] by {
        assert(frame_of(payload@)[i + 4] == payload@[i]);
    }
}

/// What is read from a buffer is told by its earliest start bytes: more bytes are waited
/// for, a length of zero or above 512 is a resync marker that passes over one byte, and
/// else the payload is the announced number of bytes behind the header.
pub proof fn the_earliest_header_decides(buf: &[u8], r: Option<(Vec<u8>, usize)>, i: int)
    requires
        call_ensures(next_frame, (buf,), r),
        first_start(buf@, i),
    ensures
        i + 4 > buf@.len() ==> r is None,
        i + 4 <= buf@.len() && (announced(buf@, i) == 0 || announced(buf@, i) > 512) ==> (
        r matches Some((p, n)) && p@.len() == 0 && n == i + 1),
        i + 4 <= buf@.len() && 0 < announced(buf@, i) <= 512 && i + 4 + announced(buf@, i)
            > buf@.len() ==> r is None,
        i + 4 <= buf@.len() && 0 < announced(buf@, i) <= 512 && i + 4 + announced(buf@, i)
            <= buf@.len() ==> (r matches Some((p, n)) && n == i + 4 + announced(buf@, i) && p@.len()
            == announced(buf@, i) && (forall|k: int|
            0 <= k < p@.len() ==> #[trigger] p@[k] == buf@[i + 4 + k])),
{
    lemma_same_start(buf@, i);
}

/// Without start bytes nothing is read.
pub proof fn no_header_no_frame(buf: &[u8], r: Option<(Vec<u8>, usize)>)
    requires
        call_ensures(next_frame, (buf,), r),
        forall|i: int| !start_at(buf@, i),
    ensures
        r is None,
{
    assert forall|i: int| !first_marker(buf@, i) by {
        assert(!start_at(buf@, i));
    }
}

proof fn lemma_same_start(buf: Seq<u8>, i: int)
    requires
        first_start(buf, i),
    ensures
        next_of(buf) == frame_at(buf, i),
{
    assert(marker_at(buf, i));
    assert forall|j: int| 0 <= j < i implies !marker_at(buf, j) by {
        assert(!start_at(buf, j));
    }
    assert(first_marker(buf, i));
    let k = choose|k: int| first_marker(buf, k);
    assert(first_marker(buf, k));
    if k < i {
        assert(!marker_at(buf, k));
    } else if i < k {
        assert(!marker_at(buf, i));
    }
}

/// What is framed is read back: the payload of a frame of at most 512 bytes comes out,
/// whatever noise without start bytes stands before it and whatever follows it.
pub proof fn what_is_framed_is_read_back(
    payload: &[u8],
    frame: Vec<u8>,
    noise: Seq<u8>,
    after: Seq<u8>,
    buf: &[u8],
    r: Option<(Vec<u8>, usize)>,
)
    requires
        call_ensures(frame_serial, (payload,), frame),
        call_ensures(next_frame, (buf,), r),
        0 < payload@.len() <= 512,
        forall|i: int| !start_at(noise, i),
        buf@ == noise + frame@ + after,
    ensures
        r matches Some((p, n)) && p@ == payload@ && n == noise.len() + frame@.len(),
{
    a_frame_is_header_and_payload(payload, frame);
    let i = noise.len() as int;
    let b = buf@;
    assert(b[i] == frame@[0] && b[i + 1] == frame@[1] && b[i + 2] == frame@[2] && b[i + 3]
        == frame@[3]);
    assert forall|j: int| 0 <= j < i implies !start_at(b, j) by {
        assert(!start_at(noise, j));
        if j + 1 < i {
            assert(b[j] == noise[j] && b[j + 1] == noise[j + 1]);
        }
    }
    assert(first_start(b, i));
    the_earliest_header_decides(buf, r, i);
    let p = r->Some_0.0;
    assert forall|k: int| 0 <= k < p@.len() implies p@[k] == payload@[k] by {
        assert(b[i + 4 + k] == frame@[k + 4]);
    }
    assert(p@ =~= payload@);
}

/// A stream with noise before each frame and at the end.
pub open spec fn noisy_wire(noises: Seq<Seq<u8>>, payloads: Seq<Seq<u8>>, tail: Seq<u8>) -> Seq<u8>
    decreases payloads.len(),
{
    if payloads.len() == 0 {
        tail
    } else {
        noises.first() + wire(payloads.first()) + noisy_wire(
            noises.drop_first(),
            payloads.drop_first(),
            tail,
        )
    }
}

proof fn lemma_noisy(noises: Seq<Seq<u8>>, payloads: Seq<Seq<u8>>, tail: Seq<u8>)
    requires
        forall|k: int| 0 <= k < payloads.len() ==> 0 < (#[trigger] payloads[k]).len() <= 512,
    ensures
        noisy_wire(noises, payloads, tail) == noisy_stream(noises, payloads, tail),
    decreases payloads.len(),
{
    if payloads.len() > 0 {
        let p = payloads.first();
        assert(p == payloads[0]);
        assert(wire(p) =~= frame_of(p));
        assert forall|k: int| 0 <= k < payloads.drop_first().len() implies 0 < (
        #[trigger] payloads.drop_first()[k]).len() <= 512 by {
            assert(payloads.drop_first()[k] == payloads[k + 1]);
        }
        lemma_noisy(noises.drop_first(), payloads.drop_first(), tail);
    }
}

/// The receiving end hands out exactly the payloads of what it holds and what comes in,
/// each once and in order, and keeps the rest.
pub proof fn the_stream_comes_out_as_it_went_in(
    d: &mut Deframer,
    chunk: &[u8],
    r: Vec<Vec<u8>>,
    noises: Seq<Seq<u8>>,
    payloads: Seq<Seq<u8>>,
    tail: Seq<u8>,
)
    requires
        call_ensures(Deframer::push, (d, chunk), r),
        old(d).buf@ + chunk@ == noisy_wire(noises, payloads, tail),
        noises.len() == payloads.len(),
        forall|k: int, i: int| 0 <= k < noises.len() ==> !(#[trigger] start_at(noises[k], i)),
        forall|i: int| !start_at(tail, i),
        forall|k: int| 0 <= k < payloads.len() ==> 0 < (#[trigger] payloads[k]).len() <= 512,
    ensures
        r@.len() == payloads.len(),
        forall|k: int| 0 <= k < r@.len() ==> (#[trigger] r@[k])@ == payloads[k],
        final(d).buf@ == tail,
{
    lemma_noisy(noises, payloads, tail);
    assert forall|k: int, i: int| 0 <= k < noises.len() implies !(#[trigger] marker_at(
        noises[k],
        i,
    )) by {
        assert(!start_at(noises[k], i));
    }
    assert forall|i: int| !marker_at(tail, i) by {
        assert(!start_at(tail, i));
    }
    noise_is_skipped(noises, payloads, tail);
    assert(contents(r@) == payloads);
    assert forall|k: int| 0 <= k < r@.len() implies (#[trigger] r@[k])@ == payloads[k] by {
        assert(contents(r@)[k] == r@[k]@);
    }
}

/// How a stream is cut does not matter: two chunks one after the other give what they
/// give together, and leave the same rest.
pub proof fn two_chunks_are_as_good_as_one(
    first: &mut Deframer,
    second: &mut Deframer,
    whole: &mut Deframer,
    a: &[u8],
    b: &[u8],
    ab: &[u8],
    ra: Vec<Vec<u8>>,
    rb: Vec<Vec<u8>>,
    rab: Vec<Vec<u8>>,
)
    requires
        call_ensures(Deframer::push, (first, a), ra),
        call_ensures(Deframer::push, (second, b), rb),
        call_ensures(Deframer::push, (whole, ab), rab),
        old(second).buf@ == final(first).buf@,
        old(whole).buf@ == old(first).buf@,
        ab@ == a@ + b@,
    ensures
        rab@.len() == ra@.len() + rb@.len(),
        forall|k: int| 0 <= k < ra@.len() ==> (#[trigger] rab@[k])@ == ra@[k]@,
        forall|k: int| 0 <= k < rb@.len() ==> (#[trigger] rb@[k])@ == rab@[ra@.len() + k]@,
        final(whole).buf@ == final(second).buf@,
{
    let start = old(first).buf@;
    deframe_split(start + a@, b@);
    assert(start + a@ + b@ =~= start + ab@);
    assert(contents(rab@) == contents(ra@) + contents(rb@));
    assert(contents(rab@).len() == rab@.len() && contents(ra@).len() == ra@.len() && contents(
        rb@,
    ).len() == rb@.len());
    assert forall|k: int| 0 <= k < ra@.len() implies (#[trigger] rab@[k])@ == ra@[k]@ by {
        assert(contents(rab@)[k] == contents(ra@)[k]);
        assert(contents(rab@)[k] == rab@[k]@ && contents(ra@)[k] == ra@[k]@);
    }
    assert forall|k: int| 0 <= k < rb@.len() implies (#[trigger] rb@[k])@ == rab@[ra@.len() + k]@ by {
        let m = ra@.len() + k;
        assert(contents(rab@)[m] == contents(rb@)[k]);
        assert(contents(rab@)[m] == rab@[m]@ && contents(rb@)[k] == rb@[k]@);
    }
}

/// A header with a bad length costs one byte: the stream is read on behind its first
/// start byte.
pub proof fn a_bad_length_costs_one_byte(
    d: &mut Deframer,
    chunk: &[u8],
    r: Vec<Vec<u8>>,
    e: &mut Deframer,
    later: &[u8],
    s: Vec<Vec<u8>>,
)
    requires
        call_ensures(Deframer::push, (d, chunk), r),
        call_ensures(Deframer::push, (e, later), s),
        old(d).buf@.len() == 0,
        old(e).buf@.len() == 0,
        start_at(chunk@, 0),
        chunk@.len() >= 4,
        announced(chunk@, 0) == 0 || announced(chunk@, 0) > 512,
        later@ == chunk@.skip(1),
    ensures
        r@.len() == s@.len(),
        forall|k: int| 0 <= k < r@.len() ==> (#[trigger] r@[k])@ == s@[k]@,
        final(d).buf@ == final(e).buf@,
{
    assert(old(d).buf@ + chunk@ =~= chunk@);
    assert(old(e).buf@ + later@ =~= later@);
    assert(first_start(chunk@, 0));
    lemma_same_start(chunk@, 0);
    assert(deframe(chunk@) == deframe(later@));
    assert(contents(r@) == contents(s@));
    assert forall|k: int| 0 <= k < r@.len() implies (#[trigger] r@[k])@ == s@[k]@ by {
        assert(contents(r@)[k] == contents(s@)[k]);
    }
}

/// A stream is cut frame by frame: while no frame is complete nothing comes out and
/// everything is kept; else the next frame comes out first, unless it is a resync marker,
/// and the bytes behind it are cut in the same way.
pub proof fn a_stream_is_cut_frame_by_frame(
    d: &mut Deframer,
    chunk: &[u8],
    r: Vec<Vec<u8>>,
    buf: &[u8],
    next: Option<(Vec<u8>, usize)>,
    e: &mut Deframer,
    later: &[u8],
    s: Vec<Vec<u8>>,
)
    requires
        call_ensures(Deframer::push, (d, chunk), r),
        call_ensures(next_frame, (buf,), next),
        call_ensures(Deframer::push, (e, later), s),
        buf@ == old(d).buf@ + chunk@,
        next matches Some((_, n)) ==> old(e).buf@ + later@ == buf@.skip(n as int),
    ensures
        next is None ==> r@.len() == 0 && final(d).buf@ == buf@,
        next matches Some((p, n)) ==> {
            &&& 0 < n <= buf@.len()
            &&& final(d).buf@ == final(e).buf@
            &&& p@.len() == 0 ==> r@.len() == s@.len() && forall|k: int|
                0 <= k < r@.len() ==> (#[trigger] r@[k])@ == s@[k]@
            &&& p@.len() > 0 ==> r@.len() == s@.len() + 1 && r@[0]@ == p@ && forall|k: int|
                0 <= k < s@.len() ==> (#[trigger] s@[k])@ == r@[k + 1]@
        },
{
    assert(contents(r@).len() == r@.len() && contents(s@).len() == s@.len());
    if let Some((p, n)) = next {
        if p@.len() == 0 {
            assert forall|k: int| 0 <= k < r@.len() implies (#[trigger] r@[k])@ == s@[k]@ by {
                assert(contents(r@)[k] == r@[k]@ && contents(s@)[k] == s@[k]@);
            }
        } else {
            assert(contents(r@) == seq![p@] + contents(s@));
            assert(contents(r@)[0] == r@[0]@);
            assert forall|k: int| 0 <= k < s@.len() implies (#[trigger] s@[k])@ == r@[k + 1]@ by {
                assert(contents(r@)[k + 1] == r@[k + 1]@ && contents(s@)[k] == s@[k]@);
            }
        }
    }
}

/// A new receiving end holds nothing.
pub proof fn a_new_stream_is_empty(r: Deframer)
    requires
        call_ensures(Deframer::new, (), r),
    ensures
        r.buf@.len() == 0,
{
}

} // verus!
