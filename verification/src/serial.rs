//! Meshtastic USB-serial framing: a four-byte header (two start bytes and a
//! big-endian length) before every payload. [`frame_serial`] and [`next_frame`]
//! write and read one frame; [`Deframer`] cuts a byte stream that arrives in
//! arbitrary chunks into payloads.

use vstd::prelude::*;

verus! {

/// First of the two bytes that begin every frame.
pub const START1: u8 = 0x94;

/// Second of the two bytes that begin every frame.
pub const START2: u8 = 0xc3;

/// Longest protobuf payload that the device accepts.
pub const MAX_PAYLOAD: usize = 512;

/// Default baud rate of Meshtastic USB-serial.
pub const BAUD: u32 = 115_200;

/// The wire bytes of a payload: start bytes, the length modulo 2^16 in big-endian
/// order, then the payload.
pub open spec fn frame_of(payload: Seq<u8>) -> Seq<u8> {
    seq![
        START1,
        START2,
        ((payload.len() / 256) % 256) as u8,
        (payload.len() % 256) as u8,
    ] + payload
}

/// The two start bytes stand at position `i` of `buf`.
pub open spec fn marker_at(buf: Seq<u8>, i: int) -> bool {
    0 <= i && i + 1 < buf.len() && buf[i] == START1 && buf[i + 1] == START2
}

/// Position `i` holds the earliest pair of start bytes in `buf`.
pub open spec fn first_marker(buf: Seq<u8>, i: int) -> bool {
    marker_at(buf, i) && forall|j: int| 0 <= j < i ==> !marker_at(buf, j)
}

/// The big-endian length field of a header at position `i`.
pub open spec fn header_len(buf: Seq<u8>, i: int) -> int {
    buf[i + 2] * 256 + buf[i + 3]
}

/// What a header at position `i` gives: nothing while bytes are missing, an empty
/// payload that ends just behind the first start byte when the length is out of
/// range, else the payload and where it ends.
pub open spec fn frame_at(buf: Seq<u8>, i: int) -> Option<(Seq<u8>, int)> {
    if i + 4 > buf.len() {
        None
    } else if header_len(buf, i) == 0 || header_len(buf, i) > MAX_PAYLOAD {
        Some((Seq::empty(), i + 1))
    } else if i + 4 + header_len(buf, i) > buf.len() {
        None
    } else {
        Some(
            (
                buf.subrange(i + 4, i + 4 + header_len(buf, i)),
                i + 4 + header_len(buf, i),
            ),
        )
    }
}

/// What the earliest header in `buf` gives; nothing when there is no header.
pub open spec fn next_of(buf: Seq<u8>) -> Option<(Seq<u8>, int)> {
    if exists|i: int| first_marker(buf, i) {
        frame_at(buf, choose|i: int| first_marker(buf, i))
    } else {
        None
    }
}

/// Cuts `buf` into its payloads, resync markers left out, and the bytes that
/// remain because the next frame is not complete.
pub open spec fn deframe(buf: Seq<u8>) -> (Seq<Seq<u8>>, Seq<u8>)
    decreases buf.len(),
{
    match next_of(buf) {
        None => (Seq::empty(), buf),
        Some((payload, end)) => if 0 < end <= buf.len() {
            let (tail, rest) = deframe(buf.skip(end));
            if payload.len() == 0 {
                (tail, rest)
            } else {
                (seq![payload] + tail, rest)
            }
        } else {
            (Seq::empty(), buf)
        },
    }
}

/// Prepends the serial header to a payload.
pub fn frame_serial(payload: &[u8]) -> (r: Vec<u8>)
    ensures
        r@ == frame_of(payload@),
{
    let len: usize = payload.len();
    let mut v: Vec<u8> = Vec::new();
    v.push(START1);
    v.push(START2);
    v.push(((len / 256) % 256) as u8);
    v.push((len % 256) as u8);
    v.extend_from_slice(payload);
    v
}

/// Takes one frame from the front of `buf`, passing over console noise. Returns
/// the payload and the number of bytes used up, an empty payload as a resync
/// marker on a bad length, or `None` when more bytes are needed.
pub fn next_frame(buf: &[u8]) -> (r: Option<(Vec<u8>, usize)>)
    ensures
        match r {
            None => next_of(buf@) is None,
            Some((payload, end)) => next_of(buf@) == Some((payload@, end as int)),
        },
        r matches Some((_, end)) ==> 0 < end <= buf@.len(),
{
    let n: usize = buf.len();
    let mut i: usize = 0;
    while i < n && n - i > 1 && !(buf[i] == START1 && buf[i + 1] == START2)
        invariant
            n == buf@.len(),
            i <= n,
            forall|j: int| 0 <= j < i ==> !marker_at(buf@, j),
        decreases n - i,
    {
        i += 1;
    }
    if n - i <= 1 {
        assert forall|k: int| !first_marker(buf@, k) by {
            assert(!marker_at(buf@, k));
        }
        return None;
    }
    proof {
        lemma_first_marker(buf@, i as int);
    }
    if n - i < 4 {
        return None;
    }
    let len: usize = (buf[i + 2] as usize) * 256 + (buf[i + 3] as usize);
    if len == 0 || len > MAX_PAYLOAD {
        let empty: Vec<u8> = Vec::new();
        assert(empty@ =~= Seq::empty());
        return Some((empty, i + 1));
    }
    let start: usize = i + 4;
    if n - start < len {
        return None;
    }
    let mut payload: Vec<u8> = Vec::new();
    payload.extend_from_slice(vstd::slice::slice_subrange(buf, start, start + len));
    assert(payload@ =~= buf@.subrange(start as int, start + len));
    Some((payload, start + len))
}

proof fn lemma_first_marker(buf: Seq<u8>, i: int)
    requires
        first_marker(buf, i),
    ensures
        next_of(buf) == frame_at(buf, i),
{
    let k = choose|k: int| first_marker(buf, k);
    assert(first_marker(buf, k));
    if k < i {
        assert(!marker_at(buf, k));
    } else if i < k {
        assert(!marker_at(buf, i));
    }
}

/// The contents of a list of byte strings.
pub open spec fn contents(v: Seq<Vec<u8>>) -> Seq<Seq<u8>> {
    v.map_values(|p: Vec<u8>| p@)
}

/// The receiving end of the byte stream: holds the bytes that do not make a
/// complete frame yet.
pub struct Deframer {
    pub buf: Vec<u8>,
}

impl View for Deframer {
    type V = Seq<u8>;

    open spec fn view(&self) -> Seq<u8> {
        self.buf@
    }
}

impl Deframer {
    /// A stream from which nothing was received.
    pub fn new() -> (r: Self)
        ensures
            r@ == Seq::<u8>::empty(),
    {
        Deframer { buf: Vec::new() }
    }

    /// Takes in the next bytes of the stream and returns the payloads that are
    /// now complete, in order.
    pub fn push(&mut self, chunk: &[u8]) -> (r: Vec<Vec<u8>>)
        ensures
            (contents(r@), final(self)@) == deframe(old(self)@ + chunk@),
    {
        self.buf.extend_from_slice(chunk);
        let ghost all = self.buf@;
        let mut out: Vec<Vec<u8>> = Vec::new();
        assert(all =~= old(self)@ + chunk@);
        assert(contents(out@) + deframe(all).0 =~= deframe(all).0);
        loop
            invariant
                deframe(all).0 == contents(out@) + deframe(self.buf@).0,
                deframe(all).1 == deframe(self.buf@).1,
            ensures
                deframe(all).0 == contents(out@),
                deframe(all).1 == self.buf@,
            decreases self.buf@.len(),
        {
            match next_frame(self.buf.as_slice()) {
                None => {
                    assert(contents(out@) + deframe(self.buf@).0 =~= contents(out@));
                    break;
                },
                Some((payload, end)) => {
                    let ghost before = self.buf@;
                    let ghost prev = contents(out@);
                    let rest: Vec<u8> = self.buf.split_off(end);
                    self.buf = rest;
                    assert(self.buf@ =~= before.skip(end as int));
                    if payload.len() > 0 {
                        let ghost p = payload@;
                        out.push(payload);
                        assert(contents(out@) =~= prev.push(p));
                        assert(prev + (seq![p] + deframe(self.buf@).0) =~= prev.push(p) + deframe(
                            self.buf@,
                        ).0);
                    }
                },
            }
        }
        out
    }
}

/// Bytes that arrive later never change a frame that is already complete.
pub proof fn complete_frame_is_final(buf: Seq<u8>, more: Seq<u8>)
    requires
        next_of(buf) is Some,
    ensures
        next_of(buf + more) == next_of(buf),
{
    let i = choose|i: int| first_marker(buf, i);
    lemma_first_marker(buf, i);
    assert(first_marker(buf + more, i)) by {
        assert forall|j: int| 0 <= j < i implies !marker_at(buf + more, j) by {
            assert(!marker_at(buf, j));
        }
    }
    lemma_first_marker(buf + more, i);
    let n = header_len(buf, i);
    if n != 0 && n <= MAX_PAYLOAD {
        assert((buf + more).subrange(i + 4, i + 4 + n) =~= buf.subrange(i + 4, i + 4 + n));
    }
}

proof fn lemma_next_bounds(buf: Seq<u8>)
    ensures
        next_of(buf) matches Some((_, end)) ==> 0 < end <= buf.len(),
{
    if next_of(buf) is Some {
        let i = choose|i: int| first_marker(buf, i);
        lemma_first_marker(buf, i);
    }
}

/// Where the stream is cut makes no difference: the payloads of `a + b` are those
/// of `a`, then those of what `a` left over followed by `b`.
pub proof fn deframe_split(a: Seq<u8>, b: Seq<u8>)
    ensures
        deframe(a + b).0 == deframe(a).0 + deframe(deframe(a).1 + b).0,
        deframe(a + b).1 == deframe(deframe(a).1 + b).1,
    decreases a.len(),
{
    match next_of(a) {
        None => {
            assert(deframe(a).0 + deframe(a + b).0 =~= deframe(a + b).0);
        },
        Some((payload, end)) => {
            lemma_next_bounds(a);
            complete_frame_is_final(a, b);
            assert((a + b).skip(end) =~= a.skip(end) + b);
            deframe_split(a.skip(end), b);
            let (tail, rest) = deframe(a.skip(end));
            assert(seq![payload] + (tail + deframe(rest + b).0) =~= (seq![payload] + tail)
                + deframe(rest + b).0);
        },
    }
}

/// The bytes of a list of chunks, one behind the other.
pub open spec fn joined(chunks: Seq<Seq<u8>>) -> Seq<u8>
    decreases chunks.len(),
{
    if chunks.len() == 0 {
        Seq::empty()
    } else {
        joined(chunks.drop_last()) + chunks.last()
    }
}

/// What a new [`Deframer`] has handed out, and still holds, after the pushes `chunks`.
pub open spec fn pushed(chunks: Seq<Seq<u8>>) -> (Seq<Seq<u8>>, Seq<u8>)
    decreases chunks.len(),
{
    if chunks.len() == 0 {
        (Seq::empty(), Seq::empty())
    } else {
        let (out, held) = pushed(chunks.drop_last());
        let (more, rest) = deframe(held + chunks.last());
        (out + more, rest)
    }
}

/// However a stream is cut into chunks, the same payloads come out in the same order.
pub proof fn chunking_is_irrelevant(chunks: Seq<Seq<u8>>)
    ensures
        pushed(chunks) == deframe(joined(chunks)),
    decreases chunks.len(),
{
    if chunks.len() == 0 {
        lemma_no_marker(Seq::empty());
        assert(deframe(Seq::<u8>::empty()) == (Seq::<Seq<u8>>::empty(), Seq::<u8>::empty()));
    } else {
        chunking_is_irrelevant(chunks.drop_last());
        deframe_split(joined(chunks.drop_last()), chunks.last());
    }
}

proof fn lemma_no_marker(buf: Seq<u8>)
    requires
        forall|i: int| !marker_at(buf, i),
    ensures
        next_of(buf) is None,
        deframe(buf) == (Seq::<Seq<u8>>::empty(), buf),
{
    assert forall|i: int| !first_marker(buf, i) by {
        assert(!marker_at(buf, i));
    }
}

/// Reading a frame that stands behind noise without start bytes gives back its
/// payload, and uses up the noise and the frame.
pub proof fn noise_then_frame_roundtrip(noise: Seq<u8>, payload: Seq<u8>, after: Seq<u8>)
    requires
        forall|i: int| !marker_at(noise, i),
        0 < payload.len() <= MAX_PAYLOAD,
    ensures
        next_of(noise + frame_of(payload) + after) == Some(
            (payload, (noise.len() + payload.len() + 4) as int),
        ),
{
    let n = noise.len() as int;
    let f = frame_of(payload);
    let b = noise + f + after;
    assert(b[n] == START1 && b[n + 1] == START2);
    assert(b[n + 2] == f[2] && b[n + 3] == f[3]);
    assert(marker_at(b, n));
    assert forall|j: int| 0 <= j < n implies !marker_at(b, j) by {
        assert(!marker_at(noise, j));
        if j + 1 == n {
            assert(b[j + 1] == START1);
        } else {
            assert(b[j] == noise[j] && b[j + 1] == noise[j + 1]);
        }
    }
    lemma_first_marker(b, n);
    assert(header_len(b, n) == payload.len());
    assert(b.subrange(n + 4, n + 4 + payload.len()) =~= payload);
}

/// Reading a frame gives back its payload and uses up exactly the frame.
pub proof fn frame_roundtrip(payload: Seq<u8>)
    requires
        0 < payload.len() <= MAX_PAYLOAD,
    ensures
        next_of(frame_of(payload)) == Some((payload, frame_of(payload).len() as int)),
{
    let none = Seq::<u8>::empty();
    noise_then_frame_roundtrip(none, payload, none);
    assert(none + frame_of(payload) + none =~= frame_of(payload));
}

/// A payload that the device would not accept is not delivered: its frame reads as
/// a resync marker (for lengths that the header can express).
pub proof fn oversized_frame_is_resync(payload: Seq<u8>)
    requires
        payload.len() == 0 || MAX_PAYLOAD < payload.len() < 65536,
    ensures
        next_of(frame_of(payload)) == Some((Seq::<u8>::empty(), 1int)),
{
    let f = frame_of(payload);
    assert(marker_at(f, 0));
    lemma_first_marker(f, 0);
    assert(header_len(f, 0) == payload.len());
}

/// The frames of a list of payloads, one behind the other.
pub open spec fn framed(payloads: Seq<Seq<u8>>) -> Seq<u8>
    decreases payloads.len(),
{
    if payloads.len() == 0 {
        Seq::empty()
    } else {
        frame_of(payloads.first()) + framed(payloads.drop_first())
    }
}

/// A stream of framed payloads is read back as exactly those payloads, in order,
/// with nothing left over.
pub proof fn stream_roundtrip(payloads: Seq<Seq<u8>>)
    requires
        forall|k: int|
            0 <= k < payloads.len() ==> 0 < (#[trigger] payloads[k]).len() <= MAX_PAYLOAD,
    ensures
        deframe(framed(payloads)) == (payloads, Seq::<u8>::empty()),
    decreases payloads.len(),
{
    if payloads.len() == 0 {
        lemma_no_marker(Seq::empty());
        assert(payloads =~= Seq::empty());
    } else {
        let p = payloads.first();
        let rest = framed(payloads.drop_first());
        let none = Seq::<u8>::empty();
        assert(p == payloads[0]);
        noise_then_frame_roundtrip(none, p, rest);
        assert(none + frame_of(p) + rest =~= frame_of(p) + rest);
        assert((frame_of(p) + rest).skip((p.len() + 4) as int) =~= rest);
        assert forall|k: int| 0 <= k < payloads.drop_first().len() implies 0 < (
        #[trigger] payloads.drop_first()[k]).len() <= MAX_PAYLOAD by {
            assert(payloads.drop_first()[k] == payloads[k + 1]);
        }
        stream_roundtrip(payloads.drop_first());
        assert(seq![p] + payloads.drop_first() =~= payloads);
    }
}

/// A stream in which noise stands before each frame and at the end.
pub open spec fn noisy_stream(
    noises: Seq<Seq<u8>>,
    payloads: Seq<Seq<u8>>,
    tail: Seq<u8>,
) -> Seq<u8>
    decreases payloads.len(),
{
    if payloads.len() == 0 {
        tail
    } else {
        noises.first() + frame_of(payloads.first()) + noisy_stream(
            noises.drop_first(),
            payloads.drop_first(),
            tail,
        )
    }
}

/// Noise without start bytes does no harm: whatever stands between the frames of a
/// stream, exactly the payloads come out, in order.
pub proof fn noise_is_skipped(noises: Seq<Seq<u8>>, payloads: Seq<Seq<u8>>, tail: Seq<u8>)
    requires
        noises.len() == payloads.len(),
        forall|k: int, i: int| 0 <= k < noises.len() ==> !(#[trigger] marker_at(noises[k], i)),
        forall|i: int| !marker_at(tail, i),
        forall|k: int|
            0 <= k < payloads.len() ==> 0 < (#[trigger] payloads[k]).len() <= MAX_PAYLOAD,
    ensures
        deframe(noisy_stream(noises, payloads, tail)) == (payloads, tail),
    decreases payloads.len(),
{
    if payloads.len() == 0 {
        lemma_no_marker(tail);
        assert(payloads =~= Seq::empty());
    } else {
        let p = payloads.first();
        let noise = noises.first();
        let rest = noisy_stream(noises.drop_first(), payloads.drop_first(), tail);
        assert(p == payloads[0]);
        assert forall|i: int| !marker_at(noise, i) by {
            assert(!marker_at(noises[0], i));
        }
        noise_then_frame_roundtrip(noise, p, rest);
        let stream = noise + frame_of(p) + rest;
        assert(stream.skip((noise.len() + p.len() + 4) as int) =~= rest);
        assert forall|k: int| 0 <= k < payloads.drop_first().len() implies 0 < (
        #[trigger] payloads.drop_first()[k]).len() <= MAX_PAYLOAD by {
            assert(payloads.drop_first()[k] == payloads[k + 1]);
        }
        assert forall|k: int, i: int| 0 <= k < noises.drop_first().len() implies !(
        #[trigger] marker_at(noises.drop_first()[k], i)) by {
            assert(!marker_at(noises[k + 1], i));
        }
        noise_is_skipped(noises.drop_first(), payloads.drop_first(), tail);
        assert(seq![p] + payloads.drop_first() =~= payloads);
    }
}

} // verus!
