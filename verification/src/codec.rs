//! Codec2 framing: a clip of 8 kHz mono samples is cut into codec frames, each of
//! which the `codec2` crate packs into a fixed number of bytes, and back.
//!
//! The coder itself is a signal processor on floating-point state, and its decoder
//! draws from a process-wide pseudo-random sequence. So nothing is said about which
//! bytes or samples come out of one call; what is stated is which frames are handed
//! to the coder, in which order, and how its answers are put together.

use vstd::prelude::*;

use crate::text::{dec, push_dec};

verus! {

/// Codec2's fixed sample rate in Hz.
pub const CODEC2_RATE: u32 = 8_000;

/// The Codec2 bit rates, in the order of their on-wire index.
#[derive(Clone, Copy, Debug, PartialEq, Eq, Structural)]
pub enum Mode {
    Mode3200,
    Mode2400,
    Mode1600,
    Mode1400,
    Mode1300,
    Mode1200,
}

/// The on-wire index of a mode.
pub open spec fn mode_index(mode: Mode) -> u8 {
    match mode {
        Mode::Mode3200 => 0,
        Mode::Mode2400 => 1,
        Mode::Mode1600 => 2,
        Mode::Mode1400 => 3,
        Mode::Mode1300 => 4,
        Mode::Mode1200 => 5,
    }
}

/// Samples in one frame of the mode with on-wire index `index`.
pub open spec fn frame_samples(index: u8) -> nat {
    if index <= 1 {
        160
    } else {
        320
    }
}

/// Bits in one packed frame of the mode with on-wire index `index`.
pub open spec fn frame_bits(index: u8) -> nat {
    if index == 0 || index == 2 {
        64
    } else if index == 3 {
        56
    } else if index == 4 {
        52
    } else {
        48
    }
}

/// Bytes that hold one packed frame.
pub open spec fn frame_bytes(index: u8) -> nat {
    (frame_bits(index) + 7) / 8
}

/// The text of the error for an on-wire index that names no mode.
pub open spec fn unknown_mode_text(b: u8) -> Seq<char> {
    "unknown codec2 mode index "@ + dec(b as nat)
}

/// Maps the on-wire `codec_param` byte to a mode.
pub fn mode_from_param(b: u8) -> (r: Result<Mode, String>)
    ensures
        r is Ok <==> b <= 5,
        r matches Ok(mode) ==> mode_index(mode) == b,
        r matches Err(text) ==> text@ == unknown_mode_text(b),
{
    match b {
        0 => Ok(Mode::Mode3200),
        1 => Ok(Mode::Mode2400),
        2 => Ok(Mode::Mode1600),
        3 => Ok(Mode::Mode1400),
        4 => Ok(Mode::Mode1300),
        5 => Ok(Mode::Mode1200),
        _ => {
            let mut text: String = "unknown codec2 mode index ".to_owned();
            push_dec(&mut text, b as u64);
            Err(text)
        },
    }
}

/// The coder of the `codec2` crate, with its signal-processing state inside.
#[verifier::external_type_specification]
#[verifier::external_body]
pub struct ExCodec2(codec2::Codec2);

/// The on-wire index of the mode that a coder was made for.
pub uninterp spec fn codec2_mode(c2: codec2::Codec2) -> u8;

/// The frames that a coder has packed since it was made: the samples that it was
/// given and the bytes that it wrote, in order.
pub uninterp spec fn codec2_packed(c2: codec2::Codec2) -> Seq<(Seq<i16>, Seq<u8>)>;

/// The frames that a coder has unpacked since it was made: the bytes that it was
/// given and the samples that it wrote, in order.
pub uninterp spec fn codec2_unpacked(c2: codec2::Codec2) -> Seq<(Seq<u8>, Seq<i16>)>;

/// `codec2::Codec2::new`: a coder for the mode that has not worked on any frame.
#[verifier::external_body]
fn codec2_new(mode: Mode) -> (r: codec2::Codec2)
    ensures
        codec2_mode(r) == mode_index(mode),
        codec2_packed(r) == Seq::<(Seq<i16>, Seq<u8>)>::empty(),
        codec2_unpacked(r) == Seq::<(Seq<u8>, Seq<i16>)>::empty(),
{
    codec2::Codec2::new(
        match mode {
            Mode::Mode3200 => codec2::Codec2Mode::MODE_3200,
            Mode::Mode2400 => codec2::Codec2Mode::MODE_2400,
            Mode::Mode1600 => codec2::Codec2Mode::MODE_1600,
            Mode::Mode1400 => codec2::Codec2Mode::MODE_1400,
            Mode::Mode1300 => codec2::Codec2Mode::MODE_1300,
            Mode::Mode1200 => codec2::Codec2Mode::MODE_1200,
        },
    )
}

/// `codec2::Codec2::samples_per_frame`: a fixed number for each mode.
#[verifier::external_body]
fn codec2_samples_per_frame(c2: &codec2::Codec2) -> (r: usize)
    ensures
        r == frame_samples(codec2_mode(*c2)),
{
    c2.samples_per_frame()
}

/// `codec2::Codec2::bits_per_frame`: a fixed number for each mode.
#[verifier::external_body]
fn codec2_bits_per_frame(c2: &codec2::Codec2) -> (r: usize)
    ensures
        r == frame_bits(codec2_mode(*c2)),
{
    c2.bits_per_frame()
}

/// `codec2::Codec2::encode`: packs one frame of samples into the buffer, whose
/// length stays the same, and leaves the mode alone. Which bytes it writes is left
/// open: they come from floating-point functions whose precision varies with the
/// machine.
#[verifier::external_body]
fn codec2_encode(c2: &mut codec2::Codec2, packed: &mut Vec<u8>, speech: &[i16])
    requires
        old(packed)@.len() == frame_bytes(codec2_mode(*old(c2))),
        speech@.len() == frame_samples(codec2_mode(*old(c2))),
    ensures
        final(packed)@.len() == old(packed)@.len(),
        codec2_mode(*final(c2)) == codec2_mode(*old(c2)),
        codec2_packed(*final(c2)) == codec2_packed(*old(c2)).push((speech@, final(packed)@)),
        codec2_unpacked(*final(c2)) == codec2_unpacked(*old(c2)),
{
    c2.encode(packed, speech)
}

/// `codec2::Codec2::decode`: unpacks one frame into the sample buffer, whose length
/// stays the same, and leaves the mode alone. Which samples it writes is left open:
/// the decoder mixes in values of a process-wide pseudo-random sequence.
#[verifier::external_body]
fn codec2_decode(c2: &mut codec2::Codec2, speech: &mut Vec<i16>, bits: &[u8])
    requires
        old(speech)@.len() == frame_samples(codec2_mode(*old(c2))),
        bits@.len() == frame_bytes(codec2_mode(*old(c2))),
    ensures
        final(speech)@.len() == old(speech)@.len(),
        codec2_mode(*final(c2)) == codec2_mode(*old(c2)),
        codec2_packed(*final(c2)) == codec2_packed(*old(c2)),
        codec2_unpacked(*final(c2)) == codec2_unpacked(*old(c2)).push((bits@, final(speech)@)),
{
    c2.decode(speech, bits)
}

/// The `k`-th run of `size` elements of `s`.
pub open spec fn block<T>(s: Seq<T>, size: nat, k: int) -> Seq<T> {
    s.subrange(k * size, (k + 1) * size)
}

/// `from` in blocks of `a` paired with `to` in blocks of `b`, for `count` blocks.
pub open spec fn paired_blocks<A, B>(
    from: Seq<A>,
    a: nat,
    to: Seq<B>,
    b: nat,
    count: nat,
) -> Seq<(Seq<A>, Seq<B>)> {
    Seq::new(count, |k: int| (block(from, a, k), block(to, b, k)))
}

proof fn lemma_block_step(k: int, size: nat, len: int)
    requires
        0 <= k,
        0 < size,
        0 <= len,
    ensures
        k * size <= (k + 1) * size,
        (k + 1) * size == k * size + size,
        (k + 1) * size <= len <==> k < len / (size as int),
        0 <= k * size,
{
    assert((k + 1) * size == k * size + size) by (nonlinear_arith);
    assert(0 <= k * size) by (nonlinear_arith)
        requires
            0 <= k,
            0 < size,
    ;
    let q = len / (size as int);
    let r = len % (size as int);
    assert(len == q * size + r && 0 <= r < size) by (nonlinear_arith)
        requires
            q == len / (size as int),
            r == len % (size as int),
            0 < size,
    ;
    if k < q {
        assert((k + 1) * size <= q * size) by (nonlinear_arith)
            requires
                k + 1 <= q,
                0 < size,
        ;
    } else {
        assert(q * size <= k * size) by (nonlinear_arith)
            requires
                q <= k,
                0 < size,
        ;
    }
}

proof fn lemma_blocks_grow<A, B>(
    from: Seq<A>,
    a: nat,
    to: Seq<B>,
    b: nat,
    count: nat,
    more: Seq<B>,
)
    requires
        a > 0,
        b > 0,
        to.len() == count * b,
        more.len() == b,
    ensures
        paired_blocks(from, a, to + more, b, count + 1) == paired_blocks(
            from,
            a,
            to,
            b,
            count,
        ).push((block(from, a, count as int), more)),
        (to + more).len() == (count + 1) * b,
{
    assert((count + 1) * b == count * b + b) by (nonlinear_arith);
    let x = paired_blocks(from, a, to + more, b, count + 1);
    let y = paired_blocks(from, a, to, b, count).push((block(from, a, count as int), more));
    assert forall|k: int| 0 <= k < x.len() implies #[trigger] x[k] == y[k] by {
        if k < count {
            assert((k + 1) * b <= count * b && 0 <= k * b <= (k + 1) * b) by (nonlinear_arith)
                requires
                    0 <= k < count,
                    b > 0,
            ;
            assert(block(to + more, b, k) =~= block(to, b, k));
        } else {
            assert(block(to + more, b, k) =~= more);
        }
    }
    assert(x =~= y);
}

/// Packs a clip with a coder: every whole frame of the clip is handed to it, in
/// order, and its answers are joined. Samples behind the last whole frame are
/// dropped.
pub fn encode_frames(c2: &mut codec2::Codec2, pcm: &[i16]) -> (r: Vec<u8>)
    ensures
        codec2_mode(*final(c2)) == codec2_mode(*old(c2)),
        codec2_unpacked(*final(c2)) == codec2_unpacked(*old(c2)),
        ({
            let index = codec2_mode(*old(c2));
            let count = pcm@.len() / frame_samples(index);
            &&& r@.len() == count * frame_bytes(index)
            &&& codec2_packed(*final(c2)) == codec2_packed(*old(c2)) + paired_blocks(
                pcm@,
                frame_samples(index),
                r@,
                frame_bytes(index),
                count,
            )
        }),
{
    let ghost index = codec2_mode(*c2);
    let ghost log = codec2_packed(*c2);
    let spf: usize = codec2_samples_per_frame(c2);
    let bpf: usize = (codec2_bits_per_frame(c2) + 7) / 8;
    let mut payload: Vec<u8> = Vec::new();
    let mut i: usize = 0;
    let ghost mut count: nat = 0;
    assert(0 * bpf == 0);
    assert(log + paired_blocks(pcm@, spf as nat, payload@, bpf as nat, 0) =~= log);
    while pcm.len() - i >= spf
        invariant
            index == codec2_mode(*c2),
            codec2_unpacked(*c2) == codec2_unpacked(*old(c2)),
            spf == frame_samples(index),
            bpf == frame_bytes(index),
            i == count * spf,
            i <= pcm@.len(),
            payload@.len() == count * bpf,
            codec2_packed(*c2) == log + paired_blocks(
                pcm@,
                spf as nat,
                payload@,
                bpf as nat,
                count,
            ),
        decreases pcm@.len() - i,
    {
        let mut packed: Vec<u8> = vec![0u8; bpf];
        let frame: &[i16] = vstd::slice::slice_subrange(pcm, i, i + spf);
        codec2_encode(c2, &mut packed, frame);
        proof {
            lemma_block_step(count as int, spf as nat, pcm@.len() as int);
            lemma_blocks_grow(pcm@, spf as nat, payload@, bpf as nat, count, packed@);
            assert(frame@ =~= block(pcm@, spf as nat, count as int));
        }
        let ghost before = payload@;
        payload.extend_from_slice(packed.as_slice());
        proof {
            assert(payload@ =~= before + packed@);
            let blocks = paired_blocks(pcm@, spf as nat, before, bpf as nat, count);
            assert((log + blocks).push((frame@, packed@)) =~= log + blocks.push((frame@, packed@)));
            count = count + 1;
        }
        i += spf;
    }
    proof {
        lemma_block_step(count as int, spf as nat, pcm@.len() as int);
        if count > 0 {
            lemma_block_step(count - 1, spf as nat, pcm@.len() as int);
        }
        assert(count == pcm@.len() / (spf as nat));
    }
    payload
}

/// Unpacks a payload with a coder: every whole packed frame is handed to it, in
/// order, and its answers are joined. Bytes behind the last whole frame are dropped.
pub fn decode_frames(c2: &mut codec2::Codec2, payload: &[u8]) -> (r: Vec<i16>)
    ensures
        codec2_mode(*final(c2)) == codec2_mode(*old(c2)),
        codec2_packed(*final(c2)) == codec2_packed(*old(c2)),
        ({
            let index = codec2_mode(*old(c2));
            let count = payload@.len() / frame_bytes(index);
            &&& r@.len() == count * frame_samples(index)
            &&& codec2_unpacked(*final(c2)) == codec2_unpacked(*old(c2)) + paired_blocks(
                payload@,
                frame_bytes(index),
                r@,
                frame_samples(index),
                count,
            )
        }),
{
    let ghost index = codec2_mode(*c2);
    let ghost log = codec2_unpacked(*c2);
    let spf: usize = codec2_samples_per_frame(c2);
    let bpf: usize = (codec2_bits_per_frame(c2) + 7) / 8;
    let mut pcm: Vec<i16> = Vec::new();
    let mut frame: Vec<i16> = vec![0i16; spf];
    let mut i: usize = 0;
    let ghost mut count: nat = 0;
    assert(0 * spf == 0);
    assert(log + paired_blocks(payload@, bpf as nat, pcm@, spf as nat, 0) =~= log);
    while payload.len() - i >= bpf
        invariant
            index == codec2_mode(*c2),
            codec2_packed(*c2) == codec2_packed(*old(c2)),
            spf == frame_samples(index),
            bpf == frame_bytes(index),
            frame@.len() == spf,
            i == count * bpf,
            i <= payload@.len(),
            pcm@.len() == count * spf,
            codec2_unpacked(*c2) == log + paired_blocks(
                payload@,
                bpf as nat,
                pcm@,
                spf as nat,
                count,
            ),
        decreases payload@.len() - i,
    {
        let bits: &[u8] = vstd::slice::slice_subrange(payload, i, i + bpf);
        codec2_decode(c2, &mut frame, bits);
        proof {
            lemma_block_step(count as int, bpf as nat, payload@.len() as int);
            lemma_blocks_grow(payload@, bpf as nat, pcm@, spf as nat, count, frame@);
            assert(bits@ =~= block(payload@, bpf as nat, count as int));
        }
        let ghost before = pcm@;
        pcm.extend_from_slice(frame.as_slice());
        proof {
            assert(pcm@ =~= before + frame@);
            let blocks = paired_blocks(payload@, bpf as nat, before, spf as nat, count);
            assert((log + blocks).push((bits@, frame@)) =~= log + blocks.push((bits@, frame@)));
            count = count + 1;
        }
        i += bpf;
    }
    proof {
        lemma_block_step(count as int, bpf as nat, payload@.len() as int);
        if count > 0 {
            lemma_block_step(count - 1, bpf as nat, payload@.len() as int);
        }
        assert(count == payload@.len() / (bpf as nat));
    }
    pcm
}

/// `payload` is what a new coder for the mode `index` wrote when it was given the
/// whole frames of `pcm` in order, and nothing else.
pub open spec fn encodes(pcm: Seq<i16>, index: u8, payload: Seq<u8>) -> bool {
    let count = pcm.len() / frame_samples(index);
    &&& payload.len() == count * frame_bytes(index)
    &&& exists|c2: codec2::Codec2|
        codec2_mode(c2) == index && #[trigger] codec2_packed(c2) == paired_blocks(
            pcm,
            frame_samples(index),
            payload,
            frame_bytes(index),
            count,
        )
}

/// `pcm` is what a new coder for the mode `index` wrote when it was given the whole
/// packed frames of `payload` in order, and nothing else.
pub open spec fn decodes(payload: Seq<u8>, index: u8, pcm: Seq<i16>) -> bool {
    let count = payload.len() / frame_bytes(index);
    &&& pcm.len() == count * frame_samples(index)
    &&& exists|c2: codec2::Codec2|
        codec2_mode(c2) == index && #[trigger] codec2_unpacked(c2) == paired_blocks(
            payload,
            frame_bytes(index),
            pcm,
            frame_samples(index),
            count,
        )
}

/// Encodes a clip of 8 kHz mono samples into concatenated Codec2 frames. Trailing
/// samples that do not fill a codec frame are dropped.
pub fn encode(pcm8k: &[i16], codec_param: u8) -> (r: Result<Vec<u8>, String>)
    ensures
        r is Ok <==> codec_param <= 5,
        r matches Ok(payload) ==> encodes(pcm8k@, codec_param, payload@),
        pcm8k@.len() < frame_samples(codec_param) ==> (r matches Ok(payload) ==> payload@.len()
            == 0),
        r matches Err(text) ==> text@ == unknown_mode_text(codec_param),
{
    match mode_from_param(codec_param) {
        Err(text) => Err(text),
        Ok(mode) => {
            let mut c2: codec2::Codec2 = codec2_new(mode);
            let payload: Vec<u8> = encode_frames(&mut c2, pcm8k);
            proof {
                let blocks = paired_blocks(
                    pcm8k@,
                    frame_samples(codec_param),
                    payload@,
                    frame_bytes(codec_param),
                    pcm8k@.len() / frame_samples(codec_param),
                );
                assert(Seq::<(Seq<i16>, Seq<u8>)>::empty() + blocks =~= blocks);
                assert(codec2_packed(c2) == blocks);
                trailing_samples_do_not_matter(pcm8k@, codec_param, payload@);
            }
            Ok(payload)
        },
    }
}

/// Decodes concatenated Codec2 frames to mono samples, and gives their rate in Hz.
pub fn decode(payload: &[u8], codec_param: u8) -> (r: Result<(Vec<i16>, u32), String>)
    ensures
        r is Ok <==> codec_param <= 5,
        r matches Ok((pcm, rate)) ==> decodes(payload@, codec_param, pcm@) && rate == CODEC2_RATE,
        payload@.len() < frame_bytes(codec_param) ==> (r matches Ok((pcm, rate)) ==> pcm@.len()
            == 0),
        r matches Err(text) ==> text@ == unknown_mode_text(codec_param),
{
    match mode_from_param(codec_param) {
        Err(text) => Err(text),
        Ok(mode) => {
            let mut c2: codec2::Codec2 = codec2_new(mode);
            let pcm: Vec<i16> = decode_frames(&mut c2, payload);
            proof {
                let blocks = paired_blocks(
                    payload@,
                    frame_bytes(codec_param),
                    pcm@,
                    frame_samples(codec_param),
                    payload@.len() / frame_bytes(codec_param),
                );
                assert(Seq::<(Seq<u8>, Seq<i16>)>::empty() + blocks =~= blocks);
                assert(codec2_unpacked(c2) == blocks);
                trailing_bytes_do_not_matter(payload@, codec_param, pcm@);
            }
            Ok((pcm, CODEC2_RATE))
        },
    }
}

/// Decoding what encoding gave restores the length of the clip, cut to whole frames.
pub proof fn roundtrip_keeps_length(pcm: Seq<i16>, index: u8, payload: Seq<u8>, back: Seq<i16>)
    requires
        encodes(pcm, index, payload),
        decodes(payload, index, back),
    ensures
        back.len() == (pcm.len() / frame_samples(index)) * frame_samples(index),
        back.len() <= pcm.len() < back.len() + frame_samples(index),
{
    let s = frame_samples(index);
    let b = frame_bytes(index);
    let count = pcm.len() / s;
    assert((count * b) / b == count) by (nonlinear_arith)
        requires
            b > 0,
    ;
    assert(count * s <= pcm.len() < count * s + s) by (nonlinear_arith)
        requires
            count == pcm.len() / s,
            s > 0,
    ;
}

proof fn lemma_cut_to_whole_blocks<A, B>(from: Seq<A>, a: nat, to: Seq<B>, b: nat)
    requires
        a > 0,
    ensures
        ({
            let cut = from.take(from.len() - from.len() % a);
            &&& cut.len() / a == from.len() / a
            &&& paired_blocks(cut, a, to, b, cut.len() / a) == paired_blocks(
                from,
                a,
                to,
                b,
                from.len() / a,
            )
        }),
        from.len() < a ==> (from.len() / a) * b == 0,
{
    let n = from.len();
    let count = n / a;
    assert(n == count * a + n % a && n % a < a && 0 <= n - n % a <= n) by (nonlinear_arith)
        requires
            a > 0,
            count == n / a,
    ;
    if n < a {
        assert(count == 0) by (nonlinear_arith)
            requires
                n < a,
                count == n / a,
        ;
        assert(count * b == 0);
    }
    let cut = from.take(n - n % a);
    assert(cut.len() == count * a);
    assert((count * a) / a == count) by (nonlinear_arith)
        requires
            a > 0,
    ;
    let x = paired_blocks(cut, a, to, b, count);
    let y = paired_blocks(from, a, to, b, count);
    assert forall|k: int| 0 <= k < count implies #[trigger] x[k] == y[k] by {
        assert(0 <= k * a <= (k + 1) * a <= count * a) by (nonlinear_arith)
            requires
                0 <= k < count,
                a > 0,
        ;
        assert(block(cut, a, k) =~= block(from, a, k));
    }
    assert(x =~= y);
}

/// Samples behind the last whole frame do not matter: they are dropped, not padded. A
/// clip can be encoded to just what it can be encoded to when it is cut to whole frames,
/// and a clip shorter than one frame to nothing. That two calls give the same bytes is
/// not said, since the precision of the floating-point functions that the coder uses is
/// open from call to call.
pub proof fn trailing_samples_do_not_matter(pcm: Seq<i16>, index: u8, payload: Seq<u8>)
    ensures
        encodes(pcm, index, payload) == encodes(
            pcm.take(pcm.len() - pcm.len() % frame_samples(index)),
            index,
            payload,
        ),
        encodes(pcm, index, payload) && pcm.len() < frame_samples(index) ==> payload.len() == 0,
{
    lemma_cut_to_whole_blocks(pcm, frame_samples(index), payload, frame_bytes(index));
}

/// Bytes behind the last whole packed frame do not matter: they are dropped. A payload
/// shorter than one packed frame is decoded to nothing.
pub proof fn trailing_bytes_do_not_matter(payload: Seq<u8>, index: u8, pcm: Seq<i16>)
    ensures
        decodes(payload, index, pcm) == decodes(
            payload.take(payload.len() - payload.len() % frame_bytes(index)),
            index,
            pcm,
        ),
        decodes(payload, index, pcm) && payload.len() < frame_bytes(index) ==> pcm.len() == 0,
{
    lemma_cut_to_whole_blocks(payload, frame_bytes(index), pcm, frame_samples(index));
}

} // verus!
