//! AMR-NB framing. The coder itself runs in the page; it takes 8 kHz mono samples in
//! whole frames.

use vstd::prelude::*;

verus! {

/// Sample rate of AMR-NB in Hz.
pub const AMRNB_RATE: u32 = 8_000;

/// Samples in one AMR-NB frame: 20 ms.
pub const FRAME_SAMPLES: usize = 160;

/// How many of `len` samples fill whole frames.
pub open spec fn usable(len: nat) -> nat {
    (len / (FRAME_SAMPLES as nat)) * (FRAME_SAMPLES as nat)
}

/// The samples of a clip that fill whole frames. Trailing samples that do not are
/// dropped.
pub fn whole_frames(speech: &[i16]) -> (r: Vec<i16>)
    ensures
        r@ == speech@.take(usable(speech@.len()) as int),
{
    let n: usize = (speech.len() / FRAME_SAMPLES) * FRAME_SAMPLES;
    let mut out: Vec<i16> = Vec::new();
    out.extend_from_slice(vstd::slice::slice_subrange(speech, 0, n));
    assert(out@ =~= speech@.take(n as int));
    out
}

/// What is handed to the coder is a whole number of frames, less than one frame is
/// dropped, and nothing more is dropped when it is cut again.
pub proof fn less_than_a_frame_is_dropped(len: nat)
    ensures
        usable(len) % (FRAME_SAMPLES as nat) == 0,
        usable(len) <= len < usable(len) + FRAME_SAMPLES,
        usable(usable(len)) == usable(len),
{
}

} // verus!
