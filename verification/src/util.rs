//! Small helpers.

use vstd::prelude::*;

verus! {

/// The number whose bytes, least significant first, are `b`.
pub open spec fn le_value(b: Seq<u8>) -> int
    recommends
        b.len() == 4,
{
    b[0] + 0x100 * b[1] + 0x1_0000 * b[2] + 0x100_0000 * b[3]
}

/// `getrandom::fill`: four bytes from the platform's random source. Nothing is
/// promised of them; a failure of the source is passed over, and what the buffer
/// then holds is used.
#[verifier::external_body]
fn random_bytes() -> (r: [u8; 4]) {
    let mut b = [0u8; 4];
    let _ = getrandom::fill(&mut b);
    b
}

/// The number whose bytes, least significant first, are `b`.
pub fn u32_from_le(b: [u8; 4]) -> (r: u32)
    ensures
        r == le_value(b@),
{
    b[0] as u32 + 0x100 * (b[1] as u32) + 0x1_0000 * (b[2] as u32) + 0x100_0000 * (b[3] as u32)
}

/// A random number, of which nothing is promised but that it is made of four bytes.
pub fn rand_u32() -> (r: u32)
    ensures
        exists|b: [u8; 4]| r == le_value(#[trigger] b@),
{
    let b: [u8; 4] = random_bytes();
    u32_from_le(b)
}

} // verus!
