//! The bounded reader: the only way from a frame to the bytes of a header.
//!
//! A frame is a borrowed slice. Nothing in this crate indexes it directly;
//! every header and every field is reached through [`ptr_at`], which hands out
//! a borrowed window of the frame or refuses.

use vstd::prelude::*;

verus! {

/// The requested bytes would lie past the end of the frame.
#[derive(Debug, Clone, Copy, PartialEq, Eq, Structural)]
pub struct BoundsError;

/// `len` bytes starting at `offset` lie inside `frame`.
pub open spec fn in_bounds(frame: Seq<u8>, offset: int, len: int) -> bool {
    0 <= offset && 0 <= len && offset + len <= frame.len()
}

/// Two bytes as a big-endian 16-bit number.
pub open spec fn spec_be16(hi: u8, lo: u8) -> u16 {
    (hi * 256 + lo) as u16
}

/// Four bytes as a big-endian 32-bit number.
pub open spec fn spec_be32(b0: u8, b1: u8, b2: u8, b3: u8) -> u32 {
    (b0 * 16777216 + b1 * 65536 + b2 * 256 + b3) as u32
}

/// Two bytes as a big-endian 16-bit number.
#[verifier::when_used_as_spec(spec_be16)]
pub fn be16(hi: u8, lo: u8) -> (value: u16)
    ensures
        value == spec_be16(hi, lo),
{
    (hi as u16) * 256 + (lo as u16)
}

/// Four bytes as a big-endian 32-bit number.
#[verifier::when_used_as_spec(spec_be32)]
pub fn be32(b0: u8, b1: u8, b2: u8, b3: u8) -> (value: u32)
    ensures
        value == spec_be32(b0, b1, b2, b3),
{
    (b0 as u32) * 16777216 + (b1 as u32) * 65536 + (b2 as u32) * 256 + (b3 as u32)
}

/// The offset `delta` bytes past `base`, unless that sum leaves the machine
/// word: an offset that cannot be computed lies outside every frame.
pub fn offset_by(base: usize, delta: usize) -> (offset: Result<usize, BoundsError>)
    ensures
        base + delta <= usize::MAX ==> offset == Ok::<usize, BoundsError>((base + delta) as usize),
        base + delta > usize::MAX ==> offset is Err,
{
    match base.checked_add(delta) {
        Some(offset) => Ok(offset),
        None => Err(BoundsError),
    }
}

/// Borrows the `len` bytes of `frame` that start at `offset`.
///
/// Fails exactly when those bytes are not all inside the frame; a sum
/// `offset + len` that does not fit the machine word counts as outside.
pub fn ptr_at<'a>(frame: &'a [u8], offset: usize, len: usize) -> (view: Result<
    &'a [u8],
    BoundsError,
>)
    ensures
        in_bounds(frame@, offset as int, len as int) ==> view is Ok && view.unwrap()@
            == frame@.subrange(offset as int, offset + len),
        !in_bounds(frame@, offset as int, len as int) ==> view is Err,
{
    let frame_len = frame.len();
    match offset.checked_add(len) {
        Some(end) => {
            if end > frame_len {
                Err(BoundsError)
            } else {
                Ok(vstd::slice::slice_subrange(frame, offset, end))
            }
        },
        None => Err(BoundsError),
    }
}

/// Reads the big-endian 16-bit field that starts at `offset`.
pub fn read_be16(frame: &[u8], offset: usize) -> (field: Result<u16, BoundsError>)
    ensures
        in_bounds(frame@, offset as int, 2) ==> field == Ok::<u16, BoundsError>(
            be16(frame@[offset as int], frame@[offset + 1]),
        ),
        !in_bounds(frame@, offset as int, 2) ==> field is Err,
{
    let view = ptr_at(frame, offset, 2)?;
    Ok(be16(view[0], view[1]))
}

} // verus!
