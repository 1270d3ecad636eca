use vstd::prelude::*;

verus! {

/// A pixel of four 8-bit channels in memory order blue, green, red, alpha.
#[derive(Copy, Clone, Debug, PartialEq, Eq, Structural)]
pub struct BGRA8 {
    pub b: u8,
    pub g: u8,
    pub r: u8,
    pub a: u8,
}

/// Size in bytes of a `BGRA8` pixel.
pub const BGRA8_SIZE: usize = 4;

/// The number of elements of `elem_size` bytes that a mapped frame of `height`
/// rows, `pitch` bytes apart, exposes: whole pixels per row, times the rows,
/// in bytes, divided by the element size.
pub open spec fn spec_frame_len(pitch: nat, height: nat, elem_size: nat) -> nat {
    ((pitch / 4) * height * 4) / elem_size
}

/// The length of the frame slice; `None` when its byte count does not fit in
/// `usize`.
pub fn frame_len(pitch: usize, height: usize, elem_size: usize) -> (r: Option<usize>)
    requires
        elem_size > 0,
    ensures
        match r {
            Some(n) => n == spec_frame_len(pitch as nat, height as nat, elem_size as nat),
            None => (pitch / 4) * height * 4 > usize::MAX,
        },
{
    let stride = pitch / BGRA8_SIZE;
    match stride.checked_mul(height) {
        Some(pixels) => match pixels.checked_mul(BGRA8_SIZE) {
            Some(bytes) => Some(bytes / elem_size),
            None => None,
        },
        None => {
            proof {
                assert((pitch / 4) * height * 4 > usize::MAX) by (nonlinear_arith)
                    requires
                        (pitch / 4) * height > usize::MAX,
                ;
            }
            None
        },
    }
}

} // verus!
