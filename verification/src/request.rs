//! Validity of one compression request against the buffers the caller
//! supplies, decided before anything is handed to the codec.
//!
//! The codec trusts the geometry it is given and refuses to grow the
//! destination buffer, so an undersized buffer must be caught here: a
//! request that fails this check is refused instead of being passed on.

use vstd::prelude::*;
use crate::format::PixelFormat;
use crate::format::Sampling;
use crate::size::checked_buf_size;
use crate::size::pixel_buffer_len;
use crate::size::spec_buf_size;
use crate::size::spec_pixel_buffer_len;

verus! {

/// When a compression request is well formed: positive geometry, a
/// known pixel layout, an input buffer holding at least one full frame
/// of `width * height` unpadded pixels, and a destination buffer at
/// least as large as the worst-case bound for the geometry and scheme.
pub open spec fn request_well_formed(
    pixels_len: int,
    width: int,
    height: int,
    format: PixelFormat,
    dest_len: int,
    sampling: Sampling,
) -> bool {
    &&& 1 <= width
    &&& 1 <= height
    &&& format != PixelFormat::Unknown
    &&& spec_pixel_buffer_len(width, height, format) <= pixels_len
    &&& spec_buf_size(width, height, sampling) <= dest_len
}

/// Decides [`request_well_formed`] for the buffer lengths the caller
/// supplied. `true` exactly when the input buffer covers the requested
/// frame and the destination buffer reaches the worst-case bound.
pub fn check_request(
    pixels_len: usize,
    width: i32,
    height: i32,
    format: PixelFormat,
    dest_len: usize,
    sampling: Sampling,
) -> (r: bool)
    ensures
        r == request_well_formed(
            pixels_len as int,
            width as int,
            height as int,
            format,
            dest_len as int,
            sampling,
        ),
{
    let needed: usize = match pixel_buffer_len(width, height, format) {
        None => {
            return false;
        },
        Some(n) => n,
    };
    if pixels_len < needed {
        return false;
    }
    let capacity: usize = match checked_buf_size(width, height, sampling) {
        None => {
            return false;
        },
        Some(c) => c,
    };
    capacity <= dest_len
}

} // verus!
