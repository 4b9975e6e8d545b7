//! Sizing of the two buffers a compression call touches: the worst-case
//! destination capacity for a geometry and subsampling scheme, and the
//! number of input bytes one unpadded frame occupies.
//!
//! The destination bound follows the native estimator's shape: width and
//! height are rounded up to whole minimum coded units, each padded pixel
//! is charged a worst-case byte count for its scheme, and a fixed
//! headroom is added for headers and markers. The bound covers the rare
//! case of a compressed image larger than its uncompressed input, so it
//! is sufficient for any quality setting.

use vstd::prelude::*;
use vstd::arithmetic::div_mod::lemma_fundamental_div_mod;
use vstd::arithmetic::div_mod::lemma_mod_division_less_than_divisor;
use vstd::arithmetic::mul::lemma_mul_is_commutative;
use crate::format::PixelFormat;
use crate::format::Sampling;
use crate::format::spec_bytes_per_pixel;
use crate::format::spec_mcu_height;
use crate::format::spec_mcu_width;

verus! {

/// `v` rounded up to the next multiple of `m`.
pub open spec fn spec_pad(v: int, m: int) -> int
    recommends
        1 <= m,
{
    ((v + m - 1) / m) * m
}

/// Worst-case compressed bytes per pixel of the padded image: two for
/// the luminance plane plus this scheme's share of chroma bytes.
pub open spec fn spec_worst_bytes_per_pixel(sampling: Sampling) -> int {
    match sampling {
        Sampling::Samp444 => 6,
        Sampling::Samp422 => 4,
        Sampling::Samp420 => 3,
        Sampling::SampGray => 2,
        Sampling::Samp440 => 4,
        Sampling::Samp411 => 3,
    }
}

/// Destination capacity sufficient to hold the compressed image for any
/// quality setting: the geometry padded to whole minimum coded units,
/// times the worst-case byte count per padded pixel, plus 2048 bytes of
/// headroom for headers and markers.
pub open spec fn spec_buf_size(width: int, height: int, sampling: Sampling) -> int {
    spec_pad(width, spec_mcu_width(sampling)) * spec_pad(height, spec_mcu_height(sampling))
        * spec_worst_bytes_per_pixel(sampling) + 2048
}

/// Bytes one unpadded frame occupies in the input buffer:
/// `width * height` pixels, each of the format's fixed size.
pub open spec fn spec_pixel_buffer_len(width: int, height: int, format: PixelFormat) -> int
    recommends
        format != PixelFormat::Unknown,
{
    width * height * spec_bytes_per_pixel(format)
}

proof fn lemma_pad_bounds(v: int, m: int)
    requires
        1 <= v,
        1 <= m,
    ensures
        v <= spec_pad(v, m),
        spec_pad(v, m) <= v + m - 1,
{
    let x = v + m - 1;
    lemma_fundamental_div_mod(x, m);
    lemma_mod_division_less_than_divisor(x, m);
    lemma_mul_is_commutative(m, x / m);
    assert(spec_pad(v, m) == x - x % m);
}

/// Whatever the scheme, a positive geometry always has a positive
/// capacity bound: the estimate is never zero.
pub proof fn lemma_buf_size_positive(width: int, height: int, sampling: Sampling)
    requires
        1 <= width,
        1 <= height,
    ensures
        spec_buf_size(width, height, sampling) > 0,
{
    let mw = spec_mcu_width(sampling);
    let mh = spec_mcu_height(sampling);
    lemma_pad_bounds(width, mw);
    lemma_pad_bounds(height, mh);
    let pw = spec_pad(width, mw);
    let ph = spec_pad(height, mh);
    let f = spec_worst_bytes_per_pixel(sampling);
    assert(pw * ph * f >= 0) by (nonlinear_arith)
        requires
            1 <= pw,
            1 <= ph,
            2 <= f,
    ;
}

fn worst_bytes_per_pixel(sampling: Sampling) -> (r: usize)
    ensures
        r == spec_worst_bytes_per_pixel(sampling),
{
    match sampling {
        Sampling::Samp444 => 6,
        Sampling::Samp422 => 4,
        Sampling::Samp420 => 3,
        Sampling::SampGray => 2,
        Sampling::Samp440 => 4,
        Sampling::Samp411 => 3,
    }
}

fn raw_buf_size(width: i32, height: i32, sampling: Sampling) -> (r: u128)
    requires
        1 <= width,
        1 <= height,
    ensures
        r == spec_buf_size(width as int, height as int, sampling),
{
    let mw: u128 = sampling.mcu_width() as u128;
    let mh: u128 = sampling.mcu_height() as u128;
    let f: u128 = worst_bytes_per_pixel(sampling) as u128;
    let w: u128 = width as u128;
    let h: u128 = height as u128;
    proof {
        lemma_pad_bounds(w as int, mw as int);
        lemma_pad_bounds(h as int, mh as int);
    }
    let xw: u128 = w + mw - 1;
    let pw: u128 = (xw / mw) * mw;
    let xh: u128 = h + mh - 1;
    let ph: u128 = (xh / mh) * mh;
    proof {
        assert(pw * ph < 0x1_0000_0000_0000_0000u128
            && pw * ph * f + 2048 < 0x1_0000_0000_0000_0000_0000u128) by (nonlinear_arith)
            requires
                pw < 0x1_0000_0000u128,
                ph < 0x1_0000_0000u128,
                f <= 6,
        ;
    }
    pw * ph * f + 2048
}

/// Minimum destination capacity guaranteed sufficient for a compression
/// of this geometry and scheme at any quality setting. Callers size
/// their destination buffer with this before compressing, because the
/// compression call refuses to grow the buffer.
pub fn buf_size(width: i32, height: i32, sampling: Sampling) -> (r: usize)
    requires
        1 <= width,
        1 <= height,
        spec_buf_size(width as int, height as int, sampling) <= usize::MAX,
    ensures
        r == spec_buf_size(width as int, height as int, sampling),
        r > 0,
{
    proof {
        lemma_buf_size_positive(width as int, height as int, sampling);
    }
    let total: u128 = raw_buf_size(width, height, sampling);
    total as usize
}

/// Total form of [`buf_size`]: `None` where a dimension is not positive
/// or the bound does not fit in `usize`, the bound itself otherwise.
pub fn checked_buf_size(width: i32, height: i32, sampling: Sampling) -> (r: Option<usize>)
    ensures
        r is Some <==> (1 <= width && 1 <= height
            && spec_buf_size(width as int, height as int, sampling) <= usize::MAX),
        (r matches Some(n) ==> n == spec_buf_size(width as int, height as int, sampling)),
{
    if width < 1 || height < 1 {
        return None;
    }
    let total: u128 = raw_buf_size(width, height, sampling);
    if total <= (usize::MAX as u128) {
        Some(total as usize)
    } else {
        None
    }
}

/// Number of input bytes a compression call reads for this geometry:
/// `width * height` unpadded pixels of the format's fixed size. `None`
/// where the format has no fixed pixel size, a dimension is not
/// positive, or the product does not fit in `usize`.
pub fn pixel_buffer_len(width: i32, height: i32, format: PixelFormat) -> (r: Option<usize>)
    ensures
        r is Some <==> (1 <= width && 1 <= height && format != PixelFormat::Unknown
            && spec_pixel_buffer_len(width as int, height as int, format) <= usize::MAX),
        (r matches Some(n) ==> n == spec_pixel_buffer_len(width as int, height as int, format)),
{
    if width < 1 || height < 1 {
        return None;
    }
    let bpp: usize = match format.bytes_per_pixel() {
        None => {
            return None;
        },
        Some(b) => b,
    };
    let w: u128 = width as u128;
    let h: u128 = height as u128;
    proof {
        assert(w * h < 0x1_0000_0000_0000_0000u128
            && w * h * (bpp as u128) < 0x1_0000_0000_0000_0000_0000u128) by (nonlinear_arith)
            requires
                w < 0x1_0000_0000u128,
                h < 0x1_0000_0000u128,
                bpp <= 4,
        ;
    }
    let total: u128 = w * h * (bpp as u128);
    if total <= (usize::MAX as u128) {
        Some(total as usize)
    } else {
        None
    }
}

} // verus!
