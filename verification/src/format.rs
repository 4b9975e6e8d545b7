//! The pixel layouts and chroma subsampling schemes the codec accepts,
//! with the integer codes the native API uses for each and the number of
//! bytes one pixel occupies in the caller's input buffer.

use vstd::prelude::*;

verus! {

/// Pixel layout of the caller's uncompressed input buffer.
///
/// A closed enumeration; each variant maps one-to-one to a pixel-format
/// code of the native turbojpeg API (see [`PixelFormat::native_code`]).
#[derive(Clone, Copy, Debug, PartialEq, Eq, Structural)]
pub enum PixelFormat {
    Rgb,
    Bgr,
    Rgbx,
    Bgrx,
    Xbgr,
    Xrgb,
    Gray,
    Rgba,
    Bgra,
    Abgr,
    Argb,
    Cmyk,
    Unknown,
}

/// Chroma subsampling scheme of the compressed output.
///
/// A closed enumeration; each variant maps one-to-one to a subsampling
/// code of the native turbojpeg API (see [`Sampling::native_code`]).
#[derive(Clone, Copy, Debug, PartialEq, Eq, Structural)]
pub enum Sampling {
    Samp444,
    Samp422,
    Samp420,
    SampGray,
    Samp440,
    Samp411,
}

/// The native pixel-format code for each layout, as the turbojpeg header
/// declares them.
pub open spec fn spec_format_code(format: PixelFormat) -> int {
    match format {
        PixelFormat::Rgb => 0,
        PixelFormat::Bgr => 1,
        PixelFormat::Rgbx => 2,
        PixelFormat::Bgrx => 3,
        PixelFormat::Xbgr => 4,
        PixelFormat::Xrgb => 5,
        PixelFormat::Gray => 6,
        PixelFormat::Rgba => 7,
        PixelFormat::Bgra => 8,
        PixelFormat::Abgr => 9,
        PixelFormat::Argb => 10,
        PixelFormat::Cmyk => 11,
        PixelFormat::Unknown => -1,
    }
}

/// How many bytes one pixel occupies in the input buffer. Meaningful for
/// every layout but [`PixelFormat::Unknown`], which has no fixed size.
pub open spec fn spec_bytes_per_pixel(format: PixelFormat) -> int
    recommends
        format != PixelFormat::Unknown,
{
    match format {
        PixelFormat::Rgb => 3,
        PixelFormat::Bgr => 3,
        PixelFormat::Rgbx => 4,
        PixelFormat::Bgrx => 4,
        PixelFormat::Xbgr => 4,
        PixelFormat::Xrgb => 4,
        PixelFormat::Gray => 1,
        PixelFormat::Rgba => 4,
        PixelFormat::Bgra => 4,
        PixelFormat::Abgr => 4,
        PixelFormat::Argb => 4,
        PixelFormat::Cmyk => 4,
        PixelFormat::Unknown => 0,
    }
}

/// The native subsampling code for each scheme, as the turbojpeg header
/// declares them.
pub open spec fn spec_sampling_code(sampling: Sampling) -> int {
    match sampling {
        Sampling::Samp444 => 0,
        Sampling::Samp422 => 1,
        Sampling::Samp420 => 2,
        Sampling::SampGray => 3,
        Sampling::Samp440 => 4,
        Sampling::Samp411 => 5,
    }
}

/// Width in pixels of one minimum coded unit under each scheme.
pub open spec fn spec_mcu_width(sampling: Sampling) -> int {
    match sampling {
        Sampling::Samp444 => 8,
        Sampling::Samp422 => 16,
        Sampling::Samp420 => 16,
        Sampling::SampGray => 8,
        Sampling::Samp440 => 8,
        Sampling::Samp411 => 32,
    }
}

/// Height in pixels of one minimum coded unit under each scheme.
pub open spec fn spec_mcu_height(sampling: Sampling) -> int {
    match sampling {
        Sampling::Samp444 => 8,
        Sampling::Samp422 => 8,
        Sampling::Samp420 => 16,
        Sampling::SampGray => 8,
        Sampling::Samp440 => 16,
        Sampling::Samp411 => 8,
    }
}

impl PixelFormat {
    /// The integer code the native API expects for this layout.
    pub fn native_code(self) -> (r: i32)
        ensures
            r == spec_format_code(self),
    {
        match self {
            PixelFormat::Rgb => 0,
            PixelFormat::Bgr => 1,
            PixelFormat::Rgbx => 2,
            PixelFormat::Bgrx => 3,
            PixelFormat::Xbgr => 4,
            PixelFormat::Xrgb => 5,
            PixelFormat::Gray => 6,
            PixelFormat::Rgba => 7,
            PixelFormat::Bgra => 8,
            PixelFormat::Abgr => 9,
            PixelFormat::Argb => 10,
            PixelFormat::Cmyk => 11,
            PixelFormat::Unknown => -1,
        }
    }

    /// How many bytes one pixel of this layout occupies in the input
    /// buffer; `None` for [`PixelFormat::Unknown`], which has no fixed
    /// size.
    pub fn bytes_per_pixel(self) -> (r: Option<usize>)
        ensures
            r is Some <==> self != PixelFormat::Unknown,
            (r matches Some(n) ==> n == spec_bytes_per_pixel(self)),
    {
        match self {
            PixelFormat::Rgb => Some(3),
            PixelFormat::Bgr => Some(3),
            PixelFormat::Rgbx => Some(4),
            PixelFormat::Bgrx => Some(4),
            PixelFormat::Xbgr => Some(4),
            PixelFormat::Xrgb => Some(4),
            PixelFormat::Gray => Some(1),
            PixelFormat::Rgba => Some(4),
            PixelFormat::Bgra => Some(4),
            PixelFormat::Abgr => Some(4),
            PixelFormat::Argb => Some(4),
            PixelFormat::Cmyk => Some(4),
            PixelFormat::Unknown => None,
        }
    }
}

impl Sampling {
    /// The integer code the native API expects for this scheme.
    pub fn native_code(self) -> (r: i32)
        ensures
            r == spec_sampling_code(self),
    {
        match self {
            Sampling::Samp444 => 0,
            Sampling::Samp422 => 1,
            Sampling::Samp420 => 2,
            Sampling::SampGray => 3,
            Sampling::Samp440 => 4,
            Sampling::Samp411 => 5,
        }
    }

    /// Width in pixels of one minimum coded unit under this scheme.
    pub fn mcu_width(self) -> (r: usize)
        ensures
            r == spec_mcu_width(self),
    {
        match self {
            Sampling::Samp444 => 8,
            Sampling::Samp422 => 16,
            Sampling::Samp420 => 16,
            Sampling::SampGray => 8,
            Sampling::Samp440 => 8,
            Sampling::Samp411 => 32,
        }
    }

    /// Height in pixels of one minimum coded unit under this scheme.
    pub fn mcu_height(self) -> (r: usize)
        ensures
            r == spec_mcu_height(self),
    {
        match self {
            Sampling::Samp444 => 8,
            Sampling::Samp422 => 8,
            Sampling::Samp420 => 16,
            Sampling::SampGray => 8,
            Sampling::Samp440 => 16,
            Sampling::Samp411 => 8,
        }
    }
}

} // verus!
