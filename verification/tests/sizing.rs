use turbojpeg::PixelFormat;
use turbojpeg::Sampling;
use turbojpeg::buf_size;
use turbojpeg::check_request;
use turbojpeg::checked_buf_size;
use turbojpeg::pixel_buffer_len;

#[test]
fn buf_size_exact_444() {
    // 16x16 fits whole 8x8 units: 16 * 16 * 6 + 2048
    assert_eq!(buf_size(16, 16, Sampling::Samp444), 3584);
}

#[test]
fn buf_size_exact_420_rounds_up() {
    // one pixel still pays for a whole 16x16 unit: 16 * 16 * 3 + 2048
    assert_eq!(buf_size(1, 1, Sampling::Samp420), 2816);
}

#[test]
fn buf_size_exact_gray() {
    // 8x8 fits one 8x8 unit: 8 * 8 * 2 + 2048
    assert_eq!(buf_size(8, 8, Sampling::SampGray), 2176);
}

#[test]
fn buf_size_exact_411() {
    // 17x9 pads to 32x16: 32 * 16 * 3 + 2048
    assert_eq!(buf_size(17, 9, Sampling::Samp411), 3584);
}

#[test]
fn buf_size_exact_422() {
    // 20x10 pads to 32x16: 32 * 16 * 4 + 2048
    assert_eq!(buf_size(20, 10, Sampling::Samp422), 4096);
}

#[test]
fn buf_size_exact_440() {
    // 20x10 pads to 24x16: 24 * 16 * 4 + 2048
    assert_eq!(buf_size(20, 10, Sampling::Samp440), 3584);
}

#[test]
fn buf_size_positive_for_every_scheme() {
    let schemes = [
        Sampling::Samp444,
        Sampling::Samp422,
        Sampling::Samp420,
        Sampling::SampGray,
        Sampling::Samp440,
        Sampling::Samp411,
    ];
    for s in schemes {
        assert!(buf_size(1, 1, s) > 0);
        assert!(buf_size(1920, 1080, s) > 0);
    }
}

#[test]
fn checked_buf_size_agrees_with_buf_size() {
    assert_eq!(
        checked_buf_size(640, 480, Sampling::Samp420),
        Some(buf_size(640, 480, Sampling::Samp420))
    );
}

#[test]
fn checked_buf_size_rejects_empty_geometry() {
    assert_eq!(checked_buf_size(0, 5, Sampling::Samp444), None);
    assert_eq!(checked_buf_size(5, 0, Sampling::Samp444), None);
    assert_eq!(checked_buf_size(-1, 5, Sampling::Samp444), None);
    assert_eq!(checked_buf_size(5, -7, Sampling::Samp444), None);
}

#[test]
fn checked_buf_size_rejects_overflowing_geometry() {
    // the padded product exceeds what a usize can hold
    assert_eq!(checked_buf_size(i32::MAX, i32::MAX, Sampling::Samp444), None);
}

#[test]
fn mcu_dimensions() {
    assert_eq!(Sampling::Samp444.mcu_width(), 8);
    assert_eq!(Sampling::Samp444.mcu_height(), 8);
    assert_eq!(Sampling::Samp422.mcu_width(), 16);
    assert_eq!(Sampling::Samp422.mcu_height(), 8);
    assert_eq!(Sampling::Samp420.mcu_width(), 16);
    assert_eq!(Sampling::Samp420.mcu_height(), 16);
    assert_eq!(Sampling::SampGray.mcu_width(), 8);
    assert_eq!(Sampling::SampGray.mcu_height(), 8);
    assert_eq!(Sampling::Samp440.mcu_width(), 8);
    assert_eq!(Sampling::Samp440.mcu_height(), 16);
    assert_eq!(Sampling::Samp411.mcu_width(), 32);
    assert_eq!(Sampling::Samp411.mcu_height(), 8);
}

#[test]
fn pixel_buffer_len_exact() {
    assert_eq!(pixel_buffer_len(4, 4, PixelFormat::Rgb), Some(48));
    assert_eq!(pixel_buffer_len(2, 3, PixelFormat::Gray), Some(6));
    assert_eq!(pixel_buffer_len(2, 3, PixelFormat::Rgba), Some(24));
}

#[test]
fn pixel_buffer_len_rejects_unknown_and_empty() {
    assert_eq!(pixel_buffer_len(4, 4, PixelFormat::Unknown), None);
    assert_eq!(pixel_buffer_len(0, 4, PixelFormat::Rgb), None);
    assert_eq!(pixel_buffer_len(4, -2, PixelFormat::Rgb), None);
}

#[test]
fn pixel_buffer_len_largest_geometry() {
    // (2^31 - 1)^2 pixels of four bytes still fit in a 64-bit usize
    assert_eq!(
        pixel_buffer_len(i32::MAX, i32::MAX, PixelFormat::Rgba),
        Some(18446744056529682436)
    );
}

#[test]
fn check_request_accepts_exactly_sized_buffers() {
    // 4x4 RGB input is 48 bytes; the 4x4 4:4:4 bound is 8 * 8 * 6 + 2048
    let capacity = buf_size(4, 4, Sampling::Samp444);
    assert_eq!(capacity, 2432);
    assert!(check_request(48, 4, 4, PixelFormat::Rgb, capacity, Sampling::Samp444));
}

#[test]
fn check_request_rejects_short_destination() {
    // one byte under the bound must not be accepted
    assert!(!check_request(48, 4, 4, PixelFormat::Rgb, 2431, Sampling::Samp444));
    assert!(!check_request(48, 4, 4, PixelFormat::Rgb, 0, Sampling::Samp444));
}

#[test]
fn check_request_rejects_short_pixel_buffer() {
    assert!(!check_request(47, 4, 4, PixelFormat::Rgb, 2432, Sampling::Samp444));
}

#[test]
fn check_request_rejects_unknown_format_and_empty_geometry() {
    assert!(!check_request(48, 4, 4, PixelFormat::Unknown, 2432, Sampling::Samp444));
    assert!(!check_request(48, 0, 4, PixelFormat::Rgb, 2432, Sampling::Samp444));
    assert!(!check_request(48, 4, -1, PixelFormat::Rgb, 2432, Sampling::Samp444));
}

#[test]
fn oversized_buffers_are_accepted() {
    assert!(check_request(1000, 4, 4, PixelFormat::Rgb, 10000, Sampling::Samp422));
}
