//! A safe, verified front for a JPEG compression codec.
//!
//! The actual bitstream work (DCT, chroma subsampling, entropy coding) is
//! done by a native turbojpeg library that an unverified shell links and
//! calls. This crate holds everything around that call that can be stated
//! and proved: the pixel-format and subsampling vocabulary with the codes
//! and pixel sizes the codec expects, the worst-case destination-buffer
//! bound, the validity of a compression request against its buffers, and
//! the translation of a native status code into a structured error.

pub mod error;
pub mod format;
pub mod request;
pub mod size;
pub mod status;

pub use error::Error;
pub use format::PixelFormat;
pub use format::Sampling;
pub use request::check_request;
pub use size::buf_size;
pub use size::checked_buf_size;
pub use size::pixel_buffer_len;
pub use status::check;
