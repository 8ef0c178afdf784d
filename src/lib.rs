//! Decoding of version-3 FastFrame oscilloscope waveform containers.
//!
//! A container is a fixed 838-byte preamble, one 54-byte trailer record for
//! every frame after the first, and then the curve data: signed 8-bit samples,
//! all of frame 0, then all of frame 1, and so on.
//!
//! The preamble is decoded by [`WfmHeader::parse_header`], the curve bytes are
//! cut into frames by [`assemble_curves`], and [`WfmFile::load_file`] runs both
//! and keeps the result only when every step succeeded. The floating-point
//! fields of the preamble are kept as their IEEE-754 bit patterns (`*_bits`).

pub mod bytes;
pub mod curve;
pub mod error;
pub mod file;
pub mod header;
pub mod layout;


pub use curve::assemble_curves;
pub use error::WfmError;
pub use file::{frame_slice, WfmContent, WfmFile};
pub use header::WfmHeader;


