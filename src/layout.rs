//! Absolute byte offsets of the preamble fields. All numbers are little-endian.
use vstd::prelude::*;

verus! {

/// Size of the fixed preamble.
pub const HEADER_SIZE: usize = 838;

/// Size of the per-frame trailer record stored for every frame after the first.
pub const TRAILER_RECORD_SIZE: u64 = 54;

/// Eight ASCII bytes naming the container version.
pub const VERSION_TAG: usize = 0x002;

pub const VERSION_TAG_LEN: usize = 8;

/// Stored value is the number of frames minus one.
pub const FRAME_COUNT_MINUS_ONE: usize = 0x048;

pub const FASTFRAME_FLAG: usize = 0x04e;

pub const IMPLICIT_DIM_COUNT: usize = 0x072;

pub const EXPLICIT_DIM_COUNT: usize = 0x076;

pub const RECORD_TYPE: usize = 0x07a;

pub const VOLTAGE_SCALE: usize = 0x0a8;

pub const VOLTAGE_OFFSET: usize = 0x0b0;

pub const EXPLICIT_DIM_TYPE: usize = 0x0f4;

pub const TIME_SCALE: usize = 0x1e8;

pub const TIME_START: usize = 0x1f0;

pub const TIME_BASE: usize = 0x300;

pub const PRECHARGE_OFFSET: usize = 0x336;

pub const POSTCHARGE_OFFSET: usize = 0x33a;

pub const FULL_RECORD_LENGTH: usize = 0x33e;

} // verus!
