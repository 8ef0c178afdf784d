use vstd::prelude::*;

verus! {

/// Why a container could not be decoded.
#[derive(Debug)]
pub enum WfmError {
    /// The preamble is not exactly 838 bytes long; holds the length found.
    InvalidHeaderSize(usize),
    /// The version tag is not the version-3 marker; holds the eight bytes found.
    UnsupportedVersion(Vec<u8>),
    /// The implicit and explicit dimension counts, when either is not 1.
    InvalidDimensions(u32, u32),
    /// The time-base code is not 0 (linear time axis).
    UnsupportedTimeBase,
    /// The FastFrame flag is not 1.
    NoFastFrames,
    /// A numeric field does not fit, or the data is shorter than the header claims.
    ParseError(String),
}

} // verus!
