//! The fixed-size preamble of a container.
use vstd::prelude::*;
use vstd::slice::{slice_subrange, slice_to_vec};
use crate::bytes::{le_u32_of, le_u64_of, read_f64_bits, read_u32};
use crate::error::WfmError;
use crate::layout::{
    EXPLICIT_DIM_COUNT, EXPLICIT_DIM_TYPE, FASTFRAME_FLAG, FRAME_COUNT_MINUS_ONE, FULL_RECORD_LENGTH,
    HEADER_SIZE, IMPLICIT_DIM_COUNT, POSTCHARGE_OFFSET, PRECHARGE_OFFSET, RECORD_TYPE, TIME_BASE,
    TIME_SCALE, TIME_START, TRAILER_RECORD_SIZE, VERSION_TAG, VERSION_TAG_LEN, VOLTAGE_OFFSET,
    VOLTAGE_SCALE,
};

verus! {

/// The eight bytes of the version-3 marker, `:WFM#003`.
pub open spec fn version_marker() -> Seq<u8> {
    seq![0x3au8, 0x57u8, 0x46u8, 0x4du8, 0x23u8, 0x30u8, 0x30u8, 0x33u8]
}

/// The version tag stored in a preamble.
pub open spec fn version_tag(h: Seq<u8>) -> Seq<u8> {
    h.subrange(VERSION_TAG as int, VERSION_TAG + VERSION_TAG_LEN)
}

/// The 32-bit field stored at `off`.
pub open spec fn u32_at(h: Seq<u8>, off: int) -> int {
    le_u32_of(h.subrange(off, off + 4))
}

/// The 64-bit field stored at `off`.
pub open spec fn u64_at(h: Seq<u8>, off: int) -> int {
    le_u64_of(h.subrange(off, off + 8))
}

pub open spec fn version_ok(h: Seq<u8>) -> bool {
    version_tag(h) == version_marker()
}

pub open spec fn dimensions_ok(h: Seq<u8>) -> bool {
    u32_at(h, IMPLICIT_DIM_COUNT as int) == 1 && u32_at(h, EXPLICIT_DIM_COUNT as int) == 1
}

pub open spec fn time_base_ok(h: Seq<u8>) -> bool {
    u32_at(h, TIME_BASE as int) == 0
}

pub open spec fn fastframe_ok(h: Seq<u8>) -> bool {
    u32_at(h, FASTFRAME_FLAG as int) == 1
}

/// The frame count, stored minus one, still fits in 32 bits once one is added.
pub open spec fn frame_count_ok(h: Seq<u8>) -> bool {
    u32_at(h, FRAME_COUNT_MINUS_ONE as int) < u32::MAX
}

pub open spec fn precharge_of(h: Seq<u8>) -> u16 {
    u32_at(h, PRECHARGE_OFFSET as int) as u16
}

pub open spec fn postcharge_of(h: Seq<u8>) -> u16 {
    u32_at(h, POSTCHARGE_OFFSET as int) as u16
}

/// The usable record length, post-charge minus pre-charge, does not underflow.
pub open spec fn charge_ok(h: Seq<u8>) -> bool {
    precharge_of(h) <= postcharge_of(h)
}

/// Every condition that a preamble must meet to decode.
pub open spec fn header_valid(h: Seq<u8>) -> bool {
    &&& h.len() == HEADER_SIZE
    &&& version_ok(h)
    &&& dimensions_ok(h)
    &&& time_base_ok(h)
    &&& fastframe_ok(h)
    &&& frame_count_ok(h)
    &&& charge_ok(h)
}

/// The curve data begins after the preamble and one trailer record for each frame
/// after the first.
pub open spec fn curve_offset_for(frames: int) -> int {
    HEADER_SIZE + (frames - 1) * TRAILER_RECORD_SIZE
}

/// The error that decoding the preamble `h` reports: the first condition that fails.
pub open spec fn header_error_matches(h: Seq<u8>, e: WfmError) -> bool {
    match e {
        WfmError::InvalidHeaderSize(n) => n == h.len() && n != HEADER_SIZE,
        WfmError::UnsupportedVersion(found) => {
            &&& h.len() == HEADER_SIZE
            &&& !version_ok(h)
            &&& found@ == version_tag(h)
        },
        WfmError::InvalidDimensions(a, b) => {
            &&& h.len() == HEADER_SIZE
            &&& version_ok(h)
            &&& !dimensions_ok(h)
            &&& a == u32_at(h, IMPLICIT_DIM_COUNT as int)
            &&& b == u32_at(h, EXPLICIT_DIM_COUNT as int)
        },
        WfmError::UnsupportedTimeBase => {
            &&& h.len() == HEADER_SIZE
            &&& version_ok(h)
            &&& dimensions_ok(h)
            &&& !time_base_ok(h)
        },
        WfmError::NoFastFrames => {
            &&& h.len() == HEADER_SIZE
            &&& version_ok(h)
            &&& dimensions_ok(h)
            &&& time_base_ok(h)
            &&& !fastframe_ok(h)
        },
        WfmError::ParseError(_) => {
            &&& h.len() == HEADER_SIZE
            &&& version_ok(h)
            &&& dimensions_ok(h)
            &&& time_base_ok(h)
            &&& fastframe_ok(h)
            &&& !(frame_count_ok(h) && charge_ok(h))
        },
    }
}

/// Decoded preamble. The floating-point fields hold IEEE-754 bit patterns.
#[derive(Debug)]
pub struct WfmHeader {
    pub wfm_version: String,
    pub num_impl_dim: u8,
    pub num_expl_dim: u8,
    pub record_type: u8,
    pub expl_dim_type: u8,
    /// Same as `acq_time_scale_bits`: seconds per sample.
    pub time_base_bits: u64,
    pub is_fastframe: bool,
    pub num_fastframes: u32,
    /// Byte offset of the curve data from the start of the container.
    pub curve_byte_offset: u64,
    pub voltage_scale_bits: u64,
    pub voltage_offset_bits: u64,
    pub acq_time_start_bits: u64,
    pub acq_time_scale_bits: u64,
    pub precharge_offset: u16,
    pub postcharge_offset: u16,
    pub usable_record_length: u16,
    pub full_record_length: u16,
}

impl WfmHeader {
    /// The invariants of every decoded preamble.
    pub open spec fn wf(&self) -> bool {
        &&& self.wfm_version@ == version_marker().map_values(|b: u8| b as char)
        &&& self.num_impl_dim == 1
        &&& self.num_expl_dim == 1
        &&& self.is_fastframe
        &&& self.num_fastframes >= 1
        &&& self.curve_byte_offset == curve_offset_for(self.num_fastframes as int)
        &&& self.precharge_offset <= self.postcharge_offset
        &&& self.usable_record_length == self.postcharge_offset - self.precharge_offset
        &&& self.time_base_bits == self.acq_time_scale_bits
    }

    /// Every field is the one stored in (or derived from) the preamble `h`.
    pub open spec fn decoded_from(&self, h: Seq<u8>) -> bool {
        &&& self.wf()
        &&& self.record_type == u32_at(h, RECORD_TYPE as int) as u8
        &&& self.expl_dim_type == u32_at(h, EXPLICIT_DIM_TYPE as int) as u8
        &&& self.num_fastframes == u32_at(h, FRAME_COUNT_MINUS_ONE as int) + 1
        &&& self.voltage_scale_bits == u64_at(h, VOLTAGE_SCALE as int)
        &&& self.voltage_offset_bits == u64_at(h, VOLTAGE_OFFSET as int)
        &&& self.acq_time_scale_bits == u64_at(h, TIME_SCALE as int)
        &&& self.acq_time_start_bits == u64_at(h, TIME_START as int)
        &&& self.precharge_offset == precharge_of(h)
        &&& self.postcharge_offset == postcharge_of(h)
        &&& self.full_record_length == u32_at(h, FULL_RECORD_LENGTH as int) as u16
    }

    /// Decodes a preamble. The conditions are tested in this order: size, version tag,
    /// dimension counts, time base, FastFrame flag, then the numeric fields.
    pub fn parse_header(header: &[u8]) -> (r: Result<WfmHeader, WfmError>)
        ensures
            r is Ok <==> header_valid(header@),
            header@.len() != HEADER_SIZE ==> (r matches Err(WfmError::InvalidHeaderSize(n)) && n
                == header@.len()),
            r matches Ok(hd) ==> hd.decoded_from(header@),
            r matches Ok(hd) ==> hd.num_fastframes == u32_at(header@, FRAME_COUNT_MINUS_ONE as int)
                + 1,
            r matches Ok(hd) ==> hd.curve_byte_offset == HEADER_SIZE + (hd.num_fastframes - 1)
                * TRAILER_RECORD_SIZE,
            r matches Ok(hd) ==> hd.usable_record_length == hd.postcharge_offset
                - hd.precharge_offset,
            r matches Err(e) ==> header_error_matches(header@, e),
    {
        if header.len() != HEADER_SIZE {
            return Err(WfmError::InvalidHeaderSize(header.len()));
        }
        let tag = slice_subrange(header, VERSION_TAG, VERSION_TAG + VERSION_TAG_LEN);
        if !is_version_marker(tag) {
            return Err(WfmError::UnsupportedVersion(slice_to_vec(tag)));
        }
        let impl_dims = field_u32(header, IMPLICIT_DIM_COUNT);
        let expl_dims = field_u32(header, EXPLICIT_DIM_COUNT);
        if impl_dims != 1 || expl_dims != 1 {
            return Err(WfmError::InvalidDimensions(impl_dims, expl_dims));
        }
        let record_type = field_u32(header, RECORD_TYPE) as u8;
        let expl_dim_type = field_u32(header, EXPLICIT_DIM_TYPE) as u8;
        if field_u32(header, TIME_BASE) != 0 {
            return Err(WfmError::UnsupportedTimeBase);
        }
        if field_u32(header, FASTFRAME_FLAG) != 1 {
            return Err(WfmError::NoFastFrames);
        }
        let stored_frames = field_u32(header, FRAME_COUNT_MINUS_ONE);
        if stored_frames == u32::MAX {
            return Err(WfmError::ParseError("Frame count does not fit in 32 bits".to_owned()));
        }
        let num_fastframes = stored_frames + 1;
        let curve_byte_offset = HEADER_SIZE as u64 + (stored_frames as u64) * TRAILER_RECORD_SIZE;
        let voltage_scale_bits = field_f64_bits(header, VOLTAGE_SCALE);
        let voltage_offset_bits = field_f64_bits(header, VOLTAGE_OFFSET);
        let acq_time_scale_bits = field_f64_bits(header, TIME_SCALE);
        let acq_time_start_bits = field_f64_bits(header, TIME_START);
        let precharge_offset = field_u32(header, PRECHARGE_OFFSET) as u16;
        let postcharge_offset = field_u32(header, POSTCHARGE_OFFSET) as u16;
        if postcharge_offset < precharge_offset {
            return Err(WfmError::ParseError("Post-charge offset precedes pre-charge offset".to_owned()));
        }
        let full_record_length = field_u32(header, FULL_RECORD_LENGTH) as u16;
        let wfm_version = ":WFM#003".to_owned();
        proof {
            reveal_strlit(":WFM#003");
            assert(wfm_version@ =~= version_marker().map_values(|b: u8| b as char));
        }
        Ok(WfmHeader {
            wfm_version,
            num_impl_dim: 1,
            num_expl_dim: 1,
            record_type,
            expl_dim_type,
            time_base_bits: acq_time_scale_bits,
            is_fastframe: true,
            num_fastframes,
            curve_byte_offset,
            voltage_scale_bits,
            voltage_offset_bits,
            acq_time_start_bits,
            acq_time_scale_bits,
            precharge_offset,
            postcharge_offset,
            usable_record_length: postcharge_offset - precharge_offset,
            full_record_length,
        })
    }
}

/// Whether `tag` is the version-3 marker.
fn is_version_marker(tag: &[u8]) -> (r: bool)
    ensures
        r == (tag@ == version_marker()),
{
    let r = tag.len() == 8 && tag[0] == 0x3a && tag[1] == 0x57 && tag[2] == 0x46 && tag[3] == 0x4d
        && tag[4] == 0x23 && tag[5] == 0x30 && tag[6] == 0x30 && tag[7] == 0x33;
    if r {
        assert(tag@ =~= version_marker());
    }
    r
}

/// The 32-bit field at `off` of a preamble.
fn field_u32(header: &[u8], off: usize) -> (r: u32)
    requires
        off + 4 <= header@.len(),
    ensures
        r == u32_at(header@, off as int),
{
    let len = header.len();
    assert(off + 4 <= len);
    match read_u32(slice_subrange(header, off, off + 4)) {
        Ok(v) => v,
        // unreachable: the slice holds four bytes
        Err(_) => 0,
    }
}

/// The 64-bit field at `off` of a preamble, as a bit pattern.
fn field_f64_bits(header: &[u8], off: usize) -> (r: u64)
    requires
        off + 8 <= header@.len(),
    ensures
        r == u64_at(header@, off as int),
{
    let len = header.len();
    assert(off + 8 <= len);
    match read_f64_bits(slice_subrange(header, off, off + 8)) {
        Ok(v) => v,
        // unreachable: the slice holds eight bytes
        Err(_) => 0,
    }
}

} // verus!
