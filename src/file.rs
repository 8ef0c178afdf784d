//! A decoded container and read access to its frames.
use vstd::prelude::*;
use vstd::slice::slice_subrange;
use crate::curve::{assemble_curves, body_long_enough, curve_samples, frame_of};
use crate::error::WfmError;
use crate::header::{header_error_matches, header_valid, u32_at, WfmHeader};
use crate::layout::{FRAME_COUNT_MINUS_ONE, FULL_RECORD_LENGTH, TRAILER_RECORD_SIZE};

verus! {

/// Whether `body`, the bytes after the valid preamble `h`, holds the trailer
/// records and every frame that `h` announces.
pub open spec fn container_complete(h: Seq<u8>, body: Seq<u8>) -> bool {
    let stored = u32_at(h, FRAME_COUNT_MINUS_ONE as int);
    let len = u32_at(h, FULL_RECORD_LENGTH as int) as u16;
    stored * TRAILER_RECORD_SIZE + (stored + 1) * len <= body.len()
}

/// The raw samples of a container, frame-major.
#[derive(Debug)]
pub struct WfmContent {
    pub raw_frames: Vec<i8>,
}

/// A container: where it came from, its preamble and its samples.
#[derive(Debug)]
pub struct WfmFile {
    pub file_path: String,
    pub file_header: WfmHeader,
    pub file_content: WfmContent,
}

impl WfmFile {
    /// The samples fill exactly the frames that the preamble announces.
    pub open spec fn wf(&self) -> bool {
        self.file_content.raw_frames@.len() == self.file_header.num_fastframes
            * self.file_header.full_record_length
    }

    /// A container that holds nothing yet: no frames, no samples.
    pub fn new() -> (r: WfmFile)
        ensures
            r.wf(),
            r.file_path@.len() == 0,
            r.file_header.num_fastframes == 0,
            r.file_header.full_record_length == 0,
            r.file_content.raw_frames@.len() == 0,
    {
        WfmFile {
            file_path: String::new(),
            file_header: WfmHeader {
                wfm_version: String::new(),
                num_impl_dim: 0,
                num_expl_dim: 0,
                record_type: 0,
                expl_dim_type: 0,
                time_base_bits: 0,
                is_fastframe: false,
                num_fastframes: 0,
                curve_byte_offset: 0,
                voltage_scale_bits: 0,
                voltage_offset_bits: 0,
                acq_time_start_bits: 0,
                acq_time_scale_bits: 0,
                precharge_offset: 0,
                postcharge_offset: 0,
                usable_record_length: 0,
                full_record_length: 0,
            },
            file_content: WfmContent { raw_frames: Vec::new() },
        }
    }

    /// Decodes a container from its preamble `header` and the bytes `body` that
    /// follow it. On success `self` becomes the decoded container; on failure it
    /// is left as it was.
    pub fn load_file(&mut self, file_path: String, header: &[u8], body: &[u8]) -> (r: Result<
        (),
        WfmError,
    >)
        ensures
            r is Ok <==> header_valid(header@) && container_complete(header@, body@),
            r is Ok ==> {
                &&& final(self).wf()
                &&& final(self).file_path == file_path
                &&& final(self).file_header.decoded_from(header@)
                &&& body_long_enough(final(self).file_header, body@)
                &&& final(self).file_content.raw_frames@ == curve_samples(
                    final(self).file_header,
                    body@,
                )
            },
            r matches Err(e) ==> {
                &&& *final(self) == *old(self)
                &&& !header_valid(header@) ==> header_error_matches(header@, e)
                &&& header_valid(header@) ==> e is ParseError
            },
    {
        let file_header = match WfmHeader::parse_header(header) {
            Ok(h) => h,
            Err(e) => return Err(e),
        };
        let raw_frames = match assemble_curves(&file_header, body) {
            Ok(raw) => raw,
            Err(e) => return Err(e),
        };
        *self = WfmFile { file_path, file_header, file_content: WfmContent { raw_frames } };
        Ok(())
    }

    /// The raw samples of frame `frame_index`, or `None` past the last frame.
    pub fn get_frame(&self, frame_index: u32) -> (r: Option<&[i8]>)
        requires
            self.wf(),
        ensures
            r is Some <==> frame_index < self.file_header.num_fastframes,
            r matches Some(s) ==> s@ == frame_of(
                self.file_content.raw_frames@,
                self.file_header.full_record_length as int,
                frame_index as int,
            ),
    {
        frame_slice(
            self.file_content.raw_frames.as_slice(),
            self.file_header.num_fastframes,
            self.file_header.full_record_length,
            frame_index,
        )
    }
}

/// Frame `index` of `samples`, which holds `frame_count` frames of
/// `record_length` samples each, frame-major; `None` when `index` is past the
/// last frame.
pub fn frame_slice<T>(samples: &[T], frame_count: u32, record_length: u16, index: u32) -> (r:
    Option<&[T]>)
    requires
        frame_count * record_length <= samples@.len(),
    ensures
        r is Some <==> index < frame_count,
        r matches Some(s) ==> s@ == frame_of(samples@, record_length as int, index as int),
{
    if index >= frame_count {
        return None;
    }
    let len = record_length as usize;
    let n = samples.len();
    proof {
        let k = index as int;
        let l = record_length as int;
        assert((k + 1) * l <= frame_count * l) by (nonlinear_arith)
            requires
                k + 1 <= frame_count,
                0 <= l,
        ;
        assert(k * l + l == (k + 1) * l) by (nonlinear_arith);
        assert(0 <= k * l) by (nonlinear_arith)
            requires
                0 <= k,
                0 <= l,
        ;
        assert(k * l + l <= n);
    }
    let start = index as usize * len;
    Some(slice_subrange(samples, start, start + len))
}

} // verus!
