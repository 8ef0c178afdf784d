//! Cutting the curve data into frames of signed 8-bit samples.
use vstd::prelude::*;
use crate::error::WfmError;
use crate::header::WfmHeader;
use crate::layout::HEADER_SIZE;

verus! {

/// Where the curve data starts within the bytes that follow the preamble.
pub open spec fn curve_start(h: WfmHeader) -> int {
    h.curve_byte_offset - HEADER_SIZE
}

/// Number of samples in all frames together.
pub open spec fn total_samples(h: WfmHeader) -> int {
    h.num_fastframes * h.full_record_length
}

/// Whether the bytes that follow the preamble hold every frame that `h` announces.
pub open spec fn body_long_enough(h: WfmHeader, body: Seq<u8>) -> bool {
    curve_start(h) + total_samples(h) <= body.len()
}

/// The samples of all frames, frame-major, each byte read as two's complement.
pub open spec fn curve_samples(h: WfmHeader, body: Seq<u8>) -> Seq<i8> {
    Seq::new(total_samples(h) as nat, |i: int| body[curve_start(h) + i] as i8)
}

/// Sample `j` of frame `f`, read from the bytes that follow the preamble.
pub open spec fn frame_sample(h: WfmHeader, body: Seq<u8>, f: int, j: int) -> i8 {
    body[curve_start(h) + f * h.full_record_length + j] as i8
}

/// Reads the raw samples of every frame from `body`, the bytes that follow the
/// preamble. Fails rather than truncating when `body` is too short.
pub fn assemble_curves(header: &WfmHeader, body: &[u8]) -> (r: Result<Vec<i8>, WfmError>)
    requires
        header.wf(),
    ensures
        r is Ok <==> body_long_enough(*header, body@),
        r matches Ok(raw) ==> raw@ == curve_samples(*header, body@),
        r matches Err(e) ==> e is ParseError,
{
    let frames = header.num_fastframes as u64;
    let len = header.full_record_length as u64;
    let start: u64 = header.curve_byte_offset - HEADER_SIZE as u64;
    assert(frames * len <= 0xFFFF_FFFFu64 * 0xFFFFu64) by (nonlinear_arith)
        requires
            frames <= 0xFFFF_FFFFu64,
            len <= 0xFFFFu64,
    ;
    let total: u64 = frames * len;
    let end: u64 = start + total;
    let blen = body.len();
    if end > blen as u64 {
        return Err(WfmError::ParseError("Unexpected end of file in curve data".to_owned()));
    }
    let mut raw: Vec<i8> = Vec::with_capacity(total as usize);
    let mut i: u64 = 0;
    while i < total
        invariant
            header.wf(),
            start == curve_start(*header),
            total == total_samples(*header),
            blen == body@.len(),
            start + total <= blen,
            i <= total,
            raw@ =~= curve_samples(*header, body@).subrange(0, i as int),
        decreases total - i,
    {
        let b = body[(start + i) as usize];
        raw.push(#[verifier::truncate] (b as i8));
        i = i + 1;
    }
    assert(raw@ =~= curve_samples(*header, body@));
    Ok(raw)
}

/// Frame `k` of frame-major `samples` with `len` samples per frame.
pub open spec fn frame_of<T>(samples: Seq<T>, len: int, k: int) -> Seq<T> {
    samples.subrange(k * len, (k + 1) * len)
}

/// Frame-major order: frame `k` of the samples that [`assemble_curves`] returns
/// holds `L` samples (`L` the record length), and its sample `j` is byte
/// `k * L + j` of the curve data, read as two's complement.
pub proof fn lemma_frame_major(h: WfmHeader, body: Seq<u8>, k: int, j: int)
    requires
        h.wf(),
        body_long_enough(h, body),
        0 <= k < h.num_fastframes,
        0 <= j < h.full_record_length,
    ensures
        frame_of(curve_samples(h, body), h.full_record_length as int, k).len()
            == h.full_record_length,
        frame_of(curve_samples(h, body), h.full_record_length as int, k)[j] == frame_sample(
            h,
            body,
            k,
            j,
        ),
{
    let l = h.full_record_length as int;
    assert((k + 1) * l <= h.num_fastframes * l) by (nonlinear_arith)
        requires
            k + 1 <= h.num_fastframes,
            0 <= l,
    ;
    assert(k * l + l == (k + 1) * l) by (nonlinear_arith);
    assert(0 <= k * l) by (nonlinear_arith)
        requires
            0 <= k,
            0 <= l,
    ;
}

} // verus!
