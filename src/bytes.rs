//! Little-endian integers read from byte slices.
use vstd::prelude::*;
use crate::error::WfmError;

verus! {

/// Value of four bytes read little-endian.
pub open spec fn le_u32_of(b: Seq<u8>) -> int {
    b[0] + 0x100 * b[1] + 0x1_0000 * b[2] + 0x100_0000 * b[3]
}

/// Value of eight bytes read little-endian.
pub open spec fn le_u64_of(b: Seq<u8>) -> int {
    le_u32_of(b) + 0x1_0000_0000 * le_u32_of(b.subrange(4, 8))
}

/// Reads a `u32` from exactly four bytes.
pub fn read_u32(bytes: &[u8]) -> (r: Result<u32, WfmError>)
    ensures
        r is Ok <==> bytes@.len() == 4,
        r matches Ok(v) ==> v == le_u32_of(bytes@),
        r matches Err(e) ==> e is ParseError,
{
    if bytes.len() != 4 {
        return Err(WfmError::ParseError("Failed to parse u32".to_owned()));
    }
    let v: u32 = (bytes[0] as u32) + (bytes[1] as u32) * 0x100 + (bytes[2] as u32) * 0x1_0000
        + (bytes[3] as u32) * 0x100_0000;
    Ok(v)
}

/// Reads the bit pattern of an `f64` from exactly eight bytes.
pub fn read_f64_bits(bytes: &[u8]) -> (r: Result<u64, WfmError>)
    ensures
        r is Ok <==> bytes@.len() == 8,
        r matches Ok(v) ==> v == le_u64_of(bytes@),
        r matches Err(e) ==> e is ParseError,
{
    if bytes.len() != 8 {
        return Err(WfmError::ParseError("Failed to parse f64".to_owned()));
    }
    let lo: u64 = (bytes[0] as u64) + (bytes[1] as u64) * 0x100 + (bytes[2] as u64) * 0x1_0000
        + (bytes[3] as u64) * 0x100_0000;
    let hi: u64 = (bytes[4] as u64) + (bytes[5] as u64) * 0x100 + (bytes[6] as u64) * 0x1_0000
        + (bytes[7] as u64) * 0x100_0000;
    assert(bytes@.subrange(4, 8)[0] == bytes@[4]);
    assert(bytes@.subrange(4, 8)[1] == bytes@[5]);
    assert(bytes@.subrange(4, 8)[2] == bytes@[6]);
    assert(bytes@.subrange(4, 8)[3] == bytes@[7]);
    Ok(lo + hi * 0x1_0000_0000)
}

} // verus!
