//! The CRC-8 checksum that protects every word on the wire.
use vstd::prelude::*;

verus! {

/// The CRC-8 of `data` with polynomial 0x31, initial value 0xFF, no
/// reflection and no final XOR (the catalogue's CRC-8/NRSC-5).
pub uninterp spec fn crc8_of(data: Seq<u8>) -> u8;

/// Relies on `crc::Crc::<u8>::checksum` with the `CRC_8_NRSC_5` algorithm:
/// the checksum is a function of the bytes alone.
#[verifier::external_body]
fn crc8_nrsc5(data: &[u8]) -> (r: u8)
    ensures
        r == crc8_of(data@),
{
    crc::Crc::<u8>::new(&crc::CRC_8_NRSC_5).checksum(data)
}

/// Checksum of a byte sequence, as the sensor computes it.
pub fn calculate_crc(data: &[u8]) -> (r: u8)
    ensures
        r == crc8_of(data@),
{
    crc8_nrsc5(data)
}

} // verus!
