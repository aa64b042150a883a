//! Integers at a position of an image.
//!
//! The two readers at the end hand the work to the `binread` crate; what they
//! return is stated here over the image bytes, and everything else in the
//! library is proved from those two statements.

use vstd::prelude::*;

verus! {

/// The 16-bit value whose low byte is `lo` and whose high byte is `hi`.
pub open spec fn u16_le(lo: u8, hi: u8) -> u16 {
    (lo as int + 256 * (hi as int)) as u16
}

/// The byte at `pos`, where the image has one.
pub open spec fn spec_u8_at(buf: Seq<u8>, pos: int) -> Option<u8> {
    if 0 <= pos && pos + 1 <= buf.len() {
        Some(buf[pos])
    } else {
        None
    }
}

/// The little-endian 16-bit value held by the two bytes at `pos`, where the
/// image has both.
pub open spec fn spec_u16_at(buf: Seq<u8>, pos: int) -> Option<u16> {
    if 0 <= pos && pos + 2 <= buf.len() {
        Some(u16_le(buf[pos], buf[pos + 1]))
    } else {
        None
    }
}

/// The length of an image fits `usize`, so a position up to the end of the
/// image does too.
pub proof fn lemma_len_fits(buf: &[u8])
    ensures
        buf@.len() <= usize::MAX,
{
    assert(buf@.len() == buf.len());
}

/// Reads one byte with `binread::BinReaderExt::read_le::<u8>`, on a
/// `binread::io::Cursor` over `buf` that stands at `pos`.
///
/// Trusted: the read yields the byte at `pos`, and fails exactly when the
/// image has no byte there.
#[verifier::external_body]
pub(crate) fn read_u8(buf: &[u8], pos: usize) -> (r: Option<u8>)
    ensures
        r == spec_u8_at(buf@, pos as int),
{
    let mut cursor = binread::io::Cursor::new(buf);
    cursor.set_position(pos as u64);
    binread::BinReaderExt::read_le::<u8>(&mut cursor).ok()
}

/// Reads two bytes as a little-endian integer with
/// `binread::BinReaderExt::read_le::<u16>`, on a `binread::io::Cursor` over
/// `buf` that stands at `pos`.
///
/// Trusted: the read yields the byte at `pos` as the low half and the byte
/// after it as the high half, and fails exactly when the image does not hold
/// both.
#[verifier::external_body]
pub(crate) fn read_u16_le(buf: &[u8], pos: usize) -> (r: Option<u16>)
    ensures
        r == spec_u16_at(buf@, pos as int),
{
    let mut cursor = binread::io::Cursor::new(buf);
    cursor.set_position(pos as u64);
    binread::BinReaderExt::read_le::<u16>(&mut cursor).ok()
}

} // verus!
