//! The fixed header at the start of an image.

use crate::bytes::{lemma_len_fits, read_u16_le, read_u8, spec_u16_at, spec_u8_at, u16_le};
use crate::codec::{InterfaceMode, StepMode, TrackEncoding, UseAltEncoding};
use crate::error::{DecodeError, EnumKind};
use crate::table::SECTOR_SIZE;
use vstd::prelude::*;

verus! {

/// Geometry and encoding of the disk that an image holds.
#[derive(Debug, Clone, Copy, PartialEq, Eq)]
pub struct Header {
    /// Revision 0
    pub format_revision: u8,
    /// Number of tracks in file
    pub tracks: u8,
    /// Number of valid sides (not used by emulator)
    pub sides: u8,
    /// Track encoding mode (used for write support)
    pub encoding: TrackEncoding,
    /// Bitrate in Kbit/s., e.g. 250 = 250000b/s; max: 500
    pub bitrate: u16,
    /// Rotation per minute (not used by emulator)
    pub rpm: u16,
    /// Floppy interface mode
    pub mode: InterfaceMode,
    /// Free
    pub dnu: u8,
    /// Offset of track list LUT in blocks of 512 bytes (e.g. 1 = 0x200)
    pub track_list_offset: u8,
    /// Is write protected?
    pub writable: u8,
    /// 0xFF - single step, 0x00 - double step
    pub step: StepMode,
    /// 0x00 - use alt. encoding for side 0
    pub track0_s0_altencoding: UseAltEncoding,
    /// Alternate encoding for side 0
    pub track0_s0_encoding: TrackEncoding,
    /// 0x00 - use alt. encoding for side 1
    pub track0_s1_altencoding: UseAltEncoding,
    /// Alternate encoding for side 1
    pub track0_s1_encoding: TrackEncoding,
}

/// The eight bytes `HXCPICFE` that open every image.
pub const SIGNATURE: [u8; 8] = [0x48, 0x58, 0x43, 0x50, 0x49, 0x43, 0x46, 0x45];

/// Number of bytes that the header takes, signature included.
pub const HEADER_SIZE: usize = 25;

/// Whether the eight bytes of `buf` at `pos` are the signature.
pub open spec fn has_signature(buf: Seq<u8>, pos: int) -> bool {
    buf.subrange(pos, pos + 8) == SIGNATURE@
}

/// The error for a byte of the given enumeration that is the code of no
/// variant.
pub open spec fn invalid_enum_value(kind: EnumKind, byte: u8) -> DecodeError {
    DecodeError::InvalidEnumValue { kind, byte }
}

/// The header that the bytes of `buf` from `pos` on hold, or the failure of
/// the first field, in layout order, that cannot be read.
///
/// The layout, by offset from `pos`: the signature at 0 to 7, then
/// `format_revision` 8, `tracks` 9, `sides` 10, `encoding` 11, `bitrate` 12
/// and 13, `rpm` 14 and 15, `mode` 16, `dnu` 17, `track_list_offset` 18,
/// `writable` 19, `step` 20, `track0_s0_altencoding` 21, `track0_s0_encoding`
/// 22, `track0_s1_altencoding` 23, `track0_s1_encoding` 24. The two 16-bit
/// fields are little-endian.
///
/// The signature is read whole before it is compared. After it, a field that
/// lies past the end of the image gives `TruncatedHeader`, and a byte that is
/// no code of its enumeration gives `InvalidEnumValue`; of two such fields the
/// one at the lower offset decides.
pub open spec fn spec_read_header(buf: Seq<u8>, pos: int) -> Result<Header, DecodeError> {
    let avail = buf.len() - pos;
    if avail < 8 {
        Err(DecodeError::TruncatedHeader)
    } else if !has_signature(buf, pos) {
        Err(DecodeError::BadMagic)
    } else if avail < 12 {
        Err(DecodeError::TruncatedHeader)
    } else if TrackEncoding::spec_from_byte(buf[pos + 11]) is None {
        Err(invalid_enum_value(EnumKind::TrackEncoding, buf[pos + 11]))
    } else if avail < 17 {
        Err(DecodeError::TruncatedHeader)
    } else if InterfaceMode::spec_from_byte(buf[pos + 16]) is None {
        Err(invalid_enum_value(EnumKind::InterfaceMode, buf[pos + 16]))
    } else if avail < 21 {
        Err(DecodeError::TruncatedHeader)
    } else if StepMode::spec_from_byte(buf[pos + 20]) is None {
        Err(invalid_enum_value(EnumKind::StepMode, buf[pos + 20]))
    } else if avail < 22 {
        Err(DecodeError::TruncatedHeader)
    } else if UseAltEncoding::spec_from_byte(buf[pos + 21]) is None {
        Err(invalid_enum_value(EnumKind::UseAltEncoding, buf[pos + 21]))
    } else if avail < 23 {
        Err(DecodeError::TruncatedHeader)
    } else if TrackEncoding::spec_from_byte(buf[pos + 22]) is None {
        Err(invalid_enum_value(EnumKind::TrackEncoding, buf[pos + 22]))
    } else if avail < 24 {
        Err(DecodeError::TruncatedHeader)
    } else if UseAltEncoding::spec_from_byte(buf[pos + 23]) is None {
        Err(invalid_enum_value(EnumKind::UseAltEncoding, buf[pos + 23]))
    } else if avail < 25 {
        Err(DecodeError::TruncatedHeader)
    } else if TrackEncoding::spec_from_byte(buf[pos + 24]) is None {
        Err(invalid_enum_value(EnumKind::TrackEncoding, buf[pos + 24]))
    } else {
        Ok(
            Header {
                format_revision: buf[pos + 8],
                tracks: buf[pos + 9],
                sides: buf[pos + 10],
                encoding: TrackEncoding::spec_from_byte(buf[pos + 11])->0,
                bitrate: u16_le(buf[pos + 12], buf[pos + 13]),
                rpm: u16_le(buf[pos + 14], buf[pos + 15]),
                mode: InterfaceMode::spec_from_byte(buf[pos + 16])->0,
                dnu: buf[pos + 17],
                track_list_offset: buf[pos + 18],
                writable: buf[pos + 19],
                step: StepMode::spec_from_byte(buf[pos + 20])->0,
                track0_s0_altencoding: UseAltEncoding::spec_from_byte(buf[pos + 21])->0,
                track0_s0_encoding: TrackEncoding::spec_from_byte(buf[pos + 22])->0,
                track0_s1_altencoding: UseAltEncoding::spec_from_byte(buf[pos + 23])->0,
                track0_s1_encoding: TrackEncoding::spec_from_byte(buf[pos + 24])->0,
            },
        )
    }
}

/// Reads the eight bytes at `pos` and compares them with the signature.
fn read_signature(buf: &[u8], pos: usize) -> (r: Result<(), DecodeError>)
    ensures
        r == (if buf@.len() - pos < 8 {
            Err::<(), DecodeError>(DecodeError::TruncatedHeader)
        } else if !has_signature(buf@, pos as int) {
            Err(DecodeError::BadMagic)
        } else {
            Ok(())
        }),
{
    let mut same = true;
    let mut i: usize = 0;
    while i < 8
        invariant
            i <= 8,
            pos + i <= buf.len() || i == 0,
            same <==> forall|j: int| 0 <= j < i ==> buf@[pos + j] == SIGNATURE@[j],
        decreases 8 - i,
    {
        match read_u8(buf, pos + i) {
            Some(b) => {
                if b != SIGNATURE[i] {
                    same = false;
                }
            },
            None => {
                return Err(DecodeError::TruncatedHeader);
            },
        }
        i += 1;
    }
    proof {
        let found = buf@.subrange(pos as int, pos + 8);
        if same {
            assert(found =~= SIGNATURE@);
        } else {
            let j = choose|j: int| 0 <= j < 8 && buf@[pos + j] != SIGNATURE@[j];
            assert(found[j] != SIGNATURE@[j]);
        }
    }
    if same {
        Ok(())
    } else {
        Err(DecodeError::BadMagic)
    }
}

/// Reads one byte of the header.
fn read_field_u8(buf: &[u8], pos: usize) -> (r: Result<u8, DecodeError>)
    ensures
        r == match spec_u8_at(buf@, pos as int) {
            Some(b) => Ok::<u8, DecodeError>(b),
            None => Err(DecodeError::TruncatedHeader),
        },
{
    match read_u8(buf, pos) {
        Some(b) => Ok(b),
        None => Err(DecodeError::TruncatedHeader),
    }
}

/// Reads one little-endian 16-bit field of the header.
fn read_field_u16(buf: &[u8], pos: usize) -> (r: Result<u16, DecodeError>)
    ensures
        r == match spec_u16_at(buf@, pos as int) {
            Some(v) => Ok::<u16, DecodeError>(v),
            None => Err(DecodeError::TruncatedHeader),
        },
{
    match read_u16_le(buf, pos) {
        Some(v) => Ok(v),
        None => Err(DecodeError::TruncatedHeader),
    }
}

impl Header {
    /// Position in the image of the first byte of the track table.
    pub open spec fn spec_table_start(&self) -> nat {
        (self.track_list_offset * SECTOR_SIZE) as nat
    }

    /// Position in the image of the first byte of the track table. The table
    /// need not follow the header at once: a reader goes to this position.
    pub fn table_start(&self) -> (start: usize)
        ensures
            start == self.spec_table_start(),
    {
        self.track_list_offset as usize * SECTOR_SIZE
    }

    /// Decodes the header that starts at `pos` and returns it with the
    /// position of the byte after it.
    pub fn read(buf: &[u8], pos: usize) -> (r: Result<(Header, usize), DecodeError>)
        ensures
            match spec_read_header(buf@, pos as int) {
                Ok(h) => r matches Ok((got, end)) && got == h && end == pos + HEADER_SIZE,
                Err(e) => r == Err::<(Header, usize), DecodeError>(e),
            },
    {
        proof {
            lemma_len_fits(buf);
        }
        read_signature(buf, pos)?;
        let format_revision = read_field_u8(buf, pos + 8)?;
        let tracks = read_field_u8(buf, pos + 9)?;
        let sides = read_field_u8(buf, pos + 10)?;
        let encoding = TrackEncoding::from_byte(read_field_u8(buf, pos + 11)?)?;
        let bitrate = read_field_u16(buf, pos + 12)?;
        let rpm = read_field_u16(buf, pos + 14)?;
        let mode = InterfaceMode::from_byte(read_field_u8(buf, pos + 16)?)?;
        let dnu = read_field_u8(buf, pos + 17)?;
        let track_list_offset = read_field_u8(buf, pos + 18)?;
        let writable = read_field_u8(buf, pos + 19)?;
        let step = StepMode::from_byte(read_field_u8(buf, pos + 20)?)?;
        let track0_s0_altencoding = UseAltEncoding::from_byte(read_field_u8(buf, pos + 21)?)?;
        let track0_s0_encoding = TrackEncoding::from_byte(read_field_u8(buf, pos + 22)?)?;
        let track0_s1_altencoding = UseAltEncoding::from_byte(read_field_u8(buf, pos + 23)?)?;
        let track0_s1_encoding = TrackEncoding::from_byte(read_field_u8(buf, pos + 24)?)?;
        Ok(
            (
                Header {
                    format_revision,
                    tracks,
                    sides,
                    encoding,
                    bitrate,
                    rpm,
                    mode,
                    dnu,
                    track_list_offset,
                    writable,
                    step,
                    track0_s0_altencoding,
                    track0_s0_encoding,
                    track0_s1_altencoding,
                    track0_s1_encoding,
                },
                pos + HEADER_SIZE,
            ),
        )
    }
}

/// Eight bytes that are not the signature are never a header: decoding fails
/// with `BadMagic` whatever follows them, and also where nothing follows
/// them.
pub proof fn lemma_wrong_signature(buf: Seq<u8>, pos: int)
    requires
        0 <= pos,
        pos + 8 <= buf.len(),
        buf.subrange(pos, pos + 8) != SIGNATURE@,
    ensures
        spec_read_header(buf, pos) == Err::<Header, DecodeError>(DecodeError::BadMagic),
{
}

/// Changing any one byte of the signature makes decoding fail with
/// `BadMagic`. No byte after the signature has a say in it: the image need
/// not reach beyond the signature.
pub proof fn lemma_corrupted_signature(buf: Seq<u8>, pos: int, i: int, b: u8)
    requires
        0 <= pos,
        pos + 8 <= buf.len(),
        has_signature(buf, pos),
        0 <= i < 8,
        b != buf[pos + i],
    ensures
        spec_read_header(buf.update(pos + i, b), pos) == Err::<Header, DecodeError>(
            DecodeError::BadMagic,
        ),
{
    let changed = buf.update(pos + i, b);
    assert(buf.subrange(pos, pos + 8)[i] == buf[pos + i]);
    assert(changed.subrange(pos, pos + 8)[i] == b);
}

/// A header is decoded exactly when the image holds all of its bytes, they
/// open with the signature, and each of the seven enumerated bytes is a code
/// of its enumeration.
pub proof fn lemma_header_decodes(buf: Seq<u8>, pos: int)
    requires
        0 <= pos,
    ensures
        spec_read_header(buf, pos) is Ok <==> {
            &&& pos + HEADER_SIZE <= buf.len()
            &&& has_signature(buf, pos)
            &&& TrackEncoding::spec_from_byte(buf[pos + 11]) is Some
            &&& InterfaceMode::spec_from_byte(buf[pos + 16]) is Some
            &&& StepMode::spec_from_byte(buf[pos + 20]) is Some
            &&& UseAltEncoding::spec_from_byte(buf[pos + 21]) is Some
            &&& TrackEncoding::spec_from_byte(buf[pos + 22]) is Some
            &&& UseAltEncoding::spec_from_byte(buf[pos + 23]) is Some
            &&& TrackEncoding::spec_from_byte(buf[pos + 24]) is Some
        },
{
}

} // verus!
