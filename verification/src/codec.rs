//! The byte-valued enumerations of the header.
//!
//! Each enumeration is a closed set: a byte either is the code of exactly one
//! variant or is rejected. No variant stands for "anything else".

use crate::error::{DecodeError, EnumKind};
use vstd::prelude::*;

verus! {

/// Whether a side of track 0 uses its alternate encoding.
#[derive(Debug, Clone, Copy, PartialEq, Eq)]
pub enum UseAltEncoding {
    /// Code `0x00`.
    Yes,
    /// Code `0xFF`.
    No,
}

/// How the head steps from one track to the next.
#[derive(Debug, Clone, Copy, PartialEq, Eq)]
pub enum StepMode {
    /// Code `0x00`.
    Double,
    /// Code `0xFF`.
    Single,
}

/// The floppy interface that the image was made for.
#[derive(Debug, Clone, Copy, PartialEq, Eq)]
pub enum InterfaceMode {
    /// Code `0x00`.
    IBMPCDD,
    /// Code `0x01`.
    IBMPCHD,
    /// Code `0x02`.
    AtariSTDD,
    /// Code `0x03`.
    AtariSTHD,
    /// Code `0x04`.
    AmigaDD,
    /// Code `0x05`.
    AmigaHD,
    /// Code `0x06`.
    CPCDD,
    /// Code `0x07`.
    GenericShuggartDD,
    /// Code `0x08`.
    IBMPCED,
    /// Code `0x09`.
    MSX2DD,
    /// Code `0x0A`.
    C64DD,
    /// Code `0x0B`.
    EmuShugart,
    /// Code `0x0C`.
    S950DD,
    /// Code `0x0D`.
    S950HD,
    /// Code `0xFE`.
    Disable,
}

/// The encoding of the data on a track.
#[derive(Debug, Clone, Copy, PartialEq, Eq)]
pub enum TrackEncoding {
    /// Code `0x00`.
    ISOIBMMFM,
    /// Code `0x01`.
    AmigaMFM,
    /// Code `0x02`.
    ISOIBMFM,
    /// Code `0x03`.
    EmuFM,
    /// Code `0xFF`.
    Unknown,
}

impl UseAltEncoding {
    /// The byte that stands for this variant in an image.
    pub open spec fn spec_code(self) -> u8 {
        match self {
            UseAltEncoding::Yes => 0x00,
            UseAltEncoding::No => 0xFF,
        }
    }

    /// The variant that a byte stands for, if it stands for one.
    pub open spec fn spec_from_byte(b: u8) -> Option<UseAltEncoding> {
        if b == 0x00 {
            Some(UseAltEncoding::Yes)
        } else if b == 0xFF {
            Some(UseAltEncoding::No)
        } else {
            None
        }
    }

    /// The byte that stands for this variant in an image.
    #[verifier::when_used_as_spec(spec_code)]
    pub fn code(self) -> (b: u8)
        ensures
            b == self.spec_code(),
    {
        match self {
            UseAltEncoding::Yes => 0x00,
            UseAltEncoding::No => 0xFF,
        }
    }

    /// Decodes one byte: the variant whose code it is, or
    /// `InvalidEnumValue` with the byte where it is the code of none.
    pub fn from_byte(b: u8) -> (r: Result<UseAltEncoding, DecodeError>)
        ensures
            r == match UseAltEncoding::spec_from_byte(b) {
                Some(v) => Ok::<UseAltEncoding, DecodeError>(v),
                None => Err(DecodeError::InvalidEnumValue { kind: EnumKind::UseAltEncoding, byte: b }),
            },
    {
        match b {
            0x00 => Ok(UseAltEncoding::Yes),
            0xFF => Ok(UseAltEncoding::No),
            _ => Err(DecodeError::InvalidEnumValue { kind: EnumKind::UseAltEncoding, byte: b }),
        }
    }

    /// A byte decodes to a variant exactly when it is that variant's code:
    /// decoding inverts `code`, and distinct variants have distinct codes.
    pub proof fn lemma_from_byte_inverts_code(b: u8, v: UseAltEncoding)
        ensures
            UseAltEncoding::spec_from_byte(b) == Some(v) <==> v.spec_code() == b,
    {
    }
}

impl StepMode {
    /// The byte that stands for this variant in an image.
    pub open spec fn spec_code(self) -> u8 {
        match self {
            StepMode::Double => 0x00,
            StepMode::Single => 0xFF,
        }
    }

    /// The variant that a byte stands for, if it stands for one.
    pub open spec fn spec_from_byte(b: u8) -> Option<StepMode> {
        if b == 0x00 {
            Some(StepMode::Double)
        } else if b == 0xFF {
            Some(StepMode::Single)
        } else {
            None
        }
    }

    /// The byte that stands for this variant in an image.
    #[verifier::when_used_as_spec(spec_code)]
    pub fn code(self) -> (b: u8)
        ensures
            b == self.spec_code(),
    {
        match self {
            StepMode::Double => 0x00,
            StepMode::Single => 0xFF,
        }
    }

    /// Decodes one byte: the variant whose code it is, or
    /// `InvalidEnumValue` with the byte where it is the code of none.
    pub fn from_byte(b: u8) -> (r: Result<StepMode, DecodeError>)
        ensures
            r == match StepMode::spec_from_byte(b) {
                Some(v) => Ok::<StepMode, DecodeError>(v),
                None => Err(DecodeError::InvalidEnumValue { kind: EnumKind::StepMode, byte: b }),
            },
    {
        match b {
            0x00 => Ok(StepMode::Double),
            0xFF => Ok(StepMode::Single),
            _ => Err(DecodeError::InvalidEnumValue { kind: EnumKind::StepMode, byte: b }),
        }
    }

    /// A byte decodes to a variant exactly when it is that variant's code:
    /// decoding inverts `code`, and distinct variants have distinct codes.
    pub proof fn lemma_from_byte_inverts_code(b: u8, v: StepMode)
        ensures
            StepMode::spec_from_byte(b) == Some(v) <==> v.spec_code() == b,
    {
    }
}

impl InterfaceMode {
    /// The byte that stands for this variant in an image.
    pub open spec fn spec_code(self) -> u8 {
        match self {
            InterfaceMode::IBMPCDD => 0x00,
            InterfaceMode::IBMPCHD => 0x01,
            InterfaceMode::AtariSTDD => 0x02,
            InterfaceMode::AtariSTHD => 0x03,
            InterfaceMode::AmigaDD => 0x04,
            InterfaceMode::AmigaHD => 0x05,
            InterfaceMode::CPCDD => 0x06,
            InterfaceMode::GenericShuggartDD => 0x07,
            InterfaceMode::IBMPCED => 0x08,
            InterfaceMode::MSX2DD => 0x09,
            InterfaceMode::C64DD => 0x0A,
            InterfaceMode::EmuShugart => 0x0B,
            InterfaceMode::S950DD => 0x0C,
            InterfaceMode::S950HD => 0x0D,
            InterfaceMode::Disable => 0xFE,
        }
    }

    /// The variant that a byte stands for, if it stands for one.
    pub open spec fn spec_from_byte(b: u8) -> Option<InterfaceMode> {
        if b == 0x00 {
            Some(InterfaceMode::IBMPCDD)
        } else if b == 0x01 {
            Some(InterfaceMode::IBMPCHD)
        } else if b == 0x02 {
            Some(InterfaceMode::AtariSTDD)
        } else if b == 0x03 {
            Some(InterfaceMode::AtariSTHD)
        } else if b == 0x04 {
            Some(InterfaceMode::AmigaDD)
        } else if b == 0x05 {
            Some(InterfaceMode::AmigaHD)
        } else if b == 0x06 {
            Some(InterfaceMode::CPCDD)
        } else if b == 0x07 {
            Some(InterfaceMode::GenericShuggartDD)
        } else if b == 0x08 {
            Some(InterfaceMode::IBMPCED)
        } else if b == 0x09 {
            Some(InterfaceMode::MSX2DD)
        } else if b == 0x0A {
            Some(InterfaceMode::C64DD)
        } else if b == 0x0B {
            Some(InterfaceMode::EmuShugart)
        } else if b == 0x0C {
            Some(InterfaceMode::S950DD)
        } else if b == 0x0D {
            Some(InterfaceMode::S950HD)
        } else if b == 0xFE {
            Some(InterfaceMode::Disable)
        } else {
            None
        }
    }

    /// The byte that stands for this variant in an image.
    #[verifier::when_used_as_spec(spec_code)]
    pub fn code(self) -> (b: u8)
        ensures
            b == self.spec_code(),
    {
        match self {
            InterfaceMode::IBMPCDD => 0x00,
            InterfaceMode::IBMPCHD => 0x01,
            InterfaceMode::AtariSTDD => 0x02,
            InterfaceMode::AtariSTHD => 0x03,
            InterfaceMode::AmigaDD => 0x04,
            InterfaceMode::AmigaHD => 0x05,
            InterfaceMode::CPCDD => 0x06,
            InterfaceMode::GenericShuggartDD => 0x07,
            InterfaceMode::IBMPCED => 0x08,
            InterfaceMode::MSX2DD => 0x09,
            InterfaceMode::C64DD => 0x0A,
            InterfaceMode::EmuShugart => 0x0B,
            InterfaceMode::S950DD => 0x0C,
            InterfaceMode::S950HD => 0x0D,
            InterfaceMode::Disable => 0xFE,
        }
    }

    /// Decodes one byte: the variant whose code it is, or
    /// `InvalidEnumValue` with the byte where it is the code of none.
    pub fn from_byte(b: u8) -> (r: Result<InterfaceMode, DecodeError>)
        ensures
            r == match InterfaceMode::spec_from_byte(b) {
                Some(v) => Ok::<InterfaceMode, DecodeError>(v),
                None => Err(DecodeError::InvalidEnumValue { kind: EnumKind::InterfaceMode, byte: b }),
            },
    {
        match b {
            0x00 => Ok(InterfaceMode::IBMPCDD),
            0x01 => Ok(InterfaceMode::IBMPCHD),
            0x02 => Ok(InterfaceMode::AtariSTDD),
            0x03 => Ok(InterfaceMode::AtariSTHD),
            0x04 => Ok(InterfaceMode::AmigaDD),
            0x05 => Ok(InterfaceMode::AmigaHD),
            0x06 => Ok(InterfaceMode::CPCDD),
            0x07 => Ok(InterfaceMode::GenericShuggartDD),
            0x08 => Ok(InterfaceMode::IBMPCED),
            0x09 => Ok(InterfaceMode::MSX2DD),
            0x0A => Ok(InterfaceMode::C64DD),
            0x0B => Ok(InterfaceMode::EmuShugart),
            0x0C => Ok(InterfaceMode::S950DD),
            0x0D => Ok(InterfaceMode::S950HD),
            0xFE => Ok(InterfaceMode::Disable),
            _ => Err(DecodeError::InvalidEnumValue { kind: EnumKind::InterfaceMode, byte: b }),
        }
    }

    /// A byte decodes to a variant exactly when it is that variant's code:
    /// decoding inverts `code`, and distinct variants have distinct codes.
    pub proof fn lemma_from_byte_inverts_code(b: u8, v: InterfaceMode)
        ensures
            InterfaceMode::spec_from_byte(b) == Some(v) <==> v.spec_code() == b,
    {
    }
}

impl TrackEncoding {
    /// The byte that stands for this variant in an image.
    pub open spec fn spec_code(self) -> u8 {
        match self {
            TrackEncoding::ISOIBMMFM => 0x00,
            TrackEncoding::AmigaMFM => 0x01,
            TrackEncoding::ISOIBMFM => 0x02,
            TrackEncoding::EmuFM => 0x03,
            TrackEncoding::Unknown => 0xFF,
        }
    }

    /// The variant that a byte stands for, if it stands for one.
    pub open spec fn spec_from_byte(b: u8) -> Option<TrackEncoding> {
        if b == 0x00 {
            Some(TrackEncoding::ISOIBMMFM)
        } else if b == 0x01 {
            Some(TrackEncoding::AmigaMFM)
        } else if b == 0x02 {
            Some(TrackEncoding::ISOIBMFM)
        } else if b == 0x03 {
            Some(TrackEncoding::EmuFM)
        } else if b == 0xFF {
            Some(TrackEncoding::Unknown)
        } else {
            None
        }
    }

    /// The byte that stands for this variant in an image.
    #[verifier::when_used_as_spec(spec_code)]
    pub fn code(self) -> (b: u8)
        ensures
            b == self.spec_code(),
    {
        match self {
            TrackEncoding::ISOIBMMFM => 0x00,
            TrackEncoding::AmigaMFM => 0x01,
            TrackEncoding::ISOIBMFM => 0x02,
            TrackEncoding::EmuFM => 0x03,
            TrackEncoding::Unknown => 0xFF,
        }
    }

    /// Decodes one byte: the variant whose code it is, or
    /// `InvalidEnumValue` with the byte where it is the code of none.
    pub fn from_byte(b: u8) -> (r: Result<TrackEncoding, DecodeError>)
        ensures
            r == match TrackEncoding::spec_from_byte(b) {
                Some(v) => Ok::<TrackEncoding, DecodeError>(v),
                None => Err(DecodeError::InvalidEnumValue { kind: EnumKind::TrackEncoding, byte: b }),
            },
    {
        match b {
            0x00 => Ok(TrackEncoding::ISOIBMMFM),
            0x01 => Ok(TrackEncoding::AmigaMFM),
            0x02 => Ok(TrackEncoding::ISOIBMFM),
            0x03 => Ok(TrackEncoding::EmuFM),
            0xFF => Ok(TrackEncoding::Unknown),
            _ => Err(DecodeError::InvalidEnumValue { kind: EnumKind::TrackEncoding, byte: b }),
        }
    }

    /// A byte decodes to a variant exactly when it is that variant's code:
    /// decoding inverts `code`, and distinct variants have distinct codes.
    pub proof fn lemma_from_byte_inverts_code(b: u8, v: TrackEncoding)
        ensures
            TrackEncoding::spec_from_byte(b) == Some(v) <==> v.spec_code() == b,
    {
    }
}

} // verus!
