//! The ways in which decoding an image can fail.

use vstd::prelude::*;

verus! {

/// The byte-valued enumerations of the header.
#[derive(Debug, Clone, Copy, PartialEq, Eq)]
pub enum EnumKind {
    TrackEncoding,
    InterfaceMode,
    StepMode,
    UseAltEncoding,
}

/// A structural failure. Each one ends the decode in which it occurs.
#[derive(Debug, Clone, Copy, PartialEq, Eq)]
pub enum DecodeError {
    /// The eight signature bytes are not `HXCPICFE`.
    BadMagic,
    /// A byte read for an enumeration of the given kind stands for none of
    /// its variants.
    InvalidEnumValue { kind: EnumKind, byte: u8 },
    /// The image ends inside the header.
    TruncatedHeader,
    /// The image ends inside the track table.
    TruncatedTrackTable,
    /// The image ends inside a block of samples.
    TruncatedBlock,
}

} // verus!
