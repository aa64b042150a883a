//! Decoder for the HFE floppy-disk image container.
//!
//! An image is a fixed header, a table that locates each track's data, and
//! blocks of raw 16-bit flux samples. Every decoder here is a function of the
//! image bytes and a position; its contract is stated over `Seq<u8>`.

pub mod block;
pub mod bytes;
pub mod codec;
pub mod disk;
pub mod error;
pub mod flux;
pub mod header;
pub mod table;
pub mod track;

pub use block::TrackBlock;
pub use codec::{InterfaceMode, StepMode, TrackEncoding, UseAltEncoding};
pub use disk::Disk;
pub use error::{DecodeError, EnumKind};
pub use flux::mfm_decode_byte;
pub use header::Header;
pub use table::{read_track_table, TrackInfo};
pub use track::{read_blocks, read_tracks, Track};
