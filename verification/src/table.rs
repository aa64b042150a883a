//! The track table: one record per track that locates the track's data.

use crate::block::BLOCK_SIZE;
use crate::bytes::{lemma_len_fits, read_u16_le, u16_le};
use crate::error::DecodeError;
use vstd::prelude::*;

verus! {

/// Track offset LUT entry
#[derive(Debug, Clone, Copy, PartialEq, Eq)]
pub struct TrackInfo {
    /// Offset of the track data in block of 512 bytes (e.g. 2=0x400)
    pub offset: u16,
    /// Length of the track data in bytes
    pub length: u16,
}

/// Number of bytes that one record of the track table takes.
pub const TRACK_INFO_SIZE: usize = 4;

/// The unit, in bytes, in which the track table and the tracks are located.
pub const SECTOR_SIZE: usize = 512;

/// The record held by the four bytes at `pos`: two little-endian 16-bit
/// values, the offset first.
pub open spec fn spec_track_info_at(buf: Seq<u8>, pos: int) -> TrackInfo {
    TrackInfo {
        offset: u16_le(buf[pos], buf[pos + 1]),
        length: u16_le(buf[pos + 2], buf[pos + 3]),
    }
}

/// The record at `pos`, or `TruncatedTrackTable` where the image ends before
/// the record does.
pub open spec fn spec_read_track_info(buf: Seq<u8>, pos: int) -> Result<TrackInfo, DecodeError> {
    if 0 <= pos && pos + TRACK_INFO_SIZE <= buf.len() {
        Ok(spec_track_info_at(buf, pos))
    } else {
        Err(DecodeError::TruncatedTrackTable)
    }
}

/// The `count` records that lie one after the other from `pos` on, in file
/// order, or `TruncatedTrackTable` where the image ends before the last of
/// them does. A table of no records reads no byte.
pub open spec fn spec_read_track_table(buf: Seq<u8>, pos: int, count: nat) -> Result<
    Seq<TrackInfo>,
    DecodeError,
> {
    if count == 0 || (0 <= pos && pos + TRACK_INFO_SIZE * count <= buf.len()) {
        Ok(Seq::new(count, |i: int| spec_track_info_at(buf, pos + TRACK_INFO_SIZE * i)))
    } else {
        Err(DecodeError::TruncatedTrackTable)
    }
}

impl TrackInfo {
    /// Position in the image of the first byte of the track's data.
    pub open spec fn spec_data_start(&self) -> nat {
        (self.offset * SECTOR_SIZE) as nat
    }

    /// Position in the image of the first byte of the track's data.
    pub fn data_start(&self) -> (start: usize)
        ensures
            start == self.spec_data_start(),
    {
        self.offset as usize * SECTOR_SIZE
    }

    /// Number of blocks in the track's data: the whole blocks that fit in
    /// `length` bytes. Bytes after the last whole block belong to no block.
    pub open spec fn spec_block_count(&self) -> nat {
        (self.length as nat) / (BLOCK_SIZE as nat)
    }

    /// Number of blocks in the track's data.
    pub fn block_count(&self) -> (count: usize)
        ensures
            count == self.spec_block_count(),
    {
        self.length as usize / BLOCK_SIZE
    }

    /// The blocks of a track take no more bytes than the track's length, and
    /// one block more would: what lies after the last whole block is shorter
    /// than a block and is left unread.
    pub proof fn lemma_block_count_bounds(self)
        ensures
            BLOCK_SIZE * self.spec_block_count() <= self.length,
            self.length < BLOCK_SIZE * (self.spec_block_count() + 1),
    {
    }

    /// Decodes the record at `pos` and returns it with the position of the
    /// byte after it.
    pub fn read(buf: &[u8], pos: usize) -> (r: Result<(TrackInfo, usize), DecodeError>)
        ensures
            match spec_read_track_info(buf@, pos as int) {
                Ok(info) => r matches Ok((got, end)) && got == info && end == pos
                    + TRACK_INFO_SIZE,
                Err(e) => r == Err::<(TrackInfo, usize), DecodeError>(e),
            },
    {
        proof {
            lemma_len_fits(buf);
        }
        let offset: u16 = match read_u16_le(buf, pos) {
            Some(v) => v,
            None => {
                return Err(DecodeError::TruncatedTrackTable);
            },
        };
        let length: u16 = match read_u16_le(buf, pos + 2) {
            Some(v) => v,
            None => {
                return Err(DecodeError::TruncatedTrackTable);
            },
        };
        Ok((TrackInfo { offset, length }, pos + TRACK_INFO_SIZE))
    }
}

/// Decodes `count` records from `pos` on and returns them, in file order,
/// with the position of the byte after the last one.
pub fn read_track_table(buf: &[u8], pos: usize, count: usize) -> (r: Result<
    (Vec<TrackInfo>, usize),
    DecodeError,
>)
    ensures
        match spec_read_track_table(buf@, pos as int, count as nat) {
            Ok(infos) => r matches Ok((table, end)) && table@ == infos && table@.len() == count
                && end == pos + TRACK_INFO_SIZE * count,
            Err(e) => r == Err::<(Vec<TrackInfo>, usize), DecodeError>(e),
        },
{
    let mut table: Vec<TrackInfo> = Vec::new();
    let mut at: usize = pos;
    let mut i: usize = 0;
    while i < count
        invariant
            i <= count,
            at == pos + TRACK_INFO_SIZE * i,
            i > 0 ==> at <= buf.len(),
            table@.len() == i,
            forall|j: int|
                0 <= j < i ==> table@[j] == spec_track_info_at(buf@, pos + TRACK_INFO_SIZE * j),
        decreases count - i,
    {
        match TrackInfo::read(buf, at) {
            Ok((info, next)) => {
                table.push(info);
                at = next;
            },
            Err(e) => {
                return Err(e);
            },
        }
        i += 1;
    }
    proof {
        lemma_len_fits(buf);
        assert(table@ =~= Seq::new(
            count as nat,
            |i: int| spec_track_info_at(buf@, pos + TRACK_INFO_SIZE * i),
        ));
    }
    Ok((table, at))
}

/// A table that is read has `count` records, and record `i` is the one that
/// the four bytes at `pos + 4 * i` hold: the index of a record is its place in
/// the file.
pub proof fn lemma_track_table_records(buf: Seq<u8>, pos: int, count: nat, i: int)
    requires
        0 <= pos,
        spec_read_track_table(buf, pos, count) is Ok,
        0 <= i < count,
    ensures
        spec_read_track_table(buf, pos, count)->Ok_0.len() == count,
        spec_read_track_info(buf, pos + TRACK_INFO_SIZE * i) == Ok::<TrackInfo, DecodeError>(
            spec_read_track_table(buf, pos, count)->Ok_0[i],
        ),
{
}

} // verus!
