//! Tracks: a record of the track table together with the blocks it locates.

use crate::block::{spec_block_at, spec_read_block, BlockSamples, TrackBlock, BLOCK_SIZE};
use crate::bytes::lemma_len_fits;
use crate::error::DecodeError;
use crate::table::TrackInfo;
use vstd::prelude::*;

verus! {

/// One track of the disk.
#[derive(Debug, PartialEq, Eq)]
pub struct Track {
    pub info: TrackInfo,
    pub blocks: Vec<TrackBlock>,
}

/// What a track holds: its record and the samples of its blocks, in file
/// order.
pub struct TrackView {
    pub info: TrackInfo,
    pub blocks: Seq<BlockSamples>,
}

impl View for Track {
    type V = TrackView;

    open spec fn view(&self) -> TrackView {
        TrackView { info: self.info, blocks: spec_block_views(self.blocks@) }
    }
}

/// What each block of `blocks` holds, in order.
pub open spec fn spec_block_views(blocks: Seq<TrackBlock>) -> Seq<BlockSamples> {
    Seq::new(blocks.len(), |k: int| blocks[k]@)
}

/// The blocks of the track that `info` locates: `info.spec_block_count()`
/// blocks that lie one after the other from `info.spec_data_start()` on, or
/// `TruncatedBlock` where the image ends before the last of them does. A
/// track of no blocks reads no byte.
pub open spec fn spec_read_blocks(buf: Seq<u8>, info: TrackInfo) -> Result<
    Seq<BlockSamples>,
    DecodeError,
> {
    let count = info.spec_block_count();
    let start = info.spec_data_start();
    if count == 0 || start + BLOCK_SIZE * count <= buf.len() {
        Ok(Seq::new(count, |k: int| spec_block_at(buf, start + BLOCK_SIZE * k)))
    } else {
        Err(DecodeError::TruncatedBlock)
    }
}

/// The track that `info` locates.
pub open spec fn spec_read_track(buf: Seq<u8>, info: TrackInfo) -> Result<TrackView, DecodeError> {
    match spec_read_blocks(buf, info) {
        Ok(blocks) => Ok(TrackView { info, blocks }),
        Err(e) => Err(e),
    }
}

/// The tracks that the records of `table` locate, one per record and in the
/// order of the records, or `TruncatedBlock` where the image ends inside one
/// of them.
pub open spec fn spec_read_tracks(buf: Seq<u8>, table: Seq<TrackInfo>) -> Result<
    Seq<TrackView>,
    DecodeError,
> {
    if forall|i: int| 0 <= i < table.len() ==> (#[trigger] spec_read_blocks(buf, table[i])) is Ok {
        Ok(
            Seq::new(
                table.len(),
                |i: int|
                    TrackView { info: table[i], blocks: spec_read_blocks(buf, table[i])->Ok_0 },
            ),
        )
    } else {
        Err(DecodeError::TruncatedBlock)
    }
}

/// What each track of `tracks` holds, in order.
pub open spec fn spec_track_views(tracks: Seq<Track>) -> Seq<TrackView> {
    Seq::new(tracks.len(), |i: int| tracks[i]@)
}

/// Decodes the blocks of the track that `info` locates, in file order.
pub fn read_blocks(buf: &[u8], info: &TrackInfo) -> (r: Result<Vec<TrackBlock>, DecodeError>)
    ensures
        match spec_read_blocks(buf@, *info) {
            Ok(samples) => r matches Ok(blocks) && spec_block_views(blocks@) == samples
                && blocks@.len() == info.spec_block_count(),
            Err(e) => r == Err::<Vec<TrackBlock>, DecodeError>(e),
        },
{
    let count: usize = info.block_count();
    let start: usize = info.data_start();
    let mut blocks: Vec<TrackBlock> = Vec::new();
    let mut at: usize = start;
    let mut k: usize = 0;
    while k < count
        invariant
            k <= count,
            count == info.spec_block_count(),
            start == info.spec_data_start(),
            at == start + BLOCK_SIZE * k,
            k > 0 ==> at <= buf.len(),
            blocks@.len() == k,
            forall|j: int| 0 <= j < k ==> blocks@[j]@ == spec_block_at(buf@, start + BLOCK_SIZE * j),
        decreases count - k,
    {
        match TrackBlock::read(buf, at) {
            Ok((block, next)) => {
                blocks.push(block);
                at = next;
            },
            Err(e) => {
                return Err(e);
            },
        }
        k += 1;
    }
    proof {
        lemma_len_fits(buf);
        assert(spec_block_views(blocks@) =~= Seq::new(
            count as nat,
            |k: int| spec_block_at(buf@, start + BLOCK_SIZE * k),
        ));
    }
    Ok(blocks)
}

impl Track {
    /// Decodes the track that `info` locates.
    pub fn read(buf: &[u8], info: TrackInfo) -> (r: Result<Track, DecodeError>)
        ensures
            match spec_read_track(buf@, info) {
                Ok(view) => r matches Ok(track) && track@ == view,
                Err(e) => r == Err::<Track, DecodeError>(e),
            },
    {
        let blocks = read_blocks(buf, &info)?;
        Ok(Track { info, blocks })
    }
}

/// Decodes the track of every record of `table`, in the order of the records.
pub fn read_tracks(buf: &[u8], table: &[TrackInfo]) -> (r: Result<Vec<Track>, DecodeError>)
    ensures
        match spec_read_tracks(buf@, table@) {
            Ok(views) => r matches Ok(tracks) && spec_track_views(tracks@) == views,
            Err(e) => r == Err::<Vec<Track>, DecodeError>(e),
        },
{
    let mut tracks: Vec<Track> = Vec::new();
    let mut i: usize = 0;
    while i < table.len()
        invariant
            i <= table@.len(),
            tracks@.len() == i,
            forall|j: int| 0 <= j < i ==> (#[trigger] spec_read_blocks(buf@, table@[j])) is Ok,
            forall|j: int|
                0 <= j < i ==> (#[trigger] tracks@[j])@ == (TrackView {
                    info: table@[j],
                    blocks: spec_read_blocks(buf@, table@[j])->Ok_0,
                }),
        decreases table@.len() - i,
    {
        match Track::read(buf, table[i]) {
            Ok(track) => {
                tracks.push(track);
            },
            Err(e) => {
                assert(!(spec_read_blocks(buf@, table@[i as int]) is Ok));
                return Err(e);
            },
        }
        i += 1;
    }
    proof {
        assert(spec_track_views(tracks@) =~= spec_read_tracks(buf@, table@)->Ok_0);
    }
    Ok(tracks)
}

/// The blocks of a track that is read are as many as fit whole in its
/// length, and block `k` is the one that the `BLOCK_SIZE` bytes at
/// `info.spec_data_start() + BLOCK_SIZE * k` hold.
pub proof fn lemma_track_blocks(buf: Seq<u8>, info: TrackInfo, k: int)
    requires
        spec_read_blocks(buf, info) is Ok,
        0 <= k < info.spec_block_count(),
    ensures
        spec_read_blocks(buf, info)->Ok_0.len() == info.spec_block_count(),
        spec_read_block(buf, info.spec_data_start() + BLOCK_SIZE * k) == Ok::<
            BlockSamples,
            DecodeError,
        >(spec_read_blocks(buf, info)->Ok_0[k]),
{
}

} // verus!
