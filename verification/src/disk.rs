//! A whole image: the header and every track.

use crate::error::DecodeError;
use crate::header::{has_signature, spec_read_header, Header, SIGNATURE};
use crate::table::{read_track_table, spec_read_track_table, TrackInfo};
use crate::track::{
    read_tracks, spec_read_track, spec_read_tracks, spec_track_views, Track, TrackView,
};
use vstd::prelude::*;

verus! {

/// A decoded image.
#[derive(Debug, PartialEq, Eq)]
pub struct Disk {
    pub header: Header,
    /// The records of the track table, in file order.
    pub track_info: Vec<TrackInfo>,
    /// The tracks, one per record of the track table and in the same order.
    pub tracks: Vec<Track>,
}

/// What an image holds.
pub struct DiskView {
    pub header: Header,
    pub track_info: Seq<TrackInfo>,
    pub tracks: Seq<TrackView>,
}

impl View for Disk {
    type V = DiskView;

    open spec fn view(&self) -> DiskView {
        DiskView {
            header: self.header,
            track_info: self.track_info@,
            tracks: spec_track_views(self.tracks@),
        }
    }
}

/// The image that `buf` holds: the header at position 0, then the track
/// table of `header.tracks` records at `header.spec_table_start()`, then the
/// track of each record. The first of these steps to fail gives the failure
/// of the whole.
pub open spec fn spec_read_disk(buf: Seq<u8>) -> Result<DiskView, DecodeError> {
    match spec_read_header(buf, 0) {
        Err(e) => Err(e),
        Ok(header) => match spec_read_track_table(
            buf,
            header.spec_table_start() as int,
            header.tracks as nat,
        ) {
            Err(e) => Err(e),
            Ok(track_info) => match spec_read_tracks(buf, track_info) {
                Err(e) => Err(e),
                Ok(tracks) => Ok(DiskView { header, track_info, tracks }),
            },
        },
    }
}

impl Disk {
    /// Decodes a whole image.
    pub fn read(buf: &[u8]) -> (r: Result<Disk, DecodeError>)
        ensures
            match spec_read_disk(buf@) {
                Ok(view) => r matches Ok(disk) && disk@ == view,
                Err(e) => r == Err::<Disk, DecodeError>(e),
            },
    {
        let (header, _) = Header::read(buf, 0)?;
        let (track_info, _) = read_track_table(
            buf,
            header.table_start(),
            header.tracks as usize,
        )?;
        let tracks = read_tracks(buf, track_info.as_slice())?;
        Ok(Disk { header, track_info, tracks })
    }
}

/// A decoded image has as many records and as many tracks as its header
/// counts, and track `i` is the track of record `i`: it owns a copy of that
/// record and the whole blocks of its data.
pub proof fn lemma_disk_shape(buf: Seq<u8>)
    requires
        spec_read_disk(buf) is Ok,
    ensures
        ({
            let disk = spec_read_disk(buf)->Ok_0;
            &&& spec_read_header(buf, 0) == Ok::<Header, DecodeError>(disk.header)
            &&& disk.track_info.len() == disk.header.tracks
            &&& disk.tracks.len() == disk.header.tracks
            &&& forall|i: int|
                0 <= i < disk.header.tracks ==> spec_read_track(buf, disk.track_info[i]) == Ok::<
                    TrackView,
                    DecodeError,
                >(#[trigger] disk.tracks[i])
        }),
{
}

/// An image that does not open with the signature decodes to `BadMagic`,
/// whatever the rest of it holds.
pub proof fn lemma_disk_wrong_signature(buf: Seq<u8>)
    requires
        8 <= buf.len(),
        buf.subrange(0, 8) != SIGNATURE@,
    ensures
        spec_read_disk(buf) == Err::<DiskView, DecodeError>(DecodeError::BadMagic),
{
}

/// Changing any one byte of the signature of an image makes its decoding
/// fail with `BadMagic`.
pub proof fn lemma_disk_corrupted_signature(buf: Seq<u8>, i: int, b: u8)
    requires
        8 <= buf.len(),
        has_signature(buf, 0),
        0 <= i < 8,
        b != buf[i],
    ensures
        spec_read_disk(buf.update(i, b)) == Err::<DiskView, DecodeError>(DecodeError::BadMagic),
{
    crate::header::lemma_corrupted_signature(buf, 0, i, b);
}

} // verus!
