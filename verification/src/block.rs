//! Blocks of raw flux samples.

use crate::bytes::{lemma_len_fits, read_u16_le, u16_le};
use crate::error::DecodeError;
use crate::flux::{mfm_decode_byte, spec_mfm_decode_byte};
use vstd::prelude::*;

verus! {

/// Number of samples that a block holds for each side.
pub const SIDE_SAMPLES: usize = 256;

/// Number of bytes that the samples of one side take in a block.
pub const SIDE_SIZE: usize = 512;

/// Number of bytes that a block takes.
pub const BLOCK_SIZE: usize = 1024;

/// What a block holds: the samples of side 0 and those of side 1, each in
/// file order.
pub struct BlockSamples {
    pub side_0: Seq<u16>,
    pub side_1: Seq<u16>,
}

/// One block of a track: 256 raw samples of side 0, then 256 of side 1.
#[derive(Debug, PartialEq, Eq)]
pub struct TrackBlock {
    side_0: Vec<u16>,
    side_1: Vec<u16>,
}

/// The `SIDE_SAMPLES` little-endian 16-bit values that lie one after the
/// other from `pos` on.
pub open spec fn spec_samples_at(buf: Seq<u8>, pos: int) -> Seq<u16> {
    Seq::new(SIDE_SAMPLES as nat, |j: int| u16_le(buf[pos + 2 * j], buf[pos + 2 * j + 1]))
}

/// The block held by the `BLOCK_SIZE` bytes at `pos`: the samples of side 0
/// in the first half, those of side 1 in the second.
pub open spec fn spec_block_at(buf: Seq<u8>, pos: int) -> BlockSamples {
    BlockSamples {
        side_0: spec_samples_at(buf, pos),
        side_1: spec_samples_at(buf, pos + SIDE_SIZE),
    }
}

/// The block at `pos`, or `TruncatedBlock` where the image ends before the
/// block does.
pub open spec fn spec_read_block(buf: Seq<u8>, pos: int) -> Result<BlockSamples, DecodeError> {
    if 0 <= pos && pos + BLOCK_SIZE <= buf.len() {
        Ok(spec_block_at(buf, pos))
    } else {
        Err(DecodeError::TruncatedBlock)
    }
}

/// The decoded value of every sample of `samples`, in order.
pub open spec fn spec_decode_samples(samples: Seq<u16>) -> Seq<u8> {
    Seq::new(samples.len(), |j: int| spec_mfm_decode_byte(samples[j]))
}

/// Reads the samples of one side.
fn read_samples(buf: &[u8], pos: usize) -> (r: Result<Vec<u16>, DecodeError>)
    ensures
        match r {
            Ok(samples) => pos + SIDE_SIZE <= buf@.len() && samples@ == spec_samples_at(
                buf@,
                pos as int,
            ),
            Err(e) => pos + SIDE_SIZE > buf@.len() && e == DecodeError::TruncatedBlock,
        },
{
    let mut samples: Vec<u16> = Vec::new();
    let mut at: usize = pos;
    let mut j: usize = 0;
    while j < SIDE_SAMPLES
        invariant
            j <= SIDE_SAMPLES,
            at == pos + 2 * j,
            j > 0 ==> at <= buf.len(),
            samples@.len() == j,
            forall|k: int|
                0 <= k < j ==> samples@[k] == u16_le(buf@[pos + 2 * k], buf@[pos + 2 * k + 1]),
        decreases SIDE_SAMPLES - j,
    {
        match read_u16_le(buf, at) {
            Some(sample) => {
                samples.push(sample);
            },
            None => {
                return Err(DecodeError::TruncatedBlock);
            },
        }
        proof {
            lemma_len_fits(buf);
        }
        at += 2;
        j += 1;
    }
    proof {
        lemma_len_fits(buf);
        assert(samples@ =~= spec_samples_at(buf@, pos as int));
    }
    Ok(samples)
}

/// Decodes every sample of one side.
fn decode_samples(samples: &Vec<u16>) -> (decoded: Vec<u8>)
    ensures
        decoded@ == spec_decode_samples(samples@),
{
    let mut decoded: Vec<u8> = Vec::new();
    let mut j: usize = 0;
    while j < samples.len()
        invariant
            j <= samples@.len(),
            decoded@.len() == j,
            forall|k: int| 0 <= k < j ==> decoded@[k] == spec_mfm_decode_byte(samples@[k]),
        decreases samples@.len() - j,
    {
        decoded.push(mfm_decode_byte(&samples[j]));
        j += 1;
    }
    assert(decoded@ =~= spec_decode_samples(samples@));
    decoded
}

impl View for TrackBlock {
    type V = BlockSamples;

    closed spec fn view(&self) -> BlockSamples {
        BlockSamples { side_0: self.side_0@, side_1: self.side_1@ }
    }
}

impl TrackBlock {
    /// Each side of a block holds `SIDE_SAMPLES` samples.
    #[verifier::type_invariant]
    spec fn well_formed(&self) -> bool {
        self.side_0@.len() == SIDE_SAMPLES && self.side_1@.len() == SIDE_SAMPLES
    }

    /// Decodes the block at `pos` and returns it with the position of the
    /// byte after it.
    pub fn read(buf: &[u8], pos: usize) -> (r: Result<(TrackBlock, usize), DecodeError>)
        ensures
            match spec_read_block(buf@, pos as int) {
                Ok(samples) => r matches Ok((block, end)) && block@ == samples && end == pos
                    + BLOCK_SIZE,
                Err(e) => r == Err::<(TrackBlock, usize), DecodeError>(e),
            },
    {
        let side_0 = read_samples(buf, pos)?;
        proof {
            lemma_len_fits(buf);
        }
        let side_1 = read_samples(buf, pos + SIDE_SIZE)?;
        Ok((TrackBlock { side_0, side_1 }, pos + BLOCK_SIZE))
    }

    /// The raw samples of side 0, in file order.
    pub fn side_0(&self) -> (samples: &[u16])
        ensures
            samples@ == self@.side_0,
            samples@.len() == SIDE_SAMPLES,
    {
        proof {
            use_type_invariant(self);
        }
        self.side_0.as_slice()
    }

    /// The raw samples of side 1, in file order.
    pub fn side_1(&self) -> (samples: &[u16])
        ensures
            samples@ == self@.side_1,
            samples@.len() == SIDE_SAMPLES,
    {
        proof {
            use_type_invariant(self);
        }
        self.side_1.as_slice()
    }

    /// The decoded value of every sample of side 0, in file order.
    pub fn decode_side_0(&self) -> (decoded: Vec<u8>)
        ensures
            decoded@ == spec_decode_samples(self@.side_0),
            decoded@.len() == SIDE_SAMPLES,
    {
        proof {
            use_type_invariant(self);
        }
        decode_samples(&self.side_0)
    }

    /// The decoded value of every sample of side 1, in file order.
    pub fn decode_side_1(&self) -> (decoded: Vec<u8>)
        ensures
            decoded@ == spec_decode_samples(self@.side_1),
            decoded@.len() == SIDE_SAMPLES,
    {
        proof {
            use_type_invariant(self);
        }
        decode_samples(&self.side_1)
    }
}

} // verus!
