use hfe::block::{BLOCK_SIZE, SIDE_SAMPLES, SIDE_SIZE};
use hfe::{mfm_decode_byte, read_blocks, read_tracks, DecodeError, Track, TrackBlock, TrackInfo};

/// The bytes of one block whose sample `j` of side 0 is `seed + j` and whose
/// sample `j` of side 1 is `!(seed + j)`.
fn block_bytes(seed: u16) -> Vec<u8> {
    let mut bytes = Vec::with_capacity(1024);
    for j in 0..256u16 {
        bytes.extend_from_slice(&seed.wrapping_add(j).to_le_bytes());
    }
    for j in 0..256u16 {
        bytes.extend_from_slice(&(!seed.wrapping_add(j)).to_le_bytes());
    }
    bytes
}

fn side_0_of(seed: u16) -> Vec<u16> {
    (0..256u16).map(|j| seed.wrapping_add(j)).collect()
}

fn side_1_of(seed: u16) -> Vec<u16> {
    (0..256u16).map(|j| !seed.wrapping_add(j)).collect()
}

/// An image of `sectors` empty sectors followed by the given blocks.
fn image_with_blocks(sectors: usize, seeds: &[u16]) -> Vec<u8> {
    let mut image = vec![0x5Au8; sectors * 512];
    for seed in seeds {
        image.extend_from_slice(&block_bytes(*seed));
    }
    image
}

#[test]
fn block_sizes() {
    assert_eq!(SIDE_SAMPLES, 256);
    assert_eq!(SIDE_SIZE, 512);
    assert_eq!(BLOCK_SIZE, 1024);
}

#[test]
fn block_holds_side_0_then_side_1() {
    let bytes = block_bytes(0x1234);
    let (block, end) = TrackBlock::read(&bytes, 0).unwrap();
    assert_eq!(end, 1024);
    assert_eq!(block.side_0(), side_0_of(0x1234).as_slice());
    assert_eq!(block.side_1(), side_1_of(0x1234).as_slice());
    assert_eq!(block.side_0()[0], 0x1234);
    assert_eq!(block.side_0()[255], 0x1333);
    assert_eq!(block.side_1()[0], 0xEDCB);
}

#[test]
fn block_samples_are_little_endian() {
    let mut bytes = vec![0u8; 1024];
    bytes[0] = 0x01;
    bytes[1] = 0x80;
    bytes[510] = 0xFF;
    bytes[512] = 0x22;
    bytes[513] = 0x11;
    bytes[1023] = 0x7F;
    let (block, _) = TrackBlock::read(&bytes, 0).unwrap();
    assert_eq!(block.side_0()[0], 0x8001);
    assert_eq!(block.side_0()[255], 0x00FF);
    assert_eq!(block.side_1()[0], 0x1122);
    assert_eq!(block.side_1()[255], 0x7F00);
    assert_eq!(block.side_0().len(), 256);
    assert_eq!(block.side_1().len(), 256);
}

#[test]
fn block_at_a_later_position() {
    let mut bytes = vec![0xFFu8; 3];
    bytes.extend_from_slice(&block_bytes(7));
    bytes.extend_from_slice(&[0xFF; 5]);
    let (block, end) = TrackBlock::read(&bytes, 3).unwrap();
    assert_eq!(end, 1027);
    assert_eq!(block.side_0(), side_0_of(7).as_slice());
    assert_eq!(block.side_1(), side_1_of(7).as_slice());
}

#[test]
fn block_short_of_bytes_is_truncated() {
    let bytes = block_bytes(1);
    for len in [0usize, 1, 2, 511, 512, 513, 1022, 1023] {
        assert_eq!(TrackBlock::read(&bytes[..len], 0), Err(DecodeError::TruncatedBlock));
    }
    assert_eq!(TrackBlock::read(&bytes, 1), Err(DecodeError::TruncatedBlock));
    assert_eq!(TrackBlock::read(&bytes, 1024), Err(DecodeError::TruncatedBlock));
    assert_eq!(TrackBlock::read(&bytes, usize::MAX), Err(DecodeError::TruncatedBlock));
}

#[test]
fn decoded_sides_follow_the_sample_decoder() {
    let bytes = block_bytes(0x4000);
    let (block, _) = TrackBlock::read(&bytes, 0).unwrap();
    let side_0 = block.decode_side_0();
    let side_1 = block.decode_side_1();
    assert_eq!(side_0.len(), 256);
    assert_eq!(side_1.len(), 256);
    for j in 0..256 {
        assert_eq!(side_0[j], mfm_decode_byte(&block.side_0()[j]));
        assert_eq!(side_1[j], mfm_decode_byte(&block.side_1()[j]));
    }
    assert_eq!(side_0[0], 0x80);
    assert_eq!(side_0[0x40], 0x8C);
    assert_eq!(side_1[0], 0x3F);
}

#[test]
fn block_count_is_whole_blocks_only() {
    for (length, count) in
        [(0u16, 0usize), (1, 0), (1023, 0), (1024, 1), (1025, 1), (2047, 1), (2048, 2), (65535, 63)]
    {
        assert_eq!(TrackInfo { offset: 9, length }.block_count(), count, "length {}", length);
    }
}

#[test]
fn length_1024_reads_exactly_one_block() {
    let image = image_with_blocks(2, &[10, 20]);
    let blocks = read_blocks(&image, &TrackInfo { offset: 2, length: 1024 }).unwrap();
    assert_eq!(blocks.len(), 1);
    assert_eq!(blocks[0].side_0(), side_0_of(10).as_slice());
    assert_eq!(blocks[0].side_1(), side_1_of(10).as_slice());
}

#[test]
fn length_1025_still_reads_exactly_one_block() {
    let mut image = image_with_blocks(2, &[10]);
    image.push(0xEE);
    let blocks = read_blocks(&image, &TrackInfo { offset: 2, length: 1025 }).unwrap();
    assert_eq!(blocks.len(), 1);
    assert_eq!(blocks[0].side_0(), side_0_of(10).as_slice());
    assert_eq!(blocks[0].side_1(), side_1_of(10).as_slice());
}

#[test]
fn length_1025_needs_no_byte_after_the_block() {
    let image = image_with_blocks(2, &[10]);
    assert_eq!(image.len(), 2048);
    let blocks = read_blocks(&image, &TrackInfo { offset: 2, length: 1025 }).unwrap();
    assert_eq!(blocks.len(), 1);
    let image = image_with_blocks(2, &[10, 20]);
    let blocks = read_blocks(&image, &TrackInfo { offset: 2, length: 2047 }).unwrap();
    assert_eq!(blocks.len(), 1);
}

#[test]
fn length_below_one_block_reads_nothing() {
    let image = image_with_blocks(2, &[10]);
    assert_eq!(read_blocks(&image, &TrackInfo { offset: 2, length: 0 }), Ok(vec![]));
    assert_eq!(read_blocks(&image, &TrackInfo { offset: 2, length: 1023 }), Ok(vec![]));
    assert_eq!(read_blocks(&image, &TrackInfo { offset: 0xFFFF, length: 1023 }), Ok(vec![]));
    assert_eq!(read_blocks(&[], &TrackInfo { offset: 1, length: 0 }), Ok(vec![]));
}

#[test]
fn blocks_come_in_file_order() {
    let image = image_with_blocks(3, &[100, 200, 300, 400]);
    let blocks = read_blocks(&image, &TrackInfo { offset: 3, length: 3 * 1024 }).unwrap();
    assert_eq!(blocks.len(), 3);
    for (k, seed) in [100u16, 200, 300].into_iter().enumerate() {
        assert_eq!(blocks[k].side_0(), side_0_of(seed).as_slice());
        assert_eq!(blocks[k].side_1(), side_1_of(seed).as_slice());
    }
    let blocks = read_blocks(&image, &TrackInfo { offset: 5, length: 2 * 1024 }).unwrap();
    assert_eq!(blocks.len(), 2);
    assert_eq!(blocks[0].side_0(), side_0_of(200).as_slice());
    assert_eq!(blocks[1].side_0(), side_0_of(300).as_slice());
}

#[test]
fn image_that_ends_inside_a_block_is_truncated() {
    let image = image_with_blocks(2, &[10, 20]);
    assert_eq!(
        read_blocks(&image, &TrackInfo { offset: 2, length: 3 * 1024 }),
        Err(DecodeError::TruncatedBlock)
    );
    assert_eq!(
        read_blocks(&image[..image.len() - 1], &TrackInfo { offset: 2, length: 2048 }),
        Err(DecodeError::TruncatedBlock)
    );
    assert_eq!(
        read_blocks(&image, &TrackInfo { offset: 3, length: 2048 }),
        Err(DecodeError::TruncatedBlock)
    );
    assert_eq!(
        read_blocks(&image, &TrackInfo { offset: 0xFFFF, length: 1024 }),
        Err(DecodeError::TruncatedBlock)
    );
}

#[test]
fn track_owns_its_record_and_blocks() {
    let image = image_with_blocks(2, &[10, 20]);
    let info = TrackInfo { offset: 2, length: 2048 };
    let track = Track::read(&image, info).unwrap();
    assert_eq!(track.info, info);
    assert_eq!(track.blocks.len(), 2);
    assert_eq!(track.blocks[1].side_1(), side_1_of(20).as_slice());
    assert_eq!(
        Track::read(&image, TrackInfo { offset: 2, length: 4096 }),
        Err(DecodeError::TruncatedBlock)
    );
}

#[test]
fn tracks_follow_the_table() {
    let image = image_with_blocks(2, &[10, 20, 30]);
    let table = [
        TrackInfo { offset: 4, length: 2048 },
        TrackInfo { offset: 2, length: 1024 },
        TrackInfo { offset: 2, length: 100 },
        TrackInfo { offset: 6, length: 1030 },
    ];
    let tracks = read_tracks(&image, &table).unwrap();
    assert_eq!(tracks.len(), 4);
    for i in 0..4 {
        assert_eq!(tracks[i].info, table[i]);
    }
    assert_eq!(tracks[0].blocks.len(), 2);
    assert_eq!(tracks[0].blocks[0].side_0(), side_0_of(20).as_slice());
    assert_eq!(tracks[0].blocks[1].side_0(), side_0_of(30).as_slice());
    assert_eq!(tracks[1].blocks.len(), 1);
    assert_eq!(tracks[1].blocks[0].side_0(), side_0_of(10).as_slice());
    assert_eq!(tracks[2].blocks.len(), 0);
    assert_eq!(tracks[3].blocks.len(), 1);
    assert_eq!(tracks[3].blocks[0].side_1(), side_1_of(30).as_slice());
}

#[test]
fn tracks_of_an_empty_table() {
    assert_eq!(read_tracks(&[], &[]), Ok(vec![]));
}

#[test]
fn one_truncated_track_fails_them_all() {
    let image = image_with_blocks(2, &[10, 20]);
    let table = [
        TrackInfo { offset: 2, length: 1024 },
        TrackInfo { offset: 4, length: 2048 },
        TrackInfo { offset: 2, length: 1024 },
    ];
    assert_eq!(read_tracks(&image, &table), Err(DecodeError::TruncatedBlock));
}
