use mp3dec::header::FrameHeader;
use mp3dec::side_info::{Block, Granule, SideInfo};
use mp3dec::DecodingError;

/// A 64-bit granule window with window switching set and the given 2-bit
/// block type; every other field zero.
fn window_with_block_type(block_type: u64) -> u64 {
    // Bit 33 from the MSB is the window-switching flag, bits 34..36 the
    // block type.
    (1u64 << 30) | (block_type << 28)
}

#[test]
fn test_mono_side_info() {
    let header = FrameHeader::read(b"\xFF\xFB\x10\xC4").unwrap();
    //                                    <-     common     ->      <- granule0...
    let mono_common = u32::to_be_bytes(0b_000000000_00000_0000______00000000000000);
    //common->   <-           granule0: Spans 59 bits: 18..77.                                ->     <- granule1...
    let mono_granule0 = u64::to_be_bytes(
        0b00_____001100010010_000010000_10101010_1010_1___01_0__11000_00000__000_000_000___1_0_0_____000,
    );
    //granule0->    <-        granule1: Spans 59 bits: 77..136.                                  ->
    let mono_granule1 = u64::to_be_bytes(
        0b00000_____010000110110_001010101_10100110_1111_1___10_0__11110_10000__000_010_000___0_0_0,
    );

    let mut mono_side_info = [0; 17];
    mono_side_info[0..4].copy_from_slice(&mono_common);
    mono_side_info[2..10].copy_from_slice(&mono_granule0);
    mono_side_info[9..17].copy_from_slice(&mono_granule1);

    // OR the overlapping bits
    mono_side_info[2..4].copy_from_slice(&[
        mono_common[2] | mono_granule0[0],
        mono_common[3] | mono_granule0[1],
    ]);
    mono_side_info[9..10].copy_from_slice(&[mono_granule0[7] | mono_granule1[0]]);

    assert_eq!(
        &mono_side_info,
        b"\x00\x00\x0C\x48\x21\x55\x55\x80\x00\x22\x1B\x15\x69\xBF\x3D\x00\x80"
    );

    let side_info = SideInfo::read(&header, &mono_side_info).unwrap();

    assert_eq!(
        side_info,
        SideInfo {
            main_data_begin: 0,
            private_bits: 0,
            share: 0,
            granule0: Granule {
                part2_3_len: 0b1100010010,
                big_values: 0b10000,
                global_gain: 0b10101010,
                scalefac_compress: 0b1010,
                window_switching: true,
                block: Block::Abnormal {
                    block_type: 1,
                    mixed_block_flag: false,
                    table_select: [0b11000, 0],
                    subblock_gain: [0, 0, 0]
                },
                preflag: true,
                scalefac_scale: false,
                count1table_select: false,
            },
            granule1: Granule {
                part2_3_len: 0b10000110110,
                big_values: 0b1010101,
                global_gain: 0b10100110,
                scalefac_compress: 0b1111,
                window_switching: true,
                block: Block::Abnormal {
                    block_type: 2,
                    mixed_block_flag: false,
                    table_select: [0b11110, 0b10000],
                    subblock_gain: [0, 0b10, 0]
                },
                preflag: false,
                scalefac_scale: false,
                count1table_select: false,
            }
        }
    );
}

#[test]
fn test_side_info_idempotent() {
    let header = FrameHeader::read(b"\xFF\xFB\x10\xC4").unwrap();
    let bytes = b"\x00\x00\x0C\x48\x21\x55\x55\x80\x00\x22\x1B\x15\x69\xBF\x3D\x00\x80";
    let first = SideInfo::read(&header, bytes).unwrap();
    let second = SideInfo::read(&header, bytes).unwrap();
    assert_eq!(first, second);
}

#[test]
fn test_side_info_too_short() {
    let header = FrameHeader::read(b"\xFF\xFB\x10\xC4").unwrap();
    let bytes = [0u8; 16];
    assert_eq!(
        SideInfo::read(&header, &bytes),
        Err(DecodingError::UnexpectedEndOfStream)
    );
}

#[test]
fn test_side_info_stereo_unsupported() {
    // Channel mode 00 (stereo): the stereo layout is not decoded.
    let header = FrameHeader::read(b"\xFF\xFB\x90\x04").unwrap();
    let bytes = [0u8; 32];
    assert_eq!(
        SideInfo::read(&header, &bytes),
        Err(DecodingError::UnsupportedChannelMode)
    );
}

#[test]
fn test_invalid_block_type() {
    // Window switching with block type 0 is the one reserved combination.
    assert_eq!(
        Granule::read(window_with_block_type(0)),
        Err(DecodingError::InvalidBlockType)
    );

    // Block types 1, 2 and 3 decode.
    for block_type in 1..=3u64 {
        let granule = Granule::read(window_with_block_type(block_type)).unwrap();
        assert!(granule.window_switching);
        match granule.block {
            Block::Abnormal { block_type: decoded, .. } => {
                assert_eq!(decoded as u64, block_type)
            }
            Block::Normal { .. } => panic!("expected the window-switching layout"),
        }
    }

    // Without window switching the block type bits are normal-layout fields.
    let granule = Granule::read(0).unwrap();
    assert!(!granule.window_switching);
    assert_eq!(
        granule.block,
        Block::Normal { table_select: [0, 0, 0], region0_count: 0, region1_count: 0 }
    );
}
