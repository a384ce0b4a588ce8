//! Side-information decoding: the per-frame block of bit-reservoir pointer
//! and per-granule coding parameters whose byte length and internal layout
//! depend on the channel mode.
//!
//! Each granule record is 59 bits wide and not byte-aligned: granule 0
//! occupies bits 18..77 of the side-info bit stream and granule 1 bits
//! 77..136, so both are decoded out of overlapping 8-byte windows that are
//! shifted and masked until the 59 meaningful bits start at bit 0.

use vstd::arithmetic::power2::lemma2_to64;
use vstd::prelude::*;

use crate::header::{ChannelMode, FrameHeader};
use crate::{be_u64, extracted_bits, extracted_bits32, read_bits, read_bits_u32, read_u32, read_u64,
    DecodingError};

verus! {

/// The per-granule block layout, selected by the window-switching flag: the
/// two variants are mutually exclusive, not overlapping optional fields.
#[derive(Debug, Clone, PartialEq, Eq)]
pub enum Block {
    /// The layout when window switching is off.
    Normal { table_select: [u8; 3], region0_count: u8, region1_count: u8 },
    /// The layout when window switching is on; block type zero is reserved.
    Abnormal {
        block_type: u8,
        mixed_block_flag: bool,
        table_select: [u8; 2],
        subblock_gain: [u8; 3],
    },
}

/// One granule's coding parameters, decoded from a 64-bit window whose top 59
/// bits are the granule's bit-packed fields.
#[derive(Debug, Clone, PartialEq, Eq)]
pub struct Granule {
    pub part2_3_len: u16,
    pub big_values: u16,
    pub global_gain: u8,
    pub scalefac_compress: u8,
    pub window_switching: bool,
    pub block: Block,
    pub preflag: bool,
    pub scalefac_scale: bool,
    pub count1table_select: bool,
}

/// The window-switching flag bit of a granule window.
pub open spec fn window_switching_bit(w: u64) -> u64 {
    extracted_bits(w, 33, 34)
}

/// The 2-bit block-type field of a granule window, meaningful only under
/// window switching.
pub open spec fn block_type_code(w: u64) -> u64 {
    extracted_bits(w, 34, 36)
}

/// What decoding the block part of the granule window `w` yields.
pub open spec fn spec_block(w: u64) -> Result<Block, DecodingError> {
    if window_switching_bit(w) == 1 {
        if block_type_code(w) == 0 {
            Err(DecodingError::InvalidBlockType)
        } else {
            Ok(
                Block::Abnormal {
                    block_type: block_type_code(w) as u8,
                    mixed_block_flag: extracted_bits(w, 36, 37) == 1,
                    table_select: [
                        extracted_bits(w, 37, 42) as u8,
                        extracted_bits(w, 42, 47) as u8,
                    ],
                    subblock_gain: [
                        extracted_bits(w, 47, 50) as u8,
                        extracted_bits(w, 50, 53) as u8,
                        extracted_bits(w, 53, 56) as u8,
                    ],
                },
            )
        }
    } else {
        Ok(
            Block::Normal {
                table_select: [
                    extracted_bits(w, 34, 39) as u8,
                    extracted_bits(w, 39, 44) as u8,
                    extracted_bits(w, 44, 49) as u8,
                ],
                region0_count: extracted_bits(w, 49, 53) as u8,
                region1_count: extracted_bits(w, 53, 56) as u8,
            },
        )
    }
}

/// What decoding the granule window `w` yields: every fixed-offset field, or
/// `InvalidBlockType` exactly when window switching is on with block type 0.
pub open spec fn spec_granule(w: u64) -> Result<Granule, DecodingError> {
    match spec_block(w) {
        Err(e) => Err(e),
        Ok(block) => Ok(
            Granule {
                part2_3_len: extracted_bits(w, 0, 12) as u16,
                big_values: extracted_bits(w, 12, 21) as u16,
                global_gain: extracted_bits(w, 21, 29) as u8,
                scalefac_compress: extracted_bits(w, 29, 33) as u8,
                window_switching: window_switching_bit(w) == 1,
                block,
                preflag: extracted_bits(w, 56, 57) == 1,
                scalefac_scale: extracted_bits(w, 57, 58) == 1,
                count1table_select: extracted_bits(w, 58, 59) == 1,
            },
        ),
    }
}

/// Law: a granule decode reports `InvalidBlockType` exactly when the window-
/// switching flag is set and the two-bit block-type field is zero; for every
/// other combination (block types 1, 2 and 3, or no window switching) the
/// granule decodes.
pub proof fn lemma_invalid_block_type_iff(w: u64)
    ensures
        (spec_granule(w) == Err::<Granule, DecodingError>(DecodingError::InvalidBlockType)) <==> (
        window_switching_bit(w) == 1 && block_type_code(w) == 0),
        (spec_granule(w) is Ok) <==> !(window_switching_bit(w) == 1 && block_type_code(w) == 0),
{
}

/// Law: side-info decoding is a function of the header and bytes alone, so
/// decoding the same input twice yields identical structures; both decode
/// results of `SideInfo::read` equal `spec_side_info` of its inputs.
pub proof fn lemma_side_info_decode_deterministic(
    header: FrameHeader,
    frame_data: Seq<u8>,
    r1: Result<SideInfo, DecodingError>,
    r2: Result<SideInfo, DecodingError>,
)
    requires
        r1 == spec_side_info(header, frame_data),
        r2 == spec_side_info(header, frame_data),
    ensures
        r1 == r2,
{
}

impl Block {
    /// Decodes the block fields read when window switching is off.
    fn read_normal(data: u64) -> (r: Result<Self, DecodingError>)
        requires
            window_switching_bit(data) != 1,
        ensures
            r == spec_block(data),
    {
        proof {
            lemma2_to64();
        }
        let table0 = read_bits(data, 34..39) as u8;
        let table1 = read_bits(data, 39..44) as u8;
        let table2 = read_bits(data, 44..49) as u8;
        let table_select = [table0, table1, table2];
        let region0_count = read_bits(data, 49..53) as u8;
        let region1_count = read_bits(data, 53..56) as u8;
        Ok(Block::Normal { table_select, region0_count, region1_count })
    }

    /// Decodes the block fields read when window switching is on; block type
    /// zero is a reserved combination and rejected.
    fn read_abnormal(data: u64) -> (r: Result<Self, DecodingError>)
        requires
            window_switching_bit(data) == 1,
        ensures
            r == spec_block(data),
    {
        proof {
            lemma2_to64();
        }
        let block_type = read_bits(data, 34..36) as u8;
        if block_type == 0 {
            return Err(DecodingError::InvalidBlockType);
        }
        let mixed_block_flag = read_bits(data, 36..37) == 1;
        let region0_table = read_bits(data, 37..42) as u8;
        let region1_table = read_bits(data, 42..47) as u8;
        let table_select = [region0_table, region1_table];
        let subblock0_gain = read_bits(data, 47..50) as u8;
        let subblock1_gain = read_bits(data, 50..53) as u8;
        let subblock2_gain = read_bits(data, 53..56) as u8;
        let subblock_gain = [subblock0_gain, subblock1_gain, subblock2_gain];
        Ok(Block::Abnormal { block_type, mixed_block_flag, table_select, subblock_gain })
    }
}

impl Granule {
    /// Decodes one granule from a 64-bit window whose top 59 bits are the
    /// granule's bit-packed fields, left-justified at bit 0.
    pub fn read(data: u64) -> (r: Result<Self, DecodingError>)
        ensures
            r == spec_granule(data),
    {
        proof {
            lemma2_to64();
        }
        let part2_3_len = read_bits(data, 0..12) as u16;
        let big_values = read_bits(data, 12..21) as u16;
        let global_gain = read_bits(data, 21..29) as u8;
        let scalefac_compress = read_bits(data, 29..33) as u8;
        let window_switching = read_bits(data, 33..34) == 1;

        let block = if window_switching {
            match Block::read_abnormal(data) {
                Ok(b) => b,
                Err(e) => {
                    return Err(e);
                },
            }
        } else {
            match Block::read_normal(data) {
                Ok(b) => b,
                Err(e) => {
                    return Err(e);
                },
            }
        };
        let preflag = read_bits(data, 56..57) == 1;
        let scalefac_scale = read_bits(data, 57..58) == 1;
        let count1table_select = read_bits(data, 58..59) == 1;

        Ok(
            Granule {
                part2_3_len,
                big_values,
                global_gain,
                scalefac_compress,
                window_switching,
                preflag,
                scalefac_scale,
                count1table_select,
                block,
            },
        )
    }
}

/// One frame's side information: the bit-reservoir pointer and the granule
/// records, immutable once decoded.
#[derive(Debug, Clone, PartialEq, Eq)]
pub struct SideInfo {
    /// 9-bit backward offset in bytes into the shared bit reservoir where
    /// this frame's main data begins.
    pub main_data_begin: u16,
    pub private_bits: u8,
    /// The scale-factor share flags of the two granules.
    pub share: u8,
    pub granule0: Granule,
    pub granule1: Granule,
}

/// The byte length of the side-info block for a channel mode: 17 for mono,
/// 32 otherwise.
pub open spec fn spec_side_info_len(header: FrameHeader) -> int {
    if header.channel_mode == ChannelMode::Mono {
        17
    } else {
        32
    }
}

/// Granule 0's 64-bit window: the 8 bytes starting at byte offset 2, with the
/// 5 low bits belonging to granule 1 masked off and the 2 leading common bits
/// shifted out, so the granule's 59 bits start at bit 0.
pub open spec fn granule0_window(s: Seq<u8>) -> u64 {
    (be_u64(s.subrange(2, 10)) << 2u64) & (0xffff_ffff_ffff_ffffu64 << 5u64)
}

/// Granule 1's 64-bit window: the 8 bytes starting at byte offset 9, with the
/// 5 leading bits belonging to granule 0 shifted out.
pub open spec fn granule1_window(s: Seq<u8>) -> u64 {
    be_u64(s.subrange(9, 17)) << 5u64
}

/// What decoding a mono side-info block from the first 17 bytes of `s`
/// yields.
pub open spec fn spec_side_info_mono(s: Seq<u8>) -> Result<SideInfo, DecodingError>
    recommends
        s.len() >= 17,
{
    let common = crate::be_u32(s);
    match (spec_granule(granule0_window(s)), spec_granule(granule1_window(s))) {
        (Ok(g0), Ok(g1)) => Ok(
            SideInfo {
                main_data_begin: extracted_bits32(common, 0, 9) as u16,
                private_bits: extracted_bits32(common, 9, 14) as u8,
                share: extracted_bits32(common, 14, 18) as u8,
                granule0: g0,
                granule1: g1,
            },
        ),
        (Err(e), _) => Err(e),
        (Ok(_), Err(e)) => Err(e),
    }
}

/// What decoding side information for `header` from the front of `frame_data`
/// yields: only the mono layout is decoded; shorter input than the side-info
/// length is an end-of-stream failure.
pub open spec fn spec_side_info(header: FrameHeader, frame_data: Seq<u8>) -> Result<
    SideInfo,
    DecodingError,
> {
    if header.channel_mode != ChannelMode::Mono {
        Err(DecodingError::UnsupportedChannelMode)
    } else if frame_data.len() < 17 {
        Err(DecodingError::UnexpectedEndOfStream)
    } else {
        spec_side_info_mono(frame_data)
    }
}

impl SideInfo {
    /// The byte length of the side-info block for this header's channel mode.
    pub fn len(header: &FrameHeader) -> (r: usize)
        ensures
            r == spec_side_info_len(*header),
    {
        if header.channel_mode == ChannelMode::Mono {
            17
        } else {
            32
        }
    }

    /// Decodes the mono side-info layout out of a 17-byte block.
    fn read_mono(side_info_bytes: &[u8]) -> (r: Result<Self, DecodingError>)
        requires
            side_info_bytes@.len() >= 17,
        ensures
            r == spec_side_info_mono(side_info_bytes@),
    {
        let mut common_bytes: &[u8] = &side_info_bytes[0..4];
        let common = match read_u32(&mut common_bytes) {
            Ok(v) => v,
            Err(e) => {
                return Err(e);
            },
        };

        proof {
            lemma2_to64();
        }
        let main_data_begin = read_bits_u32(common, 0..9) as u16;
        let private_bits = read_bits_u32(common, 9..14) as u8;
        let share = read_bits_u32(common, 14..18) as u8;

        let mut granule0_bytes: &[u8] = &side_info_bytes[2..10];
        let mut granule1_bytes: &[u8] = &side_info_bytes[9..17];

        let granule0_word = match read_u64(&mut granule0_bytes) {
            Ok(v) => v,
            Err(e) => {
                return Err(e);
            },
        };
        let granule1_word = match read_u64(&mut granule1_bytes) {
            Ok(v) => v,
            Err(e) => {
                return Err(e);
            },
        };
        let granule0_window = (granule0_word << 2u64) & (0xffff_ffff_ffff_ffffu64 << 5u64);
        let granule1_window = granule1_word << 5u64;

        let granule0 = match Granule::read(granule0_window) {
            Ok(g) => g,
            Err(e) => {
                return Err(e);
            },
        };
        let granule1 = match Granule::read(granule1_window) {
            Ok(g) => g,
            Err(e) => {
                return Err(e);
            },
        };

        Ok(SideInfo { main_data_begin, private_bits, share, granule0, granule1 })
    }

    /// Decodes the side information for `header` from the front of
    /// `frame_data` (the frame's bytes just after the header). Only the mono
    /// layout is decoded; input shorter than the side-info length is an
    /// end-of-stream failure.
    pub fn read(header: &FrameHeader, frame_data: &[u8]) -> (r: Result<Self, DecodingError>)
        ensures
            r == spec_side_info(*header, frame_data@),
    {
        if !(header.channel_mode == ChannelMode::Mono) {
            return Err(DecodingError::UnsupportedChannelMode);
        }
        if frame_data.len() < 17 {
            return Err(DecodingError::UnexpectedEndOfStream);
        }
        Self::read_mono(frame_data)
    }
}

} // verus!
