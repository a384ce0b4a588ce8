//! Frame header decoding: sync validation, version/layer/bitrate/sample-rate
//! decoding, and the total frame length computation.

use vstd::arithmetic::div_mod::{lemma_div_is_ordered, lemma_div_is_ordered_by_denominator};
use vstd::prelude::*;

use crate::{be_u16, be_u32, read_u16, read_u32, DecodingError};

verus! {

/// How many audio channels the frame carries, and what inter-channel coding
/// (if any) is used.
#[derive(Debug, Clone, Copy, PartialEq, Eq, Structural)]
pub enum ChannelMode {
    Stereo,
    JointStereo,
    DualChannel,
    Mono,
}

/// The de-emphasis applied to the audio; the fourth two-bit code is reserved.
#[derive(Debug, Clone, Copy, PartialEq, Eq, Structural)]
pub enum Emphasis {
    NoEmphasis,
    FiftyFifteenMs,
    CCITTJ17,
}

/// The MPEG audio version; only MPEG-1 is supported by this decoder.
#[derive(Debug, Clone, Copy, PartialEq, Eq, Structural)]
pub enum Version {
    MPEG1,
    MPEG2,
    MPEG2_5,
}

/// The MPEG audio layer; only Layer III is supported by this decoder.
#[derive(Debug, Clone, Copy, PartialEq, Eq, Structural)]
pub enum Layer {
    LayerI,
    LayerII,
    LayerIII,
}

/// One frame's fixed-size header, immutable once decoded.
#[derive(Debug, Clone, Copy, PartialEq, Eq)]
pub struct FrameHeader {
    pub version: Version,
    pub layer: Layer,
    /// In kbit/s, decoded from the 4-bit code via the MPEG-1 Layer III table.
    pub bitrate: u32,
    /// In Hz, decoded from the 2-bit code via the MPEG-1 table.
    pub sampling_rate: u32,
    /// Present iff the protection bit indicates a CRC; parsed, not validated.
    pub crc: Option<u16>,
    /// Total frame length in bytes, header included.
    pub frame_bytes: usize,
    pub private_bit: bool,
    pub channel_mode: ChannelMode,
    /// Meaningful only when `channel_mode` is `JointStereo`.
    pub intensity_stereo: bool,
    /// Meaningful only when `channel_mode` is `JointStereo`.
    pub ms_stereo: bool,
    pub copyright: bool,
    pub original: bool,
    pub emphasis: Emphasis,
}

/// The 11-bit sync field of a header word.
pub open spec fn sync_code(w: u32) -> u32 {
    w >> 21u32
}

/// The 2-bit version field.
pub open spec fn version_code(w: u32) -> u32 {
    (w >> 19u32) & 0b11u32
}

/// The 2-bit layer field.
pub open spec fn layer_code(w: u32) -> u32 {
    (w >> 17u32) & 0b11u32
}

/// The protection bit; one means no CRC follows the header word.
pub open spec fn no_crc_bit(w: u32) -> u32 {
    (w >> 16u32) & 0b1u32
}

/// The 4-bit bitrate index.
pub open spec fn bitrate_code(w: u32) -> u32 {
    (w >> 12u32) & 0b1111u32
}

/// The 2-bit sampling-rate index.
pub open spec fn sampling_code(w: u32) -> u32 {
    (w >> 10u32) & 0b11u32
}

/// The padding bit; one adds a byte to the frame length.
pub open spec fn padding_bit(w: u32) -> u32 {
    (w >> 9u32) & 0b1u32
}

/// The private bit, an opaque passthrough.
pub open spec fn private_code(w: u32) -> u32 {
    (w >> 8u32) & 0b1u32
}

/// The 2-bit channel-mode field.
pub open spec fn channel_code(w: u32) -> u32 {
    (w >> 6u32) & 0b11u32
}

/// The 2-bit mode-extension field, meaningful only for joint stereo.
pub open spec fn mode_ext_code(w: u32) -> u32 {
    (w >> 4u32) & 0b11u32
}

/// The copyright bit.
pub open spec fn copyright_bit(w: u32) -> u32 {
    (w >> 3u32) & 0b1u32
}

/// The original-media bit.
pub open spec fn original_bit(w: u32) -> u32 {
    (w >> 2u32) & 0b1u32
}

/// The 2-bit emphasis field.
pub open spec fn emphasis_code(w: u32) -> u32 {
    w & 0b11u32
}

/// Bitrate codes 1 through 14 are assigned; 0 (free) and 15 are rejected.
pub open spec fn valid_bitrate_code(code: u32) -> bool {
    1 <= code <= 14
}

/// The MPEG-1 Layer III bitrate table, in kbit/s.
pub open spec fn spec_bitrate(code: u32) -> u32
    recommends
        valid_bitrate_code(code),
{
    if code == 1 {
        32u32
    } else if code == 2 {
        40u32
    } else if code == 3 {
        48u32
    } else if code == 4 {
        56u32
    } else if code == 5 {
        64u32
    } else if code == 6 {
        80u32
    } else if code == 7 {
        96u32
    } else if code == 8 {
        112u32
    } else if code == 9 {
        128u32
    } else if code == 10 {
        160u32
    } else if code == 11 {
        192u32
    } else if code == 12 {
        224u32
    } else if code == 13 {
        256u32
    } else {
        320u32
    }
}

/// Sampling-rate codes 0 through 2 are assigned; 3 is reserved.
pub open spec fn valid_sampling_code(code: u32) -> bool {
    code == 0 || code == 1 || code == 2
}

/// The MPEG-1 sampling-rate table, in Hz.
pub open spec fn spec_sampling_rate(code: u32) -> u32
    recommends
        valid_sampling_code(code),
{
    if code == 0 {
        44100u32
    } else if code == 1 {
        48000u32
    } else {
        32000u32
    }
}

/// Emphasis code 2 is reserved; 0, 1 and 3 are assigned.
pub open spec fn valid_emphasis_code(code: u32) -> bool {
    code == 0 || code == 1 || code == 3
}

/// The emphasis table.
pub open spec fn spec_emphasis(code: u32) -> Emphasis
    recommends
        valid_emphasis_code(code),
{
    if code == 0 {
        Emphasis::NoEmphasis
    } else if code == 1 {
        Emphasis::FiftyFifteenMs
    } else {
        Emphasis::CCITTJ17
    }
}

/// The channel-mode table.
pub open spec fn spec_channel_mode(code: u32) -> ChannelMode {
    if code == 0 {
        ChannelMode::Stereo
    } else if code == 1 {
        ChannelMode::JointStereo
    } else if code == 2 {
        ChannelMode::DualChannel
    } else {
        ChannelMode::Mono
    }
}

/// The joint-stereo sub-mode flags `(intensity_stereo, ms_stereo)`; both are
/// false for every channel mode other than joint stereo.
pub open spec fn spec_stereo_flags(channel_mode: ChannelMode, mode_ext: u32) -> (bool, bool) {
    if channel_mode == ChannelMode::JointStereo {
        if mode_ext == 0 {
            (true, false)
        } else if mode_ext == 1 {
            (false, true)
        } else {
            (false, false)
        }
    } else {
        (false, false)
    }
}

/// The total frame length in bytes: `floor(144000 * bitrate / rate) + padding`
/// (with `bitrate` in kbit/s).
pub open spec fn spec_frame_bytes(bitrate: u32, rate: u32, padding: u32) -> int
    recommends
        rate > 0,
{
    144000int * bitrate / (rate as int) + padding
}

/// The header decoded from the word `w` and the optional CRC value.
pub open spec fn header_from_word(w: u32, crc: Option<u16>) -> FrameHeader {
    FrameHeader {
        version: Version::MPEG1,
        layer: Layer::LayerIII,
        bitrate: spec_bitrate(bitrate_code(w)),
        sampling_rate: spec_sampling_rate(sampling_code(w)),
        crc: crc,
        frame_bytes: spec_frame_bytes(
            spec_bitrate(bitrate_code(w)),
            spec_sampling_rate(sampling_code(w)),
            padding_bit(w),
        ) as usize,
        private_bit: private_code(w) == 1,
        channel_mode: spec_channel_mode(channel_code(w)),
        intensity_stereo: spec_stereo_flags(spec_channel_mode(channel_code(w)), mode_ext_code(w)).0,
        ms_stereo: spec_stereo_flags(spec_channel_mode(channel_code(w)), mode_ext_code(w)).1,
        copyright: copyright_bit(w) == 1,
        original: original_bit(w) == 1,
        emphasis: spec_emphasis(emphasis_code(w)),
    }
}

/// What decoding a frame header from the front of `s` yields: the decoded
/// header, or the first error in validation order (sync, version, layer,
/// CRC availability, bitrate, sampling rate, emphasis).
pub open spec fn spec_frame_header(s: Seq<u8>) -> Result<FrameHeader, DecodingError> {
    if s.len() < 4 {
        Err(DecodingError::UnexpectedEndOfStream)
    } else {
        let w = be_u32(s);
        if sync_code(w) != 0b111_1111_1111u32 {
            Err(DecodingError::InvalidFrameHeader)
        } else if version_code(w) != 0b11u32 {
            Err(DecodingError::UnsupportedVersion)
        } else if layer_code(w) != 0b01u32 {
            Err(DecodingError::UnsupportedLayer)
        } else if no_crc_bit(w) == 0 && s.len() < 6 {
            Err(DecodingError::UnexpectedEndOfStream)
        } else {
            spec_header_from_codes(
                w,
                if no_crc_bit(w) == 0 {
                    Some(be_u16(s.skip(4)))
                } else {
                    None
                },
            )
        }
    }
}

/// What decoding the table-driven fields of the header word `w` yields, once
/// sync, version, layer and CRC availability have been validated.
pub open spec fn spec_header_from_codes(w: u32, crc: Option<u16>) -> Result<
    FrameHeader,
    DecodingError,
> {
    if !valid_bitrate_code(bitrate_code(w)) {
        Err(DecodingError::UnsupportedBitrate)
    } else if !valid_sampling_code(sampling_code(w)) {
        Err(DecodingError::UnsupportedSamplingRate)
    } else if !valid_emphasis_code(emphasis_code(w)) {
        Err(DecodingError::UnsupportedEmphasis)
    } else {
        Ok(header_from_word(w, crc))
    }
}

/// Law: every decoded header's frame length is exactly
/// `floor(144000 * bitrate / sampling_rate) + padding`, with the padding bit
/// taken from the header word.
pub proof fn lemma_frame_bytes_formula(s: Seq<u8>)
    ensures
        spec_frame_header(s) matches Ok(h) ==> h.frame_bytes == spec_frame_bytes(
            h.bitrate,
            h.sampling_rate,
            padding_bit(crate::be_u32(s)),
        ),
{
    match spec_frame_header(s) {
        Ok(h) => {
            let w = crate::be_u32(s);
            assert((w >> 9u32) & 0b1u32 <= 1) by (bit_vector);
            lemma_frame_bytes_bounds(h.bitrate, h.sampling_rate, padding_bit(w));
        },
        Err(_) => {},
    }
}

/// The 4-bit code a bitrate table entry came from.
pub open spec fn code_of_bitrate(bitrate: u32) -> u32 {
    if bitrate == 32 {
        1u32
    } else if bitrate == 40 {
        2u32
    } else if bitrate == 48 {
        3u32
    } else if bitrate == 56 {
        4u32
    } else if bitrate == 64 {
        5u32
    } else if bitrate == 80 {
        6u32
    } else if bitrate == 96 {
        7u32
    } else if bitrate == 112 {
        8u32
    } else if bitrate == 128 {
        9u32
    } else if bitrate == 160 {
        10u32
    } else if bitrate == 192 {
        11u32
    } else if bitrate == 224 {
        12u32
    } else if bitrate == 256 {
        13u32
    } else {
        14u32
    }
}

/// The 2-bit code a sampling-rate table entry came from.
pub open spec fn code_of_sampling_rate(rate: u32) -> u32 {
    if rate == 44100 {
        0u32
    } else if rate == 48000 {
        1u32
    } else {
        2u32
    }
}

/// The 2-bit code an emphasis value came from.
pub open spec fn code_of_emphasis(emphasis: Emphasis) -> u32 {
    match emphasis {
        Emphasis::NoEmphasis => 0u32,
        Emphasis::FiftyFifteenMs => 1u32,
        Emphasis::CCITTJ17 => 3u32,
    }
}

/// The 2-bit code a channel mode came from.
pub open spec fn code_of_channel_mode(channel_mode: ChannelMode) -> u32 {
    match channel_mode {
        ChannelMode::Stereo => 0u32,
        ChannelMode::JointStereo => 1u32,
        ChannelMode::DualChannel => 2u32,
        ChannelMode::Mono => 3u32,
    }
}

/// A boolean header flag as the header-word bit it came from.
pub open spec fn encode_bit(flag: bool) -> u32 {
    if flag {
        1u32
    } else {
        0u32
    }
}

/// The padding a decoded header carries, re-derived from its frame length.
pub open spec fn spec_padding_of(h: FrameHeader) -> u32 {
    (h.frame_bytes - 144000int * h.bitrate / (h.sampling_rate as int)) as u32
}

/// The 32-bit header word rebuilt from a decoded header's fields. The two-bit
/// mode-extension field is the one field the decoded flags do not always
/// determine (two of its codes decode to the same flags), so it is a
/// parameter.
pub open spec fn reassembled_word(h: FrameHeader, mode_ext: u32) -> u32 {
    (0b111_1111_1111u32 << 21u32) | ((if h.crc is Some {
        0u32
    } else {
        1u32
    }) << 16u32) | (0b11u32 << 19u32) | (0b01u32 << 17u32) | (code_of_bitrate(h.bitrate)
        << 12u32) | (code_of_sampling_rate(h.sampling_rate) << 10u32) | (spec_padding_of(h)
        << 9u32) | (encode_bit(h.private_bit) << 8u32) | (code_of_channel_mode(h.channel_mode)
        << 6u32) | (mode_ext << 4u32) | (encode_bit(h.copyright) << 3u32) | (encode_bit(h.original)
        << 2u32) | code_of_emphasis(h.emphasis)
}

/// Law: decoding a header and re-deriving its sub-fields reproduces the
/// original 32-bit pattern exactly, the mode-extension bits taken from the
/// word itself; and whenever the decoded joint-stereo flags are not both
/// false they determine those two bits as well.
#[verifier::rlimit(100)]
pub proof fn lemma_header_round_trip(s: Seq<u8>)
    ensures
        spec_frame_header(s) matches Ok(h) ==> crate::be_u32(s) == reassembled_word(
            h,
            mode_ext_code(crate::be_u32(s)),
        ),
        spec_frame_header(s) matches Ok(h) ==> ((h.channel_mode == ChannelMode::JointStereo && (
        h.intensity_stereo || h.ms_stereo)) ==> mode_ext_code(crate::be_u32(s)) == (
        if h.intensity_stereo {
            0u32
        } else {
            1u32
        })),
{
    match spec_frame_header(s) {
        Ok(h) => {
            let w = crate::be_u32(s);
            assert(w == ((w >> 21u32) << 21u32) | (((w >> 16u32) & 0b1u32) << 16u32) | (((w
                >> 19u32) & 0b11u32) << 19u32) | (((w >> 17u32) & 0b11u32) << 17u32) | (((w
                >> 12u32) & 0b1111u32) << 12u32) | (((w >> 10u32) & 0b11u32) << 10u32) | (((w
                >> 9u32) & 0b1u32) << 9u32) | (((w >> 8u32) & 0b1u32) << 8u32) | (((w >> 6u32)
                & 0b11u32) << 6u32) | (((w >> 4u32) & 0b11u32) << 4u32) | (((w >> 3u32) & 0b1u32)
                << 3u32) | (((w >> 2u32) & 0b1u32) << 2u32) | (w & 0b11u32)) by (bit_vector);
            assert((w >> 16u32) & 0b1u32 <= 1 && (w >> 9u32) & 0b1u32 <= 1 && (w >> 8u32) & 0b1u32
                <= 1 && (w >> 6u32) & 0b11u32 <= 3 && (w >> 3u32) & 0b1u32 <= 1 && (w >> 2u32)
                & 0b1u32 <= 1 && w & 0b11u32 <= 3) by (bit_vector);
            lemma_frame_bytes_formula(s);
            lemma_frame_bytes_bounds(h.bitrate, h.sampling_rate, padding_bit(w));
            assert(code_of_bitrate(spec_bitrate(bitrate_code(w))) == bitrate_code(w));
            assert(code_of_sampling_rate(spec_sampling_rate(sampling_code(w))) == sampling_code(
                w,
            ));
            assert(code_of_emphasis(spec_emphasis(emphasis_code(w))) == emphasis_code(w));
            assert(code_of_channel_mode(spec_channel_mode(channel_code(w))) == channel_code(w));
            assert(spec_padding_of(h) == padding_bit(w));
        },
        Err(_) => {},
    }
}

/// Bounds on the frame length computed from any assigned bitrate and
/// sampling-rate table entries.
proof fn lemma_frame_bytes_bounds(bitrate: u32, rate: u32, padding: u32)
    requires
        32 <= bitrate <= 320,
        rate == 44100 || rate == 48000 || rate == 32000,
        padding <= 1,
    ensures
        96 <= spec_frame_bytes(bitrate, rate, padding) <= 1441,
{
    assert(144000int * 32 <= 144000int * bitrate <= 144000int * 320);
    lemma_div_is_ordered(144000int * 32, 144000int * bitrate, rate as int);
    lemma_div_is_ordered(144000int * bitrate, 144000int * 320, rate as int);
    lemma_div_is_ordered_by_denominator(144000int * 32, 32000, rate as int);
    if rate == 44100 {
        assert(144000int * 320 / 44100 == 1044);
        assert(144000int * 32 / 44100 == 104);
    } else if rate == 48000 {
        assert(144000int * 320 / 48000 == 960);
        assert(144000int * 32 / 48000 == 96);
    } else {
        assert(144000int * 320 / 32000 == 1440);
        assert(144000int * 32 / 32000 == 144);
    }
}

impl FrameHeader {
    /// The header's own length in bytes: six when a CRC is present, else four.
    pub open spec fn spec_len(self) -> int {
        if self.crc is Some {
            6
        } else {
            4
        }
    }

    /// Every decoded header satisfies this: an MPEG-1 Layer III header whose
    /// frame length covers the header itself and a mono side-info block.
    pub open spec fn wf(self) -> bool {
        &&& self.version == Version::MPEG1
        &&& self.layer == Layer::LayerIII
        &&& 32 <= self.bitrate <= 320
        &&& (self.sampling_rate == 44100 || self.sampling_rate == 48000 || self.sampling_rate
            == 32000)
        &&& self.spec_len() + 17 <= self.frame_bytes <= 1441
    }

    /// The header's length in bytes within the frame.
    pub fn len(&self) -> (r: usize)
        ensures
            r == self.spec_len(),
    {
        if self.crc.is_some() {
            6
        } else {
            4
        }
    }

    /// Decodes a frame header from the front of `bytes`: exactly four bytes,
    /// or six when the protection bit announces a CRC.
    #[verifier::rlimit(100)]
    pub fn read(bytes: &[u8]) -> (r: Result<FrameHeader, DecodingError>)
        ensures
            r == spec_frame_header(bytes@),
            r matches Ok(h) ==> h.wf(),
    {
        let mut rest: &[u8] = bytes;
        if rest.len() < 4 {
            return Err(DecodingError::UnexpectedEndOfStream);
        }
        let frame_header = match read_u32(&mut rest) {
            Ok(w) => w,
            Err(e) => {
                return Err(e);
            },
        };

        let a = frame_header >> 21u32;
        let b = (frame_header >> 19u32) & 0b11u32;
        let c = (frame_header >> 17u32) & 0b11u32;
        let d = (frame_header >> 16u32) & 0b1u32;
        proof {
            assert((frame_header >> 16u32) & 0b1u32 <= 1) by (bit_vector);
        }

        if a != 0b111_1111_1111u32 {
            return Err(DecodingError::InvalidFrameHeader);
        }
        if b != 0b11u32 {
            return Err(DecodingError::UnsupportedVersion);
        }
        if c != 0b01u32 {
            return Err(DecodingError::UnsupportedLayer);
        }

        let crc = if d == 1 {
            None
        } else {
            match read_u16(&mut rest) {
                Ok(v) => Some(v),
                Err(e2) => {
                    return Err(e2);
                },
            }
        };

        Self::decode_codes(frame_header, crc)
    }

    /// Decodes the 4-bit bitrate index via the MPEG-1 Layer III table.
    fn decode_bitrate(e: u32) -> (r: Result<u32, DecodingError>)
        ensures
            r == if valid_bitrate_code(e) {
                Ok::<u32, DecodingError>(spec_bitrate(e))
            } else {
                Err::<u32, DecodingError>(DecodingError::UnsupportedBitrate)
            },
    {
        if e == 1 {
            Ok(32)
        } else if e == 2 {
            Ok(40)
        } else if e == 3 {
            Ok(48)
        } else if e == 4 {
            Ok(56)
        } else if e == 5 {
            Ok(64)
        } else if e == 6 {
            Ok(80)
        } else if e == 7 {
            Ok(96)
        } else if e == 8 {
            Ok(112)
        } else if e == 9 {
            Ok(128)
        } else if e == 10 {
            Ok(160)
        } else if e == 11 {
            Ok(192)
        } else if e == 12 {
            Ok(224)
        } else if e == 13 {
            Ok(256)
        } else if e == 14 {
            Ok(320)
        } else {
            Err(DecodingError::UnsupportedBitrate)
        }
    }

    /// Decodes the 2-bit sampling-rate index via the MPEG-1 table.
    fn decode_sampling_rate(f: u32) -> (r: Result<u32, DecodingError>)
        ensures
            r == if valid_sampling_code(f) {
                Ok::<u32, DecodingError>(spec_sampling_rate(f))
            } else {
                Err::<u32, DecodingError>(DecodingError::UnsupportedSamplingRate)
            },
    {
        if f == 0 {
            Ok(44100)
        } else if f == 1 {
            Ok(48000)
        } else if f == 2 {
            Ok(32000)
        } else {
            Err(DecodingError::UnsupportedSamplingRate)
        }
    }

    /// Decodes the 2-bit emphasis field; the code two is reserved.
    fn decode_emphasis(m: u32) -> (r: Result<Emphasis, DecodingError>)
        ensures
            r == if valid_emphasis_code(m) {
                Ok::<Emphasis, DecodingError>(spec_emphasis(m))
            } else {
                Err::<Emphasis, DecodingError>(DecodingError::UnsupportedEmphasis)
            },
    {
        if m == 0 {
            Ok(Emphasis::NoEmphasis)
        } else if m == 1 {
            Ok(Emphasis::FiftyFifteenMs)
        } else if m == 3 {
            Ok(Emphasis::CCITTJ17)
        } else {
            Err(DecodingError::UnsupportedEmphasis)
        }
    }

    /// Computes the total frame length from an assigned bitrate and sampling
    /// rate: `floor(144000 * bitrate / rate) + padding`.
    fn compute_frame_bytes(bitrate: u32, sampling_rate: u32, padding: u32) -> (r: u32)
        requires
            32 <= bitrate <= 320,
            sampling_rate == 44100 || sampling_rate == 48000 || sampling_rate == 32000,
            padding <= 1,
        ensures
            r == spec_frame_bytes(bitrate, sampling_rate, padding),
            96 <= r <= 1441,
    {
        proof {
            lemma_frame_bytes_bounds(bitrate, sampling_rate, padding);
            assert(144 * bitrate * 1000 == 144000int * bitrate);
        }
        144 * bitrate * 1000 / sampling_rate + padding
    }

    /// Decodes the table-driven fields of the validated header word `w`.
    #[verifier::rlimit(100)]
    fn decode_codes(w: u32, crc: Option<u16>) -> (r: Result<FrameHeader, DecodingError>)
        ensures
            r == spec_header_from_codes(w, crc),
            r matches Ok(h) ==> h.wf() && h.crc == crc,
    {
        let e = (w >> 12u32) & 0b1111u32;
        let f = (w >> 10u32) & 0b11u32;
        let g = (w >> 9u32) & 0b1u32;
        let h = (w >> 8u32) & 0b1u32;
        let i = (w >> 6u32) & 0b11u32;
        let j = (w >> 4u32) & 0b11u32;
        let k = (w >> 3u32) & 0b1u32;
        let l = (w >> 2u32) & 0b1u32;
        let m = w & 0b11u32;

        let bitrate = match Self::decode_bitrate(e) {
            Ok(v) => v,
            Err(err) => {
                return Err(err);
            },
        };
        let sampling_rate = match Self::decode_sampling_rate(f) {
            Ok(v) => v,
            Err(err) => {
                return Err(err);
            },
        };
        let emphasis = match Self::decode_emphasis(m) {
            Ok(v) => v,
            Err(err) => {
                return Err(err);
            },
        };

        let padding = g;
        proof {
            assert((w >> 9u32) & 0b1u32 <= 1) by (bit_vector);
        }
        let frame_bytes = Self::compute_frame_bytes(bitrate, sampling_rate, padding);

        let private_bit = h == 1;

        let channel_mode = if i == 0 {
            ChannelMode::Stereo
        } else if i == 1 {
            ChannelMode::JointStereo
        } else if i == 2 {
            ChannelMode::DualChannel
        } else {
            ChannelMode::Mono
        };

        let (intensity_stereo, ms_stereo) = if channel_mode == ChannelMode::JointStereo {
            if j == 0 {
                (true, false)
            } else if j == 1 {
                (false, true)
            } else {
                (false, false)
            }
        } else {
            (false, false)
        };

        let copyright = k == 1;
        let original = l == 1;

        let result = FrameHeader {
            version: Version::MPEG1,
            layer: Layer::LayerIII,
            bitrate,
            sampling_rate,
            frame_bytes: frame_bytes as usize,
            crc,
            private_bit,
            channel_mode,
            intensity_stereo,
            ms_stereo,
            copyright,
            original,
            emphasis,
        };
        proof {
            assert(channel_mode == spec_channel_mode(channel_code(w)));
            assert(intensity_stereo == spec_stereo_flags(channel_mode, mode_ext_code(w)).0
                && ms_stereo == spec_stereo_flags(channel_mode, mode_ext_code(w)).1);
            assert(result == header_from_word(w, crc));
        }
        Ok(result)
    }
}

} // verus!
