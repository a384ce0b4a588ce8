//! Bitstream framing and header/side-information decoding for MPEG-1 Layer III
//! audio streams.
//!
//! Given a raw byte buffer, the library locates successive audio frames,
//! decodes each frame's fixed-size header and variable-layout side
//! information, and recognizes an optional embedded variable-bitrate (Xing)
//! index frame, all without copying audio payload bytes.

use vstd::arithmetic::power2::{lemma2_to64, lemma2_to64_rest, pow2};
use vstd::bits::{lemma_u32_pow2_no_overflow, lemma_u32_shl_is_mul, lemma_u64_pow2_no_overflow,
    lemma_u64_shl_is_mul};
use vstd::prelude::*;

pub mod header;
pub mod side_info;
pub mod vbr;

use header::{spec_frame_header, FrameHeader};
use side_info::{spec_side_info, spec_side_info_len, SideInfo};
use vbr::{vbr_info_post, xing_present, VbrInfo};

verus! {

/// Decoding failures. Every decoder returns either a decoded value or one of
/// these; no layer catches and suppresses an error from a lower layer.
#[derive(Debug, Clone, Copy, PartialEq, Eq, Structural)]
pub enum DecodingError {
    /// Fewer bytes are available than a field or structure requires.
    UnexpectedEndOfStream,
    /// The 11-bit frame sync pattern did not match.
    InvalidFrameHeader,
    /// The stream is not MPEG-1.
    UnsupportedVersion,
    /// The stream is not Layer III.
    UnsupportedLayer,
    /// The 4-bit bitrate code is reserved or free.
    UnsupportedBitrate,
    /// The 2-bit sampling-rate code is reserved.
    UnsupportedSamplingRate,
    /// The 2-bit emphasis code is reserved.
    UnsupportedEmphasis,
    /// A granule sets window switching but carries block type zero.
    InvalidBlockType,
    /// The side-information layout for this channel mode is not decoded;
    /// only the mono layout is.
    UnsupportedChannelMode,
}

/// The first two bytes of `s`, read big-endian.
pub open spec fn be_u16(s: Seq<u8>) -> u16
    recommends
        s.len() >= 2,
{
    (s[0] * 0x100 + s[1]) as u16
}

/// The first four bytes of `s`, read big-endian.
pub open spec fn be_u32(s: Seq<u8>) -> u32
    recommends
        s.len() >= 4,
{
    (s[0] * 0x100_0000 + s[1] * 0x1_0000 + s[2] * 0x100 + s[3]) as u32
}

/// The first eight bytes of `s`, read big-endian.
pub open spec fn be_u64(s: Seq<u8>) -> u64
    recommends
        s.len() >= 8,
{
    (s[0] * 0x100_0000_0000_0000 + s[1] * 0x1_0000_0000_0000 + s[2] * 0x100_0000_0000 + s[3]
        * 0x1_0000_0000 + s[4] * 0x100_0000 + s[5] * 0x1_0000 + s[6] * 0x100 + s[7]) as u64
}

/// Consumes two bytes from the front of `*data`, read big-endian, advancing
/// the view past them; fails without consuming anything when fewer remain.
pub fn read_u16(data: &mut &[u8]) -> (r: Result<u16, DecodingError>)
    ensures
        match r {
            Ok(v) => old(data)@.len() >= 2 && v == be_u16(old(data)@)
                && final(data)@ == old(data)@.skip(2),
            Err(e) => e == DecodingError::UnexpectedEndOfStream && old(data)@.len() < 2
                && final(data)@ == old(data)@,
        },
{
    let d: &[u8] = *data;
    if d.len() < 2 {
        return Err(DecodingError::UnexpectedEndOfStream);
    }
    let v: u16 = (d[0] as u16) * 0x100 + (d[1] as u16);
    *data = &d[2..d.len()];
    proof {
        assert(d@.subrange(2, d@.len() as int) =~= d@.skip(2));
    }
    Ok(v)
}

/// Consumes four bytes from the front of `*data`, read big-endian, advancing
/// the view past them; fails without consuming anything when fewer remain.
pub fn read_u32(data: &mut &[u8]) -> (r: Result<u32, DecodingError>)
    ensures
        match r {
            Ok(v) => old(data)@.len() >= 4 && v == be_u32(old(data)@)
                && final(data)@ == old(data)@.skip(4),
            Err(e) => e == DecodingError::UnexpectedEndOfStream && old(data)@.len() < 4
                && final(data)@ == old(data)@,
        },
{
    let d: &[u8] = *data;
    if d.len() < 4 {
        return Err(DecodingError::UnexpectedEndOfStream);
    }
    let v: u32 = (d[0] as u32) * 0x100_0000 + (d[1] as u32) * 0x1_0000 + (d[2] as u32) * 0x100 + (
    d[3] as u32);
    *data = &d[4..d.len()];
    proof {
        assert(d@.subrange(4, d@.len() as int) =~= d@.skip(4));
    }
    Ok(v)
}

/// Consumes eight bytes from the front of `*data`, read big-endian, advancing
/// the view past them; fails without consuming anything when fewer remain.
pub fn read_u64(data: &mut &[u8]) -> (r: Result<u64, DecodingError>)
    ensures
        match r {
            Ok(v) => old(data)@.len() >= 8 && v == be_u64(old(data)@)
                && final(data)@ == old(data)@.skip(8),
            Err(e) => e == DecodingError::UnexpectedEndOfStream && old(data)@.len() < 8
                && final(data)@ == old(data)@,
        },
{
    let d: &[u8] = *data;
    if d.len() < 8 {
        return Err(DecodingError::UnexpectedEndOfStream);
    }
    let v: u64 = (d[0] as u64) * 0x100_0000_0000_0000 + (d[1] as u64) * 0x1_0000_0000_0000 + (
    d[2] as u64) * 0x100_0000_0000 + (d[3] as u64) * 0x1_0000_0000 + (d[4] as u64) * 0x100_0000 + (
    d[5] as u64) * 0x1_0000 + (d[6] as u64) * 0x100 + (d[7] as u64);
    *data = &d[8..d.len()];
    proof {
        assert(d@.subrange(8, d@.len() as int) =~= d@.skip(8));
    }
    Ok(v)
}

/// The all-ones mask covering the low `width` bits of a 64-bit word.
pub open spec fn bit_mask64(width: u64) -> u64 {
    if width >= 64 {
        0xffff_ffff_ffff_ffffu64
    } else {
        ((1u64 << width) - 1) as u64
    }
}

/// The bits of `val` in the half-open position range `[start, end)`, counted
/// from the most-significant bit (bit 0 is the MSB), right-justified.
pub open spec fn extracted_bits(val: u64, start: u64, end: u64) -> u64
    recommends
        start <= end <= 64,
{
    (val >> ((64 - end) as u64)) & bit_mask64((end - start) as u64)
}

/// Extracts the unsigned value occupying bit range `[bits.start, bits.end)`
/// of `val`, counted from the most-significant bit, right-justified.
#[verifier::rlimit(100)]
pub fn read_bits(val: u64, bits: core::ops::Range<u8>) -> (r: u64)
    requires
        bits.start < bits.end,
        bits.end <= 64,
    ensures
        r == extracted_bits(val, bits.start as u64, bits.end as u64),
        r < pow2((bits.end - bits.start) as nat),
{
    let start: u64 = bits.start as u64;
    let end: u64 = bits.end as u64;
    let sh: u64 = start + 64 - end;
    let r = (val << start) >> sh;
    proof {
        let inv = (64 - end) as u64;
        let width = (end - start) as u64;
        if start == 0 && end == 64 {
            assert((val << 0u64) >> 0u64 == (val >> 0u64) & 0xffff_ffff_ffff_ffffu64)
                by (bit_vector);
            lemma2_to64();
            lemma2_to64_rest();
        } else {
            assert((val << start) >> sh == (val >> inv) & (((1u64 << width) - 1) as u64) && (val
                >> inv) & (((1u64 << width) - 1) as u64) <= ((1u64 << width) - 1) as u64)
                by (bit_vector)
                requires
                    start < end,
                    end <= 64u64,
                    !(start == 0 && end == 64),
                    sh + end == start + 64,
                    inv + end == 64,
                    width + start == end,
            ;
            lemma_u64_pow2_no_overflow(width as nat);
            lemma_u64_shl_is_mul(1u64, width);
        }
    }
    r
}

/// The all-ones mask covering the low `width` bits of a 32-bit word.
pub open spec fn bit_mask32(width: u32) -> u32 {
    if width >= 32 {
        0xffff_ffffu32
    } else {
        ((1u32 << width) - 1) as u32
    }
}

/// The bits of `val` in the half-open position range `[start, end)`, counted
/// from the most-significant bit (bit 0 is the MSB), right-justified.
pub open spec fn extracted_bits32(val: u32, start: u32, end: u32) -> u32
    recommends
        start <= end <= 32,
{
    (val >> ((32 - end) as u32)) & bit_mask32((end - start) as u32)
}

/// Extracts the unsigned value occupying bit range `[bits.start, bits.end)`
/// of the 32-bit word `val`, counted from the most-significant bit.
#[verifier::rlimit(100)]
pub(crate) fn read_bits_u32(val: u32, bits: core::ops::Range<u8>) -> (r: u32)
    requires
        bits.start < bits.end,
        bits.end <= 32,
    ensures
        r == extracted_bits32(val, bits.start as u32, bits.end as u32),
        r < pow2((bits.end - bits.start) as nat),
{
    let start: u32 = bits.start as u32;
    let end: u32 = bits.end as u32;
    let sh: u32 = start + 32 - end;
    let r = (val << start) >> sh;
    proof {
        let inv = (32 - end) as u32;
        let width = (end - start) as u32;
        if start == 0 && end == 32 {
            assert((val << 0u32) >> 0u32 == (val >> 0u32) & 0xffff_ffffu32) by (bit_vector);
            lemma2_to64();
        } else {
            assert((val << start) >> sh == (val >> inv) & (((1u32 << width) - 1) as u32) && (val
                >> inv) & (((1u32 << width) - 1) as u32) <= ((1u32 << width) - 1) as u32)
                by (bit_vector)
                requires
                    start < end,
                    end <= 32u32,
                    !(start == 0 && end == 32),
                    sh + end == start + 32,
                    inv + end == 32,
                    width + start == end,
            ;
            lemma_u32_pow2_no_overflow(width as nat);
            lemma_u32_shl_is_mul(1u32, width);
        }
    }
    r
}

/// A 64-bit word whose bits are ones exactly in the MSB-first positions
/// `[a, b)` and zero everywhere else.
pub open spec fn ones_window(a: u64, b: u64) -> u64
    recommends
        a < b <= 64,
{
    (0xffff_ffff_ffff_ffffu64 >> ((64 - (b - a)) as u64)) << ((64 - b) as u64)
}

/// Law: extracting any range that lies outside the ones of a window yields
/// zero.
#[verifier::rlimit(100)]
pub proof fn lemma_extract_outside_ones(a: u64, b: u64, s: u64, e: u64)
    requires
        a < b <= 64,
        s < e <= 64,
        e <= a || b <= s,
    ensures
        extracted_bits(ones_window(a, b), s, e) == 0,
{
    let inv = (64 - e) as u64;
    let width = (e - s) as u64;
    let wshift = (64 - (b - a)) as u64;
    let lshift = (64 - b) as u64;
    if s == 0 && e == 64 {
        assert(false);
    } else {
        assert((((0xffff_ffff_ffff_ffffu64 >> wshift) << lshift) >> inv) & (((1u64 << width)
            - 1) as u64) == 0)
            by (bit_vector)
            requires
                a < b,
                b <= 64u64,
                s < e,
                e <= 64u64,
                e <= a || b <= s,
                !(s == 0 && e == 64),
                wshift + b == 64 + a,
                lshift + b == 64,
                inv + e == 64,
                width + s == e,
        ;
    }
}

/// Law: extracting any range that covers only ones of a window yields the
/// all-ones value of the requested width.
#[verifier::rlimit(100)]
pub proof fn lemma_extract_inside_ones(a: u64, b: u64, s: u64, e: u64)
    requires
        a <= s < e <= b <= 64,
    ensures
        extracted_bits(ones_window(a, b), s, e) == bit_mask64((e - s) as u64),
{
    let inv = (64 - e) as u64;
    let width = (e - s) as u64;
    let wshift = (64 - (b - a)) as u64;
    let lshift = (64 - b) as u64;
    if s == 0 && e == 64 {
        assert((((0xffff_ffff_ffff_ffffu64 >> 0u64) << 0u64) >> 0u64) & 0xffff_ffff_ffff_ffffu64
            == 0xffff_ffff_ffff_ffffu64) by (bit_vector);
    } else {
        assert((((0xffff_ffff_ffff_ffffu64 >> wshift) << lshift) >> inv) & (((1u64 << width)
            - 1) as u64) == ((1u64 << width) - 1) as u64)
            by (bit_vector)
            requires
                a <= s,
                s < e,
                e <= b,
                b <= 64u64,
                !(s == 0 && e == 64),
                wshift + b == 64 + a,
                lshift + b == 64,
                inv + e == 64,
                width + s == e,
        ;
    }
}

/// What locating one frame at the front of `s` yields: its header, with an
/// end-of-stream failure when `s` does not hold the whole frame it announces.
pub open spec fn spec_read_header(s: Seq<u8>) -> Result<FrameHeader, DecodingError> {
    match spec_frame_header(s) {
        Err(e) => Err(e),
        Ok(h) => if s.len() < h.frame_bytes {
            Err(DecodingError::UnexpectedEndOfStream)
        } else {
            Ok(h)
        },
    }
}

/// The bytes of the frame at the front of `s` that follow its header `h`:
/// side information plus main data.
pub open spec fn spec_frame_data(s: Seq<u8>, h: FrameHeader) -> Seq<u8> {
    s.subrange(h.spec_len(), h.frame_bytes as int)
}

/// What decoding one whole frame from the front of `s` yields: its header,
/// side information, and main-data bytes, or the first failure.
pub open spec fn spec_frame(s: Seq<u8>) -> Result<(FrameHeader, SideInfo, Seq<u8>), DecodingError> {
    match spec_read_header(s) {
        Err(e) => Err(e),
        Ok(h) => {
            let fd = spec_frame_data(s, h);
            match spec_side_info(h, fd) {
                Err(e) => Err(e),
                Ok(si) => Ok((h, si, fd.skip(spec_side_info_len(h)))),
            }
        },
    }
}

/// One decoded frame: its header, its side information, and a non-owning view
/// of the remaining payload bytes (Huffman-coded spectral data plus
/// bit-reservoir carry-over).
#[derive(Debug)]
pub struct Frame<'a> {
    pub header: FrameHeader,
    pub side_info: SideInfo,
    pub main_data: &'a [u8],
}

/// The first frame of a stream, under its two possible interpretations: a
/// variable-bitrate index frame whose payload is metadata rather than audio,
/// or an ordinary constant-bitrate audio frame.
pub enum FirstFrame<'a> {
    Vbr(FrameHeader, VbrInfo),
    Cbr(Frame<'a>),
}

/// What a successfully decoded first frame says of the buffer `s` it came
/// from: a Xing tag right after the side-info region makes it `Vbr`, its
/// absence makes it `Cbr` with the frame fully decoded.
pub open spec fn spec_first_frame_ok(s: Seq<u8>, ff: FirstFrame<'_>) -> bool {
    match ff {
        FirstFrame::Vbr(h, v) => {
            &&& spec_read_header(s) == Ok::<FrameHeader, DecodingError>(h)
            &&& xing_present(h, spec_frame_data(s, h))
            &&& vbr_info_post(
                spec_frame_data(s, h).skip(spec_side_info_len(h) + 4),
                Ok::<VbrInfo, DecodingError>(v),
            )
        },
        FirstFrame::Cbr(f) => {
            &&& spec_read_header(s) == Ok::<FrameHeader, DecodingError>(f.header)
            &&& !xing_present(f.header, spec_frame_data(s, f.header))
            &&& spec_side_info(f.header, spec_frame_data(s, f.header)) == Ok::<
                SideInfo,
                DecodingError,
            >(f.side_info)
            &&& f.main_data@ == spec_frame_data(s, f.header).skip(spec_side_info_len(f.header))
        },
    }
}

/// Which failure decoding the first frame of the buffer `s` reports: a header
/// failure, a failure inside a present Xing tag, or a side-info failure.
pub open spec fn spec_first_frame_err(s: Seq<u8>, e: DecodingError) -> bool {
    match spec_read_header(s) {
        Err(e2) => e == e2,
        Ok(h) => {
            let fd = spec_frame_data(s, h);
            if xing_present(h, fd) {
                vbr_info_post(
                    fd.skip(spec_side_info_len(h) + 4),
                    Err::<VbrInfo, DecodingError>(e),
                )
            } else {
                spec_side_info(h, fd) == Err::<SideInfo, DecodingError>(e)
            }
        },
    }
}

impl FirstFrame<'_> {
    /// The length in bytes of the first frame, whichever interpretation it
    /// got.
    pub open spec fn spec_len(&self) -> int {
        match self {
            FirstFrame::Vbr(h, _) => h.frame_bytes as int,
            FirstFrame::Cbr(f) => f.header.frame_bytes as int,
        }
    }

    /// The length in bytes of the first frame within its buffer.
    pub fn len(&self) -> (r: usize)
        ensures
            r == self.spec_len(),
    {
        match self {
            FirstFrame::Vbr(h, _) => h.frame_bytes,
            FirstFrame::Cbr(f) => f.header.frame_bytes,
        }
    }
}

impl<'a> Frame<'a> {
    /// Locates one frame at the front of `data`: decodes its header and
    /// slices out the announced frame bytes that follow it.
    fn read_header(data: &'a [u8]) -> (r: Result<(FrameHeader, &'a [u8]), DecodingError>)
        ensures
            match r {
                Ok((h, fd)) => spec_read_header(data@) == Ok::<FrameHeader, DecodingError>(h)
                    && h.wf() && h.frame_bytes <= data@.len() && fd@ == spec_frame_data(data@, h),
                Err(e) => spec_read_header(data@) == Err::<FrameHeader, DecodingError>(e),
            },
    {
        if data.len() < 4 {
            return Err(DecodingError::UnexpectedEndOfStream);
        }

        let frame_header = match FrameHeader::read(data) {
            Ok(h) => h,
            Err(err) => {
                return Err(err);
            },
        };

        if data.len() < frame_header.frame_bytes {
            return Err(DecodingError::UnexpectedEndOfStream);
        }

        let frame_data: &[u8] = &data[frame_header.len()..frame_header.frame_bytes];
        Ok((frame_header, frame_data))
    }

    /// Decodes the side information out of the frame bytes `frame_data` that
    /// follow the header, and keeps the rest as the main-data view.
    fn read_frame_data(header: FrameHeader, frame_data: &'a [u8]) -> (r: Result<
        Frame<'a>,
        DecodingError,
    >)
        ensures
            match r {
                Ok(f) => f.header == header && spec_side_info(header, frame_data@) == Ok::<
                    SideInfo,
                    DecodingError,
                >(f.side_info) && f.main_data@ == frame_data@.skip(spec_side_info_len(header)),
                Err(e) => spec_side_info(header, frame_data@) == Err::<SideInfo, DecodingError>(e),
            },
    {
        let side_info_len = SideInfo::len(&header);
        let side_info = match SideInfo::read(&header, frame_data) {
            Ok(si) => si,
            Err(e) => {
                return Err(e);
            },
        };
        let main_data: &[u8] = &frame_data[side_info_len..frame_data.len()];
        proof {
            assert(frame_data@.subrange(spec_side_info_len(header), frame_data@.len() as int)
                =~= frame_data@.skip(spec_side_info_len(header)));
        }
        Ok(Frame { header, side_info, main_data })
    }

    /// Decodes the distinguished first frame of a stream, probing for a Xing
    /// tag to tell a variable-bitrate index frame from ordinary audio.
    pub fn read_first(data: &'a [u8]) -> (r: Result<FirstFrame<'a>, DecodingError>)
        ensures
            match r {
                Ok(ff) => spec_first_frame_ok(data@, ff),
                Err(e) => spec_first_frame_err(data@, e),
            },
    {
        let (frame_header, frame_data) = match Frame::read_header(data) {
            Ok(p) => p,
            Err(e) => {
                return Err(e);
            },
        };

        match VbrInfo::read(&frame_header, frame_data) {
            Some(vbr_result) => match vbr_result {
                Ok(vbr_info) => Ok(FirstFrame::Vbr(frame_header, vbr_info)),
                Err(e) => Err(e),
            },
            None => match Self::read_frame_data(frame_header, frame_data) {
                Ok(f) => Ok(FirstFrame::Cbr(f)),
                Err(e) => Err(e),
            },
        }
    }

    /// Decodes one whole frame from the front of `data`.
    pub fn read(data: &'a [u8]) -> (r: Result<Self, DecodingError>)
        ensures
            match r {
                Ok(f) => spec_frame(data@) == Ok::<(FrameHeader, SideInfo, Seq<u8>), DecodingError>(
                    (f.header, f.side_info, f.main_data@),
                ),
                Err(e) => spec_frame(data@) == Err::<(FrameHeader, SideInfo, Seq<u8>),
                    DecodingError,
                >(e),
            },
    {
        let (frame_header, frame_data) = match Frame::read_header(data) {
            Ok(p) => p,
            Err(e) => {
                return Err(e);
            },
        };
        Self::read_frame_data(frame_header, frame_data)
    }
}

/// A lazy, finite iterator of frames over a byte buffer: one frame per call,
/// advancing a single cursor by each frame's announced length.
pub struct FrameIter<'a> {
    data: &'a [u8],
}

impl<'a> FrameIter<'a> {
    /// The bytes the iterator has not consumed yet.
    pub closed spec fn remaining(&self) -> Seq<u8> {
        self.data@
    }

    /// Decodes the distinguished first frame and returns it beside an
    /// iterator positioned just past it.
    pub fn new(data: &'a [u8]) -> (r: Result<(FirstFrame<'a>, FrameIter<'a>), DecodingError>)
        ensures
            match r {
                Ok((ff, it)) => spec_first_frame_ok(data@, ff) && it.remaining() == data@.skip(
                    ff.spec_len(),
                ),
                Err(e) => spec_first_frame_err(data@, e),
            },
    {
        let first_frame = match Frame::read_first(data) {
            Ok(ff) => ff,
            Err(e) => {
                return Err(e);
            },
        };
        let consumed = first_frame.len();
        proof {
            assert(data@.subrange(first_frame.spec_len(), data@.len() as int) =~= data@.skip(
                first_frame.spec_len(),
            ));
        }
        Ok((first_frame, FrameIter { data: &data[consumed..data.len()] }))
    }

    /// Decodes the frame at the cursor and advances past it. Fewer than four
    /// remaining bytes end the sequence rather than erroring. A decode
    /// failure is yielded once and ends the sequence: the decoder does not
    /// resynchronize past a corrupt frame.
    pub fn next(&mut self) -> (r: Option<Result<Frame<'a>, DecodingError>>)
        ensures
            (r is None) <==> old(self).remaining().len() < 4,
            match r {
                None => old(self).remaining().len() < 4 && final(self).remaining() == old(
                    self,
                ).remaining(),
                Some(Ok(f)) => spec_frame(old(self).remaining()) == Ok::<
                    (FrameHeader, SideInfo, Seq<u8>),
                    DecodingError,
                >((f.header, f.side_info, f.main_data@)) && final(self).remaining() == old(
                    self,
                ).remaining().skip(f.header.frame_bytes as int),
                Some(Err(e)) => spec_frame(old(self).remaining()) == Err::<
                    (FrameHeader, SideInfo, Seq<u8>),
                    DecodingError,
                >(e) && final(self).remaining() == Seq::<u8>::empty(),
            },
    {
        if self.data.len() < 4 {
            return None;
        }

        match Frame::read(self.data) {
            Ok(frame) => {
                proof {
                    assert(self.data@.subrange(
                        frame.header.frame_bytes as int,
                        self.data@.len() as int,
                    ) =~= self.data@.skip(frame.header.frame_bytes as int));
                }
                self.data = &self.data[frame.header.frame_bytes..self.data.len()];
                Some(Ok(frame))
            },
            Err(e) => {
                proof {
                    assert(self.data@.subrange(0, 0) =~= Seq::<u8>::empty());
                }
                self.data = &self.data[0..0];
                Some(Err(e))
            },
        }
    }
}

} // verus!
