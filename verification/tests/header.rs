use mp3dec::header::{ChannelMode, Emphasis, FrameHeader, Layer, Version};
use mp3dec::DecodingError;

#[test]
fn test_reading_frame_header() {
    let result = FrameHeader::read(b"\xFF\xFB\x90\xC4").unwrap();
    assert_eq!(
        result,
        FrameHeader {
            version: Version::MPEG1,
            layer: Layer::LayerIII,
            bitrate: 128,
            sampling_rate: 44100,
            crc: None,
            frame_bytes: 417,
            private_bit: false,
            channel_mode: ChannelMode::Mono,
            intensity_stereo: false,
            ms_stereo: false,
            copyright: false,
            original: true,
            emphasis: Emphasis::NoEmphasis,
        }
    );

    let result = FrameHeader::read(b"\xFF\xFB\xC0\xC4").unwrap();
    assert_eq!(
        result,
        FrameHeader {
            version: Version::MPEG1,
            layer: Layer::LayerIII,
            bitrate: 224,
            sampling_rate: 44100,
            crc: None,
            frame_bytes: 731,
            private_bit: false,
            channel_mode: ChannelMode::Mono,
            intensity_stereo: false,
            ms_stereo: false,
            copyright: false,
            original: true,
            emphasis: Emphasis::NoEmphasis,
        }
    );

    let result = FrameHeader::read(b"\xFF\xFB\x30\xC4").unwrap();
    assert_eq!(
        result,
        FrameHeader {
            version: Version::MPEG1,
            layer: Layer::LayerIII,
            bitrate: 48,
            sampling_rate: 44100,
            crc: None,
            frame_bytes: 156,
            private_bit: false,
            channel_mode: ChannelMode::Mono,
            intensity_stereo: false,
            ms_stereo: false,
            copyright: false,
            original: true,
            emphasis: Emphasis::NoEmphasis,
        }
    );

    let result = FrameHeader::read(b"\xFF\xFB\x20\xC4").unwrap();
    assert_eq!(
        result,
        FrameHeader {
            version: Version::MPEG1,
            layer: Layer::LayerIII,
            bitrate: 40,
            sampling_rate: 44100,
            crc: None,
            frame_bytes: 130,
            private_bit: false,
            channel_mode: ChannelMode::Mono,
            intensity_stereo: false,
            ms_stereo: false,
            copyright: false,
            original: true,
            emphasis: Emphasis::NoEmphasis,
        }
    );

    let result = FrameHeader::read(b"\xFF\xFB\x10\xC4").unwrap();
    assert_eq!(
        result,
        FrameHeader {
            version: Version::MPEG1,
            layer: Layer::LayerIII,
            bitrate: 32,
            sampling_rate: 44100,
            crc: None,
            frame_bytes: 104,
            private_bit: false,
            channel_mode: ChannelMode::Mono,
            intensity_stereo: false,
            ms_stereo: false,
            copyright: false,
            original: true,
            emphasis: Emphasis::NoEmphasis,
        }
    );
}

#[test]
fn test_header_too_short() {
    assert_eq!(
        FrameHeader::read(b"\xFF\xFB\x90"),
        Err(DecodingError::UnexpectedEndOfStream)
    );
}

#[test]
fn test_header_bad_sync() {
    assert_eq!(
        FrameHeader::read(b"\x12\x34\x56\x78"),
        Err(DecodingError::InvalidFrameHeader)
    );
}

#[test]
fn test_header_unsupported_version() {
    // Sync intact, version bits 00 (MPEG-2.5).
    assert_eq!(
        FrameHeader::read(b"\xFF\xE2\x90\xC4"),
        Err(DecodingError::UnsupportedVersion)
    );
}

#[test]
fn test_header_unsupported_layer() {
    // Version 11 (MPEG-1), layer bits 11 (reserved).
    assert_eq!(
        FrameHeader::read(b"\xFF\xFF\x90\xC4"),
        Err(DecodingError::UnsupportedLayer)
    );
}

#[test]
fn test_header_unsupported_bitrate() {
    // Bitrate code 0 (free) and 15 (reserved).
    assert_eq!(
        FrameHeader::read(b"\xFF\xFB\x00\xC4"),
        Err(DecodingError::UnsupportedBitrate)
    );
    assert_eq!(
        FrameHeader::read(b"\xFF\xFB\xF0\xC4"),
        Err(DecodingError::UnsupportedBitrate)
    );
}

#[test]
fn test_header_unsupported_sampling_rate() {
    // Sampling-rate code 11 (reserved).
    assert_eq!(
        FrameHeader::read(b"\xFF\xFB\x9C\xC4"),
        Err(DecodingError::UnsupportedSamplingRate)
    );
}

#[test]
fn test_header_unsupported_emphasis() {
    // Emphasis code 10 (reserved).
    assert_eq!(
        FrameHeader::read(b"\xFF\xFB\x90\xC6"),
        Err(DecodingError::UnsupportedEmphasis)
    );
}

#[test]
fn test_header_with_crc() {
    // Protection bit 0: the 16-bit CRC follows the header word.
    assert_eq!(
        FrameHeader::read(b"\xFF\xFA\x90\xC4"),
        Err(DecodingError::UnexpectedEndOfStream)
    );

    let header = FrameHeader::read(b"\xFF\xFA\x90\xC4\xAB\xCD").unwrap();
    assert_eq!(header.crc, Some(0xABCD));
    assert_eq!(header.len(), 6);

    let header = FrameHeader::read(b"\xFF\xFB\x90\xC4").unwrap();
    assert_eq!(header.crc, None);
    assert_eq!(header.len(), 4);
}

#[test]
fn test_header_joint_stereo_flags() {
    // Channel mode 01 (joint stereo); mode extension swept over its codes.
    let header = FrameHeader::read(b"\xFF\xFB\x90\x44").unwrap();
    assert_eq!(header.channel_mode, ChannelMode::JointStereo);
    assert_eq!((header.intensity_stereo, header.ms_stereo), (true, false));

    let header = FrameHeader::read(b"\xFF\xFB\x90\x54").unwrap();
    assert_eq!((header.intensity_stereo, header.ms_stereo), (false, true));

    let header = FrameHeader::read(b"\xFF\xFB\x90\x64").unwrap();
    assert_eq!((header.intensity_stereo, header.ms_stereo), (false, false));

    let header = FrameHeader::read(b"\xFF\xFB\x90\x74").unwrap();
    assert_eq!((header.intensity_stereo, header.ms_stereo), (false, false));

    // For any other channel mode both flags stay false.
    let header = FrameHeader::read(b"\xFF\xFB\x90\x04").unwrap();
    assert_eq!(header.channel_mode, ChannelMode::Stereo);
    assert_eq!((header.intensity_stereo, header.ms_stereo), (false, false));
}
