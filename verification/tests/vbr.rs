use mp3dec::header::FrameHeader;
use mp3dec::vbr::VbrInfo;
use mp3dec::DecodingError;

/// The seek table of the fixture stream: percentile byte offsets in three
/// plateaus.
fn fixture_toc() -> [u8; 100] {
    let mut toc = [0u8; 100];
    for i in 1..=33 {
        toc[i] = 152;
    }
    for i in 34..=66 {
        toc[i] = 179;
    }
    for i in 67..=99 {
        toc[i] = 255;
    }
    toc
}

/// A first-frame payload (the bytes after the 4-byte header): a zeroed
/// side-info region, then a Xing tag announcing all four fields.
fn fixture_payload() -> Vec<u8> {
    let mut payload = vec![0u8; 17];
    payload.extend_from_slice(b"Xing");
    payload.extend_from_slice(&0b1111u32.to_be_bytes());
    payload.extend_from_slice(&3u32.to_be_bytes());
    payload.extend_from_slice(&1643u32.to_be_bytes());
    payload.extend_from_slice(&fixture_toc());
    payload.extend_from_slice(&80u32.to_be_bytes());
    payload
}

#[test]
fn test_vbr_info() {
    let header = FrameHeader::read(b"\xFF\xFB\x90\xC4").unwrap();
    let payload = fixture_payload();
    let vbr_info = VbrInfo::read(&header, &payload).unwrap().unwrap();
    assert_eq!(vbr_info.frames, Some(3));
    assert_eq!(vbr_info.filesize, Some(1643));
    assert_eq!(
        vbr_info.toc,
        Some(Box::new([
            0, 152, 152, 152, 152, 152, 152, 152, 152, 152, 152, 152, 152, 152, 152, 152, 152, 152, 152,
            152, 152, 152, 152, 152, 152, 152, 152, 152, 152, 152, 152, 152, 152, 152, 179, 179, 179, 179,
            179, 179, 179, 179, 179, 179, 179, 179, 179, 179, 179, 179, 179, 179, 179, 179, 179, 179, 179,
            179, 179, 179, 179, 179, 179, 179, 179, 179, 179, 255, 255, 255, 255, 255, 255, 255, 255, 255,
            255, 255, 255, 255, 255, 255, 255, 255, 255, 255, 255, 255, 255, 255, 255, 255, 255, 255, 255,
            255, 255, 255, 255, 255
        ]))
    );
    assert_eq!(vbr_info.vbr_scale, Some(80));
}

#[test]
fn test_vbr_absent() {
    // No Xing signature after the side-info region: a normal CBR first frame.
    let header = FrameHeader::read(b"\xFF\xFB\x90\xC4").unwrap();
    let payload = vec![0u8; 40];
    assert!(VbrInfo::read(&header, &payload).is_none());

    // A payload too short to even hold the signature is not a VBR frame.
    let payload = vec![0u8; 19];
    assert!(VbrInfo::read(&header, &payload).is_none());
}

#[test]
fn test_vbr_partial_mask() {
    // Only the frame count and the quality scale are announced: the file
    // size and the 100-byte seek table are absent, and the quality scale
    // follows the frame count directly.
    let header = FrameHeader::read(b"\xFF\xFB\x90\xC4").unwrap();
    let mut payload = vec![0u8; 17];
    payload.extend_from_slice(b"Xing");
    payload.extend_from_slice(&0b1001u32.to_be_bytes());
    payload.extend_from_slice(&7u32.to_be_bytes());
    payload.extend_from_slice(&42u32.to_be_bytes());

    let vbr_info = VbrInfo::read(&header, &payload).unwrap().unwrap();
    assert_eq!(vbr_info.frames, Some(7));
    assert_eq!(vbr_info.filesize, None);
    assert_eq!(vbr_info.toc, None);
    assert_eq!(vbr_info.vbr_scale, Some(42));
}

#[test]
fn test_vbr_truncated() {
    // The tag announces a frame count that is not there.
    let header = FrameHeader::read(b"\xFF\xFB\x90\xC4").unwrap();
    let mut payload = vec![0u8; 17];
    payload.extend_from_slice(b"Xing");
    payload.extend_from_slice(&0b0001u32.to_be_bytes());
    payload.extend_from_slice(&[0u8; 2]);

    assert_eq!(
        VbrInfo::read(&header, &payload),
        Some(Err(DecodingError::UnexpectedEndOfStream))
    );
}
