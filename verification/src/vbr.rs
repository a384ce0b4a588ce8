//! Recognition and decoding of the optional Xing variable-bitrate tag
//! embedded in the payload of a stream's first frame: a 4-byte signature at
//! the end of the side-info region, a 4-bit tag mask, then the announced
//! fields in fixed order (frame count, file size, 100-byte seek table,
//! quality scale), each present exactly when its mask bit is set.

use vstd::prelude::*;

use crate::header::{FrameHeader, Version};
use crate::side_info::{spec_side_info_len, SideInfo};
use crate::{be_u32, read_u32, DecodingError};

verus! {

/// The optional variable-bitrate index of a stream, decoded once from the
/// first frame; immutable, never updated as decoding proceeds.
#[derive(Debug, Clone, PartialEq, Eq)]
pub struct VbrInfo {
    /// Total frame count, when announced by the tag mask.
    pub frames: Option<u32>,
    /// Total byte size of the stream, when announced.
    pub filesize: Option<u32>,
    /// Seek table mapping percentile position to byte-offset percentile,
    /// when announced.
    pub toc: Option<Box<[u8; 100]>>,
    /// Overall encoder quality indicator, when announced.
    pub vbr_scale: Option<u32>,
}

/// The tag-mask bit announcing the frame count.
pub open spec fn tag_frames(tags: u32) -> bool {
    tags & 1u32 == 1u32
}

/// The tag-mask bit announcing the file size.
pub open spec fn tag_filesize(tags: u32) -> bool {
    tags & 2u32 == 2u32
}

/// The tag-mask bit announcing the seek table.
pub open spec fn tag_toc(tags: u32) -> bool {
    tags & 4u32 == 4u32
}

/// The tag-mask bit announcing the quality scale.
pub open spec fn tag_vbr_scale(tags: u32) -> bool {
    tags & 8u32 == 8u32
}

/// Byte offset of the file-size field behind the tag mask.
pub open spec fn filesize_offset(tags: u32) -> int {
    4 + if tag_frames(tags) {
        4int
    } else {
        0int
    }
}

/// Byte offset of the seek table behind the tag mask.
pub open spec fn toc_offset(tags: u32) -> int {
    filesize_offset(tags) + if tag_filesize(tags) {
        4int
    } else {
        0int
    }
}

/// Byte offset of the quality scale behind the tag mask.
pub open spec fn vbr_scale_offset(tags: u32) -> int {
    toc_offset(tags) + if tag_toc(tags) {
        100int
    } else {
        0int
    }
}

/// Total byte length of the tag mask and every announced field.
pub open spec fn vbr_info_len(tags: u32) -> int {
    vbr_scale_offset(tags) + if tag_vbr_scale(tags) {
        4int
    } else {
        0int
    }
}

/// Each field of `v` holds the bytes of `s` at its fixed offset exactly when
/// its bit of the tag mask (the first four bytes of `s`) is set.
pub open spec fn spec_vbr_fields(s: Seq<u8>, v: VbrInfo) -> bool {
    let tags = be_u32(s);
    &&& v.frames == if tag_frames(tags) {
        Some(be_u32(s.skip(4)))
    } else {
        None::<u32>
    }
    &&& v.filesize == if tag_filesize(tags) {
        Some(be_u32(s.skip(filesize_offset(tags))))
    } else {
        None::<u32>
    }
    &&& if tag_toc(tags) {
        &&& v.toc matches Some(t)
        &&& t@ == s.subrange(toc_offset(tags), toc_offset(tags) + 100)
    } else {
        v.toc is None
    }
    &&& v.vbr_scale == if tag_vbr_scale(tags) {
        Some(be_u32(s.skip(vbr_scale_offset(tags))))
    } else {
        None::<u32>
    }
}

/// What decoding the fields behind the Xing signature from `s` yields: the
/// announced fields, or an end-of-stream failure exactly when `s` is shorter
/// than the tag mask and every announced field require.
pub open spec fn vbr_info_post(s: Seq<u8>, r: Result<VbrInfo, DecodingError>) -> bool {
    if s.len() < 4 || s.len() < vbr_info_len(be_u32(s)) {
        r == Err::<VbrInfo, DecodingError>(DecodingError::UnexpectedEndOfStream)
    } else {
        &&& r matches Ok(v)
        &&& spec_vbr_fields(s, v)
    }
}

/// The ASCII bytes `Xing` read as a big-endian 32-bit word.
pub open spec fn xing_signature() -> u32 {
    0x5869_6e67u32
}

/// Whether the first frame's payload `s` carries the Xing signature right
/// after the side-info region for `header`'s channel mode.
pub open spec fn xing_present(header: FrameHeader, s: Seq<u8>) -> bool {
    &&& s.len() >= spec_side_info_len(header) + 4
    &&& be_u32(s.skip(spec_side_info_len(header))) == xing_signature()
}

impl VbrInfo {
    /// Decodes the tag mask and the fields it announces, in fixed order.
    fn read_info(data: &[u8]) -> (r: Result<Self, DecodingError>)
        ensures
            vbr_info_post(data@, r),
    {
        let ghost s = data@;
        let mut rest: &[u8] = data;
        let tags = match read_u32(&mut rest) {
            Ok(v) => v,
            Err(e) => {
                return Err(e);
            },
        };
        let frames_announced = tags & 1 == 1;
        let filesize_announced = tags & 2 == 2;
        let toc_announced = tags & 4 == 4;
        let vbr_scale_announced = tags & 8 == 8;

        let frames = if frames_announced {
            let v = match read_u32(&mut rest) {
                Ok(v) => v,
                Err(e) => {
                    return Err(e);
                },
            };
            proof {
                assert(s.skip(4).skip(4) =~= s.skip(8));
            }
            Some(v)
        } else {
            None
        };
        proof {
            assert(rest@ == s.skip(filesize_offset(tags)));
        }

        let filesize = if filesize_announced {
            let v = match read_u32(&mut rest) {
                Ok(v) => v,
                Err(e) => {
                    return Err(e);
                },
            };
            proof {
                assert(s.skip(filesize_offset(tags)).skip(4) =~= s.skip(
                    filesize_offset(tags) + 4,
                ));
            }
            Some(v)
        } else {
            None
        };
        proof {
            assert(rest@ == s.skip(toc_offset(tags)));
        }

        let toc = if toc_announced {
            if rest.len() < 100 {
                return Err(DecodingError::UnexpectedEndOfStream);
            }
            let mut table = [0u8; 100];
            let mut idx: usize = 0;
            while idx < 100
                invariant
                    idx <= 100,
                    rest@.len() >= 100,
                    table@.len() == 100,
                    forall|k: int| 0 <= k < idx ==> table@[k] == rest@[k],
                decreases 100 - idx,
            {
                table[idx] = rest[idx];
                idx += 1;
            }
            proof {
                assert(table@ =~= rest@.subrange(0, 100));
                assert(s.skip(toc_offset(tags)).subrange(0, 100) =~= s.subrange(
                    toc_offset(tags),
                    toc_offset(tags) + 100,
                ));
            }
            rest = &rest[100..rest.len()];
            proof {
                assert(s.skip(toc_offset(tags)).subrange(
                    100,
                    s.skip(toc_offset(tags)).len() as int,
                ) =~= s.skip(toc_offset(tags) + 100));
            }
            Some(Box::new(table))
        } else {
            None
        };
        proof {
            assert(rest@ == s.skip(vbr_scale_offset(tags)));
        }

        let vbr_scale = if vbr_scale_announced {
            match read_u32(&mut rest) {
                Ok(v) => Some(v),
                Err(e) => {
                    return Err(e);
                },
            }
        } else {
            None
        };

        Ok(VbrInfo { frames, filesize, toc, vbr_scale })
    }

    /// Probes the first frame's payload `data` (the bytes just after the
    /// frame header) for a Xing tag: `None` when the signature is absent or
    /// the payload too short to hold it, which is the ordinary constant-
    /// bitrate case; otherwise the decoded tag, or its decode failure.
    pub fn read(header: &FrameHeader, data: &[u8]) -> (r: Option<
        Result<VbrInfo, DecodingError>,
    >)
        ensures
            header.version != Version::MPEG1 ==> r == Some(
                Err::<VbrInfo, DecodingError>(DecodingError::UnsupportedVersion),
            ),
            header.version == Version::MPEG1 && !xing_present(*header, data@) ==> r is None,
            header.version == Version::MPEG1 && xing_present(*header, data@) ==> (r matches Some(
                inner,
            ) && vbr_info_post(data@.skip(spec_side_info_len(*header) + 4), inner)),
    {
        match header.version {
            Version::MPEG1 => {},
            _ => {
                return Some(Err(DecodingError::UnsupportedVersion));
            },
        }
        let side_info_len = SideInfo::len(header);
        if data.len() < side_info_len + 4 {
            return None;
        }
        let mut rest: &[u8] = &data[side_info_len..data.len()];
        proof {
            assert(rest@ =~= data@.skip(spec_side_info_len(*header)));
        }
        let signature = match read_u32(&mut rest) {
            Ok(v) => v,
            Err(_) => {
                return None;
            },
        };
        if signature != 0x5869_6e67u32 {
            return None;
        }
        proof {
            assert(data@.skip(spec_side_info_len(*header)).skip(4) =~= data@.skip(
                spec_side_info_len(*header) + 4,
            ));
        }
        Some(Self::read_info(rest))
    }
}

} // verus!
