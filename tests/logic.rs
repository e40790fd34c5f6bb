use webp_boxed::colorspace::{
    bytes_per_pixel, WebPIsAlphaMode, WebPIsPremultipliedMode, WebPIsRGBMode, WEBP_CSP_MODE,
};
use webp_boxed::error::{check_status, VP8StatusCode, WebPError, WebPSimpleError};
use webp_boxed::format::{
    WebPAnimInfo, WebPChunkId, WebPMuxAnimParams, MKFOURCC, WEBP_ABI_IS_INCOMPATIBLE,
};
use webp_boxed::layout::{WebPDecBuffer, WebPDecBufferRegions};
use webp_boxed::memory::{
    WebPData, WebPDataClear, WebPDataCopy, WebPDataInit, WebPMemoryWrite, WebPMemoryWriter,
    WebPMemoryWriterClear, WebPMemoryWriterInit,
};

#[test]
fn encode_test_new_and_delete() {
    let mut buf = WebPMemoryWriter::new();
    WebPMemoryWriterInit(&mut buf);
    WebPMemoryWriterClear(&mut buf);
    assert_eq!(buf.size(), 0);
}

#[test]
fn memory_writer_appends() {
    let mut w = WebPMemoryWriter::new();
    WebPMemoryWriterInit(&mut w);
    assert!(WebPMemoryWrite(b"RIFF", &mut w));
    assert!(WebPMemoryWrite(b"", &mut w));
    assert!(WebPMemoryWrite(b"WEBP", &mut w));
    assert_eq!(w.as_slice(), b"RIFFWEBP");
    assert_eq!(w.size(), 8);
    WebPMemoryWriterClear(&mut w);
    assert_eq!(w.size(), 0);
}

#[test]
fn data_copy_init_clear() {
    let src = WebPData { bytes: vec![1, 2, 3] };
    let mut dst = WebPData { bytes: vec![9] };
    assert!(WebPDataCopy(&src, &mut dst));
    assert_eq!(dst.bytes, vec![1, 2, 3]);
    assert_eq!(dst.size(), 3);
    WebPDataClear(&mut dst);
    assert_eq!(dst.size(), 0);
    let mut other = src.clone();
    WebPDataInit(&mut other);
    assert!(other.bytes.is_empty());
}

#[test]
fn fourcc_packs_little_endian() {
    assert_eq!(MKFOURCC(b'R', b'I', b'F', b'F'), 0x4646_4952);
    assert_eq!(MKFOURCC(b'V', b'P', b'8', b'L'), u32::from_le_bytes(*b"VP8L"));
    assert_eq!(MKFOURCC(0, 0, 0, 0), 0);
    assert_eq!(MKFOURCC(255, 255, 255, 255), u32::MAX);
}

#[test]
fn abi_compatibility_goes_by_major_byte() {
    assert!(!WEBP_ABI_IS_INCOMPATIBLE(0x0209, 0x0208));
    assert!(!WEBP_ABI_IS_INCOMPATIBLE(0x0200, 0x02ff));
    assert!(WEBP_ABI_IS_INCOMPATIBLE(0x0209, 0x0309));
    assert!(WEBP_ABI_IS_INCOMPATIBLE(0x00ff, 0x0100));
}

#[test]
fn chunk_ids_from_tags() {
    assert_eq!(WebPChunkId::from_fourcc(u32::from_le_bytes(*b"VP8X")), WebPChunkId::WEBP_CHUNK_VP8X);
    assert_eq!(WebPChunkId::from_fourcc(u32::from_le_bytes(*b"VP8 ")), WebPChunkId::WEBP_CHUNK_IMAGE);
    assert_eq!(WebPChunkId::from_fourcc(u32::from_le_bytes(*b"VP8L")), WebPChunkId::WEBP_CHUNK_IMAGE);
    assert_eq!(WebPChunkId::from_fourcc(u32::from_le_bytes(*b"ALPH")), WebPChunkId::WEBP_CHUNK_ALPHA);
    assert_eq!(WebPChunkId::from_fourcc(u32::from_le_bytes(*b"ANMF")), WebPChunkId::WEBP_CHUNK_ANMF);
    assert_eq!(WebPChunkId::from_fourcc(u32::from_le_bytes(*b"XMP ")), WebPChunkId::WEBP_CHUNK_XMP);
    assert_eq!(WebPChunkId::from_fourcc(u32::from_le_bytes(*b"RIFF")), WebPChunkId::WEBP_CHUNK_UNKNOWN);
}

#[test]
fn animation_limits() {
    let info = WebPAnimInfo { canvas_width: 400, canvas_height: 400, loop_count: 0, bgcolor: 0, frame_count: 10 };
    assert!(info.is_valid());
    assert!(!WebPAnimInfo { canvas_width: 0, ..info }.is_valid());
    assert!(!WebPAnimInfo { canvas_width: 0x100_0001, ..info }.is_valid());
    assert!(!WebPAnimInfo { canvas_width: 0x100_0000, canvas_height: 0x100_0000, ..info }.is_valid());
    assert!(WebPAnimInfo { canvas_width: 0x100_0000, canvas_height: 0xff, ..info }.is_valid());
    assert!(!WebPAnimInfo { loop_count: 0x1_0000, ..info }.is_valid());
    assert!(WebPMuxAnimParams { bgcolor: 0xffff_ffff, loop_count: 0 }.is_valid());
    assert!(!WebPMuxAnimParams { bgcolor: 0, loop_count: -1 }.is_valid());
    assert!(!WebPMuxAnimParams { bgcolor: 0, loop_count: 0x1_0000 }.is_valid());
}

#[test]
fn status_codes_map_to_failures() {
    assert_eq!(check_status(VP8StatusCode::VP8_STATUS_OK), Ok(()));
    assert_eq!(check_status(VP8StatusCode::VP8_STATUS_OUT_OF_MEMORY), Err(WebPError::OutOfMemory));
    assert_eq!(check_status(VP8StatusCode::VP8_STATUS_INVALID_PARAM), Err(WebPError::InvalidParam));
    assert_eq!(check_status(VP8StatusCode::VP8_STATUS_BITSTREAM_ERROR), Err(WebPError::BitstreamError));
    assert_eq!(check_status(VP8StatusCode::VP8_STATUS_UNSUPPORTED_FEATURE), Err(WebPError::UnsupportedFeature));
    assert_eq!(check_status(VP8StatusCode::VP8_STATUS_SUSPENDED), Err(WebPError::Suspended));
    assert_eq!(check_status(VP8StatusCode::VP8_STATUS_USER_ABORT), Err(WebPError::UserAbort));
    assert_eq!(check_status(VP8StatusCode::VP8_STATUS_NOT_ENOUGH_DATA), Err(WebPError::NotEnoughData));
}

#[test]
fn status_values_round_trip() {
    for raw in 0..8u32 {
        let s = VP8StatusCode::from_raw(raw).unwrap();
        assert_eq!(s.into_raw(), raw);
        if raw != 0 {
            assert_eq!(check_status(s).unwrap_err().status(), Some(s));
        }
    }
    assert_eq!(VP8StatusCode::from_raw(8), None);
    assert_eq!(WebPError::from_simple(WebPSimpleError).status(), None);
}

#[test]
fn error_classes() {
    assert!(WebPError::BitstreamError.is_malformed_input());
    assert!(WebPError::NotEnoughData.is_malformed_input());
    assert!(!WebPError::OutOfMemory.is_malformed_input());
    assert!(WebPError::OutOfMemory.is_limit());
    assert!(WebPError::UnsupportedFeature.is_limit());
    assert!(!WebPError::Unclassified.is_limit());
    assert_eq!(WebPError::Unclassified.message(), "WebP format error");
}

#[test]
fn colorspace_predicates() {
    let all = [
        WEBP_CSP_MODE::MODE_RGB, WEBP_CSP_MODE::MODE_RGBA, WEBP_CSP_MODE::MODE_BGR, WEBP_CSP_MODE::MODE_BGRA, WEBP_CSP_MODE::MODE_ARGB, WEBP_CSP_MODE::MODE_RGBA_4444, WEBP_CSP_MODE::MODE_RGB_565,
        WEBP_CSP_MODE::MODE_rgbA, WEBP_CSP_MODE::MODE_bgrA, WEBP_CSP_MODE::MODE_Argb, WEBP_CSP_MODE::MODE_rgbA_4444, WEBP_CSP_MODE::MODE_YUV, WEBP_CSP_MODE::MODE_YUVA,
    ];
    let alpha = [false, true, false, true, true, true, false, true, true, true, true, false, true];
    let premul = [false, false, false, false, false, false, false, true, true, true, true, false, false];
    let bpp = [3, 4, 3, 4, 4, 2, 2, 4, 4, 4, 2, 1, 1];
    for (i, m) in all.iter().enumerate() {
        assert_eq!(WebPIsAlphaMode(*m), alpha[i]);
        assert_eq!(WebPIsPremultipliedMode(*m), premul[i]);
        assert_eq!(WebPIsRGBMode(*m), i < 11);
        assert_eq!(bytes_per_pixel(*m), bpp[i]);
        assert_eq!(m.into_raw(), i as u32);
        assert_eq!(WEBP_CSP_MODE::from_raw(i as u32), Some(*m));
    }
    assert_eq!(WEBP_CSP_MODE::from_raw(13), None);
}

#[test]
fn packed_layout_sizes() {
    let b = WebPDecBuffer::packed(WEBP_CSP_MODE::MODE_RGBA, 3, 2).unwrap();
    assert_eq!((b.width, b.height), (3, 2));
    match b.u {
        WebPDecBufferRegions::RGBA(p) => assert_eq!((p.stride, p.size), (12, 24)),
        WebPDecBufferRegions::YUVA(_) => panic!("packed layout expected"),
    }
    let b = WebPDecBuffer::packed(WEBP_CSP_MODE::MODE_RGB_565, 5, 7).unwrap();
    match b.u {
        WebPDecBufferRegions::RGBA(p) => assert_eq!((p.stride, p.size), (10, 70)),
        WebPDecBufferRegions::YUVA(_) => panic!("packed layout expected"),
    }
    assert!(WebPDecBuffer::packed(WEBP_CSP_MODE::MODE_RGBA, 0x4000_0000, 1).is_none());
}

#[test]
fn planar_layout_sizes() {
    let b = WebPDecBuffer::planar(3, 5, 4, 2).unwrap();
    assert_eq!(b.colorspace, WEBP_CSP_MODE::MODE_YUV);
    match b.u {
        WebPDecBufferRegions::YUVA(p) => {
            assert_eq!((p.y_size, p.u_size, p.v_size, p.a_size), (20, 6, 6, 0));
        }
        WebPDecBufferRegions::RGBA(_) => panic!("planar layout expected"),
    }
    assert!(WebPDecBuffer::planar(3, 5, 2, 2).is_none());
}
