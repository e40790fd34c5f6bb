use webp_boxed::colorspace::WEBP_CSP_MODE;
use webp_boxed::decode::{decode_rgba, decode_yuv, get_info};
use webp_boxed::error::WebPError;
use webp_boxed::image_io::{
    decode_with_color, into_owned_pixels, load_from_memory, with_packed_stride, probe_info, read_piece, write_image, InfoProbe,
    PixelLayout, WebpColor,
};
use webp_boxed::incremental::WebPIDecoder;
use webp_boxed::layout::WebPDecBuffer;

const WEBP_IMAGE: [u8; 94] = [
    0x52, 0x49, 0x46, 0x46, 0x56, 0x00, 0x00, 0x00, 0x57, 0x45, 0x42, 0x50, 0x56, 0x50, 0x38, 0x20,
    0x4A, 0x00, 0x00, 0x00, 0xD0, 0x01, 0x00, 0x9D, 0x01, 0x2A, 0x03, 0x00, 0x02, 0x00, 0x02, 0x00,
    0x34, 0x25, 0xA8, 0x02, 0x74, 0x01, 0x0E, 0xFE, 0x03, 0x8E, 0x00, 0x00, 0xFE, 0xAD, 0xFF, 0xF1,
    0x5C, 0xB4, 0xF8, 0xED, 0xFF, 0xF0, 0xC0, 0xBA, 0xBF, 0x93, 0x05, 0xEA, 0x0C, 0x9F, 0x93, 0x3F,
    0xE8, 0xC0, 0xBF, 0x3F, 0xFF, 0xA9, 0xBF, 0xFF, 0x24, 0x7B, 0xCB, 0xFF, 0x46, 0x05, 0xF9, 0xFF,
    0xFD, 0x4D, 0xFE, 0x30, 0xE5, 0x86, 0xAA, 0x07, 0x31, 0x23, 0x6F, 0x00, 0x00, 0x00,
];

#[test]
fn read_with_color_gives_packed_stride() {
    let (w, h, s, b) = decode_with_color(&WEBP_IMAGE, WebpColor::RGB).unwrap();
    assert_eq!((w, h, s, b.len()), (3, 2, 9, 18));
    let (w, h, s, b) = decode_with_color(&WEBP_IMAGE, WebpColor::RGBA).unwrap();
    assert_eq!((w, h, s, b.len()), (3, 2, 12, 24));
    assert_eq!(WebpColor::RGB.bytes_per_pixel(), 3);
    assert!(decode_with_color(&[], WebpColor::RGBA).is_err());
}

#[test]
fn load_copies_decoded_samples() {
    let (w, h, v) = load_from_memory(&WEBP_IMAGE, WebpColor::RGBA).unwrap();
    let (_, _, b) = decode_rgba(&WEBP_IMAGE).unwrap();
    assert_eq!((w, h), (3, 2));
    assert_eq!(&v[..], b.as_slice());
    let (_, _, v) = load_from_memory(&WEBP_IMAGE, WebpColor::RGB).unwrap();
    assert_eq!(v.len(), 18);
    assert_eq!(load_from_memory(b"not a webp image", WebpColor::RGB).err(), Some(WebPError::Unclassified));
}

#[test]
fn write_image_round_trips_size() {
    let pixels = [10u8, 20, 30].repeat(6);
    let out = write_image(&pixels, 3, 2, PixelLayout::Rgb).unwrap();
    assert_eq!(get_info(out.as_slice()), Ok((3, 2)));
    let out = write_image(&[0u8; 24], 3, 2, PixelLayout::Bgra).unwrap();
    assert_eq!(get_info(out.as_slice()), Ok((3, 2)));
    assert_eq!(write_image(&pixels, 3, 3, PixelLayout::Bgr).err(), Some(WebPError::InvalidParam));
    assert_eq!(write_image(&[], 0x4000_0000, 0, PixelLayout::Rgba).err(), Some(WebPError::InvalidParam));
}

#[test]
fn probe_needs_whole_header() {
    assert_eq!(probe_info(&WEBP_IMAGE[..10], 10), InfoProbe::NeedMore);
    assert_eq!(probe_info(&WEBP_IMAGE[..10], 0), InfoProbe::Invalid);
    assert_eq!(probe_info(&WEBP_IMAGE, 94), InfoProbe::Found(3, 2));
    assert_eq!(probe_info(&WEBP_IMAGE, 0), InfoProbe::Found(3, 2));
}

#[test]
fn read_piece_serves_in_order() {
    let image = [1u8, 2, 3, 4, 5];
    let mut out = [0u8; 2];
    let i = read_piece(&image, 0, &mut out);
    assert_eq!((i, out), (2, [1, 2]));
    let i = read_piece(&image, i, &mut out);
    assert_eq!((i, out), (4, [3, 4]));
    let i = read_piece(&image, i, &mut out);
    assert_eq!((i, out), (5, [5, 4]));
    let i = read_piece(&image, i, &mut out);
    assert_eq!((i, out), (5, [5, 4]));
}

#[test]
fn incremental_decode_reports_suspended_then_ok() {
    let mut d = WebPIDecoder::new(WEBP_CSP_MODE::MODE_RGBA).unwrap();
    assert_eq!(d.colorspace(), WEBP_CSP_MODE::MODE_RGBA);
    assert_eq!(d.append(&[]), Err(WebPError::InvalidParam));
    assert_eq!(d.append(&WEBP_IMAGE[..30]), Err(WebPError::Suspended));
    assert_eq!(d.append(&WEBP_IMAGE[30..]), Ok(()));
    let rows = d.decoded_rows().unwrap();
    assert_eq!((rows.width, rows.height, rows.last_y), (3, 2, 2));
    assert_eq!(rows.rows.len(), (rows.stride * 2) as usize);
    assert!(WebPIDecoder::new(WEBP_CSP_MODE::MODE_YUV).is_none());
}

#[test]
fn incremental_decode_reports_bitstream_error() {
    let mut d = WebPIDecoder::new(WEBP_CSP_MODE::MODE_RGB).unwrap();
    assert!(d.decoded_rows().is_none());
    let mut corrupt = WEBP_IMAGE;
    corrupt[12] = b'X';
    let r = d.append(&corrupt);
    assert_eq!(r, Err(WebPError::BitstreamError));
}

#[test]
fn yuv_decode_matches_planar_layout() {
    let (w, h, s, us, b) = decode_yuv(&WEBP_IMAGE).unwrap();
    let layout = WebPDecBuffer::planar(w, h, s, us).unwrap();
    assert!(layout.holds_planes(&b));
    let (w, h, p) = decode_rgba(&WEBP_IMAGE).unwrap();
    let layout = WebPDecBuffer::packed(WEBP_CSP_MODE::MODE_RGBA, w, h).unwrap();
    assert!(layout.holds_packed(&p));
    assert!(!layout.holds_planes(&b));
}

#[test]
fn decode_test_new_and_delete() {
    let idec = WebPIDecoder::new(WEBP_CSP_MODE::MODE_RGB);
    assert!(idec.is_some());
    drop(idec);
}

#[test]
fn packed_stride_follows_layout() {
    let d = decode_rgba(&WEBP_IMAGE);
    let expected = d.as_ref().unwrap().2.to_vec();
    let (w, h, s, b) = with_packed_stride(d, WebpColor::RGBA).unwrap();
    assert_eq!((w, h, s), (3, 2, 12));
    assert_eq!(b.to_vec(), expected);
    let (_, _, s, _) = with_packed_stride(decode_rgba(&WEBP_IMAGE), WebpColor::RGB).unwrap();
    assert_eq!(s, 9);
    assert_eq!(
        with_packed_stride(Err(WebPError::OutOfMemory), WebpColor::RGB).err(),
        Some(WebPError::OutOfMemory)
    );
}

#[test]
fn owned_pixels_copy_the_buffer() {
    let d = decode_with_color(&WEBP_IMAGE, WebpColor::RGB);
    let expected = d.as_ref().unwrap().3.to_vec();
    let (w, h, v) = into_owned_pixels(d).unwrap();
    assert_eq!((w, h), (3, 2));
    assert_eq!(v, expected);
    assert_eq!(into_owned_pixels(Err(WebPError::Suspended)).err(), Some(WebPError::Suspended));
    assert!(load_from_memory(&WEBP_IMAGE[..11], WebpColor::RGBA).is_err());
}
