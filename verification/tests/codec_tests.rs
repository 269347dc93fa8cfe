use image::ImageEncoder;
use tarmac::api::RobloxApiError;
use tarmac::codec::normalize;

/// Encodes an RGBA buffer as PNG bytes, for building test inputs.
fn png_of(width: u32, height: u32, data: Vec<u8>) -> Vec<u8> {
    let mut out = Vec::new();
    let enc = image::codecs::png::PngEncoder::new(&mut out);
    enc.write_image(&data, width, height, image::ExtendedColorType::Rgba8)
        .unwrap();
    out
}

fn decode(bytes: &[u8]) -> (u32, u32, Vec<u8>) {
    let img = image::load_from_memory(bytes).unwrap().to_rgba8();
    let (w, h) = img.dimensions();
    (w, h, img.into_raw())
}

#[test]
fn normalize_rejects_garbage_with_decode_error() {
    let r = normalize(&vec![1, 2, 3, 4, 5], None);
    assert!(matches!(r, Err(RobloxApiError::DecodeError)));
}

#[test]
fn normalize_keeps_opaque_image_pixels() {
    let mut data = Vec::new();
    for i in 0..16u32 {
        data.extend_from_slice(&[(i as u8) * 10, 7, 200, 255]);
    }
    let input = png_of(4, 4, data.clone());
    let out = normalize(&input, None).unwrap();
    let (w, h, decoded) = decode(&out);
    assert_eq!((w, h), (4, 4));
    assert_eq!(decoded, data);
}

#[test]
fn normalize_bleeds_rgb_into_transparent_pixels() {
    // one opaque red pixel, three fully transparent dark pixels
    let data = vec![
        255, 0, 0, 255, //
        9, 9, 9, 0, //
        9, 9, 9, 0, //
        9, 9, 9, 0,
    ];
    let input = png_of(2, 2, data);
    let out = normalize(&input, None).unwrap();
    let (w, h, decoded) = decode(&out);
    assert_eq!((w, h), (2, 2));
    assert_eq!(&decoded[0..4], &[255, 0, 0, 255]);
    for p in 1..4 {
        assert_eq!(&decoded[4 * p..4 * p + 4], &[255, 0, 0, 0]);
    }
}

#[test]
fn normalize_resizes_to_requested_dimensions() {
    let data = vec![128u8; (128 * 128 * 4) as usize];
    let input = png_of(128, 128, data);
    let out = normalize(&input, Some((64, 64))).unwrap();
    let (w, h, _) = decode(&out);
    assert_eq!((w, h), (64, 64));
}

#[test]
fn normalize_resize_keeps_opaque_alpha_channel() {
    // a fully opaque source stays fully opaque after resample and bleed:
    // no transparent pixel exists for bleeding to touch
    let mut data = Vec::new();
    for _ in 0..(128 * 128) {
        data.extend_from_slice(&[200, 100, 50, 255]);
    }
    let input = png_of(128, 128, data);
    let out = normalize(&input, Some((64, 64))).unwrap();
    let (w, h, decoded) = decode(&out);
    assert_eq!((w, h), (64, 64));
    for p in 0..(64 * 64) {
        assert_eq!(decoded[4 * p + 3], 255, "alpha at pixel {}", p);
    }
}
