//! Image normalization: decode, optional resize, alpha-bleed, re-encode.
//!
//! Decoding, resampling and PNG encoding are done by the image crate
//! behind trusted wrappers; their results are named, not restated. The
//! alpha-bleed step in between is this library's own verified logic.
//! Resizing happens before bleeding, never after: resampling changes
//! which pixels are fully transparent, and bleeding must see the final
//! alpha channel.

use vstd::prelude::*;

use crate::api::RobloxApiError;
use crate::raster::{spec_bleed, alpha_bleed, Pixel, Raster};

verus! {

/// The byte length of an RGBA raster of the given dimensions.
pub open spec fn spec_rgba_len(w: u32, h: u32) -> int {
    4 * ((w as int) * (h as int))
}

/// What the image crate decodes the given bytes to, as width, height and
/// RGBA data — or nothing, when the bytes are not a readable image.
pub uninterp spec fn spec_decoded(bytes: Seq<u8>) -> Option<(u32, u32, Seq<u8>)>;

/// What the image crate's Gaussian resampling makes of an RGBA raster
/// when resized to the target dimensions.
pub uninterp spec fn spec_resized(w: u32, h: u32, data: Seq<u8>, tw: u32, th: u32) -> Seq<u8>;

/// What the image crate's PNG encoder writes for an RGBA raster.
pub uninterp spec fn spec_png_encoded(w: u32, h: u32, data: Seq<u8>) -> Seq<u8>;

/// Whether the PNG encoder accepts an RGBA raster of these dimensions
/// and data. It accepts every correctly-sized raster with nonzero
/// dimensions.
pub uninterp spec fn spec_png_ok(w: u32, h: u32, data: Seq<u8>) -> bool;

/// Relies on image::load_from_memory and DynamicImage::to_rgba8: decodes
/// any supported format into an RGBA raster whose buffer holds exactly
/// four bytes per pixel.
#[verifier::external_body]
fn decode_rgba(bytes: &Vec<u8>) -> (r: Option<(u32, u32, Vec<u8>)>)
    ensures
        r is Some <==> spec_decoded(bytes@) is Some,
        r matches Some(t) ==> (spec_decoded(bytes@) matches Some(u) && t.0 == u.0 && t.1 == u.1
            && t.2@ == u.2 && t.2@.len() == spec_rgba_len(t.0, t.1)),
{
    match image::load_from_memory(bytes.as_slice()) {
        Ok(img) => {
            let rgba = img.to_rgba8();
            let (w, h) = rgba.dimensions();
            Some((w, h, rgba.into_raw()))
        },
        Err(_) => None,
    }
}

/// Relies on image::imageops::resize with the Gaussian filter, and on
/// ImageBuffer::from_raw accepting a buffer of exactly the right size:
/// resamples the raster to the target dimensions. A target whose RGBA
/// buffer would not fit in memory is excluded: the image crate refuses
/// such a buffer by panicking rather than allocating.
#[verifier::external_body]
fn resize_rgba(w: u32, h: u32, data: &Vec<u8>, tw: u32, th: u32) -> (r: Option<Vec<u8>>)
    requires
        data@.len() == spec_rgba_len(w, h),
        spec_rgba_len(tw, th) <= usize::MAX,
    ensures
        r is Some,
        r matches Some(v) ==> v@ == spec_resized(w, h, data@, tw, th) && v@.len() == spec_rgba_len(
            tw,
            th,
        ),
{
    let buf = match image::RgbaImage::from_raw(w, h, data.clone()) {
        Some(b) => b,
        None => {
            return None;
        },
    };
    let out = image::imageops::resize(&buf, tw, th, image::imageops::FilterType::Gaussian);
    Some(out.into_raw())
}

/// Relies on image::codecs::png::PngEncoder::write_image: encodes an
/// RGBA raster of exactly the stated dimensions as PNG. The png encoder
/// accepts every correctly-sized RGBA raster whose dimensions are both
/// nonzero, and refuses one with a zero dimension.
#[verifier::external_body]
fn encode_png_rgba(w: u32, h: u32, data: &Vec<u8>) -> (r: Option<Vec<u8>>)
    requires
        data@.len() == spec_rgba_len(w, h),
    ensures
        r is Some <==> spec_png_ok(w, h, data@),
        w > 0 && h > 0 ==> r is Some,
        r matches Some(v) ==> v@ == spec_png_encoded(w, h, data@),
{
    let mut out: Vec<u8> = Vec::new();
    let enc = image::codecs::png::PngEncoder::new(&mut out);
    let ct = image::ExtendedColorType::Rgba8;
    image::ImageEncoder::write_image(enc, data.as_slice(), w, h, ct).ok()?;
    Some(out)
}

/// The pixels of an interleaved RGBA buffer.
pub open spec fn spec_pixels_of(data: Seq<u8>) -> Seq<Pixel> {
    Seq::new(
        data.len() / 4,
        |i: int|
            Pixel { r: data[4 * i], g: data[4 * i + 1], b: data[4 * i + 2], a: data[4 * i + 3] },
    )
}

/// The interleaved RGBA buffer of a pixel sequence.
pub open spec fn spec_raw_of(pixels: Seq<Pixel>) -> Seq<u8> {
    Seq::new(
        pixels.len() * 4,
        |k: int|
            {
                let p = pixels[k / 4];
                if k % 4 == 0 {
                    p.r
                } else if k % 4 == 1 {
                    p.g
                } else if k % 4 == 2 {
                    p.b
                } else {
                    p.a
                }
            },
    )
}

/// Splits an interleaved RGBA buffer into pixels.
fn pixels_from_raw(data: &Vec<u8>) -> (r: Vec<Pixel>)
    requires
        data@.len() % 4 == 0,
    ensures
        r@ == spec_pixels_of(data@),
{
    let len = data.len();
    let n = len / 4;
    let mut out: Vec<Pixel> = Vec::new();
    let mut i: usize = 0;
    while i < n
        invariant
            len == data@.len(),
            len % 4 == 0,
            n == len / 4,
            0 <= i <= n,
            out@.len() == i,
            forall|k: int| 0 <= k < i ==> out@[k] == spec_pixels_of(data@)[k],
        decreases n - i,
    {
        let p = Pixel {
            r: data[4 * i],
            g: data[4 * i + 1],
            b: data[4 * i + 2],
            a: data[4 * i + 3],
        };
        out.push(p);
        i = i + 1;
    }
    proof {
        assert(out@ =~= spec_pixels_of(data@));
    }
    out
}

/// Interleaves pixels back into an RGBA buffer.
fn raw_from_pixels(pixels: &Vec<Pixel>) -> (r: Vec<u8>)
    ensures
        r@ == spec_raw_of(pixels@),
{
    let n = pixels.len();
    let mut out: Vec<u8> = Vec::new();
    let mut i: usize = 0;
    while i < n
        invariant
            n == pixels@.len(),
            0 <= i <= n,
            out@.len() == 4 * i,
            forall|k: int| 0 <= k < 4 * i ==> out@[k] == spec_raw_of(pixels@)[k],
        decreases n - i,
    {
        let p = pixels[i];
        out.push(p.r);
        out.push(p.g);
        out.push(p.b);
        out.push(p.a);
        proof {
            assert forall|k: int| 0 <= k < 4 * (i + 1) implies out@[k] == spec_raw_of(
                pixels@,
            )[k] by {
                if k >= 4 * i {
                    assert(k / 4 == i as int);
                    assert(spec_raw_of(pixels@)[k] == {
                        let p2 = pixels@[i as int];
                        if k % 4 == 0 {
                            p2.r
                        } else if k % 4 == 1 {
                            p2.g
                        } else if k % 4 == 2 {
                            p2.b
                        } else {
                            p2.a
                        }
                    });
                }
            }
        }
        i = i + 1;
    }
    proof {
        assert(out@ =~= spec_raw_of(pixels@));
    }
    out
}

/// What normalization produces before encoding: the final width and
/// height (the resize target when one is given, the decoded size
/// otherwise) and the alpha-bled RGBA data of the — possibly resampled —
/// raster. `None` when the bytes do not decode.
pub open spec fn spec_normalized(raw: Seq<u8>, resize_to: Option<(u32, u32)>) -> Option<
    (u32, u32, Seq<u8>),
> {
    match spec_decoded(raw) {
        None => None,
        Some(d) => {
            let fw = match resize_to {
                Some(t) => t.0,
                None => d.0,
            };
            let fh = match resize_to {
                Some(t) => t.1,
                None => d.1,
            };
            let fdata = match resize_to {
                Some(t) => spec_resized(d.0, d.1, d.2, t.0, t.1),
                None => d.2,
            };
            Some((fw, fh, spec_raw_of(spec_bleed(spec_pixels_of(fdata), fw as int))))
        },
    }
}

/// Normalizes raw image bytes into upload-ready PNG bytes: decode,
/// resample to the target when one is given, alpha-bleed, re-encode.
///
/// Resampling comes before bleeding, so bleeding sees the final alpha
/// channel; the encoded output has exactly the final dimensions. Bytes
/// that do not decode are `DecodeError`; a raster the encoder refuses —
/// never one with nonzero dimensions — is `EncodeError`; nothing else
/// fails. A resize target whose RGBA buffer would not fit in memory is
/// excluded, as the resampler cannot build it.
pub fn normalize(raw: &Vec<u8>, resize_to: Option<(u32, u32)>) -> (r: Result<
    Vec<u8>,
    RobloxApiError,
>)
    requires
        resize_to matches Some(t) ==> spec_rgba_len(t.0, t.1) <= usize::MAX,
    ensures
        spec_decoded(raw@) is None <==> r == Err::<Vec<u8>, _>(RobloxApiError::DecodeError),
        spec_normalized(raw@, resize_to) matches Some(t) ==> (r is Ok <==> spec_png_ok(
            t.0,
            t.1,
            t.2,
        )),
        spec_normalized(raw@, resize_to) matches Some(t) && t.0 > 0 && t.1 > 0 ==> r is Ok,
        r matches Ok(v) ==> (spec_normalized(raw@, resize_to) matches Some(t) && v@
            == spec_png_encoded(t.0, t.1, t.2)),
        r matches Err(e) ==> (e == RobloxApiError::DecodeError || e == RobloxApiError::EncodeError),
{
    let (w, h, data) = match decode_rgba(raw) {
        Some(t) => t,
        None => {
            return Err(RobloxApiError::DecodeError);
        },
    };
    let (fw, fh, fdata) = match resize_to {
        Some((tw, th)) => {
            match resize_rgba(w, h, &data, tw, th) {
                Some(v) => (tw, th, v),
                None => {
                    proof {
                        assert(false);
                    }
                    (tw, th, Vec::new())
                },
            }
        },
        None => (w, h, data),
    };
    proof {
        assert(fdata@.len() == spec_rgba_len(fw, fh));
        assert(fdata@.len() % 4 == 0);
    }
    let pixels = pixels_from_raw(&fdata);
    let mut raster = Raster { width: fw, height: fh, pixels };
    proof {
        assert(raster.pixels@.len() == (fw as int) * (fh as int));
    }
    alpha_bleed(&mut raster);
    let bled = raw_from_pixels(&raster.pixels);
    proof {
        assert(bled@.len() == spec_rgba_len(fw, fh));
    }
    match encode_png_rgba(fw, fh, &bled) {
        Some(v) => Ok(v),
        None => Err(RobloxApiError::EncodeError),
    }
}

} // verus!
