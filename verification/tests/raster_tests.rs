use tarmac::raster::{alpha_bleed, Pixel, Raster};

fn px(r: u8, g: u8, b: u8, a: u8) -> Pixel {
    Pixel { r, g, b, a }
}

#[test]
fn bleed_copies_nearest_rgb_into_transparent_pixel() {
    let mut img = Raster {
        width: 2,
        height: 1,
        pixels: vec![px(200, 10, 30, 255), px(1, 2, 3, 0)],
    };
    alpha_bleed(&mut img);
    assert_eq!(img.pixels[0], px(200, 10, 30, 255));
    assert_eq!(img.pixels[1], px(200, 10, 30, 0));
}

#[test]
fn bleed_keeps_every_alpha_value() {
    let mut img = Raster {
        width: 2,
        height: 2,
        pixels: vec![px(9, 9, 9, 17), px(1, 1, 1, 0), px(2, 2, 2, 0), px(3, 3, 3, 128)],
    };
    alpha_bleed(&mut img);
    let alphas: Vec<u8> = img.pixels.iter().map(|p| p.a).collect();
    assert_eq!(alphas, vec![17, 0, 0, 128]);
}

#[test]
fn bleed_leaves_fully_opaque_image_unchanged() {
    let pixels = vec![px(1, 2, 3, 255), px(4, 5, 6, 255), px(7, 8, 9, 255), px(10, 11, 12, 255)];
    let mut img = Raster { width: 2, height: 2, pixels: pixels.clone() };
    alpha_bleed(&mut img);
    assert_eq!(img.pixels, pixels);
}

#[test]
fn bleed_leaves_fully_transparent_image_unchanged() {
    let pixels = vec![px(1, 2, 3, 0), px(4, 5, 6, 0)];
    let mut img = Raster { width: 2, height: 1, pixels: pixels.clone() };
    alpha_bleed(&mut img);
    assert_eq!(img.pixels, pixels);
}

#[test]
fn bleed_is_idempotent() {
    let mut once = Raster {
        width: 3,
        height: 3,
        pixels: vec![
            px(10, 0, 0, 255),
            px(0, 0, 0, 0),
            px(0, 20, 0, 0),
            px(0, 0, 0, 0),
            px(0, 0, 30, 9),
            px(0, 0, 0, 0),
            px(5, 5, 5, 0),
            px(0, 0, 0, 0),
            px(40, 40, 40, 200),
        ],
    };
    alpha_bleed(&mut once);
    let mut twice = once.clone();
    alpha_bleed(&mut twice);
    assert_eq!(once.pixels, twice.pixels);
}

#[test]
fn bleed_breaks_distance_ties_in_raster_scan_order() {
    // both neighbours of the middle pixel are opaque at distance one; the
    // earlier one in raster-scan order must win
    let mut img = Raster {
        width: 3,
        height: 1,
        pixels: vec![px(100, 0, 0, 255), px(0, 0, 0, 0), px(0, 200, 0, 255)],
    };
    alpha_bleed(&mut img);
    assert_eq!(img.pixels[1], px(100, 0, 0, 0));
}

#[test]
fn bleed_prefers_strictly_nearer_source() {
    let mut img = Raster {
        width: 4,
        height: 1,
        pixels: vec![px(100, 0, 0, 255), px(0, 0, 0, 0), px(0, 200, 0, 255), px(0, 0, 0, 0)],
    };
    alpha_bleed(&mut img);
    // index 3 is at distance two from index 0 but one from index 2
    assert_eq!(img.pixels[3], px(0, 200, 0, 0));
}
