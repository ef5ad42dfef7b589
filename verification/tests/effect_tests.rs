use photo_batch::effects::{apply_effect, Effect};
use photo_batch::ops;
use photo_batch::raster::Image;

fn image(width: u32, height: u32, pixels: Vec<u8>) -> Image {
    assert_eq!(pixels.len(), 4 * width as usize * height as usize);
    Image { width, height, pixels }
}

fn pixel(img: &Image, x: u32, y: u32) -> [u8; 4] {
    let i = ((y * img.width + x) * 4) as usize;
    [img.pixels[i], img.pixels[i + 1], img.pixels[i + 2], img.pixels[i + 3]]
}

fn set_pixel(img: &mut Image, x: u32, y: u32, px: [u8; 4]) {
    let i = ((y * img.width + x) * 4) as usize;
    img.pixels[i] = px[0];
    img.pixels[i + 1] = px[1];
    img.pixels[i + 2] = px[2];
    img.pixels[i + 3] = px[3];
}

#[test]
fn solarize_inverts_low_red() {
    let img = image(1, 1, vec![10, 20, 30, 40]);
    let (out, path) = ops::solarize(&img, "out", "img");
    assert_eq!(out.pixels, vec![190, 20, 30, 40]);
    assert_eq!(path, "out/img_solarize.jpg");
}

#[test]
fn solarize_keeps_high_red() {
    let img = image(1, 1, vec![230, 20, 30, 40]);
    let (out, _) = ops::solarize(&img, "out", "img");
    assert_eq!(out.pixels, vec![230, 20, 30, 40]);
}

#[test]
fn inc_brightness_saturates_and_skips_last_pixel() {
    let img = image(2, 1, vec![250, 1, 2, 3, 9, 9, 9, 9]);
    let (out, path) = ops::inc_brightness(&img, "out", "img", 10);
    assert_eq!(out.pixels, vec![255, 11, 12, 3, 9, 9, 9, 9]);
    assert_eq!(path, "out/img_inc_brightness.jpg");
}

#[test]
fn tint_raises_channels_and_forces_alpha() {
    let img = image(1, 1, vec![10, 20, 30, 40]);
    let (out, path) = ops::tint(&img, "out", "img", 10, 20, 15);
    assert_eq!(out.pixels, vec![20, 40, 45, 255]);
    assert_eq!(path, "out/img_tint.jpg");
}

#[test]
fn colorize_rewrites_near_baseline_pixels() {
    let img = image(1, 1, vec![0, 255, 255, 9]);
    let (out, path) = ops::colorize(&img, "out", "img");
    assert_eq!(out.pixels, vec![0, 255, 127, 255]);
    assert_eq!(path, "out/img_colorize.jpg");
}

#[test]
fn halftone_whitens_bright_block() {
    let mut px = Vec::new();
    for _ in 0..25 {
        px.extend_from_slice(&[150, 150, 150, 200]);
    }
    let img = image(5, 5, px);
    let (out, path) = ops::halftone(&img, "out", "img");
    assert_eq!(pixel(&out, 0, 0), [255, 255, 255, 200]);
    assert_eq!(pixel(&out, 1, 0), [150, 150, 150, 200]);
    assert_eq!(path, "out/img_halftone.jpg");
}

#[test]
fn primary_quantizes_the_leading_pixel() {
    let img = image(2, 1, vec![200, 100, 200, 7, 1, 2, 3, 4]);
    let (out, path) = ops::primary(&img, "out", "img");
    assert_eq!(out.pixels, vec![255, 255, 200, 7, 1, 2, 3, 4]);
    assert_eq!(path, "out/img_primary.jpg");
}

#[test]
fn primary_rewrites_later_pixels_from_the_quantized_leader() {
    let img = image(3, 1, vec![200, 100, 200, 7, 1, 2, 3, 4, 9, 9, 9, 9]);
    let (out, _) = ops::primary(&img, "out", "img");
    // the first pixel is quantized once, the middle one twice over, and
    // the last is left alone
    assert_eq!(out.pixels, vec![255, 255, 200, 7, 255, 255, 200, 4, 9, 9, 9, 9]);
}

#[test]
fn offset_touches_only_the_margin_free_region() {
    let img = image(12, 12, vec![5; 4 * 12 * 12]);
    let (out, _) = ops::offset(&img, "out", "img", 0, 0);
    // with no shift, the pixels outside the ten-pixel margin keep their
    // channels but have alpha forced to 255
    assert_eq!(pixel(&out, 0, 0), [5, 5, 5, 255]);
    assert_eq!(pixel(&out, 1, 1), [5, 5, 5, 255]);
    assert_eq!(pixel(&out, 2, 0), [5, 5, 5, 5]);
    assert_eq!(pixel(&out, 0, 2), [5, 5, 5, 5]);
}

#[test]
fn offset_pulls_channel_from_shifted_pixel() {
    let mut img = image(40, 40, vec![0; 4 * 40 * 40]);
    set_pixel(&mut img, 30, 30, [77, 0, 0, 0]);
    let (out, path) = ops::offset(&img, "out", "img", 0, 30);
    assert_eq!(pixel(&out, 0, 0), [77, 0, 0, 255]);
    assert_eq!(pixel(&out, 30, 30), [77, 0, 0, 0]);
    assert_eq!(path, "out/img_offset.jpg");
}

#[test]
fn offset_red_matches_channel_zero() {
    let mut img = image(40, 40, vec![0; 4 * 40 * 40]);
    set_pixel(&mut img, 30, 30, [77, 0, 0, 0]);
    let (out, path) = ops::offset_red(&img, "out", "img", 30);
    assert_eq!(pixel(&out, 0, 0), [77, 0, 0, 255]);
    assert_eq!(path, "out/img_offset_red.jpg");
}

#[test]
fn offset_green_shifts_channel_one() {
    let mut img = image(40, 40, vec![0; 4 * 40 * 40]);
    set_pixel(&mut img, 30, 30, [0, 88, 0, 0]);
    let (out, path) = ops::offset_green(&img, "out", "img", 30);
    assert_eq!(pixel(&out, 0, 0), [0, 88, 0, 255]);
    assert_eq!(path, "out/img_offset_green.jpg");
}

#[test]
fn offset_blue_shifts_channel_two() {
    let mut img = image(40, 40, vec![0; 4 * 40 * 40]);
    set_pixel(&mut img, 30, 30, [0, 0, 99, 0]);
    let (out, path) = ops::offset_blue(&img, "out", "img", 30);
    assert_eq!(pixel(&out, 0, 0), [0, 0, 99, 255]);
    assert_eq!(path, "out/img_offset_blue.jpg");
}

#[test]
fn multiple_offsets_shifts_both_channels() {
    let mut img = image(40, 40, vec![0; 4 * 40 * 40]);
    set_pixel(&mut img, 30, 5, [55, 0, 0, 0]);
    set_pixel(&mut img, 1, 31, [0, 0, 66, 0]);
    let (out, path) = ops::multiple_offsets(&img, "out", "img", 30, 0, 2);
    // channel zero pulled forward from thirty columns right
    assert_eq!(pixel(&out, 0, 5)[0], 55);
    // channel two pulled back from thirty columns left
    assert_eq!(pixel(&out, 31, 31)[2], 66);
    assert_eq!(path, "out/img_multiple_offsets.jpg");
}

#[test]
fn vertical_strips_draws_white_columns() {
    let mut px = Vec::new();
    for _ in 0..(18 * 2) {
        px.extend_from_slice(&[1, 2, 3, 4]);
    }
    let img = image(18, 2, px);
    let (out, path) = ops::vertical_strips(&img, "out", "img", 5);
    assert_eq!(pixel(&out, 2, 0), [255, 255, 255, 255]);
    assert_eq!(pixel(&out, 6, 1), [255, 255, 255, 255]);
    assert_eq!(pixel(&out, 0, 0), [1, 2, 3, 4]);
    assert_eq!(pixel(&out, 4, 0), [1, 2, 3, 4]);
    assert_eq!(path, "out/img_vertical_strips.jpg");
}

#[test]
fn horizontal_strips_draws_white_rows() {
    let mut px = Vec::new();
    for _ in 0..(2 * 26) {
        px.extend_from_slice(&[1, 2, 3, 4]);
    }
    let img = image(2, 26, px);
    let (out, path) = ops::horizontal_strips(&img, "out", "img", 7);
    assert_eq!(pixel(&out, 0, 2), [255, 255, 255, 255]);
    assert_eq!(pixel(&out, 1, 6), [255, 255, 255, 255]);
    assert_eq!(pixel(&out, 0, 0), [1, 2, 3, 4]);
    assert_eq!(pixel(&out, 0, 4), [1, 2, 3, 4]);
    assert_eq!(path, "out/img_horizontal_strips.jpg");
}

#[test]
fn apply_effect_skips_hue_family() {
    let img = image(1, 1, vec![10, 20, 30, 40]);
    assert!(apply_effect(&img, &Effect::SaturateHsl).is_none());
    assert!(apply_effect(&img, &Effect::ShiftHue).is_none());
}

#[test]
fn apply_effect_runs_named_effects() {
    let img = image(1, 1, vec![10, 20, 30, 40]);
    let out = apply_effect(&img, &Effect::Solarize).unwrap();
    assert_eq!(out.pixels, vec![190, 20, 30, 40]);
    let out = apply_effect(&img, &Effect::Tint(10, 20, 15)).unwrap();
    assert_eq!(out.pixels, vec![20, 40, 45, 255]);
}

#[test]
fn rerun_yields_identical_pixels() {
    // every transform is a pure function of its inputs
    let img = image(2, 1, vec![250, 1, 2, 3, 9, 9, 9, 9]);
    let (a, _) = ops::inc_brightness(&img, "out", "img", 10);
    let (b, _) = ops::inc_brightness(&img, "out", "img", 10);
    assert_eq!(a.pixels, b.pixels);
}
