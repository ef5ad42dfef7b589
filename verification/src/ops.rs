//! The named effect operations. Each takes a decoded image, transforms it,
//! and yields the new image together with the path the result is to be
//! written under: `<dir>/<name>_<suffix>.jpg`.

use vstd::prelude::*;
use crate::paths::{output_path, output_path_spec};
use crate::photon_api::{
    brightened_pixels, colorized_pixels, halftoned_pixels, horizontal_strip_pixels,
    multiple_offset_pixels, offset_pixels, photon_colorize, photon_halftone,
    photon_horizontal_strips, photon_inc_brightness, photon_multiple_offsets, photon_offset,
    photon_offset_blue, photon_offset_green, photon_offset_red, photon_primary, photon_solarize,
    photon_tint, photon_vertical_strips, primary_pixels, solarized_pixels, tinted_pixels,
    vertical_strip_pixels,
};
use crate::raster::Image;

verus! {

/// Solarizes the image.
pub fn solarize(img: &Image, image_output_directory: &str, parse_filename: &str) -> (r: (
    Image,
    String,
))
    requires
        img.wf(),
    ensures
        r.0.wf() && r.0.width == img.width && r.0.height == img.height,
        r.0.pixels@ == solarized_pixels(img.pixels@),
        r.1@ == output_path_spec(image_output_directory@, parse_filename@, "solarize"@),
{
    let px = photon_solarize(&img.pixels, img.width, img.height);
    let path = output_path(image_output_directory, parse_filename, "solarize");
    (Image { width: img.width, height: img.height, pixels: px }, path)
}

/// Colorizes the image.
pub fn colorize(img: &Image, image_output_directory: &str, parse_filename: &str) -> (r: (
    Image,
    String,
))
    requires
        img.wf(),
        img.width * img.height < u32::MAX,
    ensures
        r.0.wf() && r.0.width == img.width && r.0.height == img.height,
        r.0.pixels@ == colorized_pixels(img.pixels@, img.width, img.height),
        r.1@ == output_path_spec(image_output_directory@, parse_filename@, "colorize"@),
{
    let px = photon_colorize(&img.pixels, img.width, img.height);
    let path = output_path(image_output_directory, parse_filename, "colorize");
    (Image { width: img.width, height: img.height, pixels: px }, path)
}

/// Applies the halftone effect. The transform works on two-by-two pixel
/// blocks and needs at least four pixels in each direction.
pub fn halftone(img: &Image, image_output_directory: &str, parse_filename: &str) -> (r: (
    Image,
    String,
))
    requires
        img.wf(),
        img.width >= 4,
        img.height >= 4,
    ensures
        r.0.wf() && r.0.width == img.width && r.0.height == img.height,
        r.0.pixels@ == halftoned_pixels(img.pixels@, img.width, img.height),
        r.1@ == output_path_spec(image_output_directory@, parse_filename@, "halftone"@),
{
    let px = photon_halftone(&img.pixels, img.width, img.height);
    let path = output_path(image_output_directory, parse_filename, "halftone");
    (Image { width: img.width, height: img.height, pixels: px }, path)
}

/// Brightens the image by a constant, saturating at full brightness.
pub fn inc_brightness(
    img: &Image,
    image_output_directory: &str,
    parse_filename: &str,
    brightness: u8,
) -> (r: (Image, String))
    requires
        img.wf(),
        img.pixels@.len() >= 4,
    ensures
        r.0.wf() && r.0.width == img.width && r.0.height == img.height,
        r.0.pixels@ == brightened_pixels(img.pixels@, brightness),
        r.1@ == output_path_spec(image_output_directory@, parse_filename@, "inc_brightness"@),
{
    let px = photon_inc_brightness(&img.pixels, img.width, img.height, brightness);
    let path = output_path(image_output_directory, parse_filename, "inc_brightness");
    (Image { width: img.width, height: img.height, pixels: px }, path)
}

/// Draws white vertical strips over the image.
pub fn vertical_strips(
    img: &Image,
    image_output_directory: &str,
    parse_filename: &str,
    num_strips: u8,
) -> (r: (Image, String))
    requires
        img.wf(),
        1 <= num_strips <= 127,
        img.width <= 0x4000_0000,
        img.height <= 0x4000_0000,
        num_strips >= 2 ==> img.height >= 1 && img.width >= 2 * num_strips - 1,
    ensures
        r.0.wf() && r.0.width == img.width && r.0.height == img.height,
        r.0.pixels@ == vertical_strip_pixels(img.pixels@, img.width, img.height, num_strips),
        r.1@ == output_path_spec(image_output_directory@, parse_filename@, "vertical_strips"@),
{
    let px = photon_vertical_strips(&img.pixels, img.width, img.height, num_strips);
    let path = output_path(image_output_directory, parse_filename, "vertical_strips");
    (Image { width: img.width, height: img.height, pixels: px }, path)
}

/// Draws white horizontal strips over the image.
pub fn horizontal_strips(
    img: &Image,
    image_output_directory: &str,
    parse_filename: &str,
    num_strips: u8,
) -> (r: (Image, String))
    requires
        img.wf(),
        1 <= num_strips <= 127,
        img.width <= 0x4000_0000,
        img.height <= 0x4000_0000,
        num_strips >= 2 ==> img.width >= 1 && img.height >= 2 * num_strips - 1,
    ensures
        r.0.wf() && r.0.width == img.width && r.0.height == img.height,
        r.0.pixels@ == horizontal_strip_pixels(img.pixels@, img.width, img.height, num_strips),
        r.1@ == output_path_spec(image_output_directory@, parse_filename@, "horizontal_strips"@),
{
    let px = photon_horizontal_strips(&img.pixels, img.width, img.height, num_strips);
    let path = output_path(image_output_directory, parse_filename, "horizontal_strips");
    (Image { width: img.width, height: img.height, pixels: px }, path)
}

/// Tints the image by raising each colour channel by its own offset.
pub fn tint(
    img: &Image,
    image_output_directory: &str,
    parse_filename: &str,
    r_offset: u32,
    g_offset: u32,
    b_offset: u32,
) -> (r: (Image, String))
    requires
        img.wf(),
        img.width * img.height < u32::MAX,
        r_offset <= u32::MAX - 255,
        g_offset <= u32::MAX - 255,
        b_offset <= u32::MAX - 255,
    ensures
        r.0.wf() && r.0.width == img.width && r.0.height == img.height,
        r.0.pixels@ == tinted_pixels(img.pixels@, r_offset, g_offset, b_offset),
        r.1@ == output_path_spec(image_output_directory@, parse_filename@, "tint"@),
{
    let px = photon_tint(&img.pixels, img.width, img.height, r_offset, g_offset, b_offset);
    let path = output_path(image_output_directory, parse_filename, "tint");
    (Image { width: img.width, height: img.height, pixels: px }, path)
}

/// Shifts one colour channel diagonally by the given number of pixels.
pub fn offset(
    img: &Image,
    image_output_directory: &str,
    parse_filename: &str,
    channel_index: usize,
    amount: u32,
) -> (r: (Image, String))
    requires
        img.wf(),
        channel_index <= 2,
        img.width >= 10,
        img.height >= 10,
        amount <= u32::MAX - img.width,
        amount <= u32::MAX - img.height,
    ensures
        r.0.wf() && r.0.width == img.width && r.0.height == img.height,
        r.0.pixels@ == offset_pixels(img.pixels@, img.width, img.height, channel_index, amount),
        r.1@ == output_path_spec(image_output_directory@, parse_filename@, "offset"@),
{
    let px = photon_offset(&img.pixels, img.width, img.height, channel_index, amount);
    let path = output_path(image_output_directory, parse_filename, "offset");
    (Image { width: img.width, height: img.height, pixels: px }, path)
}

/// Shifts the blue channel by the given number of pixels.
pub fn offset_blue(
    img: &Image,
    image_output_directory: &str,
    parse_filename: &str,
    offset_amt: u32,
) -> (r: (Image, String))
    requires
        img.wf(),
        img.width >= 10,
        img.height >= 10,
        offset_amt <= u32::MAX - img.width,
        offset_amt <= u32::MAX - img.height,
    ensures
        r.0.wf() && r.0.width == img.width && r.0.height == img.height,
        r.0.pixels@ == offset_pixels(img.pixels@, img.width, img.height, 2, offset_amt),
        r.1@ == output_path_spec(image_output_directory@, parse_filename@, "offset_blue"@),
{
    let px = photon_offset_blue(&img.pixels, img.width, img.height, offset_amt);
    let path = output_path(image_output_directory, parse_filename, "offset_blue");
    (Image { width: img.width, height: img.height, pixels: px }, path)
}

/// Shifts the red channel by the given number of pixels.
pub fn offset_red(
    img: &Image,
    image_output_directory: &str,
    parse_filename: &str,
    offset_amt: u32,
) -> (r: (Image, String))
    requires
        img.wf(),
        img.width >= 10,
        img.height >= 10,
        offset_amt <= u32::MAX - img.width,
        offset_amt <= u32::MAX - img.height,
    ensures
        r.0.wf() && r.0.width == img.width && r.0.height == img.height,
        r.0.pixels@ == offset_pixels(img.pixels@, img.width, img.height, 0, offset_amt),
        r.1@ == output_path_spec(image_output_directory@, parse_filename@, "offset_red"@),
{
    let px = photon_offset_red(&img.pixels, img.width, img.height, offset_amt);
    let path = output_path(image_output_directory, parse_filename, "offset_red");
    (Image { width: img.width, height: img.height, pixels: px }, path)
}

/// Shifts the green channel by the given number of pixels.
pub fn offset_green(
    img: &Image,
    image_output_directory: &str,
    parse_filename: &str,
    offset_amt: u32,
) -> (r: (Image, String))
    requires
        img.wf(),
        img.width >= 10,
        img.height >= 10,
        offset_amt <= u32::MAX - img.width,
        offset_amt <= u32::MAX - img.height,
    ensures
        r.0.wf() && r.0.width == img.width && r.0.height == img.height,
        r.0.pixels@ == offset_pixels(img.pixels@, img.width, img.height, 1, offset_amt),
        r.1@ == output_path_spec(image_output_directory@, parse_filename@, "offset_green"@),
{
    let px = photon_offset_green(&img.pixels, img.width, img.height, offset_amt);
    let path = output_path(image_output_directory, parse_filename, "offset_green");
    (Image { width: img.width, height: img.height, pixels: px }, path)
}

/// Shifts one channel forward and another back by the same number of
/// pixels.
pub fn multiple_offsets(
    img: &Image,
    image_output_directory: &str,
    parse_filename: &str,
    amount: u32,
    channel_index: usize,
    channel_index2: usize,
) -> (r: (Image, String))
    requires
        img.wf(),
        img.width * img.height < u32::MAX,
        img.width < 0x8000_0000,
        img.height < 0x8000_0000,
        channel_index <= 2,
        channel_index2 <= 2,
        amount < 0x8000_0000,
        amount <= u32::MAX - img.width,
    ensures
        r.0.wf() && r.0.width == img.width && r.0.height == img.height,
        r.0.pixels@ == multiple_offset_pixels(
            img.pixels@,
            img.width,
            img.height,
            amount,
            channel_index,
            channel_index2,
        ),
        r.1@ == output_path_spec(image_output_directory@, parse_filename@, "multiple_offsets"@),
{
    let px = photon_multiple_offsets(
        &img.pixels,
        img.width,
        img.height,
        amount,
        channel_index,
        channel_index2,
    );
    let path = output_path(image_output_directory, parse_filename, "multiple_offsets");
    (Image { width: img.width, height: img.height, pixels: px }, path)
}

/// Reduces the image to primary colours.
pub fn primary(img: &Image, image_output_directory: &str, parse_filename: &str) -> (r: (
    Image,
    String,
))
    requires
        img.wf(),
        img.pixels@.len() >= 4,
    ensures
        r.0.wf() && r.0.width == img.width && r.0.height == img.height,
        r.0.pixels@ == primary_pixels(img.pixels@),
        r.1@ == output_path_spec(image_output_directory@, parse_filename@, "primary"@),
{
    let px = photon_primary(&img.pixels, img.width, img.height);
    let path = output_path(image_output_directory, parse_filename, "primary");
    (Image { width: img.width, height: img.height, pixels: px }, path)
}

} // verus!
