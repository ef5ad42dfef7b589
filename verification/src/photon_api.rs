//! The pixel transforms, supplied by the photon_rs crate. Each wrapper
//! hands the raw RGBA buffer to one photon_rs effect and returns the
//! transformed buffer. Every transform is a pure function of the buffer,
//! the dimensions and its fixed parameters; the simple ones are stated
//! outright, the elaborate ones are given a name that the callers'
//! contracts share.

use vstd::prelude::*;

verus! {

/// What solarizing does to one red-channel byte: a value below 200 becomes
/// 200 minus that value, anything else is kept.
pub open spec fn solarize_channel(c: u8) -> u8 {
    if c < 200 {
        (200 - c) as u8
    } else {
        c
    }
}

/// Solarizing rewrites every fourth byte (the red channel) and keeps the
/// rest.
pub open spec fn solarized_pixels(p: Seq<u8>) -> Seq<u8> {
    Seq::new(
        p.len(),
        |j: int|
            if j % 4 == 0 {
                solarize_channel(p[j])
            } else {
                p[j]
            },
    )
}

/// One channel byte brightened by `b`, saturating at 255.
pub open spec fn bright_channel(c: u8, b: u8) -> u8 {
    if c <= 255 - b {
        (c + b) as u8
    } else {
        255
    }
}

/// Brightening raises the three colour channels of every pixel but the
/// last one, and leaves every alpha byte and the final pixel unchanged.
pub open spec fn brightened_pixels(p: Seq<u8>, b: u8) -> Seq<u8> {
    Seq::new(
        p.len(),
        |j: int|
            if j % 4 != 3 && 4 * (j / 4) + 4 < p.len() {
                bright_channel(p[j], b)
            } else {
                p[j]
            },
    )
}

/// One channel byte tinted by `off`: raised by `off` where the sum stays
/// under 255, pinned to 255 otherwise.
pub open spec fn tint_channel(c: u8, off: u32) -> u8 {
    if c + off < 255 {
        (c + off) as u8
    } else {
        255
    }
}

/// Tinting raises each pixel's red, green and blue channels by the three
/// offsets and sets every alpha byte to 255.
pub open spec fn tinted_pixels(p: Seq<u8>, r_off: u32, g_off: u32, b_off: u32) -> Seq<u8> {
    Seq::new(
        p.len(),
        |j: int|
            if j % 4 == 0 {
                tint_channel(p[j], r_off)
            } else if j % 4 == 1 {
                tint_channel(p[j], g_off)
            } else if j % 4 == 2 {
                tint_channel(p[j], b_off)
            } else {
                255u8
            },
    )
}

/// What photon_rs::effects::colorize returns for a buffer of the given
/// dimensions.
pub uninterp spec fn colorized_pixels(p: Seq<u8>, width: u32, height: u32) -> Seq<u8>;

/// What photon_rs::effects::halftone returns for a buffer of the given
/// dimensions.
pub uninterp spec fn halftoned_pixels(p: Seq<u8>, width: u32, height: u32) -> Seq<u8>;

/// What the offset transform does. The buffer is row-major, four bytes a
/// pixel. A margin of ten pixels along the right and bottom edges is left
/// alone; inside it, every pixel whose diagonal source stays within one
/// pixel of the edges takes the given channel from the pixel `amount`
/// further along both axes and has its alpha byte set to 255; its other
/// channels are kept. The sources lie further along the transform's walk
/// than any pixel it has rewritten, so every read sees the input buffer.
pub open spec fn offset_pixels(
    p: Seq<u8>,
    width: u32,
    height: u32,
    channel_index: usize,
    amount: u32,
) -> Seq<u8> {
    Seq::new(
        p.len(),
        |j: int|
            {
                let x = (j / 4) % (width as int);
                let y = (j / 4) / (width as int);
                let c = j % 4;
                if x < width - 10 && y < height - 10 && x + amount < width - 1 && y + amount
                    < height - 1 {
                    if c == channel_index {
                        p[4 * ((y + amount) * width + x + amount) + c]
                    } else if c == 3 {
                        255u8
                    } else {
                        p[j]
                    }
                } else {
                    p[j]
                }
            },
    )
}

/// What photon_rs::effects::multiple_offsets returns: one channel shifted
/// forward and another shifted back by `amount` pixels.
pub uninterp spec fn multiple_offset_pixels(
    p: Seq<u8>,
    width: u32,
    height: u32,
    amount: u32,
    channel_index: usize,
    channel_index2: usize,
) -> Seq<u8>;

/// What photon_rs::effects::horizontal_strips returns: white strips drawn
/// across the image.
pub uninterp spec fn horizontal_strip_pixels(
    p: Seq<u8>,
    width: u32,
    height: u32,
    num_strips: u8,
) -> Seq<u8>;

/// What photon_rs::effects::vertical_strips returns: white strips drawn
/// down the image.
pub uninterp spec fn vertical_strip_pixels(
    p: Seq<u8>,
    width: u32,
    height: u32,
    num_strips: u8,
) -> Seq<u8>;

/// What quantizing does to one pixel's colour channels: red and green
/// snap to full or zero around 128, and a blue value over 128 whitens
/// green while keeping blue, where a lower one drops blue to zero.
pub open spec fn primary_quant(r: u8, g: u8, b: u8) -> (u8, u8, u8) {
    (
        if r > 128 {
            255u8
        } else {
            0u8
        },
        if b > 128 {
            255u8
        } else if g > 128 {
            255u8
        } else {
            0u8
        },
        if b > 128 {
            b
        } else {
            0u8
        },
    )
}

/// What the primary transform does. It reads the leading pixel's channels
/// anew on every step of its walk, after having rewritten them on the
/// first: the first pixel becomes its own quantized form, every later
/// pixel before the last becomes the quantized form of that, and alpha
/// bytes and the final pixel are kept.
pub open spec fn primary_pixels(p: Seq<u8>) -> Seq<u8> {
    let first = primary_quant(p[0], p[1], p[2]);
    let rest = primary_quant(first.0, first.1, first.2);
    Seq::new(
        p.len(),
        |j: int|
            if j % 4 != 3 && 4 * (j / 4) + 4 < p.len() {
                let v = if j < 4 {
                    first
                } else {
                    rest
                };
                if j % 4 == 0 {
                    v.0
                } else if j % 4 == 1 {
                    v.1
                } else {
                    v.2
                }
            } else {
                p[j]
            },
    )
}

/// Relies on photon_rs::effects::solarize: for every fourth byte, a value
/// below 200 becomes 200 minus that value; all other bytes are kept.
#[verifier::external_body]
pub(crate) fn photon_solarize(pixels: &Vec<u8>, width: u32, height: u32) -> (r: Vec<u8>)
    ensures
        r@ == solarized_pixels(pixels@),
{
    let mut img = photon_rs::PhotonImage::new(pixels.clone(), width, height);
    photon_rs::effects::solarize(&mut img);
    img.get_raw_pixels()
}

/// Relies on photon_rs::effects::inc_brightness: it adds `brightness` to
/// the colour channels of every pixel before the last, saturating at 255,
/// and leaves alpha bytes and the last pixel alone. It reads the buffer
/// length minus four, so the buffer must hold at least one pixel.
#[verifier::external_body]
pub(crate) fn photon_inc_brightness(pixels: &Vec<u8>, width: u32, height: u32, brightness: u8) -> (r:
    Vec<u8>)
    requires
        pixels@.len() >= 4,
    ensures
        r@ == brightened_pixels(pixels@, brightness),
{
    let mut img = photon_rs::PhotonImage::new(pixels.clone(), width, height);
    photon_rs::effects::inc_brightness(&mut img, brightness);
    img.get_raw_pixels()
}

/// Relies on photon_rs::effects::tint: it raises each pixel's colour
/// channels by the three offsets, pinning a channel to 255 where the sum
/// would reach it, and sets every alpha byte to 255. The buffer must match
/// the dimensions exactly, each offset must leave the internal 32-bit sums
/// short of overflow, and the pixel count must stay under the 32-bit limit
/// of the iterator that walks them.
#[verifier::external_body]
pub(crate) fn photon_tint(
    pixels: &Vec<u8>,
    width: u32,
    height: u32,
    r_offset: u32,
    g_offset: u32,
    b_offset: u32,
) -> (r: Vec<u8>)
    requires
        pixels@.len() == 4 * width * height,
        width * height < u32::MAX,
        r_offset <= u32::MAX - 255,
        g_offset <= u32::MAX - 255,
        b_offset <= u32::MAX - 255,
    ensures
        r@ == tinted_pixels(pixels@, r_offset, g_offset, b_offset),
{
    let mut img = photon_rs::PhotonImage::new(pixels.clone(), width, height);
    photon_rs::effects::tint(&mut img, r_offset, g_offset, b_offset);
    img.get_raw_pixels()
}

/// Relies on photon_rs::effects::colorize, a pure function of the buffer
/// and dimensions; it rebuilds the buffer pixel for pixel, keeping its
/// length. The buffer must match the dimensions exactly, with the pixel
/// count under the 32-bit limit of the iterator that walks it.
#[verifier::external_body]
pub(crate) fn photon_colorize(pixels: &Vec<u8>, width: u32, height: u32) -> (r: Vec<u8>)
    requires
        pixels@.len() == 4 * width * height,
        width * height < u32::MAX,
    ensures
        r@ == colorized_pixels(pixels@, width, height),
        r@.len() == pixels@.len(),
{
    let mut img = photon_rs::PhotonImage::new(pixels.clone(), width, height);
    photon_rs::effects::colorize(&mut img);
    img.get_raw_pixels()
}

/// Relies on photon_rs::effects::halftone, a pure function of the buffer
/// and dimensions; it rewrites pixels in place, keeping the length. Its
/// loop bounds subtract four from each dimension, so both must be at least
/// four.
#[verifier::external_body]
pub(crate) fn photon_halftone(pixels: &Vec<u8>, width: u32, height: u32) -> (r: Vec<u8>)
    requires
        pixels@.len() == 4 * width * height,
        width >= 4,
        height >= 4,
    ensures
        r@ == halftoned_pixels(pixels@, width, height),
        r@.len() == pixels@.len(),
{
    let mut img = photon_rs::PhotonImage::new(pixels.clone(), width, height);
    photon_rs::effects::halftone(&mut img);
    img.get_raw_pixels()
}

/// Relies on photon_rs::effects::offset: it rewrites the buffer exactly
/// as `offset_pixels` states. It refuses a channel index over two,
/// subtracts ten from each dimension, and adds the amount to 32-bit
/// coordinates, so the requirements keep all of that in bounds.
#[verifier::external_body]
pub(crate) fn photon_offset(
    pixels: &Vec<u8>,
    width: u32,
    height: u32,
    channel_index: usize,
    amount: u32,
) -> (r: Vec<u8>)
    requires
        pixels@.len() == 4 * width * height,
        channel_index <= 2,
        width >= 10,
        height >= 10,
        amount <= u32::MAX - width,
        amount <= u32::MAX - height,
    ensures
        r@ == offset_pixels(pixels@, width, height, channel_index, amount),
{
    let mut img = photon_rs::PhotonImage::new(pixels.clone(), width, height);
    photon_rs::effects::offset(&mut img, channel_index, amount);
    img.get_raw_pixels()
}

/// Relies on photon_rs::effects::offset_red, which its source defines as
/// the offset transform on channel zero.
#[verifier::external_body]
pub(crate) fn photon_offset_red(pixels: &Vec<u8>, width: u32, height: u32, amount: u32) -> (r: Vec<
    u8,
>)
    requires
        pixels@.len() == 4 * width * height,
        width >= 10,
        height >= 10,
        amount <= u32::MAX - width,
        amount <= u32::MAX - height,
    ensures
        r@ == offset_pixels(pixels@, width, height, 0, amount),
{
    let mut img = photon_rs::PhotonImage::new(pixels.clone(), width, height);
    photon_rs::effects::offset_red(&mut img, amount);
    img.get_raw_pixels()
}

/// Relies on photon_rs::effects::offset_green, which its source defines as
/// the offset transform on channel one.
#[verifier::external_body]
pub(crate) fn photon_offset_green(pixels: &Vec<u8>, width: u32, height: u32, amount: u32) -> (r:
    Vec<u8>)
    requires
        pixels@.len() == 4 * width * height,
        width >= 10,
        height >= 10,
        amount <= u32::MAX - width,
        amount <= u32::MAX - height,
    ensures
        r@ == offset_pixels(pixels@, width, height, 1, amount),
{
    let mut img = photon_rs::PhotonImage::new(pixels.clone(), width, height);
    photon_rs::effects::offset_green(&mut img, amount);
    img.get_raw_pixels()
}

/// Relies on photon_rs::effects::offset_blue, which its source defines as
/// the offset transform on channel two.
#[verifier::external_body]
pub(crate) fn photon_offset_blue(pixels: &Vec<u8>, width: u32, height: u32, amount: u32) -> (r: Vec<
    u8,
>)
    requires
        pixels@.len() == 4 * width * height,
        width >= 10,
        height >= 10,
        amount <= u32::MAX - width,
        amount <= u32::MAX - height,
    ensures
        r@ == offset_pixels(pixels@, width, height, 2, amount),
{
    let mut img = photon_rs::PhotonImage::new(pixels.clone(), width, height);
    photon_rs::effects::offset_blue(&mut img, amount);
    img.get_raw_pixels()
}

/// Relies on photon_rs::effects::multiple_offsets, a pure function of the
/// buffer, dimensions, amount and the two channels; it rebuilds the buffer
/// pixel for pixel, keeping its length. It refuses channel indices over
/// two and mixes 32-bit and signed arithmetic on the coordinates, so the
/// amount and both dimensions must stay under 2^31, the amount short of
/// overflowing when added to a coordinate, and the pixel count under the
/// 32-bit limit of the iterator that walks it.
#[verifier::external_body]
pub(crate) fn photon_multiple_offsets(
    pixels: &Vec<u8>,
    width: u32,
    height: u32,
    amount: u32,
    channel_index: usize,
    channel_index2: usize,
) -> (r: Vec<u8>)
    requires
        pixels@.len() == 4 * width * height,
        width * height < u32::MAX,
        width < 0x8000_0000,
        height < 0x8000_0000,
        channel_index <= 2,
        channel_index2 <= 2,
        amount < 0x8000_0000,
        amount <= u32::MAX - width,
    ensures
        r@ == multiple_offset_pixels(pixels@, width, height, amount, channel_index, channel_index2),
        r@.len() == pixels@.len(),
{
    let mut img = photon_rs::PhotonImage::new(pixels.clone(), width, height);
    photon_rs::effects::multiple_offsets(&mut img, amount, channel_index, channel_index2);
    img.get_raw_pixels()
}

/// Relies on photon_rs::effects::horizontal_strips, a pure function of the
/// buffer, dimensions and strip count; it draws white rectangles over the
/// buffer, keeping its length. The count feeds 8-bit arithmetic and the
/// rectangle heights must stay positive, so the count is capped at 127 and
/// the image must be tall enough for the strips it asks for.
#[verifier::external_body]
pub(crate) fn photon_horizontal_strips(pixels: &Vec<u8>, width: u32, height: u32, num_strips: u8) -> (r:
    Vec<u8>)
    requires
        pixels@.len() == 4 * width * height,
        1 <= num_strips <= 127,
        width <= 0x4000_0000,
        height <= 0x4000_0000,
        num_strips >= 2 ==> width >= 1 && height >= 2 * num_strips - 1,
    ensures
        r@ == horizontal_strip_pixels(pixels@, width, height, num_strips),
        r@.len() == pixels@.len(),
{
    let mut img = photon_rs::PhotonImage::new(pixels.clone(), width, height);
    photon_rs::effects::horizontal_strips(&mut img, num_strips);
    img.get_raw_pixels()
}

/// Relies on photon_rs::effects::vertical_strips, a pure function of the
/// buffer, dimensions and strip count; it draws white rectangles over the
/// buffer, keeping its length. The count feeds 8-bit arithmetic and the
/// rectangle widths must stay positive, so the count is capped at 127 and
/// the image must be wide enough for the strips it asks for.
#[verifier::external_body]
pub(crate) fn photon_vertical_strips(pixels: &Vec<u8>, width: u32, height: u32, num_strips: u8) -> (r:
    Vec<u8>)
    requires
        pixels@.len() == 4 * width * height,
        1 <= num_strips <= 127,
        width <= 0x4000_0000,
        height <= 0x4000_0000,
        num_strips >= 2 ==> height >= 1 && width >= 2 * num_strips - 1,
    ensures
        r@ == vertical_strip_pixels(pixels@, width, height, num_strips),
        r@.len() == pixels@.len(),
{
    let mut img = photon_rs::PhotonImage::new(pixels.clone(), width, height);
    photon_rs::effects::vertical_strips(&mut img, num_strips);
    img.get_raw_pixels()
}

/// Relies on photon_rs::effects::primary: it rewrites the buffer exactly
/// as `primary_pixels` states. It reads the buffer length minus four, so
/// the buffer must hold at least one pixel.
#[verifier::external_body]
pub(crate) fn photon_primary(pixels: &Vec<u8>, width: u32, height: u32) -> (r: Vec<u8>)
    requires
        pixels@.len() >= 4,
    ensures
        r@ == primary_pixels(pixels@),
{
    let mut img = photon_rs::PhotonImage::new(pixels.clone(), width, height);
    photon_rs::effects::primary(&mut img);
    img.get_raw_pixels()
}

} // verus!
