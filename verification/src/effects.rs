//! The fixed effect catalog: every transform the batch applies, with its
//! baked-in parameters, in the order the batch runs them.

use vstd::prelude::*;
use crate::photon_api::{
    brightened_pixels, colorized_pixels, halftoned_pixels, horizontal_strip_pixels,
    multiple_offset_pixels, offset_pixels, photon_colorize, photon_halftone,
    photon_horizontal_strips, photon_inc_brightness, photon_multiple_offsets, photon_offset,
    photon_offset_blue, photon_offset_green, photon_offset_red, photon_primary, photon_solarize,
    photon_tint, photon_vertical_strips, primary_pixels, solarized_pixels, tinted_pixels,
    vertical_strip_pixels,
};
use crate::raster::Image;

verus! {

/// One effect of the catalog, with its fixed parameters. The first five
/// are the hue and lightness family, applied in the HSL colour space with
/// one shared fractional intensity.
#[derive(Clone, Copy, PartialEq, Eq, Structural, Debug)]
pub enum Effect {
    SaturateHsl,
    Desaturate,
    Lighten,
    Darken,
    ShiftHue,
    Solarize,
    Colorize,
    Halftone,
    IncBrightness(u8),
    VerticalStrips(u8),
    HorizontalStrips(u8),
    Tint(u32, u32, u32),
    Offset(usize, u32),
    OffsetBlue(u32),
    OffsetRed(u32),
    OffsetGreen(u32),
    MultipleOffsets(u32, usize, usize),
    Primary,
}

/// The intensity the five hue-family effects are applied with, in
/// thousandths: one fifth.
pub const HSL_INTENSITY_THOUSANDTHS: u32 = 200;

/// The full catalog in batch order: the five hue-family effects, then the
/// thirteen named effects with their fixed parameters.
pub open spec fn catalog_spec() -> Seq<Effect> {
    seq![
        Effect::SaturateHsl,
        Effect::Desaturate,
        Effect::Lighten,
        Effect::Darken,
        Effect::ShiftHue,
        Effect::Solarize,
        Effect::Colorize,
        Effect::Halftone,
        Effect::IncBrightness(10),
        Effect::VerticalStrips(5),
        Effect::HorizontalStrips(7),
        Effect::Tint(10, 20, 15),
        Effect::Offset(0, 30),
        Effect::OffsetBlue(30),
        Effect::OffsetRed(30),
        Effect::OffsetGreen(30),
        Effect::MultipleOffsets(30, 0, 2),
        Effect::Primary,
    ]
}

/// Builds the catalog.
pub fn catalog() -> (r: Vec<Effect>)
    ensures
        r@ == catalog_spec(),
{
    let mut v: Vec<Effect> = Vec::new();
    v.push(Effect::SaturateHsl);
    v.push(Effect::Desaturate);
    v.push(Effect::Lighten);
    v.push(Effect::Darken);
    v.push(Effect::ShiftHue);
    v.push(Effect::Solarize);
    v.push(Effect::Colorize);
    v.push(Effect::Halftone);
    v.push(Effect::IncBrightness(10));
    v.push(Effect::VerticalStrips(5));
    v.push(Effect::HorizontalStrips(7));
    v.push(Effect::Tint(10, 20, 15));
    v.push(Effect::Offset(0, 30));
    v.push(Effect::OffsetBlue(30));
    v.push(Effect::OffsetRed(30));
    v.push(Effect::OffsetGreen(30));
    v.push(Effect::MultipleOffsets(30, 0, 2));
    v.push(Effect::Primary);
    proof {
        assert(v@ =~= catalog_spec());
    }
    v
}

/// The filename suffix each effect writes under.
pub open spec fn suffix_spec(e: Effect) -> Seq<char> {
    match e {
        Effect::SaturateHsl => "saturate_hsl"@,
        Effect::Desaturate => "desaturate"@,
        Effect::Lighten => "lighten"@,
        Effect::Darken => "darken"@,
        Effect::ShiftHue => "shift_hue"@,
        Effect::Solarize => "solarize"@,
        Effect::Colorize => "colorize"@,
        Effect::Halftone => "halftone"@,
        Effect::IncBrightness(_) => "inc_brightness"@,
        Effect::VerticalStrips(_) => "vertical_strips"@,
        Effect::HorizontalStrips(_) => "horizontal_strips"@,
        Effect::Tint(_, _, _) => "tint"@,
        Effect::Offset(_, _) => "offset"@,
        Effect::OffsetBlue(_) => "offset_blue"@,
        Effect::OffsetRed(_) => "offset_red"@,
        Effect::OffsetGreen(_) => "offset_green"@,
        Effect::MultipleOffsets(_, _, _) => "multiple_offsets"@,
        Effect::Primary => "primary"@,
    }
}

/// Yields the filename suffix for one effect.
pub fn effect_suffix(e: &Effect) -> (r: &'static str)
    ensures
        r@ == suffix_spec(*e),
{
    match e {
        Effect::SaturateHsl => "saturate_hsl",
        Effect::Desaturate => "desaturate",
        Effect::Lighten => "lighten",
        Effect::Darken => "darken",
        Effect::ShiftHue => "shift_hue",
        Effect::Solarize => "solarize",
        Effect::Colorize => "colorize",
        Effect::Halftone => "halftone",
        Effect::IncBrightness(_) => "inc_brightness",
        Effect::VerticalStrips(_) => "vertical_strips",
        Effect::HorizontalStrips(_) => "horizontal_strips",
        Effect::Tint(_, _, _) => "tint",
        Effect::Offset(_, _) => "offset",
        Effect::OffsetBlue(_) => "offset_blue",
        Effect::OffsetRed(_) => "offset_red",
        Effect::OffsetGreen(_) => "offset_green",
        Effect::MultipleOffsets(_, _, _) => "multiple_offsets",
        Effect::Primary => "primary",
    }
}

/// The eighteen suffixes a generated filename may carry.
pub open spec fn is_catalog_suffix(s: Seq<char>) -> bool {
    ||| s == "saturate_hsl"@
    ||| s == "desaturate"@
    ||| s == "lighten"@
    ||| s == "darken"@
    ||| s == "shift_hue"@
    ||| s == "solarize"@
    ||| s == "colorize"@
    ||| s == "halftone"@
    ||| s == "inc_brightness"@
    ||| s == "vertical_strips"@
    ||| s == "horizontal_strips"@
    ||| s == "tint"@
    ||| s == "offset"@
    ||| s == "offset_blue"@
    ||| s == "offset_red"@
    ||| s == "offset_green"@
    ||| s == "multiple_offsets"@
    ||| s == "primary"@
}

/// Law: whatever the effect and its parameters, its filename suffix is one
/// of the eighteen fixed strings; no other suffix ever appears.
pub proof fn lemma_suffix_fixed(e: Effect)
    ensures
        is_catalog_suffix(suffix_spec(e)),
{
}

/// The five hue-family effects, which the library plans but does not apply
/// itself: their transform takes a fractional intensity.
pub open spec fn is_hue_effect(e: Effect) -> bool {
    ||| e == Effect::SaturateHsl
    ||| e == Effect::Desaturate
    ||| e == Effect::Lighten
    ||| e == Effect::Darken
    ||| e == Effect::ShiftHue
}

/// The inputs on which an effect's transform is defined: the bounds under
/// which the photon_rs transforms neither panic nor overflow.
pub open spec fn effect_input_ok(e: Effect, img: Image) -> bool {
    match e {
        Effect::SaturateHsl => true,
        Effect::Desaturate => true,
        Effect::Lighten => true,
        Effect::Darken => true,
        Effect::ShiftHue => true,
        Effect::Solarize => true,
        Effect::Colorize => img.width * img.height < u32::MAX,
        Effect::Halftone => img.width >= 4 && img.height >= 4,
        Effect::IncBrightness(_) => img.pixels@.len() >= 4,
        Effect::VerticalStrips(n) => 1 <= n <= 127 && img.width <= 0x4000_0000 && img.height
            <= 0x4000_0000 && (n >= 2 ==> img.height >= 1 && img.width >= 2 * n - 1),
        Effect::HorizontalStrips(n) => 1 <= n <= 127 && img.width <= 0x4000_0000 && img.height
            <= 0x4000_0000 && (n >= 2 ==> img.width >= 1 && img.height >= 2 * n - 1),
        Effect::Tint(r_off, g_off, b_off) => img.width * img.height < u32::MAX && r_off <= u32::MAX
            - 255 && g_off <= u32::MAX - 255 && b_off <= u32::MAX - 255,
        Effect::Offset(ci, amt) => ci <= 2 && img.width >= 10 && img.height >= 10 && amt <= u32::MAX
            - img.width && amt <= u32::MAX - img.height,
        Effect::OffsetBlue(amt) => img.width >= 10 && img.height >= 10 && amt <= u32::MAX
            - img.width && amt <= u32::MAX - img.height,
        Effect::OffsetRed(amt) => img.width >= 10 && img.height >= 10 && amt <= u32::MAX
            - img.width && amt <= u32::MAX - img.height,
        Effect::OffsetGreen(amt) => img.width >= 10 && img.height >= 10 && amt <= u32::MAX
            - img.width && amt <= u32::MAX - img.height,
        Effect::MultipleOffsets(amt, c1, c2) => c1 <= 2 && c2 <= 2 && img.width * img.height
            < u32::MAX && img.width < 0x8000_0000 && img.height < 0x8000_0000 && amt < 0x8000_0000
            && amt <= u32::MAX - img.width,
        Effect::Primary => img.pixels@.len() >= 4,
    }
}

/// The pixel buffer an effect yields. The hue-family entries stand for
/// transforms the library does not apply itself; for them this is the
/// input buffer, and `apply_effect` yields nothing.
pub open spec fn effect_pixels_spec(e: Effect, p: Seq<u8>, w: u32, h: u32) -> Seq<u8> {
    match e {
        Effect::SaturateHsl => p,
        Effect::Desaturate => p,
        Effect::Lighten => p,
        Effect::Darken => p,
        Effect::ShiftHue => p,
        Effect::Solarize => solarized_pixels(p),
        Effect::Colorize => colorized_pixels(p, w, h),
        Effect::Halftone => halftoned_pixels(p, w, h),
        Effect::IncBrightness(b) => brightened_pixels(p, b),
        Effect::VerticalStrips(n) => vertical_strip_pixels(p, w, h, n),
        Effect::HorizontalStrips(n) => horizontal_strip_pixels(p, w, h, n),
        Effect::Tint(r_off, g_off, b_off) => tinted_pixels(p, r_off, g_off, b_off),
        Effect::Offset(ci, amt) => offset_pixels(p, w, h, ci, amt),
        Effect::OffsetBlue(amt) => offset_pixels(p, w, h, 2, amt),
        Effect::OffsetRed(amt) => offset_pixels(p, w, h, 0, amt),
        Effect::OffsetGreen(amt) => offset_pixels(p, w, h, 1, amt),
        Effect::MultipleOffsets(amt, c1, c2) => multiple_offset_pixels(p, w, h, amt, c1, c2),
        Effect::Primary => primary_pixels(p),
    }
}

/// Applies one catalog effect to an image. Yields the transformed image
/// for the thirteen named effects, and nothing for the five hue-family
/// effects, whose fractional intensity the library leaves to its caller.
pub fn apply_effect(img: &Image, e: &Effect) -> (r: Option<Image>)
    requires
        img.wf(),
        effect_input_ok(*e, *img),
    ensures
        (r is Some) <==> !is_hue_effect(*e),
        r matches Some(out) ==> out.wf() && out.width == img.width && out.height == img.height
            && out.pixels@ == effect_pixels_spec(*e, img.pixels@, img.width, img.height),
{
    let w = img.width;
    let h = img.height;
    let px: Vec<u8> = match e {
        Effect::SaturateHsl => {
            return None;
        },
        Effect::Desaturate => {
            return None;
        },
        Effect::Lighten => {
            return None;
        },
        Effect::Darken => {
            return None;
        },
        Effect::ShiftHue => {
            return None;
        },
        Effect::Solarize => photon_solarize(&img.pixels, w, h),
        Effect::Colorize => photon_colorize(&img.pixels, w, h),
        Effect::Halftone => photon_halftone(&img.pixels, w, h),
        Effect::IncBrightness(b) => photon_inc_brightness(&img.pixels, w, h, *b),
        Effect::VerticalStrips(n) => photon_vertical_strips(&img.pixels, w, h, *n),
        Effect::HorizontalStrips(n) => photon_horizontal_strips(&img.pixels, w, h, *n),
        Effect::Tint(r_off, g_off, b_off) => photon_tint(&img.pixels, w, h, *r_off, *g_off, *b_off),
        Effect::Offset(ci, amt) => photon_offset(&img.pixels, w, h, *ci, *amt),
        Effect::OffsetBlue(amt) => photon_offset_blue(&img.pixels, w, h, *amt),
        Effect::OffsetRed(amt) => photon_offset_red(&img.pixels, w, h, *amt),
        Effect::OffsetGreen(amt) => photon_offset_green(&img.pixels, w, h, *amt),
        Effect::MultipleOffsets(amt, c1, c2) => photon_multiple_offsets(
            &img.pixels,
            w,
            h,
            *amt,
            *c1,
            *c2,
        ),
        Effect::Primary => photon_primary(&img.pixels, w, h),
    };
    Some(Image { width: w, height: h, pixels: px })
}

} // verus!
