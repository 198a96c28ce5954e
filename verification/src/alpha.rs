use vstd::prelude::*;
use vstd::arithmetic::div_mod::lemma_div_multiples_vanish;

verus! {

/// An opaque RGB color, one byte per channel. Used for the compositor
/// background and for composited output.
#[derive(Clone, Copy, PartialEq, Eq, Structural, Debug)]
pub struct Color {
    pub red: u8,
    pub green: u8,
    pub blue: u8,
}

/// A source pixel of an element, with its own alpha channel.
#[derive(Clone, Copy, PartialEq, Eq, Structural, Debug)]
pub struct Pixel {
    pub red: u8,
    pub green: u8,
    pub blue: u8,
    pub alpha: u8,
}

/// How an element blends against what is already composited beneath it.
#[derive(Clone, Copy, PartialEq, Eq, Structural, Debug)]
pub enum AlphaMode {
    /// Every pixel of the element gets the one fixed opacity of the
    /// alpha spec; the pixels' own alpha channel is ignored.
    OpaqueFixed,
    /// Each pixel blends by its own alpha channel.
    SourceDriven,
}

/// The blending behaviour of an element: a mode, an opacity in 0..=255,
/// and a mask resource (0 when unused).
#[derive(Clone, Copy, PartialEq, Eq, Structural, Debug)]
pub struct AlphaSpec {
    pub mode: AlphaMode,
    pub opacity: u8,
    pub mask: u32,
}

impl AlphaSpec {
    /// The fully opaque fixed spec: the element covers the background
    /// completely.
    pub open spec fn is_fully_opaque(self) -> bool {
        self.mode is OpaqueFixed && self.opacity == 255
    }
}

/// The alpha spec both demo variants use: fixed over all pixels, fully
/// opaque, no mask.
pub fn opaque_alpha() -> (a: AlphaSpec)
    ensures
        a == (AlphaSpec { mode: AlphaMode::OpaqueFixed, opacity: 255, mask: 0 }),
        a.is_fully_opaque(),
{
    AlphaSpec { mode: AlphaMode::OpaqueFixed, opacity: 255, mask: 0 }
}

/// The coverage a pixel receives under an alpha spec: the fixed opacity
/// in `OpaqueFixed` mode, the pixel's own alpha in `SourceDriven` mode.
pub open spec fn coverage(spec: AlphaSpec, pixel_alpha: u8) -> u8 {
    match spec.mode {
        AlphaMode::OpaqueFixed => spec.opacity,
        AlphaMode::SourceDriven => pixel_alpha,
    }
}

/// One channel blended with coverage `cov` out of 255: the element
/// contributes `cov` parts, the background the remaining `255 - cov`.
pub open spec fn blend_channel(elem: u8, back: u8, cov: u8) -> int {
    (elem * cov + back * (255 - cov)) / 255
}

/// Blend one color channel of an element pixel over the background.
pub fn blend_channel_exec(elem: u8, back: u8, cov: u8) -> (r: u8)
    ensures
        r == blend_channel(elem, back, cov),
{
    proof {
        assert((elem as int) * (cov as int) <= 255 * (cov as int)) by (nonlinear_arith)
            requires elem <= 255, 0 <= cov;
        assert((back as int) * (255 - cov as int) <= 255 * (255 - cov as int))
            by (nonlinear_arith)
            requires back <= 255, cov <= 255;
    }
    let num: u32 = (elem as u32) * (cov as u32) + (back as u32) * (255 - cov as u32);
    (num / 255) as u8
}

/// Composite one pixel of an element over the background color beneath
/// it. Compositing is defined per pixel and takes no position: where the
/// pixel lands inside the destination rectangle cannot influence the
/// result.
pub fn composite_pixel(spec: &AlphaSpec, elem: Pixel, back: Color) -> (out: Color)
    ensures
        out.red == blend_channel(elem.red, back.red, coverage(*spec, elem.alpha)),
        out.green == blend_channel(elem.green, back.green, coverage(*spec, elem.alpha)),
        out.blue == blend_channel(elem.blue, back.blue, coverage(*spec, elem.alpha)),
        spec.is_fully_opaque() ==> out == (Color {
            red: elem.red,
            green: elem.green,
            blue: elem.blue,
        }),
{
    let cov: u8 = match spec.mode {
        AlphaMode::OpaqueFixed => spec.opacity,
        AlphaMode::SourceDriven => elem.alpha,
    };
    let out = Color {
        red: blend_channel_exec(elem.red, back.red, cov),
        green: blend_channel_exec(elem.green, back.green, cov),
        blue: blend_channel_exec(elem.blue, back.blue, cov),
    };
    proof {
        if spec.is_fully_opaque() {
            lemma_full_coverage_keeps_channel(elem.red, back.red);
            lemma_full_coverage_keeps_channel(elem.green, back.green);
            lemma_full_coverage_keeps_channel(elem.blue, back.blue);
        }
    }
    out
}

/// At full coverage the background contributes nothing to a channel.
pub proof fn lemma_full_coverage_keeps_channel(elem: u8, back: u8)
    ensures
        blend_channel(elem, back, 255) == elem,
{
    assert(elem * 255 + back * (255 - 255) == 255 * (elem as int)) by (nonlinear_arith);
    lemma_div_multiples_vanish(elem as int, 255);
}

/// A fully opaque fixed alpha spec composites the element's own color,
/// whatever the background: for every background color and every pixel
/// alpha, blending leaves each channel of the element unchanged. Since
/// compositing takes no position, this holds wherever the destination
/// rectangle puts the pixel.
pub proof fn lemma_opaque_composites_fully(spec: AlphaSpec, elem: Pixel, back: Color)
    requires
        spec.is_fully_opaque(),
    ensures
        blend_channel(elem.red, back.red, coverage(spec, elem.alpha)) == elem.red,
        blend_channel(elem.green, back.green, coverage(spec, elem.alpha)) == elem.green,
        blend_channel(elem.blue, back.blue, coverage(spec, elem.alpha)) == elem.blue,
{
    lemma_full_coverage_keeps_channel(elem.red, back.red);
    lemma_full_coverage_keeps_channel(elem.green, back.green);
    lemma_full_coverage_keeps_channel(elem.blue, back.blue);
}

} // verus!
