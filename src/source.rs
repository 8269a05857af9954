use vstd::prelude::*;
use vstd::utf8::is_ascii_chars;
use crate::color::{
    hex6, lemma_hex_round_trip,
    hex_byte, hex_color, hex_digit_value, hex_value, is_hex_digit, well_formed_alpha_hex, well_formed_hex, without_mark, Rgb,
};

verus! {

#[verifier::external_type_specification]
#[verifier::external_body]
pub struct ExParseError(colorsys::ParseError);

#[verifier::external_type_specification]
#[verifier::external_body]
pub struct ExDynamicImage(image::DynamicImage);

#[verifier::external_type_specification]
#[verifier::external_body]
#[verifier::reject_recursive_types(K)]
#[verifier::reject_recursive_types(V)]
#[verifier::reject_recursive_types(S)]
pub struct ExAHashMap<K, V, S>(ahash::AHashMap<K, V, S>);

#[verifier::external_type_specification]
#[verifier::external_body]
pub struct ExRandomState(ahash::RandomState);

/// What can go wrong while finding the source color.
#[derive(Clone, Copy, Debug, PartialEq, Eq, Structural)]
pub enum SourceError {
    /// The text is not a hex color.
    MalformedHex,
    /// The image has no pixels.
    EmptyImage,
}

/// The width that images are scaled to before quantization.
pub const SAMPLE_WIDTH: u32 = 64;

/// The most pixels the quantizer takes: its histogram sums channel values
/// times pixel counts in `u32`, which more bright pixels than this overflow.
pub const MAX_PIXELS: usize = 16_843_009;

/// The tallest sample, so that a sample never holds more than `MAX_PIXELS`.
pub const MAX_SAMPLE_HEIGHT: u32 = 263_172;

/// The most colors the quantizer is asked to keep.
pub const MAX_COLORS: usize = 128;

/// Relies on colorsys::Rgb::from_hex_str, which skips `#` marks, takes three
/// or six hex digits in either case, fails on anything else or on a byte after
/// the sixth digit, and stores each channel as an exact whole number.
#[verifier::external_body]
fn parse_hex_rgb(s: &str) -> (r: Result<Rgb, colorsys::ParseError>)
    ensures
        r is Ok <==> well_formed_hex(s@),
        r is Ok ==> r->Ok_0 == hex_color(s@),
{
    match colorsys::Rgb::from_hex_str(s) {
        Ok(c) => Ok(Rgb { red: c.red() as u8, green: c.green() as u8, blue: c.blue() as u8 }),
        Err(e) => Err(e),
    }
}

/// Text that reads as a color: three or six hex digits, or eight with alpha.
pub open spec fn well_formed_color(s: Seq<char>) -> bool {
    well_formed_hex(s) || well_formed_alpha_hex(s)
}

/// The source color, in ARGB order, that a hex color denotes: with the alpha
/// of its last two digits where it has eight, else fully opaque.
pub open spec fn argb_of_hex(s: Seq<char>) -> [u8; 4] {
    if well_formed_alpha_hex(s) {
        let d = without_mark(s);
        [hex_byte(d, 6) as u8, hex_byte(d, 0) as u8, hex_byte(d, 2) as u8, hex_byte(d, 4) as u8]
    } else {
        let c = hex_color(s);
        [255u8, c.red, c.green, c.blue]
    }
}

/// Reads a color of eight hex digits after an optional `#`: red, green,
/// blue and alpha, returned in ARGB order.
pub fn alpha_hex(hex: &str) -> (r: Option<[u8; 4]>)
    ensures
        r is Some <==> well_formed_alpha_hex(hex@),
        r is Some ==> r->0 == argb_of_hex(hex@),
{
    let ghost s = hex@;
    if !hex.is_ascii() {
        proof {
            if well_formed_alpha_hex(s) {
                let d = without_mark(s);
                assert(exists|i: int| 0 <= i < s.len() && !('\0' <= #[trigger] s[i] <= '\u{7f}'));
                let i = choose|i: int| 0 <= i < s.len() && !('\0' <= #[trigger] s[i] <= '\u{7f}');
                if s.len() > 0 && s[0] == '#' {
                    assert(d[i - 1] == s[i]);
                } else {
                    assert(d[i] == s[i]);
                }
            }
        }
        return None;
    }
    proof {
        vstd::string::is_ascii_spec_bytes(hex);
    }
    let b = hex.as_bytes();
    assert(b@ =~= Seq::new(s.len(), |k: int| s[k] as u8));
    let n = b.len();
    let start: usize = if n > 0 && b[0] == 35u8 { 1 } else { 0 };
    proof {
        if n > 0 {
            assert(b@[0] == s[0] as u8);
            assert((b@[0] == 35u8) <==> s[0] == '#');
        }
    }
    if n - start != 8 {
        return None;
    }
    let ghost d = without_mark(s);
    assert(forall|i: int| 0 <= i < 8 ==> d[i] == s[start + i]);
    let mut vals: Vec<u8> = Vec::new();
    let mut i: usize = 0;
    while i < 8
        invariant
            i <= 8,
            s == hex@,
            n == s.len(),
            start + 8 == n,
            b@ =~= Seq::new(s.len(), |k: int| s[k] as u8),
            is_ascii_chars(s),
            d == without_mark(s),
            d.len() == 8,
            forall|k: int| 0 <= k < 8 ==> d[k] == s[start + k],
            vals@.len() == i,
            forall|k: int| 0 <= k < i ==> is_hex_digit(#[trigger] d[k]),
            forall|k: int| 0 <= k < i ==> vals@[k] as int == hex_value(#[trigger] d[k]),
            forall|k: int| 0 <= k < i ==> vals@[k] < 16,
        decreases 8 - i,
    {
        let c = b[start + i] as char;
        assert(c == d[i as int]);
        match hex_digit_value(c) {
            Some(v) => {
                vals.push(v);
            },
            None => {
                assert(!is_hex_digit(d[i as int]));
                return None;
            },
        }
        i = i + 1;
    }
    let red: u8 = vals[0] * 16 + vals[1];
    let green: u8 = vals[2] * 16 + vals[3];
    let blue: u8 = vals[4] * 16 + vals[5];
    let alpha: u8 = vals[6] * 16 + vals[7];
    let argb: [u8; 4] = [alpha, red, green, blue];
    assert(argb@ =~= argb_of_hex(s)@);
    Some(argb)
}

/// Reads a hex color such as `#a1b2c3`, `a1b2c3`, `#abc` or, with alpha,
/// `#a1b2c3ff` as an ARGB source color; one without alpha is fully opaque.
pub fn source_from_hex(hex: &str) -> (r: Result<[u8; 4], SourceError>)
    ensures
        r is Ok <==> well_formed_color(hex@),
        r is Ok ==> r->Ok_0 == argb_of_hex(hex@),
        r is Err ==> r->Err_0 == SourceError::MalformedHex,
{
    if let Some(argb) = alpha_hex(hex) {
        return Ok(argb);
    }
    match parse_hex_rgb(hex) {
        Ok(c) => {
            let argb: [u8; 4] = [255u8, c.red, c.green, c.blue];
            assert(argb@ =~= argb_of_hex(hex@)@);
            Ok(argb)
        },
        Err(_) => Err(SourceError::MalformedHex),
    }
}

/// Reading any hex color gives the same red, green and blue as writing those
/// channels out as six hex digits and reading that; the six digits carry no
/// alpha, so they read as fully opaque.
pub proof fn lemma_hex_round_trip_channels(s: Seq<char>)
    requires
        well_formed_color(s),
    ensures
        ({
            let a = argb_of_hex(s);
            let t = hex6(Rgb { red: a[1], green: a[2], blue: a[3] });
            &&& well_formed_color(t)
            &&& argb_of_hex(t) == [255u8, a[1], a[2], a[3]]
        }),
{
    let a = argb_of_hex(s);
    let c = Rgb { red: a[1], green: a[2], blue: a[3] };
    lemma_hex_round_trip(c);
    let t = hex6(c);
    assert(t.len() == 6 && t[0] != '#');
    assert(!well_formed_alpha_hex(t));
    assert(argb_of_hex(t)@ =~= [255u8, a[1], a[2], a[3]]@);
}

/// The height that keeps the aspect ratio of a `width` by `height` image
/// scaled to the sample width, rounded to the nearest whole pixel, at least
/// one and at most `MAX_SAMPLE_HEIGHT`.
pub open spec fn sample_height(width: int, height: int) -> int {
    let h = (2 * height * SAMPLE_WIDTH + width) / (2 * width);
    if h < 1 { 1 } else if h > MAX_SAMPLE_HEIGHT { MAX_SAMPLE_HEIGHT as int } else { h }
}

/// The bounds that an image is scaled into before its pixels are sampled:
/// the sample width, and the height that keeps the aspect ratio.
pub fn sample_dimensions(width: u32, height: u32) -> (r: (u32, u32))
    requires
        width > 0,
    ensures
        r.0 == SAMPLE_WIDTH,
        r.1 == sample_height(width as int, height as int),
        1 <= r.1 <= MAX_SAMPLE_HEIGHT,
{
    let w: u64 = width as u64;
    let h: u64 = height as u64;
    assert(2 * h * 64 + w <= 0x1_0000_0000_0000) by (nonlinear_arith)
        requires
            h <= u32::MAX,
            w <= u32::MAX,
    ;
    let scaled: u64 = (2 * h * 64 + w) / (2 * w);
    let nh: u32 = if scaled < 1 {
        1
    } else if scaled > MAX_SAMPLE_HEIGHT as u64 {
        MAX_SAMPLE_HEIGHT
    } else {
        scaled as u32
    };
    (SAMPLE_WIDTH, nh)
}

/// The pixel with its channels moved from RGBA order to ARGB order.
pub open spec fn argb_of_rgba(p: [u8; 4]) -> [u8; 4] {
    [p[3], p[0], p[1], p[2]]
}

/// Reorders each pixel from RGBA to ARGB, keeping the order of the pixels.
pub fn rgba_to_argb(pixels: &Vec<[u8; 4]>) -> (r: Vec<[u8; 4]>)
    ensures
        r@.len() == pixels@.len(),
        forall|i: int| 0 <= i < r@.len() ==> r@[i] == argb_of_rgba(#[trigger] pixels@[i]),
{
    let mut out: Vec<[u8; 4]> = Vec::new();
    let mut i: usize = 0;
    while i < pixels.len()
        invariant
            i <= pixels@.len(),
            out@.len() == i,
            forall|j: int| 0 <= j < i ==> out@[j] == argb_of_rgba(#[trigger] pixels@[j]),
        decreases pixels@.len() - i,
    {
        let p = pixels[i];
        let q: [u8; 4] = [p[3], p[0], p[1], p[2]];
        assert(q@ =~= argb_of_rgba(p)@);
        out.push(q);
        i = i + 1;
    }
    out
}

/// The width and height of an image.
pub uninterp spec fn image_size(img: image::DynamicImage) -> (u32, u32);

/// Relies on image's `GenericImageView::dimensions`: the width and height.
#[verifier::external_body]
fn image_dimensions(img: &image::DynamicImage) -> (r: (u32, u32))
    ensures
        r == image_size(*img),
{
    image::GenericImageView::dimensions(img)
}

/// The image that `DynamicImage::resize` with a Lanczos filter makes of `img`
/// within the bounds.
pub uninterp spec fn resized_of(img: image::DynamicImage, width: u32, height: u32) -> image::DynamicImage;

/// The pixels of an image, row by row, in RGBA order.
pub uninterp spec fn image_rgba(img: image::DynamicImage) -> Seq<[u8; 4]>;

/// Relies on image's `DynamicImage::resize` with a Lanczos filter, which keeps
/// the aspect ratio and scales to the largest size within the bounds, never
/// below one pixel a side.
#[verifier::external_body]
fn resize(img: &image::DynamicImage, width: u32, height: u32) -> (r: image::DynamicImage)
    requires
        width >= 1,
        height >= 1,
        image_size(*img).0 >= 1,
        image_size(*img).1 >= 1,
    ensures
        r == resized_of(*img, width, height),
        1 <= image_size(r).0 <= width,
        1 <= image_size(r).1 <= height,
{
    img.resize(width, height, image::imageops::FilterType::Lanczos3)
}

/// Relies on image's `DynamicImage::to_rgba8`: every pixel, row by row, as
/// its RGBA channels.
#[verifier::external_body]
fn rgba_pixels(img: &image::DynamicImage) -> (r: Vec<[u8; 4]>)
    ensures
        r@ == image_rgba(*img),
        r@.len() == image_size(*img).0 * image_size(*img).1,
{
    img.to_rgba8().pixels().map(|p| p.0).collect()
}

/// The colors of a quantized palette: the keys of the map.
pub uninterp spec fn palette_colors(m: ahash::AHashMap<[u8; 4], u32>) -> Set<[u8; 4]>;

/// The color that scoring falls back to when no candidate qualifies.
pub open spec fn score_fallback() -> [u8; 4] {
    [0xffu8, 0x42u8, 0x85u8, 0xf4u8]
}

/// Relies on `QuantizerCelebi::quantize`: a palette of colors with their
/// pixel counts, each color made from a cluster center in L*a*b* and so fully
/// opaque. Its k-means step may draw random numbers, so nothing more is
/// stated of the colors. It indexes its first box, so `max_colors` must not
/// be 0.
#[verifier::external_body]
fn quantize(pixels: &Vec<[u8; 4]>, max_colors: usize) -> (r: ahash::AHashMap<[u8; 4], u32>)
    requires
        1 <= pixels@.len() <= MAX_PIXELS,
        1 <= max_colors,
    ensures
        forall|c: [u8; 4]| #[trigger] palette_colors(r).contains(c) ==> c[0] == 255,
{
    let mut quantizer = ini_material_color_utilities_rs::quantize::quantizer_celebi::QuantizerCelebi;
    quantizer.quantize(pixels.as_slice(), max_colors)
}

/// Relies on `score::score`: candidate colors best first, each a color of
/// the palette, never empty (it falls back to a fixed blue).
#[verifier::external_body]
fn score(palette: &ahash::AHashMap<[u8; 4], u32>) -> (r: Vec<[u8; 4]>)
    ensures
        r@.len() >= 1,
        forall|i: int|
            0 <= i < r@.len() ==> palette_colors(*palette).contains(#[trigger] r@[i])
                || r@[i] == score_fallback(),
{
    ini_material_color_utilities_rs::score::score(palette)
}

/// The best scored color of a quantized palette: one of its colors, or the
/// fallback blue where none qualifies.
pub fn best_color(palette: &ahash::AHashMap<[u8; 4], u32>) -> (r: [u8; 4])
    ensures
        palette_colors(*palette).contains(r) || r == score_fallback(),
{
    let ranked = score(palette);
    ranked[0]
}

/// The sample of an image: the image scaled into the sample width with its
/// aspect ratio kept, its pixels in ARGB order.
pub open spec fn sampled(img: image::DynamicImage) -> Seq<[u8; 4]> {
    let (w, h) = image_size(img);
    let small = resized_of(img, SAMPLE_WIDTH, sample_height(w as int, h as int) as u32);
    image_rgba(small).map_values(|p: [u8; 4]| argb_of_rgba(p))
}

/// Samples an image's pixels: scaled into the sample width with its aspect
/// ratio kept, each pixel in ARGB order. Fails on an image without pixels.
pub fn sample_pixels(img: &image::DynamicImage) -> (r: Result<Vec<[u8; 4]>, SourceError>)
    ensures
        r is Err <==> image_size(*img).0 == 0 || image_size(*img).1 == 0,
        r is Err ==> r->Err_0 == SourceError::EmptyImage,
        r is Ok ==> r->Ok_0@ == sampled(*img),
        r is Ok ==> 1 <= r->Ok_0@.len() <= MAX_PIXELS,
{
    let (width, height) = image_dimensions(img);
    if width == 0 || height == 0 {
        return Err(SourceError::EmptyImage);
    }
    let (nw, nh) = sample_dimensions(width, height);
    let small = resize(img, nw, nh);
    let rgba = rgba_pixels(&small);
    proof {
        let (sw, sh) = image_size(small);
        assert(1 <= sw * sh <= nw * nh) by (nonlinear_arith)
            requires
                1 <= sw <= nw,
                1 <= sh <= nh,
        ;
    }
    let argb = rgba_to_argb(&rgba);
    assert(argb@ =~= sampled(*img));
    Ok(argb)
}

/// The ARGB source color of an image: its sampled pixels are quantized and
/// the best scored color is taken. Quantized colors and the fallback are all
/// fully opaque.
pub fn source_from_image(img: &image::DynamicImage) -> (r: Result<[u8; 4], SourceError>)
    ensures
        r is Err <==> image_size(*img).0 == 0 || image_size(*img).1 == 0,
        r is Err ==> r->Err_0 == SourceError::EmptyImage,
        r is Ok ==> r->Ok_0[0] == 255,
{
    let pixels = match sample_pixels(img) {
        Ok(p) => p,
        Err(e) => return Err(e),
    };
    let palette = quantize(&pixels, MAX_COLORS);
    let best = best_color(&palette);
    Ok(best)
}

} // verus!
