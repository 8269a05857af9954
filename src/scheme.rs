use vstd::prelude::*;
use crate::color::{
    brighter_or_ceiling, darker_or_floor, hex6, lemma_brighten_increases, lemma_darken_decreases,
    shifted, Rgb, RgbExt,
};
use ini_material_color_utilities_rs::palettes;
use ini_material_color_utilities_rs::scheme::scheme::Scheme as TonalScheme;

verus! {

#[verifier::external_type_specification]
#[verifier::external_body]
pub struct ExColorPalette(palettes::core::ColorPalette);

/// Declared with its fields in view: each is a public `[u8; 4]` ARGB color,
/// which `Scheme::from_tonal` reads role by role.
#[verifier::external_type_specification]
pub struct ExTonalScheme(TonalScheme);

/// The tonal algebra's palette variant, handed on to the generator unchanged.
pub type PaletteVariant = palettes::core::ColorPalette;

/// Which kind of scheme is generated, and which corrections follow.
#[derive(Clone, Copy, Debug, PartialEq, Eq, Structural)]
pub enum SchemeMode {
    Amoled,
    Dark,
    Light,
}

/// A complete color scheme: one color for each role.
#[derive(Clone, Copy, Debug, PartialEq, Eq, Structural)]
pub struct Scheme {
    pub primary: Rgb,
    pub primary_fixed: Rgb,
    pub primary_fixed_dim: Rgb,
    pub on_primary: Rgb,
    pub on_primary_fixed: Rgb,
    pub on_primary_fixed_variant: Rgb,
    pub primary_container: Rgb,
    pub on_primary_container: Rgb,
    pub secondary: Rgb,
    pub secondary_fixed: Rgb,
    pub secondary_fixed_dim: Rgb,
    pub on_secondary: Rgb,
    pub on_secondary_fixed: Rgb,
    pub on_secondary_fixed_variant: Rgb,
    pub secondary_container: Rgb,
    pub on_secondary_container: Rgb,
    pub tertiary: Rgb,
    pub tertiary_fixed: Rgb,
    pub tertiary_fixed_dim: Rgb,
    pub on_tertiary: Rgb,
    pub on_tertiary_fixed: Rgb,
    pub on_tertiary_fixed_variant: Rgb,
    pub tertiary_container: Rgb,
    pub on_tertiary_container: Rgb,
    pub error: Rgb,
    pub on_error: Rgb,
    pub error_container: Rgb,
    pub on_error_container: Rgb,
    pub surface: Rgb,
    pub on_surface: Rgb,
    pub on_surface_variant: Rgb,
    pub outline: Rgb,
    pub outline_variant: Rgb,
    pub shadow: Rgb,
    pub scrim: Rgb,
    pub inverse_surface: Rgb,
    pub inverse_on_surface: Rgb,
    pub inverse_primary: Rgb,
    pub surface_dim: Rgb,
    pub surface_bright: Rgb,
    pub surface_container_lowest: Rgb,
    pub surface_container_low: Rgb,
    pub surface_container: Rgb,
    pub surface_container_high: Rgb,
    pub surface_container_highest: Rgb,
}

/// The opaque color of an ARGB value; the alpha channel is dropped.
pub open spec fn rgb_of_argb(a: [u8; 4]) -> Rgb {
    Rgb { red: a[1], green: a[2], blue: a[3] }
}

fn argb_to_rgb(a: [u8; 4]) -> (r: Rgb)
    ensures
        r == rgb_of_argb(a),
{
    Rgb { red: a[1], green: a[2], blue: a[3] }
}

/// The scheme that holds the tonal generator's colors, role for role.
pub open spec fn scheme_of_tonal(t: TonalScheme) -> Scheme {
    Scheme {
        primary: rgb_of_argb(t.primary),
        primary_fixed: rgb_of_argb(t.primary_fixed),
        primary_fixed_dim: rgb_of_argb(t.primary_fixed_dim),
        on_primary: rgb_of_argb(t.on_primary),
        on_primary_fixed: rgb_of_argb(t.on_primary_fixed),
        on_primary_fixed_variant: rgb_of_argb(t.on_primary_fixed_variant),
        primary_container: rgb_of_argb(t.primary_container),
        on_primary_container: rgb_of_argb(t.on_primary_container),
        secondary: rgb_of_argb(t.secondary),
        secondary_fixed: rgb_of_argb(t.secondary_fixed),
        secondary_fixed_dim: rgb_of_argb(t.secondary_fixed_dim),
        on_secondary: rgb_of_argb(t.on_secondary),
        on_secondary_fixed: rgb_of_argb(t.on_secondary_fixed),
        on_secondary_fixed_variant: rgb_of_argb(t.on_secondary_fixed_variant),
        secondary_container: rgb_of_argb(t.secondary_container),
        on_secondary_container: rgb_of_argb(t.on_secondary_container),
        tertiary: rgb_of_argb(t.tertiary),
        tertiary_fixed: rgb_of_argb(t.tertiary_fixed),
        tertiary_fixed_dim: rgb_of_argb(t.tertiary_fixed_dim),
        on_tertiary: rgb_of_argb(t.on_tertiary),
        on_tertiary_fixed: rgb_of_argb(t.on_tertiary_fixed),
        on_tertiary_fixed_variant: rgb_of_argb(t.on_tertiary_fixed_variant),
        tertiary_container: rgb_of_argb(t.tertiary_container),
        on_tertiary_container: rgb_of_argb(t.on_tertiary_container),
        error: rgb_of_argb(t.error),
        on_error: rgb_of_argb(t.on_error),
        error_container: rgb_of_argb(t.error_container),
        on_error_container: rgb_of_argb(t.on_error_container),
        surface: rgb_of_argb(t.surface),
        on_surface: rgb_of_argb(t.on_surface),
        on_surface_variant: rgb_of_argb(t.on_surface_variant),
        outline: rgb_of_argb(t.outline),
        outline_variant: rgb_of_argb(t.outline_variant),
        shadow: rgb_of_argb(t.shadow),
        scrim: rgb_of_argb(t.scrim),
        inverse_surface: rgb_of_argb(t.inverse_surface),
        inverse_on_surface: rgb_of_argb(t.inverse_on_surface),
        inverse_primary: rgb_of_argb(t.inverse_primary),
        surface_dim: rgb_of_argb(t.surface_dim),
        surface_bright: rgb_of_argb(t.surface_bright),
        surface_container_lowest: rgb_of_argb(t.surface_container_lowest),
        surface_container_low: rgb_of_argb(t.surface_container_low),
        surface_container: rgb_of_argb(t.surface_container),
        surface_container_high: rgb_of_argb(t.surface_container_high),
        surface_container_highest: rgb_of_argb(t.surface_container_highest),
    }
}

/// How many roles a scheme has.
pub const ROLE_COUNT: usize = 45;

/// The role names in the order in which the scheme lists its roles.
pub open spec fn role_names() -> Seq<Seq<char>> {
    seq![
        "primary"@,
        "primary_fixed"@,
        "primary_fixed_dim"@,
        "on_primary"@,
        "on_primary_fixed"@,
        "on_primary_fixed_variant"@,
        "primary_container"@,
        "on_primary_container"@,
        "secondary"@,
        "secondary_fixed"@,
        "secondary_fixed_dim"@,
        "on_secondary"@,
        "on_secondary_fixed"@,
        "on_secondary_fixed_variant"@,
        "secondary_container"@,
        "on_secondary_container"@,
        "tertiary"@,
        "tertiary_fixed"@,
        "tertiary_fixed_dim"@,
        "on_tertiary"@,
        "on_tertiary_fixed"@,
        "on_tertiary_fixed_variant"@,
        "tertiary_container"@,
        "on_tertiary_container"@,
        "error"@,
        "on_error"@,
        "error_container"@,
        "on_error_container"@,
        "surface"@,
        "on_surface"@,
        "on_surface_variant"@,
        "outline"@,
        "outline_variant"@,
        "shadow"@,
        "scrim"@,
        "inverse_surface"@,
        "inverse_on_surface"@,
        "inverse_primary"@,
        "surface_dim"@,
        "surface_bright"@,
        "surface_container_lowest"@,
        "surface_container_low"@,
        "surface_container"@,
        "surface_container_high"@,
        "surface_container_highest"@,
    ]
}

/// No two roles share a name, so the output lists each role exactly once.
#[verifier::rlimit(100)]
pub proof fn lemma_role_names_distinct()
    ensures
        forall|i: int, j: int|
            0 <= i < j < role_names().len() ==> role_names()[i] != role_names()[j],
{
    reveal_strlit("primary");
    reveal_strlit("primary_fixed");
    reveal_strlit("primary_fixed_dim");
    reveal_strlit("on_primary");
    reveal_strlit("on_primary_fixed");
    reveal_strlit("on_primary_fixed_variant");
    reveal_strlit("primary_container");
    reveal_strlit("on_primary_container");
    reveal_strlit("secondary");
    reveal_strlit("secondary_fixed");
    reveal_strlit("secondary_fixed_dim");
    reveal_strlit("on_secondary");
    reveal_strlit("on_secondary_fixed");
    reveal_strlit("on_secondary_fixed_variant");
    reveal_strlit("secondary_container");
    reveal_strlit("on_secondary_container");
    reveal_strlit("tertiary");
    reveal_strlit("tertiary_fixed");
    reveal_strlit("tertiary_fixed_dim");
    reveal_strlit("on_tertiary");
    reveal_strlit("on_tertiary_fixed");
    reveal_strlit("on_tertiary_fixed_variant");
    reveal_strlit("tertiary_container");
    reveal_strlit("on_tertiary_container");
    reveal_strlit("error");
    reveal_strlit("on_error");
    reveal_strlit("error_container");
    reveal_strlit("on_error_container");
    reveal_strlit("surface");
    reveal_strlit("on_surface");
    reveal_strlit("on_surface_variant");
    reveal_strlit("outline");
    reveal_strlit("outline_variant");
    reveal_strlit("shadow");
    reveal_strlit("scrim");
    reveal_strlit("inverse_surface");
    reveal_strlit("inverse_on_surface");
    reveal_strlit("inverse_primary");
    reveal_strlit("surface_dim");
    reveal_strlit("surface_bright");
    reveal_strlit("surface_container_lowest");
    reveal_strlit("surface_container_low");
    reveal_strlit("surface_container");
    reveal_strlit("surface_container_high");
    reveal_strlit("surface_container_highest");
    assert forall|i: int, j: int| 0 <= i < j < role_names().len() implies role_names()[i] != role_names()[j] by {
        let a = role_names()[i];
        let b = role_names()[j];
        if a.len() == b.len() {
            if i == 0 && j == 28 {
                assert(a[0] != b[0]);
            }
            if i == 0 && j == 31 {
                assert(a[0] != b[0]);
            }
            if i == 2 && j == 6 {
                assert(a[8] != b[8]);
            }
            if i == 2 && j == 20 {
                assert(a[0] != b[0]);
            }
            if i == 2 && j == 42 {
                assert(a[0] != b[0]);
            }
            if i == 3 && j == 29 {
                assert(a[3] != b[3]);
            }
            if i == 5 && j == 40 {
                assert(a[0] != b[0]);
            }
            if i == 6 && j == 20 {
                assert(a[0] != b[0]);
            }
            if i == 6 && j == 42 {
                assert(a[0] != b[0]);
            }
            if i == 9 && j == 26 {
                assert(a[0] != b[0]);
            }
            if i == 9 && j == 32 {
                assert(a[0] != b[0]);
            }
            if i == 9 && j == 35 {
                assert(a[0] != b[0]);
            }
            if i == 9 && j == 37 {
                assert(a[0] != b[0]);
            }
            if i == 10 && j == 14 {
                assert(a[10] != b[10]);
            }
            if i == 12 && j == 18 {
                assert(a[0] != b[0]);
            }
            if i == 12 && j == 22 {
                assert(a[0] != b[0]);
            }
            if i == 12 && j == 27 {
                assert(a[3] != b[3]);
            }
            if i == 12 && j == 30 {
                assert(a[4] != b[4]);
            }
            if i == 12 && j == 36 {
                assert(a[0] != b[0]);
            }
            if i == 15 && j == 43 {
                assert(a[0] != b[0]);
            }
            if i == 16 && j == 25 {
                assert(a[0] != b[0]);
            }
            if i == 17 && j == 39 {
                assert(a[0] != b[0]);
            }
            if i == 18 && j == 22 {
                assert(a[9] != b[9]);
            }
            if i == 18 && j == 27 {
                assert(a[0] != b[0]);
            }
            if i == 18 && j == 30 {
                assert(a[0] != b[0]);
            }
            if i == 18 && j == 36 {
                assert(a[0] != b[0]);
            }
            if i == 19 && j == 38 {
                assert(a[0] != b[0]);
            }
            if i == 20 && j == 42 {
                assert(a[0] != b[0]);
            }
            if i == 21 && j == 44 {
                assert(a[0] != b[0]);
            }
            if i == 22 && j == 27 {
                assert(a[0] != b[0]);
            }
            if i == 22 && j == 30 {
                assert(a[0] != b[0]);
            }
            if i == 22 && j == 36 {
                assert(a[0] != b[0]);
            }
            if i == 23 && j == 41 {
                assert(a[0] != b[0]);
            }
            if i == 24 && j == 34 {
                assert(a[0] != b[0]);
            }
            if i == 26 && j == 32 {
                assert(a[0] != b[0]);
            }
            if i == 26 && j == 35 {
                assert(a[0] != b[0]);
            }
            if i == 26 && j == 37 {
                assert(a[0] != b[0]);
            }
            if i == 27 && j == 30 {
                assert(a[3] != b[3]);
            }
            if i == 27 && j == 36 {
                assert(a[0] != b[0]);
            }
            if i == 28 && j == 31 {
                assert(a[0] != b[0]);
            }
            if i == 30 && j == 36 {
                assert(a[0] != b[0]);
            }
            if i == 32 && j == 35 {
                assert(a[0] != b[0]);
            }
            if i == 32 && j == 37 {
                assert(a[0] != b[0]);
            }
            if i == 35 && j == 37 {
                assert(a[8] != b[8]);
            }
        }
    }
}

/// The colors of a scheme in the order of `role_names`.
pub open spec fn role_colors(s: Scheme) -> Seq<Rgb> {
    seq![
        s.primary,
        s.primary_fixed,
        s.primary_fixed_dim,
        s.on_primary,
        s.on_primary_fixed,
        s.on_primary_fixed_variant,
        s.primary_container,
        s.on_primary_container,
        s.secondary,
        s.secondary_fixed,
        s.secondary_fixed_dim,
        s.on_secondary,
        s.on_secondary_fixed,
        s.on_secondary_fixed_variant,
        s.secondary_container,
        s.on_secondary_container,
        s.tertiary,
        s.tertiary_fixed,
        s.tertiary_fixed_dim,
        s.on_tertiary,
        s.on_tertiary_fixed,
        s.on_tertiary_fixed_variant,
        s.tertiary_container,
        s.on_tertiary_container,
        s.error,
        s.on_error,
        s.error_container,
        s.on_error_container,
        s.surface,
        s.on_surface,
        s.on_surface_variant,
        s.outline,
        s.outline_variant,
        s.shadow,
        s.scrim,
        s.inverse_surface,
        s.inverse_on_surface,
        s.inverse_primary,
        s.surface_dim,
        s.surface_bright,
        s.surface_container_lowest,
        s.surface_container_low,
        s.surface_container,
        s.surface_container_high,
        s.surface_container_highest,
    ]
}

/// The scheme after the baseline darkening: each role of the correction set
/// darkened by one percent, every other role as it was.
pub open spec fn darkened_baseline(s: Scheme) -> Scheme {
    Scheme {
        surface: shifted(s.surface, -1),
        surface_dim: shifted(s.surface_dim, -1),
        surface_bright: shifted(s.surface_bright, -1),
        surface_container: shifted(s.surface_container, -1),
        surface_container_lowest: shifted(s.surface_container_lowest, -1),
        surface_container_low: shifted(s.surface_container_low, -1),
        surface_container_high: shifted(s.surface_container_high, -1),
        surface_container_highest: shifted(s.surface_container_highest, -1),
        inverse_surface: shifted(s.inverse_surface, -1),
        primary: shifted(s.primary, -1),
        secondary: shifted(s.secondary, -1),
        tertiary: shifted(s.tertiary, -1),
        primary_container: shifted(s.primary_container, -1),
        secondary_container: shifted(s.secondary_container, -1),
        tertiary_container: shifted(s.tertiary_container, -1),
        error: shifted(s.error, -1),
        ..s
    }
}

/// The scheme after the correction that depends on the mode. In the dark
/// mode `surface_dim` is darkened once more and `surface_bright` becomes
/// `lightened_surface`, the color of `surface` with its HSL lightness raised;
/// in the light mode `surface_bright` is brightened by one percent; the
/// AMOLED mode changes nothing.
pub open spec fn mode_adjusted(s: Scheme, mode: SchemeMode, lightened_surface: Rgb) -> Scheme {
    match mode {
        SchemeMode::Dark => Scheme {
            surface_dim: shifted(s.surface_dim, -1),
            surface_bright: lightened_surface,
            ..s
        },
        SchemeMode::Light => Scheme { surface_bright: shifted(s.surface_bright, 1), ..s },
        SchemeMode::Amoled => s,
    }
}

/// The whole correction pass: the baseline darkening, then the step of the mode.
pub open spec fn corrected(s: Scheme, mode: SchemeMode, lightened_surface: Rgb) -> Scheme {
    mode_adjusted(darkened_baseline(s), mode, lightened_surface)
}

fn push_role(out: &mut Vec<(String, String)>, name: &str, color: Rgb)
    ensures
        final(out)@.len() == old(out)@.len() + 1,
        forall|i: int| 0 <= i < old(out)@.len() ==> final(out)@[i] == old(out)@[i],
        final(out)@.last().0@ == name@,
        final(out)@.last().1@ == hex6(color),
{
    out.push((name.to_owned(), color.to_hex_string()));
}

/// The light tonal scheme generated for a source color and palette variant.
pub uninterp spec fn light_tonal_of(source: [u8; 4], palette: PaletteVariant) -> TonalScheme;

/// The dark tonal scheme generated for a source color and palette variant.
pub uninterp spec fn dark_tonal_of(source: [u8; 4], palette: PaletteVariant) -> TonalScheme;

/// The pure dark tonal scheme generated for a source color and palette variant.
pub uninterp spec fn pure_dark_tonal_of(source: [u8; 4], palette: PaletteVariant) -> TonalScheme;

/// Relies on `CorePalette::new` (as content colors) and
/// `Scheme::light_from_core_palette`: the light scheme's colors are tones of
/// the palettes, computed from the source's hue and chroma alone.
#[verifier::external_body]
fn light_tonal(source: [u8; 4], palette: &PaletteVariant) -> (r: TonalScheme)
    ensures
        r == light_tonal_of(source, *palette),
{
    TonalScheme::light_from_core_palette(&mut palettes::core::CorePalette::new(source, true, palette))
}

/// Relies on `CorePalette::new` (as content colors) and
/// `Scheme::dark_from_core_palette`: the dark scheme's colors are tones of
/// the palettes, computed from the source's hue and chroma alone.
#[verifier::external_body]
fn dark_tonal(source: [u8; 4], palette: &PaletteVariant) -> (r: TonalScheme)
    ensures
        r == dark_tonal_of(source, *palette),
{
    TonalScheme::dark_from_core_palette(&mut palettes::core::CorePalette::new(source, true, palette))
}

/// Relies on `CorePalette::new` (as content colors) and
/// `Scheme::pure_dark_from_core_palette`: the pure dark scheme's colors are
/// tones of the palettes, computed from the source's hue and chroma alone.
#[verifier::external_body]
fn pure_dark_tonal(source: [u8; 4], palette: &PaletteVariant) -> (r: TonalScheme)
    ensures
        r == pure_dark_tonal_of(source, *palette),
{
    TonalScheme::pure_dark_from_core_palette(&mut palettes::core::CorePalette::new(source, true, palette))
}

/// The tonal scheme generated for a source color in a mode: the pure dark
/// scheme for AMOLED.
pub open spec fn tonal_scheme_of(source: [u8; 4], palette: PaletteVariant, mode: SchemeMode) -> TonalScheme {
    match mode {
        SchemeMode::Amoled => pure_dark_tonal_of(source, palette),
        SchemeMode::Dark => dark_tonal_of(source, palette),
        SchemeMode::Light => light_tonal_of(source, palette),
    }
}

/// Generates the scheme for a source color: the tonal algebra's scheme of
/// the mode (pure dark for AMOLED), before any correction.
pub fn generate_scheme(source: [u8; 4], palette: &PaletteVariant, mode: SchemeMode) -> (r: Scheme)
    ensures
        r == scheme_of_tonal(tonal_scheme_of(source, *palette, mode)),
{
    let tonal = match mode {
        SchemeMode::Amoled => pure_dark_tonal(source, palette),
        SchemeMode::Dark => dark_tonal(source, palette),
        SchemeMode::Light => light_tonal(source, palette),
    };
    Scheme::from_tonal(&tonal)
}

/// The dark step changes `surface_dim` and `surface_bright` alone, the light
/// step `surface_bright` alone, and the AMOLED step nothing.
pub proof fn lemma_mode_exclusive(s: Scheme, lightened_surface: Rgb)
    ensures
        ({
            let d = mode_adjusted(s, SchemeMode::Dark, lightened_surface);
            &&& d.surface_dim == shifted(s.surface_dim, -1)
            &&& d.surface_bright == lightened_surface
            &&& (Scheme { surface_dim: s.surface_dim, surface_bright: s.surface_bright, ..d }) == s
        }),
        ({
            let l = mode_adjusted(s, SchemeMode::Light, lightened_surface);
            &&& l.surface_bright == shifted(s.surface_bright, 1)
            &&& (Scheme { surface_bright: s.surface_bright, ..l }) == s
        }),
        mode_adjusted(s, SchemeMode::Amoled, lightened_surface) == s,
{
}

/// The baseline darkening moves every channel of every role of the
/// correction set down, or leaves it at 0; the light step then moves every
/// channel of `surface_bright` up, or leaves it at 255.
pub proof fn lemma_correction_direction(s: Scheme, lightened_surface: Rgb)
    ensures
        darker_or_floor(darkened_baseline(s).surface, s.surface),
        darker_or_floor(darkened_baseline(s).surface_dim, s.surface_dim),
        darker_or_floor(darkened_baseline(s).surface_bright, s.surface_bright),
        darker_or_floor(darkened_baseline(s).surface_container, s.surface_container),
        darker_or_floor(darkened_baseline(s).surface_container_lowest, s.surface_container_lowest),
        darker_or_floor(darkened_baseline(s).surface_container_low, s.surface_container_low),
        darker_or_floor(darkened_baseline(s).surface_container_high, s.surface_container_high),
        darker_or_floor(darkened_baseline(s).surface_container_highest, s.surface_container_highest),
        darker_or_floor(darkened_baseline(s).inverse_surface, s.inverse_surface),
        darker_or_floor(darkened_baseline(s).primary, s.primary),
        darker_or_floor(darkened_baseline(s).secondary, s.secondary),
        darker_or_floor(darkened_baseline(s).tertiary, s.tertiary),
        darker_or_floor(darkened_baseline(s).primary_container, s.primary_container),
        darker_or_floor(darkened_baseline(s).secondary_container, s.secondary_container),
        darker_or_floor(darkened_baseline(s).tertiary_container, s.tertiary_container),
        darker_or_floor(darkened_baseline(s).error, s.error),
        brighter_or_ceiling(
            corrected(s, SchemeMode::Light, lightened_surface).surface_bright,
            darkened_baseline(s).surface_bright,
        ),
{
    lemma_darken_decreases(s.surface);
    lemma_darken_decreases(s.surface_dim);
    lemma_darken_decreases(s.surface_bright);
    lemma_darken_decreases(s.surface_container);
    lemma_darken_decreases(s.surface_container_lowest);
    lemma_darken_decreases(s.surface_container_low);
    lemma_darken_decreases(s.surface_container_high);
    lemma_darken_decreases(s.surface_container_highest);
    lemma_darken_decreases(s.inverse_surface);
    lemma_darken_decreases(s.primary);
    lemma_darken_decreases(s.secondary);
    lemma_darken_decreases(s.tertiary);
    lemma_darken_decreases(s.primary_container);
    lemma_darken_decreases(s.secondary_container);
    lemma_darken_decreases(s.tertiary_container);
    lemma_darken_decreases(s.error);
    lemma_brighten_increases(darkened_baseline(s).surface_bright);
}

/// After the whole correction pass in the dark mode, `surface_dim` has been
/// darkened twice and `surface_bright` is the lightened surface; in the light
/// mode `surface_bright` has been darkened and then brightened.
pub proof fn lemma_corrected_surfaces(s: Scheme, lightened_surface: Rgb)
    ensures
        corrected(s, SchemeMode::Dark, lightened_surface).surface_dim == shifted(shifted(s.surface_dim, -1), -1),
        corrected(s, SchemeMode::Dark, lightened_surface).surface_bright == lightened_surface,
        corrected(s, SchemeMode::Dark, lightened_surface).surface == shifted(s.surface, -1),
        corrected(s, SchemeMode::Light, lightened_surface).surface_bright == shifted(shifted(s.surface_bright, -1), 1),
        corrected(s, SchemeMode::Amoled, lightened_surface) == darkened_baseline(s),
{
}

impl Scheme {
    /// The scheme that holds a generated tonal scheme's colors.
    pub fn from_tonal(t: &TonalScheme) -> (r: Scheme)
        ensures
            r == scheme_of_tonal(*t),
    {
        Scheme {
            primary: argb_to_rgb(t.primary),
            primary_fixed: argb_to_rgb(t.primary_fixed),
            primary_fixed_dim: argb_to_rgb(t.primary_fixed_dim),
            on_primary: argb_to_rgb(t.on_primary),
            on_primary_fixed: argb_to_rgb(t.on_primary_fixed),
            on_primary_fixed_variant: argb_to_rgb(t.on_primary_fixed_variant),
            primary_container: argb_to_rgb(t.primary_container),
            on_primary_container: argb_to_rgb(t.on_primary_container),
            secondary: argb_to_rgb(t.secondary),
            secondary_fixed: argb_to_rgb(t.secondary_fixed),
            secondary_fixed_dim: argb_to_rgb(t.secondary_fixed_dim),
            on_secondary: argb_to_rgb(t.on_secondary),
            on_secondary_fixed: argb_to_rgb(t.on_secondary_fixed),
            on_secondary_fixed_variant: argb_to_rgb(t.on_secondary_fixed_variant),
            secondary_container: argb_to_rgb(t.secondary_container),
            on_secondary_container: argb_to_rgb(t.on_secondary_container),
            tertiary: argb_to_rgb(t.tertiary),
            tertiary_fixed: argb_to_rgb(t.tertiary_fixed),
            tertiary_fixed_dim: argb_to_rgb(t.tertiary_fixed_dim),
            on_tertiary: argb_to_rgb(t.on_tertiary),
            on_tertiary_fixed: argb_to_rgb(t.on_tertiary_fixed),
            on_tertiary_fixed_variant: argb_to_rgb(t.on_tertiary_fixed_variant),
            tertiary_container: argb_to_rgb(t.tertiary_container),
            on_tertiary_container: argb_to_rgb(t.on_tertiary_container),
            error: argb_to_rgb(t.error),
            on_error: argb_to_rgb(t.on_error),
            error_container: argb_to_rgb(t.error_container),
            on_error_container: argb_to_rgb(t.on_error_container),
            surface: argb_to_rgb(t.surface),
            on_surface: argb_to_rgb(t.on_surface),
            on_surface_variant: argb_to_rgb(t.on_surface_variant),
            outline: argb_to_rgb(t.outline),
            outline_variant: argb_to_rgb(t.outline_variant),
            shadow: argb_to_rgb(t.shadow),
            scrim: argb_to_rgb(t.scrim),
            inverse_surface: argb_to_rgb(t.inverse_surface),
            inverse_on_surface: argb_to_rgb(t.inverse_on_surface),
            inverse_primary: argb_to_rgb(t.inverse_primary),
            surface_dim: argb_to_rgb(t.surface_dim),
            surface_bright: argb_to_rgb(t.surface_bright),
            surface_container_lowest: argb_to_rgb(t.surface_container_lowest),
            surface_container_low: argb_to_rgb(t.surface_container_low),
            surface_container: argb_to_rgb(t.surface_container),
            surface_container_high: argb_to_rgb(t.surface_container_high),
            surface_container_highest: argb_to_rgb(t.surface_container_highest),
        }
    }

    /// Darkens each role of the correction set by one percent.
    pub fn darken_baseline(&mut self)
        ensures
            *final(self) == darkened_baseline(*old(self)),
    {
        self.surface.brigthen(-1);
        self.surface_dim.brigthen(-1);
        self.surface_bright.brigthen(-1);
        self.surface_container.brigthen(-1);
        self.surface_container_lowest.brigthen(-1);
        self.surface_container_low.brigthen(-1);
        self.surface_container_high.brigthen(-1);
        self.surface_container_highest.brigthen(-1);
        self.inverse_surface.brigthen(-1);
        self.primary.brigthen(-1);
        self.secondary.brigthen(-1);
        self.tertiary.brigthen(-1);
        self.primary_container.brigthen(-1);
        self.secondary_container.brigthen(-1);
        self.tertiary_container.brigthen(-1);
        self.error.brigthen(-1);
    }

    /// The step of the correction pass that depends on the mode; it follows
    /// the baseline darkening. `lightened_surface` is used in the dark mode
    /// alone: the current `surface` with its HSL lightness raised.
    pub fn apply_mode(&mut self, mode: SchemeMode, lightened_surface: Rgb)
        ensures
            *final(self) == mode_adjusted(*old(self), mode, lightened_surface),
    {
        match mode {
            SchemeMode::Dark => {
                self.surface_dim.brigthen(-1);
                self.surface_bright = lightened_surface;
            },
            SchemeMode::Light => {
                self.surface_bright.brigthen(1);
            },
            SchemeMode::Amoled => {},
        }
    }

    /// The name and color of the role at `i` in the order of `role_names`.
    #[verifier::rlimit(50)]
    fn role_at(&self, i: usize) -> (r: (&'static str, Rgb))
        requires
            i < ROLE_COUNT,
        ensures
            r.0@ == role_names()[i as int],
            r.1 == role_colors(*self)[i as int],
    {
        match i {
            0 => ("primary", self.primary),
            1 => ("primary_fixed", self.primary_fixed),
            2 => ("primary_fixed_dim", self.primary_fixed_dim),
            3 => ("on_primary", self.on_primary),
            4 => ("on_primary_fixed", self.on_primary_fixed),
            5 => ("on_primary_fixed_variant", self.on_primary_fixed_variant),
            6 => ("primary_container", self.primary_container),
            7 => ("on_primary_container", self.on_primary_container),
            8 => ("secondary", self.secondary),
            9 => ("secondary_fixed", self.secondary_fixed),
            10 => ("secondary_fixed_dim", self.secondary_fixed_dim),
            11 => ("on_secondary", self.on_secondary),
            12 => ("on_secondary_fixed", self.on_secondary_fixed),
            13 => ("on_secondary_fixed_variant", self.on_secondary_fixed_variant),
            14 => ("secondary_container", self.secondary_container),
            15 => ("on_secondary_container", self.on_secondary_container),
            16 => ("tertiary", self.tertiary),
            17 => ("tertiary_fixed", self.tertiary_fixed),
            18 => ("tertiary_fixed_dim", self.tertiary_fixed_dim),
            19 => ("on_tertiary", self.on_tertiary),
            20 => ("on_tertiary_fixed", self.on_tertiary_fixed),
            21 => ("on_tertiary_fixed_variant", self.on_tertiary_fixed_variant),
            22 => ("tertiary_container", self.tertiary_container),
            23 => ("on_tertiary_container", self.on_tertiary_container),
            24 => ("error", self.error),
            25 => ("on_error", self.on_error),
            26 => ("error_container", self.error_container),
            27 => ("on_error_container", self.on_error_container),
            28 => ("surface", self.surface),
            29 => ("on_surface", self.on_surface),
            30 => ("on_surface_variant", self.on_surface_variant),
            31 => ("outline", self.outline),
            32 => ("outline_variant", self.outline_variant),
            33 => ("shadow", self.shadow),
            34 => ("scrim", self.scrim),
            35 => ("inverse_surface", self.inverse_surface),
            36 => ("inverse_on_surface", self.inverse_on_surface),
            37 => ("inverse_primary", self.inverse_primary),
            38 => ("surface_dim", self.surface_dim),
            39 => ("surface_bright", self.surface_bright),
            40 => ("surface_container_lowest", self.surface_container_lowest),
            41 => ("surface_container_low", self.surface_container_low),
            42 => ("surface_container", self.surface_container),
            43 => ("surface_container_high", self.surface_container_high),
            _ => ("surface_container_highest", self.surface_container_highest),
        }
    }

    /// Each role with its color as six hex digits, in the order of
    /// `role_names`.
    pub fn to_output(&self) -> (r: Vec<(String, String)>)
        ensures
            r@.len() == role_names().len(),
            forall|i: int| 0 <= i < r@.len() ==> (#[trigger] r@[i]).0@ == role_names()[i],
            forall|i: int| 0 <= i < r@.len() ==> (#[trigger] r@[i]).1@ == hex6(role_colors(*self)[i]),
    {
        let mut out: Vec<(String, String)> = Vec::new();
        let mut i: usize = 0;
        while i < ROLE_COUNT
            invariant
                i <= ROLE_COUNT,
                role_names().len() == ROLE_COUNT,
                out@.len() == i,
                forall|j: int| 0 <= j < i ==> (#[trigger] out@[j]).0@ == role_names()[j],
                forall|j: int| 0 <= j < i ==> (#[trigger] out@[j]).1@ == hex6(role_colors(*self)[j]),
            decreases ROLE_COUNT - i,
        {
            let (name, color) = self.role_at(i);
            push_role(&mut out, name, color);
            i = i + 1;
        }
        out
    }
}

} // verus!
