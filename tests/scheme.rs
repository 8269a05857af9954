use scheme_gen::color::Rgb;
use scheme_gen::scheme::{generate_scheme, PaletteVariant, SchemeMode, ROLE_COUNT};
use scheme_gen::source::source_from_hex;

fn minus(c: u8, d: u8) -> u8 {
    c.saturating_sub(d)
}

#[test]
fn baseline_darkens_the_correction_set_only() {
    let source = source_from_hex("3366aa").unwrap();
    let generated = generate_scheme(source, &PaletteVariant::Default, SchemeMode::Dark);
    let mut s = generated;
    s.darken_baseline();
    for (new, old) in [
        (s.surface, generated.surface),
        (s.primary, generated.primary),
        (s.error, generated.error),
        (s.inverse_surface, generated.inverse_surface),
        (s.tertiary_container, generated.tertiary_container),
    ] {
        assert_eq!(new.red, minus(old.red, 2));
        assert_eq!(new.green, minus(old.green, 2));
        assert_eq!(new.blue, minus(old.blue, 2));
    }
    assert_eq!(s.on_surface, generated.on_surface);
    assert_eq!(s.outline, generated.outline);
    assert_eq!(s.primary_fixed, generated.primary_fixed);
}

#[test]
fn amoled_changes_nothing_after_the_baseline() {
    let source = source_from_hex("3366aa").unwrap();
    let mut s = generate_scheme(source, &PaletteVariant::Triadic, SchemeMode::Amoled);
    s.darken_baseline();
    let before = s;
    s.apply_mode(SchemeMode::Amoled, Rgb { red: 1, green: 2, blue: 3 });
    assert_eq!(s, before);
}

#[test]
fn light_red_scheme_scenario() {
    let source = source_from_hex("ff0000").unwrap();
    let generated = generate_scheme(source, &PaletteVariant::Default, SchemeMode::Light);
    assert!(generated.primary.red > generated.primary.green);
    assert!(generated.primary.red > generated.primary.blue);
    let mut s = generated;
    s.darken_baseline();
    let darkened = s;
    s.apply_mode(SchemeMode::Light, Rgb { red: 0, green: 0, blue: 0 });
    assert!(s.surface_bright.red >= generated.surface_bright.red);
    assert!(s.surface_bright.green >= generated.surface_bright.green);
    assert!(s.surface_bright.blue >= generated.surface_bright.blue);
    let mut only_bright = darkened;
    only_bright.surface_bright = s.surface_bright;
    assert_eq!(s, only_bright);
    let out = s.to_output();
    let primary = out.iter().find(|(k, _)| k == "primary").unwrap();
    assert_eq!(primary.1, s.primary.to_hex_string());
}

#[test]
fn dark_black_scheme_scenario() {
    let source = source_from_hex("000000").unwrap();
    let generated = generate_scheme(source, &PaletteVariant::Default, SchemeMode::Dark);
    let mut s = generated;
    s.darken_baseline();
    let lightened = Rgb { red: 40, green: 41, blue: 42 };
    s.apply_mode(SchemeMode::Dark, lightened);
    assert_eq!(s.surface_dim.red, minus(generated.surface_dim.red, 4));
    assert_eq!(s.surface_dim.green, minus(generated.surface_dim.green, 4));
    assert_eq!(s.surface_dim.blue, minus(generated.surface_dim.blue, 4));
    assert_eq!(s.surface.red, minus(generated.surface.red, 2));
    assert!(s.surface_dim.red <= s.surface.red);
    assert_eq!(s.surface_bright, lightened);
}

#[test]
fn output_lists_every_role_once() {
    let source = source_from_hex("#1e90ff").unwrap();
    for mode in [SchemeMode::Amoled, SchemeMode::Dark, SchemeMode::Light] {
        let s = generate_scheme(source, &PaletteVariant::Adjacent, mode);
        let out = s.to_output();
        assert_eq!(out.len(), ROLE_COUNT);
        let mut keys: Vec<&str> = out.iter().map(|(k, _)| k.as_str()).collect();
        keys.sort();
        keys.dedup();
        assert_eq!(keys.len(), ROLE_COUNT);
        assert_eq!(out[0].0, "primary");
        assert_eq!(out[0].1, s.primary.to_hex_string());
        assert_eq!(out[ROLE_COUNT - 1].0, "surface_container_highest");
        assert!(out.iter().all(|(_, v)| v.len() == 6));
    }
}
