use scheme_gen::color::Rgb;
use scheme_gen::source::{
    best_color, rgba_to_argb, sample_dimensions, sample_pixels, source_from_hex, source_from_image,
    SourceError,
};

#[test]
fn hex_with_and_without_hash() {
    assert_eq!(source_from_hex("ff0000"), Ok([255, 255, 0, 0]));
    assert_eq!(source_from_hex("#a1b2c3"), Ok([255, 0xa1, 0xb2, 0xc3]));
    assert_eq!(source_from_hex("#A1b2C3"), Ok([255, 0xa1, 0xb2, 0xc3]));
}

#[test]
fn hex_with_alpha() {
    assert_eq!(source_from_hex("#a1b2c3ff"), Ok([0xff, 0xa1, 0xb2, 0xc3]));
    assert_eq!(source_from_hex("A1B2C380"), Ok([0x80, 0xa1, 0xb2, 0xc3]));
    assert_eq!(source_from_hex("#a1b2c3f"), Err(SourceError::MalformedHex));
    assert_eq!(source_from_hex("#a1b2c3fg"), Err(SourceError::MalformedHex));
    assert_eq!(source_from_hex("##a1b2c3ff"), Err(SourceError::MalformedHex));
}

#[test]
fn short_hex_doubles_each_digit() {
    assert_eq!(source_from_hex("#abc"), Ok([255, 0xaa, 0xbb, 0xcc]));
    assert_eq!(source_from_hex("777"), Ok([255, 0x77, 0x77, 0x77]));
}

#[test]
fn malformed_hex_is_refused() {
    assert_eq!(source_from_hex("zzzzzz"), Err(SourceError::MalformedHex));
    assert_eq!(source_from_hex(""), Err(SourceError::MalformedHex));
    assert_eq!(source_from_hex("0000"), Err(SourceError::MalformedHex));
    assert_eq!(source_from_hex("#000000a"), Err(SourceError::MalformedHex));
    assert_eq!(source_from_hex("ffffff#"), Err(SourceError::MalformedHex));
    assert_eq!(source_from_hex("Magenta"), Err(SourceError::MalformedHex));
}

#[test]
fn hex_round_trip_keeps_channels() {
    for hex in ["ff0000", "#0ab107", "123", "#FfEeDd", "#0ab10780"] {
        let [_, red, green, blue] = source_from_hex(hex).unwrap();
        let again = Rgb { red, green, blue }.to_hex_string();
        assert_eq!(source_from_hex(&again), Ok([255, red, green, blue]));
    }
}

#[test]
fn sample_dimensions_keep_aspect_ratio() {
    assert_eq!(sample_dimensions(128, 64), (64, 32));
    assert_eq!(sample_dimensions(3, 2), (64, 43));
    assert_eq!(sample_dimensions(64, 64), (64, 64));
    assert_eq!(sample_dimensions(1920, 1080), (64, 36));
}

#[test]
fn sample_dimensions_never_reach_zero() {
    assert_eq!(sample_dimensions(1000, 1), (64, 1));
    assert_eq!(sample_dimensions(5000, 0), (64, 1));
}

#[test]
fn sample_dimensions_are_capped() {
    assert_eq!(sample_dimensions(1, 5000), (64, 263_172));
    assert_eq!(sample_dimensions(1, 4000), (64, 256_000));
}

#[test]
fn pixels_move_to_argb_order() {
    let pixels = vec![[1, 2, 3, 4], [10, 20, 30, 255]];
    assert_eq!(rgba_to_argb(&pixels), vec![[4, 1, 2, 3], [255, 10, 20, 30]]);
    assert_eq!(rgba_to_argb(&Vec::new()), Vec::<[u8; 4]>::new());
}

#[test]
fn sampled_image_is_scaled_and_not_empty() {
    let img = image::DynamicImage::new_rgba8(10, 5);
    let pixels = sample_pixels(&img).unwrap();
    assert_eq!(pixels.len(), 64 * 32);
    let tall = image::DynamicImage::new_rgba8(200, 1);
    assert_eq!(sample_pixels(&tall).unwrap().len(), 64);
}

#[test]
fn empty_image_is_refused() {
    let img = image::DynamicImage::new_rgba8(0, 0);
    assert_eq!(sample_pixels(&img), Err(SourceError::EmptyImage));
    assert_eq!(source_from_image(&img), Err(SourceError::EmptyImage));
}

#[test]
fn image_gives_a_source_color() {
    let mut buf = image::RgbaImage::new(16, 16);
    for p in buf.pixels_mut() {
        *p = image::Rgba([200, 30, 40, 255]);
    }
    let img = image::DynamicImage::ImageRgba8(buf);
    let source = source_from_image(&img).unwrap();
    assert_eq!(source[0], 255);
}

#[test]
fn best_color_comes_from_the_palette_or_the_fallback() {
    let mut palette: ahash::AHashMap<[u8; 4], u32> = ahash::AHashMap::new();
    palette.insert([255, 200, 30, 40], 10);
    let best = best_color(&palette);
    assert!(best == [255, 200, 30, 40] || best == [0xff, 0x42, 0x85, 0xf4]);
    let empty: ahash::AHashMap<[u8; 4], u32> = ahash::AHashMap::new();
    assert_eq!(best_color(&empty), [0xff, 0x42, 0x85, 0xf4]);
}
