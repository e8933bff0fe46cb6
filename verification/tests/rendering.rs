use ratex::glyphs::{font_renders_char, glyph_char, parse_font_table, select_glyph, FALLBACK_PROBE_CHAR};
use ratex::font_id::FontId;
use ratex::png_out::encode_png;

#[test]
fn glyph_chars_from_codes() {
    assert_eq!(glyph_char(65), 'A');
    assert_eq!(glyph_char(0x222B), '∫');
    assert_eq!(glyph_char(0xD800), '?');
    assert_eq!(glyph_char(0xDFFF), '?');
    assert_eq!(glyph_char(0x110000), '?');
    assert_eq!(glyph_char(0x10FFFF), '\u{10FFFF}');
}

#[test]
fn garbage_is_not_a_font() {
    assert!(!font_renders_char(b"not a font at all", 'a'));
    assert!(!font_renders_char(&[], FALLBACK_PROBE_CHAR));
    let table = vec![(FontId::MainRegular, b"junk".to_vec())];
    assert!(matches!(parse_font_table(&table), Err(FontId::MainRegular)));
}

#[test]
fn no_fonts_no_glyph() {
    let table: Vec<(FontId, Vec<u8>)> = vec![];
    let fonts = parse_font_table(&table).ok().unwrap();
    assert!(fonts.is_empty());
    assert_eq!(select_glyph(&fonts, "Main-Regular", 'x'), None);
    assert_eq!(select_glyph(&fonts, "Nope", 'x'), None);
}

const PNG_SIGNATURE: [u8; 8] = [137, 80, 78, 71, 13, 10, 26, 10];

#[test]
fn png_of_one_pixel() {
    let png = encode_png(1, 1, &[255, 0, 0, 255]).unwrap();
    assert_eq!(&png[..8], &PNG_SIGNATURE);
    assert_eq!(&png[12..16], b"IHDR");
    assert_eq!(&png[16..20], &1u32.to_be_bytes());
    assert_eq!(&png[20..24], &1u32.to_be_bytes());
    assert_eq!(png[24], 8);
    assert_eq!(png[25], 6);
    assert_eq!(&png[png.len() - 8..png.len() - 4], b"IEND");
}

#[test]
fn png_of_two_by_three() {
    let data = vec![7u8; 2 * 3 * 4];
    let png = encode_png(2, 3, &data).unwrap();
    assert_eq!(&png[16..20], &2u32.to_be_bytes());
    assert_eq!(&png[20..24], &3u32.to_be_bytes());
}

#[test]
fn png_refuses_zero_size() {
    let e = encode_png(0, 5, &[]).unwrap_err();
    assert!(e.starts_with("PNG header error: "), "{}", e);
    let e = encode_png(5, 0, &[]).unwrap_err();
    assert!(e.starts_with("PNG header error: "), "{}", e);
}

#[test]
fn png_of_large_empty_claim_is_refused_without_panic() {
    let e = encode_png(1 << 15, 1 << 15, &[]).unwrap_err();
    assert!(e.starts_with("PNG write error: "), "{}", e);
}

#[test]
fn png_refuses_wrong_data_length() {
    let e = encode_png(2, 2, &[0u8; 15]).unwrap_err();
    assert!(e.starts_with("PNG write error: "), "{}", e);
}
