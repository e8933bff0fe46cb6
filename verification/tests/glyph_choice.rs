use ratex::font_id::FontId;
use ratex::glyphs::{font_renders_char, parse_font_table, select_glyph, FontEntry, FALLBACK_PROBE_CHAR};

fn put16(v: &mut Vec<u8>, x: u16) {
    v.extend_from_slice(&x.to_be_bytes());
}

fn put32(v: &mut Vec<u8>, x: u32) {
    v.extend_from_slice(&x.to_be_bytes());
}

/// A square outline, 34 bytes.
fn square_glyph() -> Vec<u8> {
    let mut g = Vec::new();
    put16(&mut g, 1); // one contour
    for b in [0u16, 0, 100, 100] {
        put16(&mut g, b);
    }
    put16(&mut g, 3); // last point of the contour
    put16(&mut g, 0); // no instructions
    g.extend_from_slice(&[1, 1, 1, 1]); // on-curve points, 16-bit coordinates
    for dx in [0i16, 100, 0, -100] {
        put16(&mut g, dx as u16);
    }
    for dy in [0i16, 0, 100, 0] {
        put16(&mut g, dy as u16);
    }
    g
}

/// Builds a minimal TrueType font. Glyph 0 is empty; glyph `k + 1` is mapped from
/// `glyphs[k].0` and has a square outline when `glyphs[k].1` holds, no outline otherwise.
fn build_font(glyphs: &[(char, bool)]) -> Vec<u8> {
    let num_glyphs = glyphs.len() as u16 + 1;

    let mut head = Vec::new();
    put32(&mut head, 0x0001_0000);
    put32(&mut head, 0x0001_0000);
    put32(&mut head, 0);
    put32(&mut head, 0x5F0F_3CF5);
    put16(&mut head, 0);
    put16(&mut head, 1000); // units per em
    head.extend_from_slice(&[0u8; 16]);
    for b in [0u16, 0, 100, 100] {
        put16(&mut head, b);
    }
    put16(&mut head, 0);
    put16(&mut head, 8);
    put16(&mut head, 2);
    put16(&mut head, 0); // short loca offsets
    put16(&mut head, 0);

    let mut hhea = Vec::new();
    put32(&mut hhea, 0x0001_0000);
    put16(&mut hhea, 800);
    put16(&mut hhea, (-200i16) as u16);
    put16(&mut hhea, 0);
    hhea.extend_from_slice(&[0u8; 24]);
    put16(&mut hhea, 0);

    let mut maxp = Vec::new();
    put32(&mut maxp, 0x0000_5000);
    put16(&mut maxp, num_glyphs);

    let mut glyf = Vec::new();
    let mut loca = Vec::new();
    put16(&mut loca, 0);
    for (_, outline) in glyphs {
        if *outline {
            glyf.extend_from_slice(&square_glyph());
        }
        put16(&mut loca, (glyf.len() / 2) as u16);
    }
    // glyph 0 is empty: its range is [0, 0)
    let mut loca_full = Vec::new();
    put16(&mut loca_full, 0);
    loca_full.extend_from_slice(&loca);

    let mut mapping: Vec<(u32, u32)> =
        glyphs.iter().enumerate().map(|(k, (c, _))| (*c as u32, k as u32 + 1)).collect();
    mapping.sort();
    let mut sub = Vec::new();
    put16(&mut sub, 12);
    put16(&mut sub, 0);
    put32(&mut sub, 16 + 12 * mapping.len() as u32);
    put32(&mut sub, 0);
    put32(&mut sub, mapping.len() as u32);
    for (c, g) in &mapping {
        put32(&mut sub, *c);
        put32(&mut sub, *c);
        put32(&mut sub, *g);
    }
    let mut cmap = Vec::new();
    put16(&mut cmap, 0);
    put16(&mut cmap, 1);
    put16(&mut cmap, 0); // Unicode platform
    put16(&mut cmap, 4); // full repertoire
    put32(&mut cmap, 12);
    cmap.extend_from_slice(&sub);

    let tables: Vec<(&[u8; 4], Vec<u8>)> = vec![
        (b"cmap", cmap),
        (b"glyf", glyf),
        (b"head", head),
        (b"hhea", hhea),
        (b"loca", loca_full),
        (b"maxp", maxp),
    ];
    let mut font = Vec::new();
    put32(&mut font, 0x0001_0000);
    put16(&mut font, tables.len() as u16);
    put16(&mut font, 0);
    put16(&mut font, 0);
    put16(&mut font, 0);
    let mut offset = 12 + 16 * tables.len();
    let mut body = Vec::new();
    for (tag, data) in &tables {
        font.extend_from_slice(*tag);
        put32(&mut font, 0);
        put32(&mut font, offset as u32);
        put32(&mut font, data.len() as u32);
        body.extend_from_slice(data);
        while body.len() % 4 != 0 {
            body.push(0);
        }
        offset = 12 + 16 * tables.len() + body.len();
    }
    font.extend_from_slice(&body);
    font
}

#[test]
fn renders_only_mapped_outlined_glyphs() {
    let font = build_font(&[('A', true), ('B', false), (FALLBACK_PROBE_CHAR, true)]);
    assert!(font_renders_char(&font, 'A'));
    assert!(!font_renders_char(&font, 'B'));
    assert!(!font_renders_char(&font, 'C'));
    assert!(font_renders_char(&font, FALLBACK_PROBE_CHAR));
}

fn table() -> Vec<(FontId, Vec<u8>)> {
    vec![
        (FontId::MathItalic, build_font(&[('x', true), ('y', true), ('z', false)])),
        (FontId::MainRegular, build_font(&[('1', true), ('z', true), ('x', true)])),
    ]
}

#[test]
fn table_parses_in_order() {
    let data = table();
    let fonts: Vec<FontEntry> = parse_font_table(&data).ok().unwrap();
    assert_eq!(fonts.len(), 2);
    assert_eq!(fonts[0].id, FontId::MathItalic);
    assert_eq!(fonts[1].id, FontId::MainRegular);
}

#[test]
fn first_unparsable_font_is_reported() {
    let mut data = table();
    data.push((FontId::AmsRegular, b"garbage".to_vec()));
    data.push((FontId::Size1Regular, b"more garbage".to_vec()));
    assert!(matches!(parse_font_table(&data), Err(FontId::AmsRegular)));
}

#[test]
fn named_face_draws_its_glyphs() {
    let data = table();
    let fonts = parse_font_table(&data).ok().unwrap();
    assert_eq!(select_glyph(&fonts, "Math-Italic", 'x'), Some((0, 1)));
    assert_eq!(select_glyph(&fonts, "Math-Italic", 'y'), Some((0, 2)));
    assert_eq!(select_glyph(&fonts, "Main-Regular", 'x'), Some((1, 3)));
}

#[test]
fn missing_glyph_falls_back_to_main_face() {
    let data = table();
    let fonts = parse_font_table(&data).ok().unwrap();
    // 'z' is mapped in the italic face (even without outline): no fallback.
    assert_eq!(select_glyph(&fonts, "Math-Italic", 'z'), Some((0, 3)));
    // '1' is not mapped in the italic face.
    assert_eq!(select_glyph(&fonts, "Math-Italic", '1'), Some((1, 1)));
    assert_eq!(select_glyph(&fonts, "Math-Italic", 'q'), None);
}

#[test]
fn unloaded_or_unknown_face_uses_main_face() {
    let data = table();
    let fonts = parse_font_table(&data).ok().unwrap();
    assert_eq!(select_glyph(&fonts, "Size1-Regular", 'z'), Some((1, 2)));
    assert_eq!(select_glyph(&fonts, "NoSuchFace", '1'), Some((1, 1)));
    assert_eq!(select_glyph(&fonts, "", 'y'), None);
}

#[test]
fn without_main_face_only_named_face() {
    let data = vec![(FontId::MathItalic, build_font(&[('x', true)]))];
    let fonts = parse_font_table(&data).ok().unwrap();
    assert_eq!(select_glyph(&fonts, "Math-Italic", 'x'), Some((0, 1)));
    assert_eq!(select_glyph(&fonts, "Math-Italic", 'y'), None);
    assert_eq!(select_glyph(&fonts, "Main-Regular", 'x'), None);
}
