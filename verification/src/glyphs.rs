//! Font faces parsed with `ab_glyph`, and the choice of the face and glyph that draw a character.

use vstd::prelude::*;
use ab_glyph::{Font, FontRef, GlyphId, Outline};
use crate::font_id::{FontId, font_named};

verus! {

#[verifier::external_type_specification]
#[verifier::external_body]
pub struct ExFontRef<'a>(FontRef<'a>);

#[verifier::external_type_specification]
#[verifier::external_body]
pub struct ExOutline(Outline);

/// Whether `ab_glyph` accepts `bytes` as a font (TrueType/OpenType, face index 0).
pub uninterp spec fn ttf_face_parses(bytes: Seq<u8>) -> bool;

/// The glyph index that the character map of the font in `bytes` assigns to `ch` (0: no glyph).
pub uninterp spec fn ttf_glyph_index(bytes: Seq<u8>, ch: char) -> u16;

/// Whether glyph `glyph` of the font in `bytes` has an outline with a non-empty bounding box.
pub uninterp spec fn ttf_glyph_has_outline(bytes: Seq<u8>, glyph: u16) -> bool;

/// A font face parsed from a byte buffer, together with that buffer. Only `parse_face` builds
/// one, so the face is always the one parsed from the buffer it is kept with.
pub struct LoadedFont<'a> {
    bytes: &'a [u8],
    face: FontRef<'a>,
}

impl<'a> LoadedFont<'a> {
    /// The bytes the face was parsed from.
    pub closed spec fn source(&self) -> Seq<u8> {
        self.bytes@
    }

    /// The face parsed from `source()`.
    pub closed spec fn parsed_face(&self) -> FontRef<'a> {
        self.face
    }

    /// The parsed face, for drawing glyph outlines.
    pub fn face(&self) -> (r: &FontRef<'a>)
        ensures
            *r == self.parsed_face(),
    {
        &self.face
    }
}

/// Parses a face with `ab_glyph::FontRef::try_from_slice`. The contract claims that the
/// outcome depends only on the bytes, and keeps the bytes beside the face.
#[verifier::external_body]
fn parse_face<'a>(bytes: &'a [u8]) -> (r: Option<LoadedFont<'a>>)
    ensures
        r is Some == ttf_face_parses(bytes@),
        r matches Some(f) ==> f.source() == bytes@,
{
    match FontRef::try_from_slice(bytes) {
        Ok(face) => Some(LoadedFont { bytes, face }),
        Err(_) => None,
    }
}

/// Calls `ab_glyph::Font::glyph_id` on the face; the contract claims that the glyph index is
/// a function of the font bytes and the character.
#[verifier::external_body]
fn face_glyph_index(font: &LoadedFont, ch: char) -> (r: u16)
    ensures
        r == ttf_glyph_index(font.source(), ch),
{
    font.face.glyph_id(ch).0
}

/// Calls `ab_glyph::Font::outline` on the face; the contract claims that whether an outline
/// comes back is a function of the font bytes and the glyph index. Nothing is stated of the
/// outline's curves.
#[verifier::external_body]
fn face_outline(font: &LoadedFont, glyph: u16) -> (r: Option<Outline>)
    ensures
        r is Some == ttf_glyph_has_outline(font.source(), glyph),
{
    font.face.outline(GlyphId(glyph))
}

/// Whether the font in `bytes` can draw `ch`: it parses, maps `ch` to a real glyph, and that
/// glyph has an outline.
pub open spec fn renders_char(bytes: Seq<u8>, ch: char) -> bool {
    &&& ttf_face_parses(bytes)
    &&& ttf_glyph_index(bytes, ch) != 0
    &&& ttf_glyph_has_outline(bytes, ttf_glyph_index(bytes, ch))
}

/// The character used to probe whether a font can serve as a general Unicode fallback (☺).
pub const FALLBACK_PROBE_CHAR: char = '\u{263a}';

/// Whether the font in `bytes` has a drawable glyph for `ch`.
pub fn font_renders_char(bytes: &[u8], ch: char) -> (r: bool)
    ensures
        r == renders_char(bytes@, ch),
{
    match parse_face(bytes) {
        None => false,
        Some(font) => {
            let glyph = face_glyph_index(&font, ch);
            if glyph == 0 {
                false
            } else {
                face_outline(&font, glyph).is_some()
            }
        },
    }
}

/// A loaded face together with the identifier it was loaded for.
pub struct FontEntry<'a> {
    pub id: FontId,
    pub font: LoadedFont<'a>,
}

/// Parses every font of a table of face identifiers and font files; the first file that does
/// not parse is reported by its identifier.
pub fn parse_font_table<'a>(data: &'a Vec<(FontId, Vec<u8>)>) -> (r: Result<Vec<FontEntry<'a>>, FontId>)
    ensures
        match r {
            Ok(fonts) => {
                &&& fonts@.len() == data@.len()
                &&& forall|k: int| 0 <= k < data@.len() ==> ttf_face_parses(#[trigger] data@[k].1@)
                &&& forall|k: int|
                    0 <= k < data@.len() ==> #[trigger] fonts@[k].id == data@[k].0
                        && fonts@[k].font.source() == data@[k].1@
            },
            Err(id) => exists|k: int|
                0 <= k < data@.len() && #[trigger] data@[k].0 == id && !ttf_face_parses(data@[k].1@)
                    && forall|j: int| 0 <= j < k ==> ttf_face_parses(#[trigger] data@[j].1@),
        },
{
    let mut fonts: Vec<FontEntry<'a>> = Vec::new();
    let mut i: usize = 0;
    while i < data.len()
        invariant
            i <= data@.len(),
            fonts@.len() == i,
            forall|k: int| 0 <= k < i ==> ttf_face_parses(#[trigger] data@[k].1@),
            forall|k: int|
                0 <= k < i ==> #[trigger] fonts@[k].id == data@[k].0 && fonts@[k].font.source()
                    == data@[k].1@,
        decreases data.len() - i,
    {
        let entry = &data[i];
        match parse_face(entry.1.as_slice()) {
            Some(font) => {
                fonts.push(FontEntry { id: entry.0, font });
            },
            None => {
                return Err(entry.0);
            },
        }
        i += 1;
    }
    Ok(fonts)
}


/// Calls `char::from_u32`. Its documentation states that it returns `None` exactly when the
/// value is a surrogate (U+D800 to U+DFFF) or above U+10FFFF, and the character otherwise.
#[verifier::external_body]
fn char_from_code(code: u32) -> (r: Option<char>)
    ensures
        r is Some <==> (code < 0xD800 || (0xE000 <= code <= 0x10FFFF)),
        r matches Some(c) ==> c as u32 == code,
{
    char::from_u32(code)
}

/// Whether `code` is a Unicode scalar value (a code point that is not a surrogate).
pub open spec fn is_scalar_value(code: u32) -> bool {
    code < 0xD800 || (0xE000 <= code <= 0x10FFFF)
}

/// The character to draw for a display-list code point: the character itself, or `?` when the
/// code is not a Unicode scalar value.
pub fn glyph_char(code: u32) -> (r: char)
    ensures
        is_scalar_value(code) ==> r as u32 == code,
        !is_scalar_value(code) ==> r == '?',
{
    match char_from_code(code) {
        Some(c) => c,
        None => '?',
    }
}

/// Position of the first loaded face with identifier `id`.
pub open spec fn face_position(fonts: Seq<FontEntry>, id: FontId) -> Option<int>
    decreases fonts.len(),
{
    if fonts.len() == 0 {
        None
    } else {
        match face_position(fonts.drop_last(), id) {
            Some(k) => Some(k),
            None => if fonts.last().id == id {
                Some(fonts.len() - 1)
            } else {
                None
            },
        }
    }
}

/// The glyph index of `ch` in the face at position `k`.
pub open spec fn glyph_at(fonts: Seq<FontEntry>, k: int, ch: char) -> u16 {
    ttf_glyph_index(fonts[k].font.source(), ch)
}

/// Which loaded face and glyph draw `ch` for a display item that names the face `font_name`:
/// the named face (the main face when the name is unknown), or the main face when the named one
/// is not loaded; when that face has no glyph for `ch`, the main face's glyph if it has one.
pub open spec fn glyph_choice(fonts: Seq<FontEntry>, font_name: Seq<char>, ch: char) -> Option<(int, u16)> {
    let requested = match font_named(font_name) {
        Some(f) => f,
        None => FontId::MainRegular,
    };
    let main = face_position(fonts, FontId::MainRegular);
    let primary = match face_position(fonts, requested) {
        Some(k) => Some(k),
        None => main,
    };
    match primary {
        None => None,
        Some(k) => if glyph_at(fonts, k, ch) != 0 {
            Some((k, glyph_at(fonts, k, ch)))
        } else {
            match main {
                Some(m) => if glyph_at(fonts, m, ch) != 0 {
                    Some((m, glyph_at(fonts, m, ch)))
                } else {
                    None
                },
                None => None,
            }
        },
    }
}

/// Finds the first loaded face with identifier `id`.
fn find_face(fonts: &Vec<FontEntry>, id: FontId) -> (r: Option<usize>)
    ensures
        match r {
            Some(k) => face_position(fonts@, id) == Some(k as int),
            None => face_position(fonts@, id) is None,
        },
{
    let mut k: usize = 0;
    while k < fonts.len()
        invariant
            k <= fonts@.len(),
            face_position(fonts@.take(k as int), id) is None,
        decreases fonts.len() - k,
    {
        proof {
            assert(fonts@.take(k + 1).drop_last() =~= fonts@.take(k as int));
        }
        if fonts[k].id == id {
            proof {
                lemma_face_position_prefix(fonts@, id, k as int + 1);
            }
            return Some(k);
        }
        k += 1;
    }
    proof {
        assert(fonts@.take(fonts@.len() as int) =~= fonts@);
    }
    None
}

/// A face found in a prefix is found at the same position in the whole table.
proof fn lemma_face_position_prefix(fonts: Seq<FontEntry>, id: FontId, n: int)
    requires
        0 <= n <= fonts.len(),
        face_position(fonts.take(n), id) is Some,
    ensures
        face_position(fonts, id) == face_position(fonts.take(n), id),
    decreases fonts.len() - n,
{
    if n < fonts.len() {
        assert(fonts.take(n + 1).drop_last() =~= fonts.take(n));
        lemma_face_position_prefix(fonts, id, n + 1);
    } else {
        assert(fonts.take(n) =~= fonts);
    }
}

/// Chooses the face and glyph that draw `ch` for a display item naming the face `font_name`;
/// `None` when no loaded face can draw it.
pub fn select_glyph(fonts: &Vec<FontEntry>, font_name: &str, ch: char) -> (r: Option<(usize, u16)>)
    ensures
        match r {
            Some((k, g)) => glyph_choice(fonts@, font_name@, ch) == Some((k as int, g)),
            None => glyph_choice(fonts@, font_name@, ch) is None,
        },
{
    let requested = match FontId::parse(font_name) {
        Some(f) => f,
        None => FontId::MainRegular,
    };
    let main = find_face(fonts, FontId::MainRegular);
    let primary = match find_face(fonts, requested) {
        Some(k) => Some(k),
        None => main,
    };
    match primary {
        None => None,
        Some(k) => {
            proof {
                lemma_face_position_in_range(fonts@, requested);
                lemma_face_position_in_range(fonts@, FontId::MainRegular);
            }
            let g = face_glyph_index(&fonts[k].font, ch);
            if g != 0 {
                Some((k, g))
            } else {
                match main {
                    Some(m) => {
                        let g2 = face_glyph_index(&fonts[m].font, ch);
                        if g2 != 0 {
                            Some((m, g2))
                        } else {
                            None
                        }
                    },
                    None => None,
                }
            }
        },
    }
}

/// A position found for a face lies inside the table and holds that face.
proof fn lemma_face_position_in_range(fonts: Seq<FontEntry>, id: FontId)
    ensures
        face_position(fonts, id) matches Some(k) ==> 0 <= k < fonts.len() && fonts[k].id == id,
    decreases fonts.len(),
{
    if fonts.len() > 0 {
        lemma_face_position_in_range(fonts.drop_last(), id);
    }
}

} // verus!
