//! Identifiers of the KaTeX font faces and their canonical names.

use vstd::prelude::*;
use crate::text::str_equal;

verus! {

/// Font families used in KaTeX math rendering.
///
/// Each variant corresponds to a specific OpenType font with pre-extracted metrics.
#[derive(Debug, Clone, Copy, PartialEq, Eq, Hash, Structural)]
pub enum FontId {
    AmsRegular,
    CaligraphicRegular,
    FrakturRegular,
    /// Bold Fraktur, whose glyphs come from `KaTeX_Fraktur-Bold.ttf`.
    FrakturBold,
    MainBold,
    MainBoldItalic,
    MainItalic,
    MainRegular,
    MathBoldItalic,
    MathItalic,
    SansSerifBold,
    SansSerifItalic,
    SansSerifRegular,
    ScriptRegular,
    Size1Regular,
    Size2Regular,
    Size3Regular,
    Size4Regular,
    TypewriterRegular,
}

impl FontId {
    /// The canonical name of the face, as used in font file names and display lists.
    pub open spec fn name(self) -> Seq<char> {
        match self {
            FontId::AmsRegular => "AMS-Regular"@,
            FontId::CaligraphicRegular => "Caligraphic-Regular"@,
            FontId::FrakturRegular => "Fraktur-Regular"@,
            FontId::FrakturBold => "Fraktur-Bold"@,
            FontId::MainBold => "Main-Bold"@,
            FontId::MainBoldItalic => "Main-BoldItalic"@,
            FontId::MainItalic => "Main-Italic"@,
            FontId::MainRegular => "Main-Regular"@,
            FontId::MathBoldItalic => "Math-BoldItalic"@,
            FontId::MathItalic => "Math-Italic"@,
            FontId::SansSerifBold => "SansSerif-Bold"@,
            FontId::SansSerifItalic => "SansSerif-Italic"@,
            FontId::SansSerifRegular => "SansSerif-Regular"@,
            FontId::ScriptRegular => "Script-Regular"@,
            FontId::Size1Regular => "Size1-Regular"@,
            FontId::Size2Regular => "Size2-Regular"@,
            FontId::Size3Regular => "Size3-Regular"@,
            FontId::Size4Regular => "Size4-Regular"@,
            FontId::TypewriterRegular => "Typewriter-Regular"@,
        }
    }

    pub fn as_str(self) -> (r: &'static str)
        ensures
            r@ == self.name(),
    {
        match self {
            FontId::AmsRegular => "AMS-Regular",
            FontId::CaligraphicRegular => "Caligraphic-Regular",
            FontId::FrakturRegular => "Fraktur-Regular",
            FontId::FrakturBold => "Fraktur-Bold",
            FontId::MainBold => "Main-Bold",
            FontId::MainBoldItalic => "Main-BoldItalic",
            FontId::MainItalic => "Main-Italic",
            FontId::MainRegular => "Main-Regular",
            FontId::MathBoldItalic => "Math-BoldItalic",
            FontId::MathItalic => "Math-Italic",
            FontId::SansSerifBold => "SansSerif-Bold",
            FontId::SansSerifItalic => "SansSerif-Italic",
            FontId::SansSerifRegular => "SansSerif-Regular",
            FontId::ScriptRegular => "Script-Regular",
            FontId::Size1Regular => "Size1-Regular",
            FontId::Size2Regular => "Size2-Regular",
            FontId::Size3Regular => "Size3-Regular",
            FontId::Size4Regular => "Size4-Regular",
            FontId::TypewriterRegular => "Typewriter-Regular",
        }
    }
}

/// The face whose canonical name is `s`, if there is one.
pub open spec fn font_named(s: Seq<char>) -> Option<FontId> {
    if exists|f: FontId| f.name() == s {
        Some(choose|f: FontId| f.name() == s)
    } else {
        None
    }
}

impl FontId {
    /// Looks up a face by its canonical name.
    pub fn parse(s: &str) -> (r: Option<FontId>)
        ensures
            r == font_named(s@),
    {
        let r = Self::parse_candidates(s);
        proof {
            match r {
                Some(f) => {
                    let g = choose|g: FontId| g.name() == s@;
                    lemma_names_distinct(f, g);
                },
                None => {},
            }
        }
        r
    }

    fn parse_candidates(s: &str) -> (r: Option<FontId>)
        ensures
            match r {
                Some(f) => f.name() == s@,
                None => forall|f: FontId| f.name() != s@,
            },
    {
        if str_equal(s, "AMS-Regular") {
            return Some(FontId::AmsRegular);
        }
        if str_equal(s, "Caligraphic-Regular") {
            return Some(FontId::CaligraphicRegular);
        }
        if str_equal(s, "Fraktur-Regular") {
            return Some(FontId::FrakturRegular);
        }
        if str_equal(s, "Fraktur-Bold") {
            return Some(FontId::FrakturBold);
        }
        if str_equal(s, "Main-Bold") {
            return Some(FontId::MainBold);
        }
        if str_equal(s, "Main-BoldItalic") {
            return Some(FontId::MainBoldItalic);
        }
        if str_equal(s, "Main-Italic") {
            return Some(FontId::MainItalic);
        }
        if str_equal(s, "Main-Regular") {
            return Some(FontId::MainRegular);
        }
        if str_equal(s, "Math-BoldItalic") {
            return Some(FontId::MathBoldItalic);
        }
        if str_equal(s, "Math-Italic") {
            return Some(FontId::MathItalic);
        }
        if str_equal(s, "SansSerif-Bold") {
            return Some(FontId::SansSerifBold);
        }
        if str_equal(s, "SansSerif-Italic") {
            return Some(FontId::SansSerifItalic);
        }
        if str_equal(s, "SansSerif-Regular") {
            return Some(FontId::SansSerifRegular);
        }
        if str_equal(s, "Script-Regular") {
            return Some(FontId::ScriptRegular);
        }
        if str_equal(s, "Size1-Regular") {
            return Some(FontId::Size1Regular);
        }
        if str_equal(s, "Size2-Regular") {
            return Some(FontId::Size2Regular);
        }
        if str_equal(s, "Size3-Regular") {
            return Some(FontId::Size3Regular);
        }
        if str_equal(s, "Size4-Regular") {
            return Some(FontId::Size4Regular);
        }
        if str_equal(s, "Typewriter-Regular") {
            return Some(FontId::TypewriterRegular);
        }
        assert forall|f: FontId| f.name() != s@ by {
            match f {
                FontId::AmsRegular => {},
                FontId::CaligraphicRegular => {},
                FontId::FrakturRegular => {},
                FontId::FrakturBold => {},
                FontId::MainBold => {},
                FontId::MainBoldItalic => {},
                FontId::MainItalic => {},
                FontId::MainRegular => {},
                FontId::MathBoldItalic => {},
                FontId::MathItalic => {},
                FontId::SansSerifBold => {},
                FontId::SansSerifItalic => {},
                FontId::SansSerifRegular => {},
                FontId::ScriptRegular => {},
                FontId::Size1Regular => {},
                FontId::Size2Regular => {},
                FontId::Size3Regular => {},
                FontId::Size4Regular => {},
                FontId::TypewriterRegular => {},
            }
        }
        None
    }
}

/// Looking up the name of a face gives back that face.
pub proof fn lemma_parse_name_round_trip(f: FontId)
    ensures
        font_named(f.name()) == Some(f),
{
    let g = choose|g: FontId| g.name() == f.name();
    lemma_names_distinct(f, g);
}

/// Length of the name and two of its characters: together they tell the faces apart.
spec fn name_signature(f: FontId) -> (int, char, char) {
    match f {
        FontId::AmsRegular => (11, 'S', 'R'),
        FontId::CaligraphicRegular => (19, 'l', 'g'),
        FontId::FrakturRegular => (15, 'a', 't'),
        FontId::FrakturBold => (12, 'a', 't'),
        FontId::MainBold => (9, 'i', '-'),
        FontId::MainBoldItalic => (15, 'i', '-'),
        FontId::MainItalic => (11, 'i', '-'),
        FontId::MainRegular => (12, 'i', '-'),
        FontId::MathBoldItalic => (15, 't', '-'),
        FontId::MathItalic => (11, 't', '-'),
        FontId::SansSerifBold => (14, 'n', 'S'),
        FontId::SansSerifItalic => (16, 'n', 'S'),
        FontId::SansSerifRegular => (17, 'n', 'S'),
        FontId::ScriptRegular => (14, 'r', 'p'),
        FontId::Size1Regular => (13, 'z', '1'),
        FontId::Size2Regular => (13, 'z', '2'),
        FontId::Size3Regular => (13, 'z', '3'),
        FontId::Size4Regular => (13, 'z', '4'),
        FontId::TypewriterRegular => (18, 'p', 'w'),
    }
}

proof fn lemma_name_signature(f: FontId)
    ensures
        f.name().len() == name_signature(f).0,
        f.name()[2] == name_signature(f).1,
        f.name()[4] == name_signature(f).2,
{
    match f {
        FontId::AmsRegular => { reveal_strlit("AMS-Regular"); }
        FontId::CaligraphicRegular => { reveal_strlit("Caligraphic-Regular"); }
        FontId::FrakturRegular => { reveal_strlit("Fraktur-Regular"); }
        FontId::FrakturBold => { reveal_strlit("Fraktur-Bold"); }
        FontId::MainBold => { reveal_strlit("Main-Bold"); }
        FontId::MainBoldItalic => { reveal_strlit("Main-BoldItalic"); }
        FontId::MainItalic => { reveal_strlit("Main-Italic"); }
        FontId::MainRegular => { reveal_strlit("Main-Regular"); }
        FontId::MathBoldItalic => { reveal_strlit("Math-BoldItalic"); }
        FontId::MathItalic => { reveal_strlit("Math-Italic"); }
        FontId::SansSerifBold => { reveal_strlit("SansSerif-Bold"); }
        FontId::SansSerifItalic => { reveal_strlit("SansSerif-Italic"); }
        FontId::SansSerifRegular => { reveal_strlit("SansSerif-Regular"); }
        FontId::ScriptRegular => { reveal_strlit("Script-Regular"); }
        FontId::Size1Regular => { reveal_strlit("Size1-Regular"); }
        FontId::Size2Regular => { reveal_strlit("Size2-Regular"); }
        FontId::Size3Regular => { reveal_strlit("Size3-Regular"); }
        FontId::Size4Regular => { reveal_strlit("Size4-Regular"); }
        FontId::TypewriterRegular => { reveal_strlit("Typewriter-Regular"); }
    }
}

/// Distinct faces have distinct names.
pub proof fn lemma_names_distinct(f: FontId, g: FontId)
    ensures
        f.name() == g.name() ==> f == g,
{
    lemma_name_signature(f);
    lemma_name_signature(g);
}


/// The canonical name of every face: the stem of its KaTeX font file and the name used in
/// display lists.
pub proof fn lemma_face_names()
    ensures
        FontId::AmsRegular.name() == "AMS-Regular"@,
        FontId::CaligraphicRegular.name() == "Caligraphic-Regular"@,
        FontId::FrakturRegular.name() == "Fraktur-Regular"@,
        FontId::FrakturBold.name() == "Fraktur-Bold"@,
        FontId::MainBold.name() == "Main-Bold"@,
        FontId::MainBoldItalic.name() == "Main-BoldItalic"@,
        FontId::MainItalic.name() == "Main-Italic"@,
        FontId::MainRegular.name() == "Main-Regular"@,
        FontId::MathBoldItalic.name() == "Math-BoldItalic"@,
        FontId::MathItalic.name() == "Math-Italic"@,
        FontId::SansSerifBold.name() == "SansSerif-Bold"@,
        FontId::SansSerifItalic.name() == "SansSerif-Italic"@,
        FontId::SansSerifRegular.name() == "SansSerif-Regular"@,
        FontId::ScriptRegular.name() == "Script-Regular"@,
        FontId::Size1Regular.name() == "Size1-Regular"@,
        FontId::Size2Regular.name() == "Size2-Regular"@,
        FontId::Size3Regular.name() == "Size3-Regular"@,
        FontId::Size4Regular.name() == "Size4-Regular"@,
        FontId::TypewriterRegular.name() == "Typewriter-Regular"@,
{
}

} // verus!
