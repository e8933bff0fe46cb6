//! The KaTeX font files: their names, which faces are bundled, and where they are looked for.

use vstd::prelude::*;
use crate::font_id::FontId;

verus! {

/// File name of the KaTeX font of a face, e.g. `KaTeX_Main-Regular.ttf`.
pub open spec fn font_file_name(id: FontId) -> Seq<char> {
    "KaTeX_"@ + id.name() + ".ttf"@
}

pub fn katex_font_file_name(id: FontId) -> (r: String)
    ensures
        r@ == font_file_name(id),
{
    let mut name = String::from_str("KaTeX_");
    name.append(id.as_str());
    name.append(".ttf");
    name
}

/// The faces whose font files are loaded, in loading order: all of them, or all but bold
/// Fraktur (which the raster renderer does not load).
pub open spec fn bundled_faces(with_fraktur_bold: bool) -> Seq<FontId> {
    let all = seq![
        FontId::MainRegular,
        FontId::MainBold,
        FontId::MainItalic,
        FontId::MainBoldItalic,
        FontId::MathItalic,
        FontId::MathBoldItalic,
        FontId::AmsRegular,
        FontId::CaligraphicRegular,
        FontId::FrakturRegular,
        FontId::FrakturBold,
        FontId::SansSerifRegular,
        FontId::SansSerifBold,
        FontId::SansSerifItalic,
        FontId::ScriptRegular,
        FontId::TypewriterRegular,
        FontId::Size1Regular,
        FontId::Size2Regular,
        FontId::Size3Regular,
        FontId::Size4Regular,
    ];
    if with_fraktur_bold {
        all
    } else {
        all.remove(9)
    }
}

/// The faces whose KaTeX font files are loaded.
pub fn bundled_font_ids(with_fraktur_bold: bool) -> (r: Vec<FontId>)
    ensures
        r@ == bundled_faces(with_fraktur_bold),
{
    let mut r: Vec<FontId> = Vec::new();
    r.push(FontId::MainRegular);
    r.push(FontId::MainBold);
    r.push(FontId::MainItalic);
    r.push(FontId::MainBoldItalic);
    r.push(FontId::MathItalic);
    r.push(FontId::MathBoldItalic);
    r.push(FontId::AmsRegular);
    r.push(FontId::CaligraphicRegular);
    r.push(FontId::FrakturRegular);
    if with_fraktur_bold {
        r.push(FontId::FrakturBold);
    }
    r.push(FontId::SansSerifRegular);
    r.push(FontId::SansSerifBold);
    r.push(FontId::SansSerifItalic);
    r.push(FontId::ScriptRegular);
    r.push(FontId::TypewriterRegular);
    r.push(FontId::Size1Regular);
    r.push(FontId::Size2Regular);
    r.push(FontId::Size3Regular);
    r.push(FontId::Size4Regular);
    assert(r@ =~= bundled_faces(with_fraktur_bold));
    r
}

/// Every face is bundled once; bold Fraktur is left out exactly when asked to.
pub proof fn lemma_bundled_faces(with_fraktur_bold: bool, f: FontId)
    ensures
        bundled_faces(with_fraktur_bold).no_duplicates(),
        bundled_faces(with_fraktur_bold).contains(f) <==> (with_fraktur_bold || f != FontId::FrakturBold),
{
    let s = bundled_faces(with_fraktur_bold);
    match f {
        FontId::MainRegular => assert(s[0] == f),
        FontId::MainBold => assert(s[1] == f),
        FontId::MainItalic => assert(s[2] == f),
        FontId::MainBoldItalic => assert(s[3] == f),
        FontId::MathItalic => assert(s[4] == f),
        FontId::MathBoldItalic => assert(s[5] == f),
        FontId::AmsRegular => assert(s[6] == f),
        FontId::CaligraphicRegular => assert(s[7] == f),
        FontId::FrakturRegular => assert(s[8] == f),
        FontId::FrakturBold => if with_fraktur_bold {
            assert(s[9] == f);
        },
        FontId::SansSerifRegular => if with_fraktur_bold {
            assert(s[10] == f);
        } else {
            assert(s[9] == f);
        },
        FontId::SansSerifBold => if with_fraktur_bold {
            assert(s[11] == f);
        } else {
            assert(s[10] == f);
        },
        FontId::SansSerifItalic => if with_fraktur_bold {
            assert(s[12] == f);
        } else {
            assert(s[11] == f);
        },
        FontId::ScriptRegular => if with_fraktur_bold {
            assert(s[13] == f);
        } else {
            assert(s[12] == f);
        },
        FontId::TypewriterRegular => if with_fraktur_bold {
            assert(s[14] == f);
        } else {
            assert(s[13] == f);
        },
        FontId::Size1Regular => if with_fraktur_bold {
            assert(s[15] == f);
        } else {
            assert(s[14] == f);
        },
        FontId::Size2Regular => if with_fraktur_bold {
            assert(s[16] == f);
        } else {
            assert(s[15] == f);
        },
        FontId::Size3Regular => if with_fraktur_bold {
            assert(s[17] == f);
        } else {
            assert(s[16] == f);
        },
        FontId::Size4Regular => if with_fraktur_bold {
            assert(s[18] == f);
        } else {
            assert(s[17] == f);
        },
    }
}

/// Picks the font directory among candidates: the first one found to hold the fonts, or the
/// first candidate when none does. `present[i]` tells whether candidate `i` holds them.
pub fn choose_font_dir(present: &Vec<bool>) -> (r: usize)
    ensures
        (exists|i: int| 0 <= i < present@.len() && present@[i]) ==> (r < present@.len() && present@[r as int]
            && forall|j: int| 0 <= j < r ==> !present@[j]),
        (forall|i: int| 0 <= i < present@.len() ==> !present@[i]) ==> r == 0,
{
    let mut i: usize = 0;
    while i < present.len()
        invariant
            i <= present@.len(),
            forall|j: int| 0 <= j < i ==> !present@[j],
        decreases present.len() - i,
    {
        if present[i] {
            return i;
        }
        i += 1;
    }
    0
}


/// The KaTeX font file of every face, e.g. `KaTeX_Main-BoldItalic.ttf` for the bold italic main
/// face.
pub proof fn lemma_font_file_names()
    ensures
        font_file_name(FontId::AmsRegular) == "KaTeX_AMS-Regular.ttf"@,
        font_file_name(FontId::CaligraphicRegular) == "KaTeX_Caligraphic-Regular.ttf"@,
        font_file_name(FontId::FrakturRegular) == "KaTeX_Fraktur-Regular.ttf"@,
        font_file_name(FontId::FrakturBold) == "KaTeX_Fraktur-Bold.ttf"@,
        font_file_name(FontId::MainBold) == "KaTeX_Main-Bold.ttf"@,
        font_file_name(FontId::MainBoldItalic) == "KaTeX_Main-BoldItalic.ttf"@,
        font_file_name(FontId::MainItalic) == "KaTeX_Main-Italic.ttf"@,
        font_file_name(FontId::MainRegular) == "KaTeX_Main-Regular.ttf"@,
        font_file_name(FontId::MathBoldItalic) == "KaTeX_Math-BoldItalic.ttf"@,
        font_file_name(FontId::MathItalic) == "KaTeX_Math-Italic.ttf"@,
        font_file_name(FontId::SansSerifBold) == "KaTeX_SansSerif-Bold.ttf"@,
        font_file_name(FontId::SansSerifItalic) == "KaTeX_SansSerif-Italic.ttf"@,
        font_file_name(FontId::SansSerifRegular) == "KaTeX_SansSerif-Regular.ttf"@,
        font_file_name(FontId::ScriptRegular) == "KaTeX_Script-Regular.ttf"@,
        font_file_name(FontId::Size1Regular) == "KaTeX_Size1-Regular.ttf"@,
        font_file_name(FontId::Size2Regular) == "KaTeX_Size2-Regular.ttf"@,
        font_file_name(FontId::Size3Regular) == "KaTeX_Size3-Regular.ttf"@,
        font_file_name(FontId::Size4Regular) == "KaTeX_Size4-Regular.ttf"@,
        font_file_name(FontId::TypewriterRegular) == "KaTeX_Typewriter-Regular.ttf"@,
{
    reveal_strlit("KaTeX_");
    reveal_strlit(".ttf");
    reveal_strlit("AMS-Regular");
    reveal_strlit("KaTeX_AMS-Regular.ttf");
    assert(font_file_name(FontId::AmsRegular) =~= "KaTeX_AMS-Regular.ttf"@);
    reveal_strlit("Caligraphic-Regular");
    reveal_strlit("KaTeX_Caligraphic-Regular.ttf");
    assert(font_file_name(FontId::CaligraphicRegular) =~= "KaTeX_Caligraphic-Regular.ttf"@);
    reveal_strlit("Fraktur-Regular");
    reveal_strlit("KaTeX_Fraktur-Regular.ttf");
    assert(font_file_name(FontId::FrakturRegular) =~= "KaTeX_Fraktur-Regular.ttf"@);
    reveal_strlit("Fraktur-Bold");
    reveal_strlit("KaTeX_Fraktur-Bold.ttf");
    assert(font_file_name(FontId::FrakturBold) =~= "KaTeX_Fraktur-Bold.ttf"@);
    reveal_strlit("Main-Bold");
    reveal_strlit("KaTeX_Main-Bold.ttf");
    assert(font_file_name(FontId::MainBold) =~= "KaTeX_Main-Bold.ttf"@);
    reveal_strlit("Main-BoldItalic");
    reveal_strlit("KaTeX_Main-BoldItalic.ttf");
    assert(font_file_name(FontId::MainBoldItalic) =~= "KaTeX_Main-BoldItalic.ttf"@);
    reveal_strlit("Main-Italic");
    reveal_strlit("KaTeX_Main-Italic.ttf");
    assert(font_file_name(FontId::MainItalic) =~= "KaTeX_Main-Italic.ttf"@);
    reveal_strlit("Main-Regular");
    reveal_strlit("KaTeX_Main-Regular.ttf");
    assert(font_file_name(FontId::MainRegular) =~= "KaTeX_Main-Regular.ttf"@);
    reveal_strlit("Math-BoldItalic");
    reveal_strlit("KaTeX_Math-BoldItalic.ttf");
    assert(font_file_name(FontId::MathBoldItalic) =~= "KaTeX_Math-BoldItalic.ttf"@);
    reveal_strlit("Math-Italic");
    reveal_strlit("KaTeX_Math-Italic.ttf");
    assert(font_file_name(FontId::MathItalic) =~= "KaTeX_Math-Italic.ttf"@);
    reveal_strlit("SansSerif-Bold");
    reveal_strlit("KaTeX_SansSerif-Bold.ttf");
    assert(font_file_name(FontId::SansSerifBold) =~= "KaTeX_SansSerif-Bold.ttf"@);
    reveal_strlit("SansSerif-Italic");
    reveal_strlit("KaTeX_SansSerif-Italic.ttf");
    assert(font_file_name(FontId::SansSerifItalic) =~= "KaTeX_SansSerif-Italic.ttf"@);
    reveal_strlit("SansSerif-Regular");
    reveal_strlit("KaTeX_SansSerif-Regular.ttf");
    assert(font_file_name(FontId::SansSerifRegular) =~= "KaTeX_SansSerif-Regular.ttf"@);
    reveal_strlit("Script-Regular");
    reveal_strlit("KaTeX_Script-Regular.ttf");
    assert(font_file_name(FontId::ScriptRegular) =~= "KaTeX_Script-Regular.ttf"@);
    reveal_strlit("Size1-Regular");
    reveal_strlit("KaTeX_Size1-Regular.ttf");
    assert(font_file_name(FontId::Size1Regular) =~= "KaTeX_Size1-Regular.ttf"@);
    reveal_strlit("Size2-Regular");
    reveal_strlit("KaTeX_Size2-Regular.ttf");
    assert(font_file_name(FontId::Size2Regular) =~= "KaTeX_Size2-Regular.ttf"@);
    reveal_strlit("Size3-Regular");
    reveal_strlit("KaTeX_Size3-Regular.ttf");
    assert(font_file_name(FontId::Size3Regular) =~= "KaTeX_Size3-Regular.ttf"@);
    reveal_strlit("Size4-Regular");
    reveal_strlit("KaTeX_Size4-Regular.ttf");
    assert(font_file_name(FontId::Size4Regular) =~= "KaTeX_Size4-Regular.ttf"@);
    reveal_strlit("Typewriter-Regular");
    reveal_strlit("KaTeX_Typewriter-Regular.ttf");
    assert(font_file_name(FontId::TypewriterRegular) =~= "KaTeX_Typewriter-Regular.ttf"@);
}

} // verus!
