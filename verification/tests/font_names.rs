use ratex::font_id::FontId;
use ratex::fontfiles::{bundled_font_ids, choose_font_dir, katex_font_file_name};

const ALL: [FontId; 19] = [
    FontId::AmsRegular,
    FontId::CaligraphicRegular,
    FontId::FrakturRegular,
    FontId::FrakturBold,
    FontId::MainBold,
    FontId::MainBoldItalic,
    FontId::MainItalic,
    FontId::MainRegular,
    FontId::MathBoldItalic,
    FontId::MathItalic,
    FontId::SansSerifBold,
    FontId::SansSerifItalic,
    FontId::SansSerifRegular,
    FontId::ScriptRegular,
    FontId::Size1Regular,
    FontId::Size2Regular,
    FontId::Size3Regular,
    FontId::Size4Regular,
    FontId::TypewriterRegular,
];

#[test]
fn as_str_gives_canonical_names() {
    assert_eq!(FontId::AmsRegular.as_str(), "AMS-Regular");
    assert_eq!(FontId::FrakturBold.as_str(), "Fraktur-Bold");
    assert_eq!(FontId::MainRegular.as_str(), "Main-Regular");
    assert_eq!(FontId::MathItalic.as_str(), "Math-Italic");
    assert_eq!(FontId::SansSerifItalic.as_str(), "SansSerif-Italic");
    assert_eq!(FontId::Size3Regular.as_str(), "Size3-Regular");
    assert_eq!(FontId::TypewriterRegular.as_str(), "Typewriter-Regular");
}

#[test]
fn parse_round_trips_every_face() {
    for f in ALL {
        assert_eq!(FontId::parse(f.as_str()), Some(f));
    }
}

#[test]
fn names_are_distinct() {
    for (i, f) in ALL.iter().enumerate() {
        for (j, g) in ALL.iter().enumerate() {
            assert_eq!(i == j, f.as_str() == g.as_str());
        }
    }
}

#[test]
fn parse_rejects_unknown_names() {
    assert_eq!(FontId::parse(""), None);
    assert_eq!(FontId::parse("main-regular"), None);
    assert_eq!(FontId::parse("Main-Regular "), None);
    assert_eq!(FontId::parse("Size5-Regular"), None);
    assert_eq!(FontId::parse("KaTeX_Main-Regular"), None);
}

#[test]
fn font_file_names() {
    assert_eq!(katex_font_file_name(FontId::MainRegular), "KaTeX_Main-Regular.ttf");
    assert_eq!(katex_font_file_name(FontId::AmsRegular), "KaTeX_AMS-Regular.ttf");
    assert_eq!(katex_font_file_name(FontId::Size4Regular), "KaTeX_Size4-Regular.ttf");
    for f in ALL {
        assert_eq!(katex_font_file_name(f), format!("KaTeX_{}.ttf", f.as_str()));
    }
}

#[test]
fn bundled_faces_with_and_without_bold_fraktur() {
    let all = bundled_font_ids(true);
    assert_eq!(all.len(), 19);
    for f in ALL {
        assert_eq!(all.iter().filter(|g| **g == f).count(), 1);
    }
    assert_eq!(all[0], FontId::MainRegular);
    assert_eq!(all[18], FontId::Size4Regular);
    let raster = bundled_font_ids(false);
    assert_eq!(raster.len(), 18);
    assert!(!raster.contains(&FontId::FrakturBold));
    assert_eq!(raster[9], FontId::SansSerifRegular);
}

#[test]
fn font_dir_is_first_present_candidate() {
    assert_eq!(choose_font_dir(&vec![false, true, true]), 1);
    assert_eq!(choose_font_dir(&vec![true, true]), 0);
    assert_eq!(choose_font_dir(&vec![false, false, false, true]), 3);
    assert_eq!(choose_font_dir(&vec![false, false]), 0);
    assert_eq!(choose_font_dir(&vec![]), 0);
}
