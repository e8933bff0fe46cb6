use ratex::font_id::FontId;
use ratex::symbols::{
    column_alignments, delim_size_font, delim_sizing_plan, enclose_kind, family_to_math_class,
    font_command_font_id, is_arrow_accent, is_below_accent, is_double_vert_delim, is_greek_letter,
    is_visible_delim, is_vert_delim, mclass_str_to_math_class, normalize_delim, op_has_circle_overlay,
    op_symbol_font, resolve_accent_char, resolve_op_char, resolve_symbol_char, select_font,
    should_use_op_limits, spacing_command_width, spacing_pairs, verb_char, AtomFamily,
    ColumnSpec, DelimSizing, EncloseKind, MathClass, Mode, ScriptBase, SpaceWidth,
};

#[test]
fn greek_letters() {
    assert!(is_greek_letter('α'));
    assert!(is_greek_letter('Ω'));
    assert!(is_greek_letter('\u{0391}'));
    assert!(is_greek_letter('\u{03C9}'));
    assert!(is_greek_letter('ϑ'));
    assert!(is_greek_letter('ϕ'));
    assert!(is_greek_letter('ϖ'));
    assert!(is_greek_letter('ϱ'));
    assert!(is_greek_letter('ϵ'));
    assert!(!is_greek_letter('\u{0390}'));
    assert!(!is_greek_letter('\u{03CA}'));
    assert!(!is_greek_letter('a'));
    assert!(!is_greek_letter('∑'));
}

#[test]
fn arrow_accents() {
    assert!(is_arrow_accent("\\overrightarrow"));
    assert!(is_arrow_accent("\\Overrightarrow"));
    assert!(is_arrow_accent("\\underlinesegment"));
    assert!(!is_arrow_accent("\\hat"));
    assert!(!is_arrow_accent("\\widehat"));
    assert!(!is_arrow_accent("overrightarrow"));
}

#[test]
fn font_selection() {
    assert_eq!(select_font('x', Mode::Math, false), FontId::MathItalic);
    assert_eq!(select_font('Q', Mode::Math, false), FontId::MathItalic);
    assert_eq!(select_font('β', Mode::Math, false), FontId::MathItalic);
    assert_eq!(select_font('1', Mode::Math, false), FontId::MainRegular);
    assert_eq!(select_font('+', Mode::Math, false), FontId::MainRegular);
    assert_eq!(select_font('x', Mode::Text, false), FontId::MainRegular);
    assert_eq!(select_font('x', Mode::Math, true), FontId::AmsRegular);
    assert_eq!(select_font('≨', Mode::Text, true), FontId::AmsRegular);
}

#[test]
fn symbol_and_operator_characters() {
    assert_eq!(resolve_symbol_char("\\alpha", Some('α')), 'α');
    assert_eq!(resolve_symbol_char("x", None), 'x');
    assert_eq!(resolve_symbol_char("", None), '?');
    assert_eq!(resolve_op_char("\\oiint", Some('∯')), '\u{222C}');
    assert_eq!(resolve_op_char("\\oiiint", None), '\u{222D}');
    assert_eq!(resolve_op_char("\\sum", Some('∑')), '∑');
    assert_eq!(resolve_op_char("\\foo", None), '\\');
}

#[test]
fn accent_characters() {
    assert_eq!(resolve_accent_char("\\c", Some('\u{00B8}'), None), '\u{00B8}');
    assert_eq!(resolve_accent_char("\\hat", None, Some('^')), '^');
    assert_eq!(resolve_accent_char("\\hat", Some('\\'), Some('^')), '^');
    assert_eq!(resolve_accent_char("\\hat", None, None), '\\');
    assert!(is_below_accent("\\c"));
    assert!(!is_below_accent("\\hat"));
}

#[test]
fn math_classes() {
    assert_eq!(mclass_str_to_math_class("mord"), MathClass::Ord);
    assert_eq!(mclass_str_to_math_class("mop"), MathClass::Op);
    assert_eq!(mclass_str_to_math_class("mbin"), MathClass::Bin);
    assert_eq!(mclass_str_to_math_class("mrel"), MathClass::Rel);
    assert_eq!(mclass_str_to_math_class("mopen"), MathClass::Open);
    assert_eq!(mclass_str_to_math_class("mclose"), MathClass::Close);
    assert_eq!(mclass_str_to_math_class("mpunct"), MathClass::Punct);
    assert_eq!(mclass_str_to_math_class("minner"), MathClass::Inner);
    assert_eq!(mclass_str_to_math_class("mfoo"), MathClass::Ord);
    assert_eq!(family_to_math_class(AtomFamily::Rel), MathClass::Rel);
    assert_eq!(family_to_math_class(AtomFamily::Inner), MathClass::Inner);
    assert_eq!(family_to_math_class(AtomFamily::Punct), MathClass::Punct);
}

#[test]
fn font_commands() {
    assert_eq!(font_command_font_id("\\mathbf"), Some(FontId::MainBold));
    assert_eq!(font_command_font_id("mathbf"), Some(FontId::MainBold));
    assert_eq!(font_command_font_id("\\bf"), Some(FontId::MainBold));
    assert_eq!(font_command_font_id("\\mathbb"), Some(FontId::AmsRegular));
    assert_eq!(font_command_font_id("\\mathscr"), Some(FontId::ScriptRegular));
    assert_eq!(font_command_font_id("\\bm"), Some(FontId::MathBoldItalic));
    assert_eq!(font_command_font_id("\\texttt"), Some(FontId::TypewriterRegular));
    assert_eq!(font_command_font_id("\\frak"), Some(FontId::FrakturRegular));
    assert_eq!(font_command_font_id("\\mathnormal"), None);
    assert_eq!(font_command_font_id("\\scr"), None);
}

#[test]
fn spacing_commands() {
    assert_eq!(spacing_command_width("\\,"), SpaceWidth::Mu(3));
    assert_eq!(spacing_command_width("\\thinspace"), SpaceWidth::Mu(3));
    assert_eq!(spacing_command_width("\\:"), SpaceWidth::Mu(4));
    assert_eq!(spacing_command_width("\\;"), SpaceWidth::Mu(5));
    assert_eq!(spacing_command_width("\\!"), SpaceWidth::Mu(-3));
    assert_eq!(spacing_command_width("\\negmedspace"), SpaceWidth::Mu(-4));
    assert_eq!(spacing_command_width("\\negthickspace"), SpaceWidth::Mu(-5));
    assert_eq!(spacing_command_width(" "), SpaceWidth::NonBreakingSpace);
    assert_eq!(spacing_command_width("~"), SpaceWidth::NonBreakingSpace);
    assert_eq!(spacing_command_width("\\ "), SpaceWidth::NonBreakingSpace);
    assert_eq!(spacing_command_width("\\quad"), SpaceWidth::HalfQuads(2));
    assert_eq!(spacing_command_width("\\qquad"), SpaceWidth::HalfQuads(4));
    assert_eq!(spacing_command_width("\\enspace"), SpaceWidth::HalfQuads(1));
    assert_eq!(spacing_command_width("\\hspace"), SpaceWidth::Zero);
}

#[test]
fn delimiters() {
    assert_eq!(normalize_delim("<"), "\\langle");
    assert_eq!(normalize_delim("\\lt"), "\\langle");
    assert_eq!(normalize_delim("\u{27E8}"), "\\langle");
    assert_eq!(normalize_delim(">"), "\\rangle");
    assert_eq!(normalize_delim("\\gt"), "\\rangle");
    assert_eq!(normalize_delim("\u{27E9}"), "\\rangle");
    assert_eq!(normalize_delim("("), "(");
    assert_eq!(normalize_delim(normalize_delim("<")), "\\langle");
    assert!(is_vert_delim("|"));
    assert!(is_vert_delim("\\lvert"));
    assert!(!is_vert_delim("\\|"));
    assert!(is_double_vert_delim("\\|"));
    assert!(is_double_vert_delim("\\rVert"));
    assert!(!is_double_vert_delim("|"));
}

#[test]
fn visible_delimiters() {
    assert!(is_visible_delim("("));
    assert!(is_visible_delim("\\langle"));
    assert!(!is_visible_delim("."));
    assert!(!is_visible_delim(""));
}

#[test]
fn sized_delimiters() {
    assert_eq!(delim_size_font(1), FontId::Size1Regular);
    assert_eq!(delim_size_font(3), FontId::Size3Regular);
    assert_eq!(delim_size_font(4), FontId::Size4Regular);
    assert_eq!(delim_size_font(0), FontId::Size1Regular);
    assert_eq!(delim_size_font(9), FontId::Size1Regular);
    assert_eq!(delim_sizing_plan(2, "."), DelimSizing::Blank);
    assert_eq!(delim_sizing_plan(2, ""), DelimSizing::Blank);
    assert_eq!(delim_sizing_plan(2, "|"), DelimSizing::Bar { double: false, size_index: 2 });
    assert_eq!(delim_sizing_plan(7, "\\Vert"), DelimSizing::Bar { double: true, size_index: 4 });
    assert_eq!(delim_sizing_plan(3, "("), DelimSizing::Glyph { font: FontId::Size3Regular });
    assert_eq!(delim_sizing_plan(3, "<"), DelimSizing::Glyph { font: FontId::Size3Regular });
}

#[test]
fn operator_limits() {
    let op = |limits, always| ScriptBase::Op { limits, always_handle_sup_sub: always };
    assert!(should_use_op_limits(op(true, None), true));
    assert!(!should_use_op_limits(op(true, None), false));
    assert!(should_use_op_limits(op(true, Some(true)), false));
    assert!(!should_use_op_limits(op(true, Some(false)), false));
    assert!(!should_use_op_limits(op(false, Some(true)), true));
    let name = |limits, always| ScriptBase::OperatorName { limits, always_handle_sup_sub: always };
    assert!(should_use_op_limits(name(false, true), true));
    assert!(should_use_op_limits(name(true, true), false));
    assert!(!should_use_op_limits(name(false, true), false));
    assert!(!should_use_op_limits(name(true, false), true));
    assert!(!should_use_op_limits(ScriptBase::Other, true));
    assert_eq!(op_symbol_font("\\sum", true), FontId::Size2Regular);
    assert_eq!(op_symbol_font("\\sum", false), FontId::Size1Regular);
    assert_eq!(op_symbol_font("\\smallint", true), FontId::Size1Regular);
    assert!(op_has_circle_overlay("\\oiint"));
    assert!(op_has_circle_overlay("\\oiiint"));
    assert!(!op_has_circle_overlay("\\oint"));
}

#[test]
fn array_column_alignments() {
    let spec = |is_align, align: Option<u8>| ColumnSpec { is_align, align };
    let specs = vec![
        spec(false, None),
        spec(true, Some(b'l')),
        spec(false, None),
        spec(true, Some(b'r')),
        spec(true, None),
    ];
    assert_eq!(column_alignments(&specs, 4), vec![b'l', b'r', b'c', b'c']);
    assert_eq!(column_alignments(&specs, 1), vec![b'l']);
    assert_eq!(column_alignments(&vec![], 2), vec![b'c', b'c']);
    assert_eq!(column_alignments(&specs, 0), Vec::<u8>::new());
}

#[test]
fn atom_spacing_pairs() {
    let (ord, bin, rel) = (MathClass::Ord, MathClass::Bin, MathClass::Rel);
    let classes = vec![Some(ord), None, Some(bin), Some(ord), None, None, Some(rel)];
    let pairs = spacing_pairs(&classes, true);
    assert_eq!(
        pairs,
        vec![None, None, Some((ord, bin)), Some((bin, ord)), None, None, Some((ord, rel))]
    );
    assert_eq!(spacing_pairs(&classes, false), vec![None; 7]);
    assert_eq!(spacing_pairs(&vec![], true), vec![]);
}

#[test]
fn enclose_kinds() {
    assert_eq!(enclose_kind("\\phase"), EncloseKind::Phase);
    assert_eq!(enclose_kind("\\angl"), EncloseKind::Angl);
    assert_eq!(enclose_kind("\\cancel"), EncloseKind::Strike);
    assert_eq!(enclose_kind("\\xcancel"), EncloseKind::Strike);
    assert_eq!(enclose_kind("\\sout"), EncloseKind::Strike);
    assert_eq!(enclose_kind("\\fbox"), EncloseKind::Framed { has_border: true });
    assert_eq!(enclose_kind("\\fcolorbox"), EncloseKind::Framed { has_border: true });
    assert_eq!(enclose_kind("\\colorbox"), EncloseKind::Framed { has_border: false });
}

#[test]
fn verb_characters() {
    assert_eq!(verb_char(' ', true), '\u{2423}');
    assert_eq!(verb_char(' ', false), ' ');
    assert_eq!(verb_char('a', true), 'a');
}
