//! Classification of symbols, accents, delimiters and commands used by the layout engine.
//!
//! Where a decision needs the symbol table, the looked-up code point is passed in.

use vstd::prelude::*;
use crate::font_id::FontId;
use crate::text::{digit_char, str_equal};

verus! {

/// Parsing mode of a symbol.
#[derive(Debug, Clone, Copy, PartialEq, Eq, Structural)]
pub enum Mode {
    Math,
    Text,
}

/// Spacing class of a math atom (TeX's atom types).
#[derive(Debug, Clone, Copy, PartialEq, Eq, Structural)]
pub enum MathClass {
    Ord,
    Op,
    Bin,
    Rel,
    Open,
    Close,
    Punct,
    Inner,
}

/// Family of an atom symbol as assigned by the parser.
#[derive(Debug, Clone, Copy, PartialEq, Eq, Structural)]
pub enum AtomFamily {
    Bin,
    Rel,
    Open,
    Close,
    Punct,
    Inner,
}

/// Width inserted by a spacing command.
#[derive(Debug, Clone, Copy, PartialEq, Eq, Structural)]
pub enum SpaceWidth {
    /// This many math units (1/18 quad); negative values are backward space.
    Mu(i8),
    /// The advance of the no-break space glyph (U+00A0) of the main font.
    NonBreakingSpace,
    /// This many half quads.
    HalfQuads(u8),
    /// No width: the command is not a known spacing command.
    Zero,
}

/// The Greek letters that are set in the math italic font.
pub open spec fn is_greek(c: char) -> bool {
    let u = c as u32;
    (0x0391 <= u <= 0x03C9) || u == 0x03D1 || u == 0x03D5 || u == 0x03D6 || u == 0x03F1 || u
        == 0x03F5
}

/// Whether a character is a Greek letter (Α–ω and the variant forms ϑ, ϕ, ϖ, ϱ, ϵ).
pub fn is_greek_letter(ch: char) -> (r: bool)
    ensures
        r == is_greek(ch),
{
    let u = ch as u32;
    (0x0391 <= u && u <= 0x03C9) || u == 0x03D1 || u == 0x03D5 || u == 0x03D6 || u == 0x03F1
        || u == 0x03F5
}

/// ASCII letters `a`–`z` and `A`–`Z`.
pub open spec fn is_ascii_letter(c: char) -> bool {
    let u = c as u32;
    (0x61 <= u <= 0x7A) || (0x41 <= u <= 0x5A)
}

/// The face a symbol is set in: AMS symbols in the AMS face; in math mode Latin and Greek
/// letters in math italic and everything else in the main roman face; in text mode the main face.
pub open spec fn symbol_font(resolved: char, mode: Mode, is_ams_symbol: bool) -> FontId {
    if is_ams_symbol {
        FontId::AmsRegular
    } else {
        match mode {
            Mode::Math => if is_ascii_letter(resolved) || is_greek(resolved) {
                FontId::MathItalic
            } else {
                FontId::MainRegular
            },
            Mode::Text => FontId::MainRegular,
        }
    }
}

/// Selects the face for a symbol. `is_ams_symbol` tells whether the symbol table assigns
/// the symbol to the AMS font.
pub fn select_font(resolved: char, mode: Mode, is_ams_symbol: bool) -> (r: FontId)
    ensures
        r == symbol_font(resolved, mode, is_ams_symbol),
{
    if is_ams_symbol {
        return FontId::AmsRegular;
    }
    match mode {
        Mode::Math => {
            let u = resolved as u32;
            if (0x61 <= u && u <= 0x7A) || (0x41 <= u && u <= 0x5A) || is_greek_letter(resolved) {
                FontId::MathItalic
            } else {
                FontId::MainRegular
            }
        },
        Mode::Text => FontId::MainRegular,
    }
}

/// The first character of `s`, or `?` for the empty string.
pub open spec fn first_char_or_question(s: Seq<char>) -> char {
    if s.len() > 0 {
        s[0]
    } else {
        '?'
    }
}

fn first_char(s: &str) -> (r: char)
    ensures
        r == first_char_or_question(s@),
{
    if s.unicode_len() > 0 {
        s.get_char(0)
    } else {
        '?'
    }
}

/// The character a symbol resolves to: the code point the symbol table gives it, otherwise
/// the first character of its text.
pub open spec fn resolved_char(text: Seq<char>, table_code_point: Option<char>) -> char {
    match table_code_point {
        Some(c) => c,
        None => first_char_or_question(text),
    }
}

/// Resolves a symbol name to the character that is drawn. `table_code_point` is the code point
/// the symbol table lists for `text` in the current mode, if any.
pub fn resolve_symbol_char(text: &str, table_code_point: Option<char>) -> (r: char)
    ensures
        r == resolved_char(text@, table_code_point),
{
    match table_code_point {
        Some(c) => c,
        None => first_char(text),
    }
}

/// The character drawn for a large operator: `\oiint` and `\oiiint` use the double and
/// triple integral signs (a circle is drawn over them), other operators resolve as symbols.
pub open spec fn op_char(name: Seq<char>, table_code_point: Option<char>) -> char {
    if name == "\\oiint"@ {
        '\u{222C}'
    } else if name == "\\oiiint"@ {
        '\u{222D}'
    } else {
        resolved_char(name, table_code_point)
    }
}

/// Resolves an operator command to its character; `table_code_point` is the code point the
/// symbol table lists for `name` in math mode, if any.
pub fn resolve_op_char(name: &str, table_code_point: Option<char>) -> (r: char)
    ensures
        r == op_char(name@, table_code_point),
{
    if str_equal(name, "\\oiint") {
        return '\u{222C}';
    }
    if str_equal(name, "\\oiiint") {
        return '\u{222D}';
    }
    resolve_symbol_char(name, table_code_point)
}

/// The character of a text-or-math accent: its text-mode symbol when the text table knows it,
/// otherwise its math-mode resolution.
pub open spec fn accent_char(label: Seq<char>, text_code_point: Option<char>, math_code_point: Option<char>) -> char {
    if resolved_char(label, text_code_point) == first_char_or_question(label) {
        resolved_char(label, math_code_point)
    } else {
        resolved_char(label, text_code_point)
    }
}

/// Resolves the character of an accent, trying text mode first and falling back to math mode
/// when text mode only gives back the first character of the label.
pub fn resolve_accent_char(label: &str, text_code_point: Option<char>, math_code_point: Option<char>) -> (r: char)
    ensures
        r == accent_char(label@, text_code_point, math_code_point),
{
    let ch = resolve_symbol_char(label, text_code_point);
    if ch == first_char(label) {
        resolve_symbol_char(label, math_code_point)
    } else {
        ch
    }
}

/// Spacing class of an atom family.
pub open spec fn family_class(family: AtomFamily) -> MathClass {
    match family {
        AtomFamily::Bin => MathClass::Bin,
        AtomFamily::Rel => MathClass::Rel,
        AtomFamily::Open => MathClass::Open,
        AtomFamily::Close => MathClass::Close,
        AtomFamily::Punct => MathClass::Punct,
        AtomFamily::Inner => MathClass::Inner,
    }
}

pub fn family_to_math_class(family: AtomFamily) -> (r: MathClass)
    ensures
        r == family_class(family),
{
    match family {
        AtomFamily::Bin => MathClass::Bin,
        AtomFamily::Rel => MathClass::Rel,
        AtomFamily::Open => MathClass::Open,
        AtomFamily::Close => MathClass::Close,
        AtomFamily::Punct => MathClass::Punct,
        AtomFamily::Inner => MathClass::Inner,
    }
}

/// The face of a `\big`-family delimiter of the given size (1 to 4; other sizes use size 1).
pub open spec fn delim_size_face(size: u8) -> FontId {
    if size == 2 {
        FontId::Size2Regular
    } else if size == 3 {
        FontId::Size3Regular
    } else if size == 4 {
        FontId::Size4Regular
    } else {
        FontId::Size1Regular
    }
}

pub fn delim_size_font(size: u8) -> (r: FontId)
    ensures
        r == delim_size_face(size),
{
    match size {
        2 => FontId::Size2Regular,
        3 => FontId::Size3Regular,
        4 => FontId::Size4Regular,
        _ => FontId::Size1Regular,
    }
}

/// The base of a sub/superscript, as far as limit placement is concerned.
#[allow(inconsistent_fields)]
#[derive(Debug, Clone, Copy, PartialEq, Eq, Structural)]
pub enum ScriptBase {
    /// A large operator such as `\sum`.
    Op { limits: bool, always_handle_sup_sub: Option<bool> },
    /// An `\operatorname` (or `\operatorname*`).
    OperatorName { limits: bool, always_handle_sup_sub: bool },
    /// Any other base.
    Other,
}

/// Whether scripts go above and below the base (limits) instead of to its right.
pub open spec fn uses_limits(base: ScriptBase, is_display: bool) -> bool {
    match base {
        ScriptBase::Op { limits, always_handle_sup_sub } => limits && (is_display
            || always_handle_sup_sub == Some(true)),
        ScriptBase::OperatorName { limits, always_handle_sup_sub } => always_handle_sup_sub && (
        is_display || limits),
        ScriptBase::Other => false,
    }
}

pub fn should_use_op_limits(base: ScriptBase, is_display: bool) -> (r: bool)
    ensures
        r == uses_limits(base, is_display),
{
    match base {
        ScriptBase::Op { limits, always_handle_sup_sub } => {
            let always = match always_handle_sup_sub {
                Some(b) => b,
                None => false,
            };
            limits && (is_display || always)
        },
        ScriptBase::OperatorName { limits, always_handle_sup_sub } => always_handle_sup_sub && (
        is_display || limits),
        ScriptBase::Other => false,
    }
}

/// The stretchy accents drawn as arrows or line segments.
pub open spec fn is_arrow_accent_label(label: Seq<char>) -> bool {
    label == "\\overrightarrow"@
        || label == "\\overleftarrow"@
        || label == "\\Overrightarrow"@
        || label == "\\overleftrightarrow"@
        || label == "\\underrightarrow"@
        || label == "\\underleftarrow"@
        || label == "\\underleftrightarrow"@
        || label == "\\overleftharpoon"@
        || label == "\\overrightharpoon"@
        || label == "\\overlinesegment"@
        || label == "\\underlinesegment"@
}

/// Whether an accent is an arrow-type stretchy accent.
pub fn is_arrow_accent(label: &str) -> (r: bool)
    ensures
        r == is_arrow_accent_label(label@),
{
    if str_equal(label, "\\overrightarrow")
        || str_equal(label, "\\overleftarrow")
        || str_equal(label, "\\Overrightarrow")
        || str_equal(label, "\\overleftrightarrow")
        || str_equal(label, "\\underrightarrow")
        || str_equal(label, "\\underleftarrow")
        || str_equal(label, "\\underleftrightarrow")
        || str_equal(label, "\\overleftharpoon")
        || str_equal(label, "\\overrightharpoon")
        || str_equal(label, "\\overlinesegment")
        || str_equal(label, "\\underlinesegment") {
        return true;
    }
    false
}

/// The spacing class that a class name such as `mrel` stands for; unknown names are ordinary.
pub open spec fn math_class_named(mclass: Seq<char>) -> MathClass {
    if mclass == "mord"@ {
        MathClass::Ord
    } else if mclass == "mop"@ {
        MathClass::Op
    } else if mclass == "mbin"@ {
        MathClass::Bin
    } else if mclass == "mrel"@ {
        MathClass::Rel
    } else if mclass == "mopen"@ {
        MathClass::Open
    } else if mclass == "mclose"@ {
        MathClass::Close
    } else if mclass == "mpunct"@ {
        MathClass::Punct
    } else if mclass == "minner"@ {
        MathClass::Inner
    } else {
        MathClass::Ord
    }
}

/// Maps a class name such as `mrel` to its spacing class.
pub fn mclass_str_to_math_class(mclass: &str) -> (r: MathClass)
    ensures
        r == math_class_named(mclass@),
{
    if str_equal(mclass, "mord") {
        return MathClass::Ord;
    }
    if str_equal(mclass, "mop") {
        return MathClass::Op;
    }
    if str_equal(mclass, "mbin") {
        return MathClass::Bin;
    }
    if str_equal(mclass, "mrel") {
        return MathClass::Rel;
    }
    if str_equal(mclass, "mopen") {
        return MathClass::Open;
    }
    if str_equal(mclass, "mclose") {
        return MathClass::Close;
    }
    if str_equal(mclass, "mpunct") {
        return MathClass::Punct;
    }
    if str_equal(mclass, "minner") {
        return MathClass::Inner;
    }
    MathClass::Ord
}

/// A font command's name: the command with its leading backslash, if any, removed.
pub open spec fn command_name(font: Seq<char>) -> Seq<char> {
    if font.len() > 0 && font[0] == '\\' {
        font.subrange(1, font.len() as int)
    } else {
        font
    }
}

/// The face that a font command selects, by the command's name.
pub open spec fn font_for_name(name: Seq<char>) -> Option<FontId> {
    if name == "mathrm"@ || name == "textrm"@ || name == "rm"@ {
        Some(FontId::MainRegular)
    } else if name == "mathbf"@ || name == "textbf"@ || name == "bf"@ {
        Some(FontId::MainBold)
    } else if name == "mathit"@ || name == "textit"@ {
        Some(FontId::MainItalic)
    } else if name == "mathsf"@ || name == "textsf"@ {
        Some(FontId::SansSerifRegular)
    } else if name == "mathtt"@ || name == "texttt"@ {
        Some(FontId::TypewriterRegular)
    } else if name == "mathcal"@ || name == "cal"@ {
        Some(FontId::CaligraphicRegular)
    } else if name == "mathfrak"@ || name == "frak"@ {
        Some(FontId::FrakturRegular)
    } else if name == "mathscr"@ {
        Some(FontId::ScriptRegular)
    } else if name == "mathbb"@ {
        Some(FontId::AmsRegular)
    } else if name == "boldsymbol"@ || name == "bm"@ {
        Some(FontId::MathBoldItalic)
    } else {
        None
    }
}

/// The face that a font command (with or without its backslash) selects.
pub open spec fn font_for_command(font: Seq<char>) -> Option<FontId> {
    font_for_name(command_name(font))
}

/// The face selected by a font command such as `\mathbf`, or `None` when the command keeps the default math fonts.
pub fn font_command_font_id(font: &str) -> (r: Option<FontId>)
    ensures
        r == font_for_command(font@),
{
    let n: usize = font.unicode_len();
    let name: &str = if n > 0 && font.get_char(0) == '\\' {
        font.substring_char(1, n)
    } else {
        font
    };
    if str_equal(name, "mathrm") || str_equal(name, "textrm") || str_equal(name, "rm") {
        return Some(FontId::MainRegular);
    }
    if str_equal(name, "mathbf") || str_equal(name, "textbf") || str_equal(name, "bf") {
        return Some(FontId::MainBold);
    }
    if str_equal(name, "mathit") || str_equal(name, "textit") {
        return Some(FontId::MainItalic);
    }
    if str_equal(name, "mathsf") || str_equal(name, "textsf") {
        return Some(FontId::SansSerifRegular);
    }
    if str_equal(name, "mathtt") || str_equal(name, "texttt") {
        return Some(FontId::TypewriterRegular);
    }
    if str_equal(name, "mathcal") || str_equal(name, "cal") {
        return Some(FontId::CaligraphicRegular);
    }
    if str_equal(name, "mathfrak") || str_equal(name, "frak") {
        return Some(FontId::FrakturRegular);
    }
    if str_equal(name, "mathscr") {
        return Some(FontId::ScriptRegular);
    }
    if str_equal(name, "mathbb") {
        return Some(FontId::AmsRegular);
    }
    if str_equal(name, "boldsymbol") || str_equal(name, "bm") {
        return Some(FontId::MathBoldItalic);
    }
    None
}

/// The width that a spacing command stands for.
pub open spec fn spacing_width(text: Seq<char>) -> SpaceWidth {
    if text == "\\,"@ || text == "\\thinspace"@ {
        SpaceWidth::Mu(3i8)
    } else if text == "\\:"@ || text == "\\medspace"@ {
        SpaceWidth::Mu(4i8)
    } else if text == "\\;"@ || text == "\\thickspace"@ {
        SpaceWidth::Mu(5i8)
    } else if text == "\\!"@ || text == "\\negthinspace"@ {
        SpaceWidth::Mu(-3i8)
    } else if text == "\\negmedspace"@ {
        SpaceWidth::Mu(-4i8)
    } else if text == "\\negthickspace"@ {
        SpaceWidth::Mu(-5i8)
    } else if text == " "@
        || text == "~"@
        || text == "\\nobreakspace"@
        || text == "\\ "@
        || text == "\\space"@ {
        SpaceWidth::NonBreakingSpace
    } else if text == "\\quad"@ {
        SpaceWidth::HalfQuads(2)
    } else if text == "\\qquad"@ {
        SpaceWidth::HalfQuads(4)
    } else if text == "\\enspace"@ {
        SpaceWidth::HalfQuads(1)
    } else {
        SpaceWidth::Zero
    }
}

/// Classifies a spacing command by the width it inserts.
pub fn spacing_command_width(text: &str) -> (r: SpaceWidth)
    ensures
        r == spacing_width(text@),
{
    if str_equal(text, "\\,") || str_equal(text, "\\thinspace") {
        return SpaceWidth::Mu(3);
    }
    if str_equal(text, "\\:") || str_equal(text, "\\medspace") {
        return SpaceWidth::Mu(4);
    }
    if str_equal(text, "\\;") || str_equal(text, "\\thickspace") {
        return SpaceWidth::Mu(5);
    }
    if str_equal(text, "\\!") || str_equal(text, "\\negthinspace") {
        return SpaceWidth::Mu(-3i8);
    }
    if str_equal(text, "\\negmedspace") {
        return SpaceWidth::Mu(-4i8);
    }
    if str_equal(text, "\\negthickspace") {
        return SpaceWidth::Mu(-5i8);
    }
    if str_equal(text, " ")
        || str_equal(text, "~")
        || str_equal(text, "\\nobreakspace")
        || str_equal(text, "\\ ")
        || str_equal(text, "\\space") {
        return SpaceWidth::NonBreakingSpace;
    }
    if str_equal(text, "\\quad") {
        return SpaceWidth::HalfQuads(2);
    }
    if str_equal(text, "\\qquad") {
        return SpaceWidth::HalfQuads(4);
    }
    if str_equal(text, "\\enspace") {
        return SpaceWidth::HalfQuads(1);
    }
    SpaceWidth::Zero
}


/// Delimiter names that stand for the angle brackets.
pub open spec fn delim_normal_form(delim: Seq<char>) -> Seq<char> {
    if delim == "<"@ || delim == "\\lt"@ || delim == "\u{27E8}"@ {
        "\\langle"@
    } else if delim == ">"@ || delim == "\\gt"@ || delim == "\u{27E9}"@ {
        "\\rangle"@
    } else {
        delim
    }
}

/// Normalizes angle-bracket delimiter aliases to `\langle` / `\rangle`.
pub fn normalize_delim<'a>(delim: &'a str) -> (r: &'a str)
    ensures
        r@ == delim_normal_form(delim@),
{
    if str_equal(delim, "<") || str_equal(delim, "\\lt") || str_equal(delim, "\u{27E8}") {
        "\\langle"
    } else if str_equal(delim, ">") || str_equal(delim, "\\gt") || str_equal(delim, "\u{27E9}") {
        "\\rangle"
    } else {
        delim
    }
}

/// Normalizing a delimiter twice changes nothing more than normalizing it once.
pub proof fn lemma_normalize_delim_idempotent(delim: Seq<char>)
    ensures
        delim_normal_form(delim_normal_form(delim)) == delim_normal_form(delim),
{
    reveal_strlit("<");
    reveal_strlit("\\lt");
    reveal_strlit("\u{27E8}");
    reveal_strlit(">");
    reveal_strlit("\\gt");
    reveal_strlit("\u{27E9}");
    reveal_strlit("\\langle");
    reveal_strlit("\\rangle");
}

/// Whether a delimiter draws anything: the null delimiter `.` and the empty one do not.
pub open spec fn is_visible_delim_name(delim: Seq<char>) -> bool {
    delim.len() != 0 && delim != "."@
}

/// Whether a fraction or stretchy delimiter is drawn at all (`\genfrac` delimiters, `\left`,
/// `\right`, `\middle`).
pub fn is_visible_delim(delim: &str) -> (r: bool)
    ensures
        r == is_visible_delim_name(delim@),
{
    delim.unicode_len() != 0 && !str_equal(delim, ".")
}

/// Delimiters drawn as a single vertical bar.
pub open spec fn is_vert_delim_name(delim: Seq<char>) -> bool {
    delim == "|"@ || delim == "\\vert"@ || delim == "\\lvert"@ || delim == "\\rvert"@
}

/// Delimiters drawn as a double vertical bar.
pub open spec fn is_double_vert_delim_name(delim: Seq<char>) -> bool {
    delim == "\\|"@ || delim == "\\Vert"@ || delim == "\\lVert"@ || delim == "\\rVert"@
}

pub fn is_vert_delim(delim: &str) -> (r: bool)
    ensures
        r == is_vert_delim_name(delim@),
{
    str_equal(delim, "|") || str_equal(delim, "\\vert") || str_equal(delim, "\\lvert")
        || str_equal(delim, "\\rvert")
}

pub fn is_double_vert_delim(delim: &str) -> (r: bool)
    ensures
        r == is_double_vert_delim_name(delim@),
{
    str_equal(delim, "\\|") || str_equal(delim, "\\Vert") || str_equal(delim, "\\lVert")
        || str_equal(delim, "\\rVert")
}

/// How a `\big`, `\Big`, `\bigg` or `\Bigg` delimiter is drawn.
#[derive(Debug, Clone, Copy, PartialEq, Eq, Structural)]
pub enum DelimSizing {
    /// The null delimiter `.` (or an empty one): no ink, no width.
    Blank,
    /// A bar drawn as a path; its height is the fixed height of size `size_index` (0 to 4).
    Bar { double: bool, size_index: u8 },
    /// A glyph of the (normalized) delimiter, looked up first in this face.
    Glyph { font: FontId },
}

/// The drawing plan of a sized delimiter.
pub open spec fn delim_sizing(size: u8, delim: Seq<char>) -> DelimSizing {
    if delim == "."@ || delim.len() == 0 {
        DelimSizing::Blank
    } else if is_vert_delim_name(delim) {
        DelimSizing::Bar { double: false, size_index: if size < 4 { size } else { 4 } }
    } else if is_double_vert_delim_name(delim) {
        DelimSizing::Bar { double: true, size_index: if size < 4 { size } else { 4 } }
    } else {
        DelimSizing::Glyph { font: delim_size_face(size) }
    }
}

/// Decides how a sized delimiter (`\big` and relatives, `size` 1 to 4) is drawn.
pub fn delim_sizing_plan(size: u8, delim: &str) -> (r: DelimSizing)
    ensures
        r == delim_sizing(size, delim@),
{
    if str_equal(delim, ".") || delim.unicode_len() == 0 {
        return DelimSizing::Blank;
    }
    let size_index = if size < 4 {
        size
    } else {
        4
    };
    if is_vert_delim(delim) {
        return DelimSizing::Bar { double: false, size_index };
    }
    if is_double_vert_delim(delim) {
        return DelimSizing::Bar { double: true, size_index };
    }
    DelimSizing::Glyph { font: delim_size_font(size) }
}

/// Column specification of an array environment, as far as alignment is concerned.
#[derive(Debug, Clone, Copy, PartialEq, Eq)]
pub struct ColumnSpec {
    /// Whether the entry is an alignment column (as opposed to a separator such as `|`).
    pub is_align: bool,
    /// First byte of the alignment letter (`l`, `c` or `r`), if any.
    pub align: Option<u8>,
}

/// The entries of a column specification that are alignment columns, in order.
pub open spec fn align_columns(specs: Seq<ColumnSpec>) -> Seq<ColumnSpec> {
    specs.filter(is_align_entry())
}

/// Whether an entry of a column specification is an alignment column.
pub open spec fn is_align_entry() -> spec_fn(ColumnSpec) -> bool {
    |s: ColumnSpec| s.is_align
}

/// Alignment byte of column `c`: that of the `c`-th alignment column, `c` (centered) by default.
pub open spec fn column_alignment(specs: Seq<ColumnSpec>, c: int) -> u8 {
    let cols = align_columns(specs);
    if c < cols.len() && cols[c].align is Some {
        cols[c].align->Some_0
    } else {
        99u8
    }
}

/// Per-column alignment bytes for an array of `num_cols` columns.
pub fn column_alignments(specs: &Vec<ColumnSpec>, num_cols: usize) -> (r: Vec<u8>)
    ensures
        r@.len() == num_cols,
        forall|c: int| 0 <= c < num_cols ==> #[trigger] r@[c] == column_alignment(specs@, c),
{
    let mut aligns: Vec<Option<u8>> = Vec::new();
    let mut i: usize = 0;
    while i < specs.len()
        invariant
            i <= specs@.len(),
            aligns@.len() == align_columns(specs@.take(i as int)).len(),
            forall|k: int|
                0 <= k < aligns@.len() ==> #[trigger] aligns@[k] == align_columns(
                    specs@.take(i as int),
                )[k].align,
        decreases specs.len() - i,
    {
        proof {
            let pre = specs@.take(i as int);
            assert(specs@.take(i + 1) =~= pre.push(specs@[i as int]));
            reveal_with_fuel(Seq::<_>::filter, 1);
            assert(pre.push(specs@[i as int]).drop_last() =~= pre);
        }
        if specs[i].is_align {
            aligns.push(specs[i].align);
        }
        i += 1;
    }
    proof {
        assert(specs@.take(specs@.len() as int) =~= specs@);
    }
    let mut r: Vec<u8> = Vec::new();
    let mut c: usize = 0;
    while c < num_cols
        invariant
            c <= num_cols,
            r@.len() == c,
            aligns@.len() == align_columns(specs@).len(),
            forall|k: int| 0 <= k < aligns@.len() ==> #[trigger] aligns@[k] == align_columns(specs@)[k].align,
            forall|k: int| 0 <= k < c ==> #[trigger] r@[k] == column_alignment(specs@, k),
        decreases num_cols - c,
    {
        let a: u8 = if c < aligns.len() {
            match aligns[c] {
                Some(b) => b,
                None => 99u8,
            }
        } else {
            99u8
        };
        r.push(a);
        c += 1;
    }
    r
}


/// Class of the last classified atom among the first `i` ones (atoms without a class, such as
/// kerns and explicit spaces, are skipped).
pub open spec fn last_class_before(classes: Seq<Option<MathClass>>, i: int) -> Option<MathClass>
    decreases i,
{
    if i <= 0 {
        None
    } else {
        match classes[i - 1] {
            Some(c) => Some(c),
            None => last_class_before(classes, i - 1),
        }
    }
}

/// The pair of classes that decides the space inserted before atom `i` of an expression: the
/// previous classified atom's class and this atom's class. Only real groups get such spaces.
pub open spec fn spacing_pair(classes: Seq<Option<MathClass>>, i: int, is_real_group: bool) -> Option<(MathClass, MathClass)> {
    if !is_real_group {
        None
    } else {
        match (last_class_before(classes, i), classes[i]) {
            (Some(p), Some(c)) => Some((p, c)),
            _ => None,
        }
    }
}

/// For each atom of an expression, the class pair that decides the space before it, if any.
/// `classes[i]` is the spacing class of atom `i`, `None` for atoms that have none.
pub fn spacing_pairs(classes: &Vec<Option<MathClass>>, is_real_group: bool) -> (r: Vec<Option<(MathClass, MathClass)>>)
    ensures
        r@.len() == classes@.len(),
        forall|i: int| 0 <= i < classes@.len() ==> #[trigger] r@[i] == spacing_pair(classes@, i, is_real_group),
{
    let mut r: Vec<Option<(MathClass, MathClass)>> = Vec::new();
    let mut prev: Option<MathClass> = None;
    let mut i: usize = 0;
    while i < classes.len()
        invariant
            i <= classes@.len(),
            r@.len() == i,
            prev == last_class_before(classes@, i as int),
            forall|k: int| 0 <= k < i ==> #[trigger] r@[k] == spacing_pair(classes@, k, is_real_group),
        decreases classes.len() - i,
    {
        let cur = classes[i];
        let pair = if is_real_group {
            match (prev, cur) {
                (Some(p), Some(c)) => Some((p, c)),
                _ => None,
            }
        } else {
            None
        };
        r.push(pair);
        if cur.is_some() {
            prev = cur;
        }
        i += 1;
    }
    r
}

/// How an `\enclose`-family command is drawn.
#[derive(Debug, Clone, Copy, PartialEq, Eq, Structural)]
pub enum EncloseKind {
    /// `\phase`: angle mark and underline.
    Phase,
    /// `\angl`: actuarial angle (roof and right bar).
    Angl,
    /// `\cancel`, `\bcancel`, `\xcancel`, `\sout`: strike-through lines over the body.
    Strike,
    /// `\fbox`, `\colorbox`, `\fcolorbox` and others: a padded box, with a border or not.
    Framed { has_border: bool },
}

/// The drawing of an enclose command with the given label.
pub open spec fn enclose_kind_of(label: Seq<char>) -> EncloseKind {
    if label == "\\phase"@ {
        EncloseKind::Phase
    } else if label == "\\angl"@ {
        EncloseKind::Angl
    } else if label == "\\cancel"@ || label == "\\bcancel"@ || label == "\\xcancel"@ || label
        == "\\sout"@ {
        EncloseKind::Strike
    } else {
        EncloseKind::Framed { has_border: label == "\\fbox"@ || label == "\\fcolorbox"@ }
    }
}

pub fn enclose_kind(label: &str) -> (r: EncloseKind)
    ensures
        r == enclose_kind_of(label@),
{
    if str_equal(label, "\\phase") {
        EncloseKind::Phase
    } else if str_equal(label, "\\angl") {
        EncloseKind::Angl
    } else if str_equal(label, "\\cancel") || str_equal(label, "\\bcancel") || str_equal(
        label,
        "\\xcancel",
    ) || str_equal(label, "\\sout") {
        EncloseKind::Strike
    } else {
        EncloseKind::Framed { has_border: str_equal(label, "\\fbox")
            || str_equal(label, "\\fcolorbox") }
    }
}

/// The face of a symbol operator: the larger display size in display style (except for
/// `\smallint`, which has no larger successor), the text size otherwise.
pub open spec fn op_symbol_face(name: Seq<char>, is_display: bool) -> FontId {
    if is_display && name != "\\smallint"@ {
        FontId::Size2Regular
    } else {
        FontId::Size1Regular
    }
}

pub fn op_symbol_font(name: &str, is_display: bool) -> (r: FontId)
    ensures
        r == op_symbol_face(name@, is_display),
{
    if is_display && !str_equal(name, "\\smallint") {
        FontId::Size2Regular
    } else {
        FontId::Size1Regular
    }
}

/// Operators drawn as a multiple integral with a circle over it.
pub open spec fn has_circle_overlay(name: Seq<char>) -> bool {
    name == "\\oiint"@ || name == "\\oiiint"@
}

pub fn op_has_circle_overlay(name: &str) -> (r: bool)
    ensures
        r == has_circle_overlay(name@),
{
    str_equal(name, "\\oiint") || str_equal(name, "\\oiiint")
}

/// Accents whose mark goes below the base (the cedilla `\c`).
pub open spec fn is_below_accent_label(label: Seq<char>) -> bool {
    label == "\\c"@
}

pub fn is_below_accent(label: &str) -> (r: bool)
    ensures
        r == is_below_accent_label(label@),
{
    str_equal(label, "\\c")
}

/// The character shown for `c` in `\verb` text: with the star form, spaces become the
/// visible open box U+2423.
pub open spec fn verb_display_char(c: char, star: bool) -> char {
    if star && c == ' ' {
        '\u{2423}'
    } else {
        c
    }
}

pub fn verb_char(c: char, star: bool) -> (r: char)
    ensures
        r == verb_display_char(c, star),
{
    if star && c == ' ' {
        '\u{2423}'
    } else {
        c
    }
}


/// Each atom family is spaced as the class of the same name, and agrees with the class that the
/// matching `\mathXXX` class name selects (`mbin`, `mrel`, ...).
pub proof fn lemma_family_classes()
    ensures
        family_class(AtomFamily::Bin) == MathClass::Bin,
        family_class(AtomFamily::Rel) == MathClass::Rel,
        family_class(AtomFamily::Open) == MathClass::Open,
        family_class(AtomFamily::Close) == MathClass::Close,
        family_class(AtomFamily::Punct) == MathClass::Punct,
        family_class(AtomFamily::Inner) == MathClass::Inner,
        family_class(AtomFamily::Bin) == math_class_named("mbin"@),
        family_class(AtomFamily::Rel) == math_class_named("mrel"@),
        family_class(AtomFamily::Open) == math_class_named("mopen"@),
        family_class(AtomFamily::Close) == math_class_named("mclose"@),
        family_class(AtomFamily::Punct) == math_class_named("mpunct"@),
        family_class(AtomFamily::Inner) == math_class_named("minner"@),
        forall|f: AtomFamily, g: AtomFamily| family_class(f) == family_class(g) ==> f == g,
{
    reveal_strlit("mord");
    reveal_strlit("mop");
    reveal_strlit("mbin");
    reveal_strlit("mrel");
    reveal_strlit("mopen");
    reveal_strlit("mclose");
    reveal_strlit("mpunct");
    reveal_strlit("minner");
    assert("mop"@.len() != "mord"@.len());
    assert("mbin"@[1] != "mord"@[1]);
    assert("mbin"@.len() != "mop"@.len());
    assert("mrel"@[1] != "mord"@[1]);
    assert("mrel"@.len() != "mop"@.len());
    assert("mrel"@[1] != "mbin"@[1]);
    assert("mopen"@.len() != "mord"@.len());
    assert("mopen"@.len() != "mop"@.len());
    assert("mopen"@.len() != "mbin"@.len());
    assert("mopen"@.len() != "mrel"@.len());
    assert("mclose"@.len() != "mord"@.len());
    assert("mclose"@.len() != "mop"@.len());
    assert("mclose"@.len() != "mbin"@.len());
    assert("mclose"@.len() != "mrel"@.len());
    assert("mclose"@.len() != "mopen"@.len());
    assert("mpunct"@.len() != "mord"@.len());
    assert("mpunct"@.len() != "mop"@.len());
    assert("mpunct"@.len() != "mbin"@.len());
    assert("mpunct"@.len() != "mrel"@.len());
    assert("mpunct"@.len() != "mopen"@.len());
    assert("mpunct"@[1] != "mclose"@[1]);
    assert("minner"@.len() != "mord"@.len());
    assert("minner"@.len() != "mop"@.len());
    assert("minner"@.len() != "mbin"@.len());
    assert("minner"@.len() != "mrel"@.len());
    assert("minner"@.len() != "mopen"@.len());
    assert("minner"@[1] != "mclose"@[1]);
    assert("minner"@[1] != "mpunct"@[1]);
}

/// A sized delimiter of size `k` (1 to 4, `\big` to `\Bigg`) is looked up in the KaTeX face
/// `Size<k>-Regular`; the four sizes use four different faces.
pub proof fn lemma_delim_size_faces(k: u8)
    requires
        1 <= k <= 4,
    ensures
        delim_size_face(k).name() == "Size"@ + seq![digit_char(k as int)] + "-Regular"@,
        forall|j: u8| 1 <= j <= 4 && j != k ==> delim_size_face(j) != delim_size_face(k),
        delim_size_face(1) == FontId::Size1Regular,
        delim_size_face(2) == FontId::Size2Regular,
        delim_size_face(3) == FontId::Size3Regular,
        delim_size_face(4) == FontId::Size4Regular,
{
    reveal_strlit("Size");
    reveal_strlit("-Regular");
    reveal_strlit("Size1-Regular");
    reveal_strlit("Size2-Regular");
    reveal_strlit("Size3-Regular");
    reveal_strlit("Size4-Regular");
    assert(delim_size_face(k).name() =~= "Size"@ + seq![digit_char(k as int)] + "-Regular"@);
}

/// A glyph delimiter sized by `\big`-family command `k` is drawn from the face of size `k`.
pub proof fn lemma_sized_glyph_delim_face(size: u8, delim: Seq<char>)
    requires
        delim.len() != 0,
        delim != "."@,
        !is_vert_delim_name(delim),
        !is_double_vert_delim_name(delim),
    ensures
        delim_sizing(size, delim) == (DelimSizing::Glyph { font: delim_size_face(size) }),
{
}

/// How the column specification aligns its columns: alignment entry `i` describes column number
/// "alignment entries before it" (separators such as `|` are skipped), and that column is aligned
/// by the entry's letter, or centered (`c`) when the entry has none.
pub proof fn lemma_column_alignment_of_entry(specs: Seq<ColumnSpec>, i: int)
    requires
        0 <= i < specs.len(),
        specs[i].is_align,
    ensures
        column_alignment(specs, specs.take(i).filter(is_align_entry()).len() as int) == (match specs[i].align {
            Some(b) => b,
            None => 99u8,
        }),
{
    let p = is_align_entry();
    let x = specs[i];
    let before = specs.take(i);
    let rest = specs.skip(i + 1);
    assert(specs =~= before + (seq![x] + rest));
    Seq::filter_distributes_over_add(before, seq![x] + rest, p);
    Seq::filter_distributes_over_add(seq![x], rest, p);
    reveal_with_fuel(Seq::<_>::filter, 2);
    assert(seq![x].drop_last() =~= Seq::<ColumnSpec>::empty());
    assert(seq![x].filter(p) =~= seq![x]);
    let cols = align_columns(specs);
    assert(cols == before.filter(p) + (seq![x] + rest.filter(p)));
    assert(cols[before.filter(p).len() as int] == x);
}

/// Columns beyond the alignment entries of the specification are centered.
pub proof fn lemma_extra_columns_centered(specs: Seq<ColumnSpec>, c: int)
    requires
        specs.filter(is_align_entry()).len() <= c,
    ensures
        column_alignment(specs, c) == 99u8,
{
}

} // verus!
