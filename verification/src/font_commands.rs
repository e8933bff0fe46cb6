//! What the font commands select.

use vstd::prelude::*;
use crate::font_id::FontId;
use crate::symbols::{command_name, font_for_command, font_for_name};

verus! {

/// Length, first character and last two characters of a word: enough to tell the command names
/// apart from one another.
spec fn word_key(w: Seq<char>) -> (int, char, char, char) {
    (w.len() as int, w[0], w[w.len() - 1], w[w.len() - 2])
}

/// A leading backslash is optional: a command written with it selects what its bare name selects.
pub proof fn lemma_backslash_optional(name: Seq<char>)
    requires
        name.len() == 0 || name[0] != '\\',
    ensures
        font_for_command(seq!['\\'] + name) == font_for_command(name),
{
    assert(command_name(seq!['\\'] + name) =~= name);
}

/// Which face each font command selects: `\mathrm`, `\textrm` and `\rm` the upright main face,
/// `\mathbf`, `\textbf` and `\bf` the bold main face, `\mathit` and `\textit` the italic one,
/// `\mathsf`/`\textsf` sans serif, `\mathtt`/`\texttt` typewriter, `\mathcal`/`\cal` calligraphic,
/// `\mathfrak`/`\frak` Fraktur, `\mathscr` script, `\mathbb` the AMS face (blackboard bold) and
/// `\boldsymbol`/`\bm` bold math italic. A command outside this list, such as `\mathnormal`,
/// keeps the default fonts. Each holds with the backslash too (see `lemma_backslash_optional`).
pub proof fn lemma_font_commands()
    ensures
        font_for_command("mathrm"@) == Some(FontId::MainRegular),
        font_for_command("\\mathrm"@) == Some(FontId::MainRegular),
        font_for_command("textrm"@) == Some(FontId::MainRegular),
        font_for_command("rm"@) == Some(FontId::MainRegular),
        font_for_command("mathbf"@) == Some(FontId::MainBold),
        font_for_command("textbf"@) == Some(FontId::MainBold),
        font_for_command("bf"@) == Some(FontId::MainBold),
        font_for_command("mathit"@) == Some(FontId::MainItalic),
        font_for_command("textit"@) == Some(FontId::MainItalic),
        font_for_command("mathsf"@) == Some(FontId::SansSerifRegular),
        font_for_command("textsf"@) == Some(FontId::SansSerifRegular),
        font_for_command("mathtt"@) == Some(FontId::TypewriterRegular),
        font_for_command("texttt"@) == Some(FontId::TypewriterRegular),
        font_for_command("mathcal"@) == Some(FontId::CaligraphicRegular),
        font_for_command("cal"@) == Some(FontId::CaligraphicRegular),
        font_for_command("mathfrak"@) == Some(FontId::FrakturRegular),
        font_for_command("frak"@) == Some(FontId::FrakturRegular),
        font_for_command("mathscr"@) == Some(FontId::ScriptRegular),
        font_for_command("mathbb"@) == Some(FontId::AmsRegular),
        font_for_command("boldsymbol"@) == Some(FontId::MathBoldItalic),
        font_for_command("bm"@) == Some(FontId::MathBoldItalic),
        font_for_command("mathnormal"@) is None,
{
    reveal_strlit("mathrm");
    reveal_strlit("\\mathrm");
    reveal_strlit("textrm");
    reveal_strlit("rm");
    reveal_strlit("mathbf");
    reveal_strlit("textbf");
    reveal_strlit("bf");
    reveal_strlit("mathit");
    reveal_strlit("textit");
    reveal_strlit("mathsf");
    reveal_strlit("textsf");
    reveal_strlit("mathtt");
    reveal_strlit("texttt");
    reveal_strlit("mathcal");
    reveal_strlit("cal");
    reveal_strlit("mathfrak");
    reveal_strlit("frak");
    reveal_strlit("mathscr");
    reveal_strlit("mathbb");
    reveal_strlit("boldsymbol");
    reveal_strlit("bm");
    reveal_strlit("mathnormal");
    assert(command_name("\\mathrm"@) =~= "mathrm"@);
    assert(word_key("mathrm"@) == (6int, 'm', 'm', 'r'));
    assert(word_key("textrm"@) == (6int, 't', 'm', 'r'));
    assert(word_key("rm"@) == (2int, 'r', 'm', 'r'));
    assert(word_key("mathbf"@) == (6int, 'm', 'f', 'b'));
    assert(word_key("textbf"@) == (6int, 't', 'f', 'b'));
    assert(word_key("bf"@) == (2int, 'b', 'f', 'b'));
    assert(word_key("mathit"@) == (6int, 'm', 't', 'i'));
    assert(word_key("textit"@) == (6int, 't', 't', 'i'));
    assert(word_key("mathsf"@) == (6int, 'm', 'f', 's'));
    assert(word_key("textsf"@) == (6int, 't', 'f', 's'));
    assert(word_key("mathtt"@) == (6int, 'm', 't', 't'));
    assert(word_key("texttt"@) == (6int, 't', 't', 't'));
    assert(word_key("mathcal"@) == (7int, 'm', 'l', 'a'));
    assert(word_key("cal"@) == (3int, 'c', 'l', 'a'));
    assert(word_key("mathfrak"@) == (8int, 'm', 'k', 'a'));
    assert(word_key("frak"@) == (4int, 'f', 'k', 'a'));
    assert(word_key("mathscr"@) == (7int, 'm', 'r', 'c'));
    assert(word_key("mathbb"@) == (6int, 'm', 'b', 'b'));
    assert(word_key("boldsymbol"@) == (10int, 'b', 'l', 'o'));
    assert(word_key("bm"@) == (2int, 'b', 'm', 'b'));
    assert(word_key("mathnormal"@) == (10int, 'm', 'l', 'a'));
}

} // verus!
