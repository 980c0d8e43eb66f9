//! Interpretation of one line of menu input: the single-key choice of a
//! location menu, and the numbered selections of the chest submenu and the
//! character sheet. `None` stands for end-of-input, which every prompt
//! treats as a quit.

use vstd::prelude::*;
use crate::text::first_visible_from;
use crate::text::lower_ascii_spec;
use crate::text::char_is_whitespace;
use crate::text::to_ascii_lower;
use crate::text::trim_spec;
use crate::text::trim_str;
use crate::text::parses_as_usize;
use crate::text::number_body;
use crate::text::digits_val;
use crate::text::parse_usize;

verus! {

/// One line of menu input, classified. Only the end of the input stream
/// quits a menu; a blank line is merely unrecognized input.
#[derive(Clone, Copy, Debug, PartialEq, Eq, Structural)]
pub enum MenuInput {
    /// The input stream is exhausted.
    EndOfInput,
    /// The line holds no visible character.
    Blank,
    /// The line's first non-whitespace character, lowercased if it is an
    /// ASCII letter.
    Key(char),
}

/// The classification of one line: blank when no character is visible,
/// otherwise the key its first non-whitespace character selects.
pub open spec fn line_choice_spec(s: Seq<char>) -> MenuInput {
    let i = first_visible_from(s, 0);
    if i == s.len() {
        MenuInput::Blank
    } else {
        MenuInput::Key(lower_ascii_spec(s[i]))
    }
}

/// Classify one line of input (`None` at end-of-input) for a location
/// menu.
pub fn read_choice(line: Option<&str>) -> (r: MenuInput)
    ensures
        line is None ==> r == MenuInput::EndOfInput,
        line matches Some(s) ==> r == line_choice_spec(s@),
{
    match line {
        None => MenuInput::EndOfInput,
        Some(s) => {
            let n = s.unicode_len();
            let mut i: usize = 0;
            while i < n && char_is_whitespace(s.get_char(i))
                invariant
                    0 <= i <= n,
                    n == s@.len(),
                    first_visible_from(s@, 0) == first_visible_from(s@, i as int),
                decreases n - i,
            {
                i = i + 1;
            }
            if i == n {
                MenuInput::Blank
            } else {
                MenuInput::Key(to_ascii_lower(s.get_char(i)))
            }
        },
    }
}

/// What one line of chest submenu input decides.
#[derive(Clone, Copy, Debug, PartialEq, Eq, Structural)]
pub enum ChestStep {
    /// Quit key, blank end-of-input: leave the submenu.
    Leave,
    /// Blank line: redraw and re-prompt without a message.
    Stay,
    /// Launch the tool at this position in the displayed (filtered) list.
    Launch(usize),
    /// Out-of-range or non-numeric selection: reject and re-prompt.
    Reject,
}

/// The chest submenu accepts `q` (either case) to leave, ignores blank
/// lines, and launches the 1-based selection when it is in range.
pub open spec fn chest_selection_spec(tool_count: usize, s: Seq<char>) -> ChestStep {
    let t = trim_spec(s);
    if t.len() == 1 && (t[0] == 'q' || t[0] == 'Q') {
        ChestStep::Leave
    } else if t.len() == 0 {
        ChestStep::Stay
    } else if parses_as_usize(t) && 1 <= digits_val(number_body(t))
        && digits_val(number_body(t)) <= tool_count {
        ChestStep::Launch((digits_val(number_body(t)) - 1) as usize)
    } else {
        ChestStep::Reject
    }
}

/// Decide one line of chest submenu input against a list of `tool_count`
/// displayed tools.
pub fn chest_selection(tool_count: usize, line: Option<&str>) -> (r: ChestStep)
    ensures
        line is None ==> r == ChestStep::Leave,
        line matches Some(s) ==> r == chest_selection_spec(tool_count, s@),
{
    match line {
        None => ChestStep::Leave,
        Some(s) => {
            let t = trim_str(s);
            let n = t.unicode_len();
            if n == 1 {
                let c = t.get_char(0);
                if c == 'q' || c == 'Q' {
                    return ChestStep::Leave;
                }
            }
            if n == 0 {
                return ChestStep::Stay;
            }
            match parse_usize(t) {
                Some(k) => {
                    if 1 <= k && k <= tool_count {
                        ChestStep::Launch(k - 1)
                    } else {
                        ChestStep::Reject
                    }
                },
                None => ChestStep::Reject,
            }
        },
    }
}

/// What one line of character sheet input decides.
#[derive(Clone, Copy, Debug, PartialEq, Eq, Structural)]
pub enum SheetStep {
    /// Blank line, quit key or end-of-input: back to the location menu.
    Leave,
    /// Use the pocket item at this position.
    UsePocket(usize),
    /// Out-of-range or non-numeric selection: reject and redisplay.
    Reject,
}

/// The character sheet accepts a blank line or `q` (either case) to
/// leave, and uses the 1-based pocket selection when it is in range.
pub open spec fn sheet_selection_spec(pocket_count: usize, s: Seq<char>) -> SheetStep {
    let t = trim_spec(s);
    if t.len() == 0 || (t.len() == 1 && (t[0] == 'q' || t[0] == 'Q')) {
        SheetStep::Leave
    } else if parses_as_usize(t) && 1 <= digits_val(number_body(t))
        && digits_val(number_body(t)) <= pocket_count {
        SheetStep::UsePocket((digits_val(number_body(t)) - 1) as usize)
    } else {
        SheetStep::Reject
    }
}

/// Decide one line of character sheet input against `pocket_count`
/// displayed pocket items.
pub fn sheet_selection(pocket_count: usize, line: Option<&str>) -> (r: SheetStep)
    ensures
        line is None ==> r == SheetStep::Leave,
        line matches Some(s) ==> r == sheet_selection_spec(pocket_count, s@),
{
    match line {
        None => SheetStep::Leave,
        Some(s) => {
            let t = trim_str(s);
            let n = t.unicode_len();
            if n == 0 {
                return SheetStep::Leave;
            }
            if n == 1 {
                let c = t.get_char(0);
                if c == 'q' || c == 'Q' {
                    return SheetStep::Leave;
                }
            }
            match parse_usize(t) {
                Some(k) => {
                    if 1 <= k && k <= pocket_count {
                        SheetStep::UsePocket(k - 1)
                    } else {
                        SheetStep::Reject
                    }
                },
                None => SheetStep::Reject,
            }
        },
    }
}

} // verus!
