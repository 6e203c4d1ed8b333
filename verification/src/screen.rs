//! What the line editor writes to the terminal: the prompt, the sequence
//! that clears a line, and the highlighted list of suggestions.

use vstd::prelude::*;
use vstd::string::*;

verus! {

/// The prompt line for `input`: a carriage return, the label `atm> ` and the
/// text typed so far, with no newline after it.
pub open spec fn prompt_text(input: Seq<char>) -> Seq<char> {
    "\ratm> "@ + input
}

/// The sequence that erases the current terminal line and puts the cursor in
/// its first column.
pub open spec fn clear_line_text() -> Seq<char> {
    "\x1b[2K\x1b[G"@
}

/// The escape sequence that selects the light green background.
pub open spec fn light_green_background() -> Seq<char> {
    "\x1b[48;5;10m"@
}

/// The escape sequence that selects the terminal's default background.
pub open spec fn default_background() -> Seq<char> {
    "\x1b[49m"@
}

/// The sequences written before and after a suggestion, as plain text.
pub struct HighlightView {
    pub on: Seq<char>,
    pub off: Seq<char>,
}

/// The highlight on a terminal: a light green background where colours are
/// in use and none where they are switched off, and the return to the
/// default background after it in both cases.
pub open spec fn terminal_highlight(coloured: bool) -> HighlightView {
    HighlightView {
        on: if coloured {
            light_green_background()
        } else {
            Seq::empty()
        },
        off: default_background(),
    }
}

/// One suggestion on a line of its own, between the two sequences.
pub open spec fn suggestion_text(highlight: HighlightView, suggestion: Seq<char>) -> Seq<char> {
    highlight.on + suggestion + highlight.off + "\n"@
}

/// The lines of all the suggestions, in order.
pub open spec fn suggestion_block(highlight: HighlightView, suggestions: Seq<Seq<char>>) -> Seq<
    char,
>
    decreases suggestions.len(),
{
    if suggestions.len() == 0 {
        Seq::empty()
    } else {
        suggestion_block(highlight, suggestions.drop_last()) + suggestion_text(
            highlight,
            suggestions.last(),
        )
    }
}

/// The text of the prompt line for `input`. Writing it to the terminal, and
/// flushing, is left to the caller.
pub fn printterm(input: &str) -> (line: String)
    ensures
        line@ == prompt_text(input@),
{
    let mut line = String::from_str("\ratm> ");
    line.append(input);
    line
}

/// The text that clears the current terminal line.
pub fn clear_line() -> (code: String)
    ensures
        code@ == clear_line_text(),
{
    String::from_str("\x1b[2K\x1b[G")
}

/// `termion::color::Bg(termion::color::LightGreen)` as its `Display` impl
/// writes it. termion writes the escape sequence for the light green
/// background, or nothing at all when the `NO_COLOR` environment variable is
/// set to a non-empty value.
#[verifier::external_body]
fn light_green_on() -> (code: String)
    ensures
        code@.len() == 0 || code@ == light_green_background(),
{
    format!("{}", termion::color::Bg(termion::color::LightGreen))
}

/// `termion::color::Bg(termion::color::Reset)` as its `Display` impl writes
/// it: always the escape sequence for the default background.
#[verifier::external_body]
fn background_reset() -> (code: String)
    ensures
        code@ == default_background(),
{
    format!("{}", termion::color::Bg(termion::color::Reset))
}

/// The pair of sequences that set a suggestion apart from ordinary text.
pub struct Highlight {
    pub on: String,
    pub off: String,
}

impl View for Highlight {
    type V = HighlightView;

    open spec fn view(&self) -> HighlightView {
        HighlightView { on: self.on@, off: self.off@ }
    }
}

impl Highlight {
    /// The highlight that the terminal library gives: a light green
    /// background, unless colours are switched off for this process, and the
    /// return to the default background after it.
    pub fn terminal() -> (highlight: Highlight)
        ensures
            highlight@ == terminal_highlight(true) || highlight@ == terminal_highlight(false),
    {
        let highlight = Highlight { on: light_green_on(), off: background_reset() };
        proof {
            if highlight.on@.len() == 0 {
                assert(highlight.on@ =~= Seq::<char>::empty());
            }
        }
        highlight
    }

    /// A highlight made of the two given sequences.
    pub fn new(on: &str, off: &str) -> (highlight: Highlight)
        ensures
            highlight@ == (HighlightView { on: on@, off: off@ }),
    {
        Highlight { on: String::from_str(on), off: String::from_str(off) }
    }

    /// The line that shows one suggestion.
    pub fn suggestion_line(&self, suggestion: &str) -> (line: String)
        ensures
            line@ == suggestion_text(self@, suggestion@),
    {
        let mut line = self.on.clone();
        line.append(suggestion);
        line.append(self.off.as_str());
        line.append("\n");
        line
    }

    /// The lines that show all the suggestions, in order.
    pub fn suggestion_lines(&self, suggestions: &Vec<&str>) -> (block: String)
        ensures
            block@ == suggestion_block(self@, suggestions@.map_values(|w: &str| w@)),
    {
        let ghost all = suggestions@.map_values(|w: &str| w@);
        let mut block = String::new();
        let mut i: usize = 0;
        while i < suggestions.len()
            invariant
                i <= suggestions.len(),
                all == suggestions@.map_values(|w: &str| w@),
                block@ == suggestion_block(self@, all.take(i as int)),
            decreases suggestions.len() - i,
        {
            let line = self.suggestion_line(suggestions[i]);
            block.append(line.as_str());
            proof {
                assert(all.take(i + 1).drop_last() == all.take(i as int));
                assert(all.take(i + 1).last() == suggestions@[i as int]@);
            }
            i += 1;
        }
        proof {
            assert(all.take(i as int) == all);
        }
        block
    }
}

} // verus!
