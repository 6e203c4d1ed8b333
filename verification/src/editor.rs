//! The line editor: one step per key, from the text typed so far to the new
//! text and to what the terminal is to show.

use crate::completion::{matching, suggestions, words};
use crate::keys::{key_of_byte, Key};
use crate::screen::{
    clear_line, clear_line_text, printterm, prompt_text, suggestion_block, terminal_highlight,
    Highlight, HighlightView,
};
use vstd::prelude::*;
use vstd::string::*;

verus! {

/// The text typed so far after `key` was pressed.
///
/// A character is appended. Erase removes the last character, if there is
/// one. Tab replaces the whole text by the one word of the vocabulary that
/// begins with it, and changes nothing when no word or several words do.
/// The keys that end the line leave the text as it is.
pub open spec fn next_buffer(buffer: Seq<char>, key: Key, vocabulary: Seq<Seq<char>>) -> Seq<
    char,
> {
    match key {
        Key::Char(c) => buffer.push(c),
        Key::Erase => if buffer.len() > 0 {
            buffer.drop_last()
        } else {
            buffer
        },
        Key::Tab => if matching(vocabulary, buffer).len() == 1 {
            matching(vocabulary, buffer)[0]
        } else {
            buffer
        },
        Key::Enter => buffer,
        Key::EndOfInput => buffer,
    }
}

/// What is written to the terminal when `key` is pressed.
///
/// A character is echoed. Enter writes a newline. Erase on a non-empty text
/// clears the line and draws the prompt with the shortened text. Tab with one
/// match draws the prompt with the completed text; with several matches it
/// writes a newline, one highlighted line for each match, and the prompt with
/// the unchanged text. Everything else writes nothing.
pub open spec fn feedback(
    buffer: Seq<char>,
    key: Key,
    vocabulary: Seq<Seq<char>>,
    highlight: HighlightView,
) -> Seq<char> {
    match key {
        Key::Char(c) => seq![c],
        Key::Enter => "\n"@,
        Key::Erase => if buffer.len() > 0 {
            clear_line_text() + prompt_text(buffer.drop_last())
        } else {
            Seq::empty()
        },
        Key::Tab => if matching(vocabulary, buffer).len() == 1 {
            prompt_text(matching(vocabulary, buffer)[0])
        } else if matching(vocabulary, buffer).len() > 1 {
            "\n"@ + suggestion_block(highlight, matching(vocabulary, buffer)) + prompt_text(
                buffer,
            )
        } else {
            Seq::empty()
        },
        Key::EndOfInput => Seq::empty(),
    }
}

/// The line that a sequence of raw key bytes types, starting from `buffer`.
/// Reading stops at the first newline; when the bytes run out first, the
/// input has ended and the line is what was typed until then.
pub open spec fn typed_line(vocabulary: Seq<Seq<char>>, buffer: Seq<char>, keys: Seq<u8>) -> Seq<
    char,
>
    decreases keys.len(),
{
    if keys.len() == 0 {
        buffer
    } else if key_of_byte(keys[0]).ends_line() {
        buffer
    } else {
        typed_line(
            vocabulary,
            next_buffer(buffer, key_of_byte(keys[0]), vocabulary),
            keys.drop_first(),
        )
    }
}

/// A line editor as plain values.
pub struct EditorView {
    pub buffer: Seq<char>,
    pub highlight: HighlightView,
}

/// The state of one line being typed.
pub struct LineEditor {
    buffer: String,
    highlight: Highlight,
}

/// What the editor asks of its caller after a key.
pub struct Reaction {
    /// The text to write to the terminal, and to flush, before the next key
    /// is read.
    pub output: String,
    /// Whether the line is complete.
    pub finished: bool,
}

impl View for LineEditor {
    type V = EditorView;

    closed spec fn view(&self) -> EditorView {
        EditorView { buffer: self.buffer@, highlight: self.highlight@ }
    }
}

impl LineEditor {
    /// An editor with an empty line that highlights suggestions with
    /// `highlight`.
    pub fn new(highlight: Highlight) -> (editor: LineEditor)
        ensures
            editor@.buffer == Seq::<char>::empty(),
            editor@.highlight == highlight@,
    {
        LineEditor { buffer: String::new(), highlight }
    }

    /// The text typed so far.
    pub fn line(&self) -> (line: &str)
        ensures
            line@ == self@.buffer,
    {
        self.buffer.as_str()
    }

    /// Takes one key: updates the text typed so far and says what to write
    /// to the terminal and whether the line is complete.
    pub fn press(&mut self, key: Key, commands: &[&str]) -> (reaction: Reaction)
        ensures
            final(self)@.highlight == old(self)@.highlight,
            final(self)@.buffer == next_buffer(old(self)@.buffer, key, words(commands@)),
            reaction.output@ == feedback(
                old(self)@.buffer,
                key,
                words(commands@),
                old(self)@.highlight,
            ),
            reaction.finished == key.ends_line(),
    {
        match key {
            Key::Char(c) => {
                self.buffer.push(c);
                let mut output = String::new();
                output.push(c);
                Reaction { output, finished: false }
            },
            Key::Enter => Reaction { output: String::from_str("\n"), finished: true },
            Key::Erase => {
                match self.buffer.pop() {
                    Some(_) => {
                        let mut output = clear_line();
                        let prompt = printterm(self.buffer.as_str());
                        output.append(prompt.as_str());
                        Reaction { output, finished: false }
                    },
                    None => Reaction { output: String::new(), finished: false },
                }
            },
            Key::Tab => {
                let found = suggestions(commands, self.buffer.as_str());
                if found.len() == 1 {
                    self.buffer = String::from_str(found[0]);
                    Reaction { output: printterm(self.buffer.as_str()), finished: false }
                } else if found.len() > 1 {
                    let mut output = String::from_str("\n");
                    let block = self.highlight.suggestion_lines(&found);
                    output.append(block.as_str());
                    let prompt = printterm(self.buffer.as_str());
                    output.append(prompt.as_str());
                    Reaction { output, finished: false }
                } else {
                    Reaction { output: String::new(), finished: false }
                }
            },
            Key::EndOfInput => Reaction { output: String::new(), finished: true },
        }
    }
}

/// What a sequence of raw key bytes writes to the terminal while the line
/// is read, starting from `buffer`: the feedback of each key up to and
/// including the first newline.
pub open spec fn typed_output(
    vocabulary: Seq<Seq<char>>,
    buffer: Seq<char>,
    keys: Seq<u8>,
    highlight: HighlightView,
) -> Seq<char>
    decreases keys.len(),
{
    if keys.len() == 0 {
        Seq::empty()
    } else if key_of_byte(keys[0]).ends_line() {
        feedback(buffer, key_of_byte(keys[0]), vocabulary, highlight)
    } else {
        feedback(buffer, key_of_byte(keys[0]), vocabulary, highlight) + typed_output(
            vocabulary,
            next_buffer(buffer, key_of_byte(keys[0]), vocabulary),
            keys.drop_first(),
            highlight,
        )
    }
}

/// How many of the key bytes one line takes: those up to and including the
/// first newline, or all of them when there is no newline.
pub open spec fn keys_taken(keys: Seq<u8>) -> nat
    decreases keys.len(),
{
    if keys.len() == 0 {
        0
    } else if key_of_byte(keys[0]).ends_line() {
        1
    } else {
        1 + keys_taken(keys.drop_first())
    }
}

/// One line as it was read from a sequence of key bytes.
pub struct LineRead {
    /// The text of the line, without the newline.
    pub line: String,
    /// Everything that was written to the terminal on the way.
    pub output: String,
    /// The number of key bytes that the line took.
    pub taken: usize,
}

/// Reads one line from the raw key bytes `keys`, completing against
/// `commands` on tab. The line is the text typed up to the first newline,
/// or up to the end of `keys` when no newline comes. Suggestions are
/// highlighted as the terminal library has it, in light green or not at
/// all.
pub fn read_line_with_autocomplete(commands: &[&str], keys: &[u8]) -> (read: LineRead)
    ensures
        read.line@ == typed_line(words(commands@), Seq::empty(), keys@),
        read.taken == keys_taken(keys@),
        read.output@ == typed_output(
            words(commands@),
            Seq::empty(),
            keys@,
            terminal_highlight(true),
        ) || read.output@ == typed_output(
            words(commands@),
            Seq::empty(),
            keys@,
            terminal_highlight(false),
        ),
{
    let highlight = Highlight::terminal();
    let ghost shown = highlight@;
    let ghost vocabulary = words(commands@);
    let mut editor = LineEditor::new(highlight);
    let mut output = String::new();
    let mut i: usize = 0;
    proof {
        assert(keys@.skip(0) == keys@);
    }
    while i < keys.len()
        invariant
            i <= keys.len(),
            vocabulary == words(commands@),
            shown == terminal_highlight(true) || shown == terminal_highlight(false),
            editor@.highlight == shown,
            typed_line(vocabulary, editor@.buffer, keys@.skip(i as int)) == typed_line(
                vocabulary,
                Seq::empty(),
                keys@,
            ),
            output@ + typed_output(vocabulary, editor@.buffer, keys@.skip(i as int), shown)
                == typed_output(vocabulary, Seq::empty(), keys@, shown),
            i + keys_taken(keys@.skip(i as int)) == keys_taken(keys@),
        decreases keys.len() - i,
    {
        let key = Key::from_byte(keys[i]);
        let ghost before = editor@.buffer;
        let ghost written = output@;
        proof {
            assert(keys@.skip(i as int)[0] == keys@[i as int]);
            assert(keys@.skip(i as int).drop_first() == keys@.skip(i + 1));
        }
        let reaction = editor.press(key, commands);
        output.append(reaction.output.as_str());
        if reaction.finished {
            return LineRead { line: editor.buffer, output, taken: i + 1 };
        }
        proof {
            let rest = typed_output(vocabulary, editor@.buffer, keys@.skip(i + 1), shown);
            assert((written + reaction.output@) + rest == written + (reaction.output@ + rest));
        }
        i += 1;
    }
    proof {
        assert(output@ + Seq::<char>::empty() == output@);
    }
    LineRead { line: editor.buffer, output, taken: i }
}

} // verus!
