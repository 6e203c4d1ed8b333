use atm_rust::command::Command;
use atm_rust::completion::suggestions;
use atm_rust::editor::{read_line_with_autocomplete, LineEditor};
use atm_rust::keys::Key;
use atm_rust::screen::{clear_line, printterm, Highlight};
use atm_rust::text::{same_text, starts_with};

const VOCABULARY: [&str; 5] = ["login", "logout", "deposit", "withdraw", "transfer"];

fn editor_with(text: &str) -> LineEditor {
    let mut editor = LineEditor::new(Highlight::new("<", ">"));
    for c in text.chars() {
        let reaction = editor.press(Key::Char(c), &VOCABULARY);
        assert!(!reaction.finished);
    }
    assert_eq!(editor.line(), text);
    editor
}

#[test]
fn bytes_are_classified() {
    assert_eq!(Key::from_byte(b'\n'), Key::Enter);
    assert_eq!(Key::from_byte(b'\t'), Key::Tab);
    assert_eq!(Key::from_byte(0x08), Key::Erase);
    assert_eq!(Key::from_byte(0x7f), Key::Erase);
    assert_eq!(Key::from_byte(b'a'), Key::Char('a'));
    assert_eq!(Key::from_byte(b' '), Key::Char(' '));
    assert_eq!(Key::from_byte(b'\r'), Key::Char('\r'));
    assert_eq!(Key::from_byte(0x1b), Key::Char('\u{1b}'));
    assert_eq!(Key::from_byte(0xe9), Key::Char('\u{e9}'));
    assert_eq!(Key::from_byte(0), Key::Char('\0'));
}

#[test]
fn variants_are_the_five_keywords_in_order() {
    assert_eq!(Command::variants(), &VOCABULARY[..]);
}

#[test]
fn prefix_test_is_exact() {
    assert!(starts_with("login", ""));
    assert!(starts_with("login", "l"));
    assert!(starts_with("login", "login"));
    assert!(!starts_with("login", "logins"));
    assert!(!starts_with("login", "L"));
    assert!(!starts_with("login", "og"));
    assert!(!starts_with("", "a"));
    assert!(starts_with("", ""));
    assert!(starts_with("\u{e9}t\u{e9}", "\u{e9}t"));
    assert!(!starts_with("\u{e9}t\u{e9}", "e"));
}

#[test]
fn text_comparison_is_exact() {
    assert!(same_text("exit", "exit"));
    assert!(same_text("", ""));
    assert!(!same_text("exit", "exi"));
    assert!(!same_text("exi", "exit"));
    assert!(!same_text("exit", "Exit"));
}

#[test]
fn suggestions_keep_the_order_of_the_vocabulary() {
    assert_eq!(suggestions(&VOCABULARY, "l"), vec!["login", "logout"]);
    assert_eq!(suggestions(&VOCABULARY, "log"), vec!["login", "logout"]);
    assert_eq!(suggestions(&VOCABULARY, "dep"), vec!["deposit"]);
    assert_eq!(suggestions(&VOCABULARY, ""), VOCABULARY.to_vec());
    assert_eq!(suggestions(&VOCABULARY, "x"), Vec::<&str>::new());
    assert_eq!(suggestions(&VOCABULARY, "Dep"), Vec::<&str>::new());
    assert_eq!(suggestions(&VOCABULARY, "deposit 1"), Vec::<&str>::new());
    assert_eq!(suggestions(&["b", "ab", "a", "ab"], "a"), vec!["ab", "a", "ab"]);
    assert_eq!(suggestions(&[], "a"), Vec::<&str>::new());
}

#[test]
fn tab_on_l_lists_login_and_logout_and_keeps_the_buffer() {
    let mut editor = editor_with("l");
    let reaction = editor.press(Key::Tab, &VOCABULARY);
    assert_eq!(editor.line(), "l");
    assert!(!reaction.finished);
    assert_eq!(reaction.output, "\n<login>\n<logout>\n\ratm> l");
}

#[test]
fn tab_on_log_lists_the_two_words_that_share_it() {
    let vocabulary = ["login", "logout", "lock", "deposit"];
    let mut editor = editor_with("log");
    let reaction = editor.press(Key::Tab, &vocabulary);
    assert_eq!(editor.line(), "log");
    assert!(!reaction.finished);
    assert_eq!(reaction.output, "\n<login>\n<logout>\n\ratm> log");
}

#[test]
fn tab_on_dep_completes_to_deposit() {
    let mut editor = editor_with("dep");
    let reaction = editor.press(Key::Tab, &VOCABULARY);
    assert_eq!(editor.line(), "deposit");
    assert!(!reaction.finished);
    assert_eq!(reaction.output, "\ratm> deposit");
}

#[test]
fn tab_on_a_whole_word_redraws_it() {
    let mut editor = editor_with("logout");
    let reaction = editor.press(Key::Tab, &VOCABULARY);
    assert_eq!(editor.line(), "logout");
    assert_eq!(reaction.output, "\ratm> logout");
}

#[test]
fn tab_without_a_match_does_nothing() {
    let mut editor = editor_with("deposit 10");
    let reaction = editor.press(Key::Tab, &VOCABULARY);
    assert_eq!(editor.line(), "deposit 10");
    assert!(!reaction.finished);
    assert_eq!(reaction.output, "");
}

#[test]
fn tab_on_the_empty_line_lists_everything() {
    let mut editor = editor_with("");
    let reaction = editor.press(Key::Tab, &VOCABULARY);
    assert_eq!(editor.line(), "");
    assert_eq!(
        reaction.output,
        "\n<login>\n<logout>\n<deposit>\n<withdraw>\n<transfer>\n\ratm> "
    );
}

#[test]
fn erase_on_the_empty_line_is_a_no_op() {
    let mut editor = editor_with("");
    for _ in 0..3 {
        let reaction = editor.press(Key::Erase, &VOCABULARY);
        assert_eq!(editor.line(), "");
        assert_eq!(reaction.output, "");
        assert!(!reaction.finished);
    }
}

#[test]
fn erase_removes_the_last_character_and_redraws() {
    let mut editor = editor_with("abc");
    let reaction = editor.press(Key::Erase, &VOCABULARY);
    assert_eq!(editor.line(), "ab");
    assert!(!reaction.finished);
    assert_eq!(reaction.output, "\x1b[2K\x1b[G\ratm> ab");
    let reaction = editor.press(Key::Erase, &VOCABULARY);
    assert_eq!(editor.line(), "a");
    assert_eq!(reaction.output, "\x1b[2K\x1b[G\ratm> a");
    let reaction = editor.press(Key::Erase, &VOCABULARY);
    assert_eq!(editor.line(), "");
    assert_eq!(reaction.output, "\x1b[2K\x1b[G\ratm> ");
}

#[test]
fn a_character_is_appended_and_echoed() {
    let mut editor = editor_with("lo");
    let reaction = editor.press(Key::Char('g'), &VOCABULARY);
    assert_eq!(editor.line(), "log");
    assert_eq!(reaction.output, "g");
    assert!(!reaction.finished);
    let reaction = editor.press(Key::Char('\u{e9}'), &VOCABULARY);
    assert_eq!(editor.line(), "log\u{e9}");
    assert_eq!(reaction.output, "\u{e9}");
}

#[test]
fn enter_writes_a_newline_and_ends_the_line() {
    let mut editor = editor_with("logout");
    let reaction = editor.press(Key::Enter, &VOCABULARY);
    assert_eq!(editor.line(), "logout");
    assert_eq!(reaction.output, "\n");
    assert!(reaction.finished);
}

#[test]
fn end_of_input_ends_the_line_silently() {
    let mut editor = editor_with("dep");
    let reaction = editor.press(Key::EndOfInput, &VOCABULARY);
    assert_eq!(editor.line(), "dep");
    assert_eq!(reaction.output, "");
    assert!(reaction.finished);
    let mut editor = editor_with("");
    let reaction = editor.press(Key::EndOfInput, &VOCABULARY);
    assert_eq!(editor.line(), "");
    assert!(reaction.finished);
}

#[test]
fn prompt_line_is_return_label_and_input() {
    assert_eq!(printterm(""), "\ratm> ");
    assert_eq!(printterm("deposit 5"), "\ratm> deposit 5");
}

#[test]
fn clear_line_erases_and_returns_to_the_first_column() {
    assert_eq!(clear_line(), "\x1b[2K\x1b[G");
}

#[test]
fn suggestion_line_wraps_the_word() {
    let highlight = Highlight::new("[", "]");
    assert_eq!(highlight.suggestion_line("login"), "[login]\n");
    assert_eq!(highlight.suggestion_lines(&vec!["login", "logout"]), "[login]\n[logout]\n");
    assert_eq!(highlight.suggestion_lines(&Vec::new()), "");
    let plain = Highlight::new("", "");
    assert_eq!(plain.suggestion_line("login"), "login\n");
}

#[test]
fn terminal_highlight_is_light_green_or_nothing() {
    let highlight = Highlight::terminal();
    assert!(highlight.on == "\x1b[48;5;10m" || highlight.on.is_empty());
    assert_eq!(highlight.off, "\x1b[49m");
    let line = highlight.suggestion_line("login");
    assert!(line == "\x1b[48;5;10mlogin\x1b[49m\n" || line == "login\x1b[49m\n");
}

#[test]
fn a_line_is_read_up_to_the_newline() {
    let read = read_line_with_autocomplete(&VOCABULARY, b"login alice\n");
    assert_eq!(read.line, "login alice");
    assert_eq!(read.output, "login alice\n");
    assert_eq!(read.taken, 12);
    let read = read_line_with_autocomplete(&VOCABULARY, b"logout\ndeposit 5\n");
    assert_eq!(read.line, "logout");
    assert_eq!(read.output, "logout\n");
    assert_eq!(read.taken, 7);
    let read = read_line_with_autocomplete(&VOCABULARY, b"\n");
    assert_eq!(read.line, "");
    assert_eq!(read.output, "\n");
    assert_eq!(read.taken, 1);
}

#[test]
fn a_line_without_newline_ends_with_the_input() {
    let read = read_line_with_autocomplete(&VOCABULARY, b"");
    assert_eq!(read.line, "");
    assert_eq!(read.output, "");
    assert_eq!(read.taken, 0);
    let read = read_line_with_autocomplete(&VOCABULARY, b"dep");
    assert_eq!(read.line, "dep");
    assert_eq!(read.output, "dep");
    assert_eq!(read.taken, 3);
}

#[test]
fn a_line_is_edited_while_it_is_read() {
    let read = read_line_with_autocomplete(&VOCABULARY, b"dep\t 100\n");
    assert_eq!(read.line, "deposit 100");
    assert_eq!(read.output, "dep\ratm> deposit 100\n");
    assert_eq!(read.taken, 9);
    let read = read_line_with_autocomplete(&VOCABULARY, b"x\t\n");
    assert_eq!(read.line, "x");
    assert_eq!(read.output, "x\n");
    let read = read_line_with_autocomplete(&VOCABULARY, b"logix\x08n\n");
    assert_eq!(read.line, "login");
    assert_eq!(read.output, "logix\x1b[2K\x1b[G\ratm> login\n");
    let read = read_line_with_autocomplete(&VOCABULARY, b"ab\x7f\x7f\x7f\x7fw\t\n");
    assert_eq!(read.line, "withdraw");
    assert_eq!(read.taken, 9);
    let read = read_line_with_autocomplete(&VOCABULARY, b"t\t 20 bob\n");
    assert_eq!(read.line, "transfer 20 bob");
}

#[test]
fn suggestions_are_shown_while_a_line_is_read() {
    let read = read_line_with_autocomplete(&VOCABULARY, b"l\t\n");
    assert_eq!(read.line, "l");
    assert_eq!(read.taken, 3);
    let green = "l\n\x1b[48;5;10mlogin\x1b[49m\n\x1b[48;5;10mlogout\x1b[49m\n\ratm> l\n";
    let plain = "l\nlogin\x1b[49m\nlogout\x1b[49m\n\ratm> l\n";
    assert!(read.output == green || read.output == plain);
}

#[test]
fn lines_are_read_one_after_the_other() {
    let keys = b"login alice\ndeposit 100\nlogout\n";
    let mut lines = Vec::new();
    let mut at = 0;
    while at < keys.len() {
        let read = read_line_with_autocomplete(&VOCABULARY, &keys[at..]);
        at += read.taken;
        lines.push(read.line);
    }
    assert_eq!(lines, vec!["login alice", "deposit 100", "logout"]);
}
