use codegpt::display::{join_with_newlines, render_answer, wrap_for_display, DISPLAY_WIDTH};
use codegpt::prompt::Action;

fn words_of(s: &str) -> Vec<String> {
    s.split_whitespace().map(|w| w.to_string()).collect()
}

fn long_line() -> String {
    let mut s = String::new();
    let mut i = 0;
    while s.len() < 200 {
        if !s.is_empty() {
            s.push(' ');
        }
        s.push_str(&format!("word{}", i));
        i += 1;
    }
    s.truncate(200);
    s
}

#[test]
fn wrap_short_line_untouched() {
    assert_eq!(wrap_for_display("hello world"), "hello world");
}

#[test]
fn wrap_keeps_line_breaks() {
    assert_eq!(wrap_for_display("a\n\nb"), "a\n\nb");
}

#[test]
fn wrap_long_line_within_width() {
    let line = long_line();
    assert_eq!(line.chars().count(), 200);
    let out = wrap_for_display(&line);
    assert!(out.lines().count() >= 3);
    for l in out.lines() {
        assert!(l.chars().count() <= DISPLAY_WIDTH);
    }
    assert_eq!(words_of(&out), words_of(&line));
}

#[test]
fn wrap_exact_break() {
    let a = "a".repeat(50);
    let b = "b".repeat(50);
    let text = format!("{} {}", a, b);
    assert_eq!(wrap_for_display(&text), format!("{}\n{}", a, b));
}

#[test]
fn explain_answer_is_wrapped() {
    let line = long_line();
    let out = render_answer(&Action::Explain(String::new()), line.clone());
    assert!(out.lines().all(|l| l.chars().count() <= 80));
    assert_eq!(words_of(&out), words_of(&line));
    let out = render_answer(&Action::Walkthrough(String::new()), line.clone());
    assert!(out.contains('\n'));
}

#[test]
fn write_answer_is_not_wrapped() {
    let line = long_line();
    assert_eq!(render_answer(&Action::Write(String::new()), line.clone()), line);
    assert_eq!(render_answer(&Action::Refactor(String::new()), line.clone()), line);
}

#[test]
fn join_lines_between_neighbours() {
    assert_eq!(join_with_newlines(&vec![]), "");
    assert_eq!(join_with_newlines(&vec!["a".to_string()]), "a");
    assert_eq!(join_with_newlines(&vec!["a".to_string(), String::new(), "b".to_string()]), "a\n\nb");
}

#[test]
fn wrap_is_greedy() {
    let text = vec!["abcd"; 20].join(" ");
    let expected = format!("{}\n{}", vec!["abcd"; 16].join(" "), vec!["abcd"; 4].join(" "));
    assert_eq!(wrap_for_display(&text), expected);
}

#[test]
fn wrap_long_word_passes_through() {
    let word = "a".repeat(100);
    assert_eq!(wrap_for_display(&word), word);
    let text = format!("x {} y", word);
    assert_eq!(wrap_for_display(&text), format!("x\n{}\ny", word));
}
