use hydroxite::highlight::{highlight_text, tokenize};
use hydroxite::lines::split_lines;
use hydroxite::runs::StyledRun;

fn joined(runs: &[StyledRun]) -> String {
    let mut out = String::new();
    for r in runs {
        out.push_str(&r.text);
    }
    out
}

#[test]
fn split_keeps_endings() {
    let ls = split_lines("hello\nworld\n");
    assert_eq!(ls, vec!["hello\n".to_string(), "world\n".to_string()]);
}

#[test]
fn split_without_trailing_newline() {
    let ls = split_lines("one\ntwo");
    assert_eq!(ls, vec!["one\n".to_string(), "two".to_string()]);
}

#[test]
fn split_empty_text_has_no_lines() {
    let ls = split_lines("");
    assert!(ls.is_empty());
}

#[test]
fn tokenize_is_lossless_per_line() {
    let ts = tokenize("hello\nworld\n", None);
    assert_eq!(ts.len(), 2);
    for t in &ts {
        assert!(t.ok);
        assert_eq!(joined(&t.runs), t.line);
    }
    assert_eq!(ts[0].line, "hello\n");
    assert_eq!(ts[1].line, "world\n");
}

#[test]
fn highlight_plain_text_reconstructs_buffer() {
    let text = "hello\nworld\n";
    let (runs, all_ok) = highlight_text(text, None);
    assert!(all_ok);
    assert_eq!(joined(&runs), text);
}

#[test]
fn highlight_rust_reconstructs_buffer() {
    let text = "pub struct Wow { hi: u64 }\nfn blah() -> u64 { 42 }\n";
    let (runs, all_ok) = highlight_text(text, Some("Rust"));
    assert!(all_ok);
    assert_eq!(joined(&runs), text);
    // a real grammar splits a line into more than one span
    assert!(runs.len() > 2);
}

#[test]
fn highlight_unknown_grammar_falls_back_to_plain() {
    let text = "some text\n";
    let (runs, all_ok) = highlight_text(text, Some("No Such Grammar"));
    assert!(all_ok);
    assert_eq!(joined(&runs), text);
}

#[test]
fn highlight_multiline_construct_reconstructs_buffer() {
    // a block comment spanning lines exercises the tokenizer state that is
    // carried from one line to the next
    let text = "/* one\ntwo */\nfn x() {}\n";
    let (runs, all_ok) = highlight_text(text, Some("Rust"));
    assert!(all_ok);
    assert_eq!(joined(&runs), text);
}

#[test]
fn highlight_empty_buffer() {
    let (runs, all_ok) = highlight_text("", None);
    assert!(all_ok);
    assert_eq!(joined(&runs), "");
}
