use hydroxite::layout::map_runs;
use hydroxite::runs::{StyledRun, TextStyle};

fn style(r: u8) -> TextStyle {
    TextStyle { red: r, green: 0, blue: 0, alpha: 255 }
}

fn run(r: u8, text: &str) -> StyledRun {
    StyledRun { style: style(r), text: text.to_string() }
}

fn joined(runs: &[StyledRun]) -> String {
    let mut out = String::new();
    for r in runs {
        out.push_str(&r.text);
    }
    out
}

#[test]
fn fresh_runs_map_one_to_one() {
    let runs = vec![run(1, "he"), run(2, "llo")];
    let out = map_runs(&runs, "hello", style(0));
    assert_eq!(out.len(), 2);
    assert_eq!(out[0].text, "he");
    assert_eq!(out[0].style, style(1));
    assert_eq!(out[1].text, "llo");
    assert_eq!(out[1].style, style(2));
    assert_eq!(joined(&out), "hello");
}

#[test]
fn grown_buffer_gets_fallback_tail() {
    let runs = vec![run(1, "he"), run(2, "llo")];
    let out = map_runs(&runs, "hello world", style(9));
    assert_eq!(out.len(), 3);
    assert_eq!(out[2].text, " world");
    assert_eq!(out[2].style, style(9));
    assert_eq!(joined(&out), "hello world");
}

#[test]
fn shrunk_buffer_truncates_runs() {
    // the buffer is now shorter than the text the runs were made from:
    // the walk stops before the run that would pass the end, and the rest
    // of the buffer is drawn in the fallback style
    let runs = vec![run(1, "he"), run(2, "llo")];
    let out = map_runs(&runs, "hel", style(9));
    assert_eq!(out.len(), 2);
    assert_eq!(out[0].text, "he");
    assert_eq!(out[0].style, style(1));
    assert_eq!(out[1].text, "l");
    assert_eq!(out[1].style, style(9));
    assert_eq!(joined(&out), "hel");
}

#[test]
fn run_longer_than_whole_buffer() {
    let runs = vec![run(1, "hello")];
    let out = map_runs(&runs, "hel", style(9));
    assert_eq!(out.len(), 1);
    assert_eq!(out[0].text, "hel");
    assert_eq!(out[0].style, style(9));
}

#[test]
fn empty_buffer_yields_no_rows() {
    let runs = vec![run(1, "hello")];
    let out = map_runs(&runs, "", style(9));
    assert!(out.is_empty());
}

#[test]
fn no_runs_yields_single_fallback() {
    let runs: Vec<StyledRun> = Vec::new();
    let out = map_runs(&runs, "abc", style(9));
    assert_eq!(out.len(), 1);
    assert_eq!(out[0].text, "abc");
    assert_eq!(out[0].style, style(9));
}
