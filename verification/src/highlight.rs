//! The highlight engine: tokenizing buffer text into styled runs.
//!
//! Tokenization itself is done by syntect, behind a small trusted boundary.
//! Nothing about the produced spans is taken on trust: after each line is
//! tokenized, verified code checks that the spans put back together equal
//! the line, and discards them otherwise.  A line that fails to tokenize,
//! or whose spans would not reconstruct it, yields no runs at all, so a
//! failure stays local to its line and never corrupts the text.

use crate::lines::{concat_texts as concat_line_views, is_line_decomposition, split_lines, string_views};
use crate::runs::{concat_run_texts, lemma_concat_run_texts_push, StyledRun, TextStyle};
use vstd::prelude::*;

verus! {

#[verifier::external_type_specification]
#[verifier::external_body]
pub struct ExSyntaxSet(syntect::parsing::SyntaxSet);

#[verifier::external_type_specification]
#[verifier::external_body]
pub struct ExSyntaxReference(syntect::parsing::SyntaxReference);

#[verifier::external_type_specification]
#[verifier::external_body]
pub struct ExTheme(syntect::highlighting::Theme);

#[verifier::external_type_specification]
#[verifier::external_body]
pub struct ExHighlightLines<'a>(syntect::easy::HighlightLines<'a>);

/// Relies on syntect's `SyntaxSet::load_defaults_newlines`: loads the fixed
/// grammar catalog embedded in syntect, in the variant meant for lines that
/// keep their trailing newline.
#[verifier::external_body]
fn load_default_syntaxes() -> syntect::parsing::SyntaxSet {
    syntect::parsing::SyntaxSet::load_defaults_newlines()
}

/// Relies on syntect's `ThemeSet::load_defaults`, whose documentation lists
/// `base16-ocean.dark` among the themes it always contains; were the key
/// ever absent, the default theme value is used rather than panicking.
#[verifier::external_body]
fn load_dark_theme() -> syntect::highlighting::Theme {
    syntect::highlighting::ThemeSet::load_defaults().themes.remove(
        "base16-ocean.dark",
    ).unwrap_or_default()
}

/// Relies on syntect's `SyntaxSet::find_syntax_by_name`: looks a grammar up
/// in the set by its exact name.
#[verifier::external_body]
fn find_grammar<'a>(ss: &'a syntect::parsing::SyntaxSet, name: &str) -> Option<
    &'a syntect::parsing::SyntaxReference,
> {
    ss.find_syntax_by_name(name)
}

/// Relies on syntect's `HighlightLines::new`: starts a highlight pass over
/// successive lines under one grammar and one theme.
#[verifier::external_body]
fn start_pass<'a>(
    syntax: &syntect::parsing::SyntaxReference,
    theme: &'a syntect::highlighting::Theme,
) -> syntect::easy::HighlightLines<'a> {
    syntect::easy::HighlightLines::new(syntax, theme)
}

/// Relies on syntect's `HighlightLines::highlight_line`: tokenizes one line
/// of the pass, yielding styled spans of it, or an error.  Only each span's
/// text and foreground color are kept.  `ss` must be the set the pass's
/// grammar came from; the one caller, `tokenize`, passes the set it built
/// the pass with.  Nothing is assumed of the spans: the caller checks that
/// they reconstruct the line.
#[verifier::external_body]
fn highlight_one_line(
    pass: &mut syntect::easy::HighlightLines,
    line: &str,
    ss: &syntect::parsing::SyntaxSet,
) -> Option<Vec<StyledRun>> {
    let spans = pass.highlight_line(line, ss).ok()?;
    Some(
        spans.into_iter().map(
            |(st, t)| StyledRun {
                style: TextStyle {
                    red: st.foreground.r,
                    green: st.foreground.g,
                    blue: st.foreground.b,
                    alpha: st.foreground.a,
                },
                text: t.to_owned(),
            },
        ).collect(),
    )
}

/// The tokenization of one line: the line's text, its styled runs, and
/// whether tokenization succeeded.
pub struct LineTokens {
    pub line: String,
    pub runs: Vec<StyledRun>,
    pub ok: bool,
}

/// A line's tokenization is well-formed when its runs reconstruct the line
/// exactly if it succeeded, and are absent if it failed.
pub open spec fn tokens_wf(t: LineTokens) -> bool {
    &&& t.ok ==> concat_run_texts(t.runs@) == t.line@
    &&& !t.ok ==> t.runs@ == Seq::<StyledRun>::empty()
}

/// The line texts of a tokenization, in order.
pub open spec fn lines_of(ts: Seq<LineTokens>) -> Seq<Seq<char>> {
    ts.map_values(|t: LineTokens| t.line@)
}

/// The runs of every line, concatenated in order.
pub open spec fn concat_all_run_texts(ts: Seq<LineTokens>) -> Seq<char>
    decreases ts.len(),
{
    if ts.len() == 0 {
        Seq::empty()
    } else {
        concat_all_run_texts(ts.drop_last()) + concat_run_texts(ts.last().runs@)
    }
}

/// Marks every given line as failed, with no runs.
fn failed_tokens(ls: Vec<String>) -> (out: Vec<LineTokens>)
    ensures
        lines_of(out@) == string_views(ls@),
        forall|i: int| 0 <= i < out@.len() ==> tokens_wf(#[trigger] out@[i]) && !out@[i].ok,
{
    let mut out: Vec<LineTokens> = Vec::new();
    let mut i: usize = 0;
    while i < ls.len()
        invariant
            i <= ls.len(),
            lines_of(out@) == string_views(ls@).subrange(0, i as int),
            forall|k: int| 0 <= k < out@.len() ==> tokens_wf(#[trigger] out@[k]) && !out@[k].ok,
        decreases ls.len() - i,
    {
        let ghost prev = out@;
        out.push(LineTokens { line: ls[i].clone(), runs: Vec::new(), ok: false });
        proof {
            assert(lines_of(out@) =~= lines_of(prev).push(ls@[i as int]@));
            assert(lines_of(prev).push(ls@[i as int]@) =~= string_views(ls@).subrange(
                0,
                i + 1 as int,
            ));
        }
        i += 1;
    }
    proof {
        assert(string_views(ls@).subrange(0, ls@.len() as int) =~= string_views(ls@));
    }
    out
}

/// Tokenizes `text` line by line under the grammar named `syntax_name`,
/// falling back to syntect's plain-text grammar when the name is absent or
/// unknown.  The output has one entry per line of `text`; the entries'
/// lines are exactly the decomposition of `text` into lines with endings,
/// and each entry either carries runs that reconstruct its line exactly, or
/// no runs at all.
pub fn tokenize(text: &str, syntax_name: Option<&str>) -> (out: Vec<LineTokens>)
    ensures
        is_line_decomposition(lines_of(out@), text@),
        forall|i: int| 0 <= i < out@.len() ==> tokens_wf(#[trigger] out@[i]),
{
    let ls = split_lines(text);
    let ss = load_default_syntaxes();
    let theme = load_dark_theme();
    let named = match syntax_name {
        Some(n) => find_grammar(&ss, n),
        None => None,
    };
    let resolved = match named {
        Some(s) => Some(s),
        None => find_grammar(&ss, "Plain Text"),
    };
    let grammar = match resolved {
        Some(s) => s,
        None => {
            let out = failed_tokens(ls);
            return out;
        },
    };
    let mut pass = start_pass(grammar, &theme);
    let mut out: Vec<LineTokens> = Vec::new();
    let mut i: usize = 0;
    while i < ls.len()
        invariant
            i <= ls.len(),
            lines_of(out@) == string_views(ls@).subrange(0, i as int),
            forall|k: int| 0 <= k < out@.len() ==> tokens_wf(#[trigger] out@[k]),
        decreases ls.len() - i,
    {
        let line = ls[i].clone();
        let entry = match highlight_one_line(&mut pass, line.as_str(), &ss) {
            Some(runs) => {
                let joined = crate::runs::concat_texts(&runs);
                if joined == line {
                    LineTokens { line, runs, ok: true }
                } else {
                    LineTokens { line, runs: Vec::new(), ok: false }
                }
            },
            None => LineTokens { line, runs: Vec::new(), ok: false },
        };
        let ghost prev = out@;
        out.push(entry);
        proof {
            assert(lines_of(out@) =~= lines_of(prev).push(ls@[i as int]@));
            assert(lines_of(prev).push(ls@[i as int]@) =~= string_views(ls@).subrange(
                0,
                i + 1 as int,
            ));
        }
        i += 1;
    }
    proof {
        assert(string_views(ls@).subrange(0, ls@.len() as int) =~= string_views(ls@));
    }
    out
}

/// Lossless tokenization: when every line of a well-formed tokenization of
/// `text` succeeded, the runs of all lines, concatenated in order,
/// reconstruct `text` exactly.
pub proof fn lemma_lossless_tokenization(ts: Seq<LineTokens>, text: Seq<char>)
    requires
        is_line_decomposition(lines_of(ts), text),
        forall|i: int| 0 <= i < ts.len() ==> tokens_wf(#[trigger] ts[i]),
        forall|i: int| 0 <= i < ts.len() ==> (#[trigger] ts[i]).ok,
    ensures
        concat_all_run_texts(ts) == text,
{
    lemma_concat_all_eq(ts);
}

proof fn lemma_concat_all_eq(ts: Seq<LineTokens>)
    requires
        forall|i: int| 0 <= i < ts.len() ==> tokens_wf(#[trigger] ts[i]),
        forall|i: int| 0 <= i < ts.len() ==> (#[trigger] ts[i]).ok,
    ensures
        concat_all_run_texts(ts) == concat_line_views(lines_of(ts)),
    decreases ts.len(),
{
    if ts.len() == 0 {
        assert(lines_of(ts) =~= Seq::<Seq<char>>::empty());
    } else {
        lemma_concat_all_eq(ts.drop_last());
        assert(lines_of(ts).drop_last() =~= lines_of(ts.drop_last()));
        assert(lines_of(ts).last() == ts.last().line@);
        assert(concat_run_texts(ts.last().runs@) == ts.last().line@);
    }
}

/// Flattens the runs of every line into one run sequence, in order.
pub fn flatten_tokens(ts: &Vec<LineTokens>) -> (rs: Vec<StyledRun>)
    ensures
        concat_run_texts(rs@) == concat_all_run_texts(ts@),
{
    let mut rs: Vec<StyledRun> = Vec::new();
    let mut i: usize = 0;
    while i < ts.len()
        invariant
            i <= ts.len(),
            concat_run_texts(rs@) == concat_all_run_texts(ts@.subrange(0, i as int)),
        decreases ts.len() - i,
    {
        let line_runs = &ts[i].runs;
        let mut j: usize = 0;
        while j < line_runs.len()
            invariant
                j <= line_runs.len(),
                line_runs@ == ts@[i as int].runs@,
                i < ts@.len(),
                concat_run_texts(rs@) == concat_all_run_texts(ts@.subrange(0, i as int))
                    + concat_run_texts(line_runs@.subrange(0, j as int)),
            decreases line_runs.len() - j,
        {
            let ghost prev = rs@;
            rs.push(line_runs[j].clone());
            proof {
                lemma_concat_run_texts_push(prev, rs@.last());
                lemma_concat_run_texts_push(
                    line_runs@.subrange(0, j as int),
                    line_runs@[j as int],
                );
                assert(line_runs@.subrange(0, j as int).push(line_runs@[j as int])
                    =~= line_runs@.subrange(0, j + 1 as int));
            }
            j += 1;
        }
        proof {
            assert(line_runs@.subrange(0, line_runs@.len() as int) =~= line_runs@);
            assert(ts@.subrange(0, i + 1 as int).drop_last() =~= ts@.subrange(0, i as int));
            assert(ts@.subrange(0, i + 1 as int).last() == ts@[i as int]);
        }
        i += 1;
    }
    proof {
        assert(ts@.subrange(0, ts@.len() as int) =~= ts@);
    }
    rs
}

/// Tokenizes `text` and flattens the result.  The flag says whether every
/// line tokenized successfully; when it is set, the concatenated run texts
/// equal `text` exactly.
pub fn highlight_text(text: &str, syntax_name: Option<&str>) -> (r: (Vec<StyledRun>, bool))
    ensures
        r.1 ==> concat_run_texts(r.0@) == text@,
{
    let ts = tokenize(text, syntax_name);
    let mut all_ok = true;
    let mut i: usize = 0;
    while i < ts.len()
        invariant
            i <= ts.len(),
            all_ok ==> forall|k: int| 0 <= k < i ==> (#[trigger] ts@[k]).ok,
        decreases ts.len() - i,
    {
        if !ts[i].ok {
            all_ok = false;
        }
        i += 1;
    }
    let rs = flatten_tokens(&ts);
    proof {
        if all_ok {
            lemma_lossless_tokenization(ts@, text@);
        }
    }
    (rs, all_ok)
}

} // verus!
