//! Styled runs: the output of tokenizing text for display.

use vstd::prelude::*;
use vstd::string::StringExecFns;

verus! {

/// The color with which a span of text is drawn (RGBA).
#[derive(Clone, Copy, PartialEq, Eq, Structural, Debug)]
pub struct TextStyle {
    pub red: u8,
    pub green: u8,
    pub blue: u8,
    pub alpha: u8,
}

/// One styled span of text, produced by tokenizing a line.
#[derive(Debug)]
pub struct StyledRun {
    pub style: TextStyle,
    pub text: String,
}

impl Clone for StyledRun {
    fn clone(&self) -> (r: Self)
        ensures
            r.style == self.style,
            r.text@ == self.text@,
    {
        StyledRun { style: self.style, text: self.text.clone() }
    }
}

/// The mathematical content of a run: its style and the characters it carries.
pub open spec fn run_model(r: StyledRun) -> (TextStyle, Seq<char>) {
    (r.style, r.text@)
}

/// The characters of a sequence of runs, in order.
pub open spec fn concat_run_texts(rs: Seq<StyledRun>) -> Seq<char>
    decreases rs.len(),
{
    if rs.len() == 0 {
        Seq::empty()
    } else {
        concat_run_texts(rs.drop_last()) + rs.last().text@
    }
}

pub proof fn lemma_concat_run_texts_push(rs: Seq<StyledRun>, r: StyledRun)
    ensures
        concat_run_texts(rs.push(r)) == concat_run_texts(rs) + r.text@,
{
    assert(rs.push(r).drop_last() =~= rs);
    assert(rs.push(r).last() == r);
}

/// Concatenates the text of every run, in order.
pub fn concat_texts(rs: &Vec<StyledRun>) -> (out: String)
    ensures
        out@ == concat_run_texts(rs@),
{
    let mut out = String::new();
    let mut i: usize = 0;
    while i < rs.len()
        invariant
            i <= rs.len(),
            out@ == concat_run_texts(rs@.subrange(0, i as int)),
        decreases rs.len() - i,
    {
        out.append(rs[i].text.as_str());
        proof {
            assert(rs@.subrange(0, i + 1 as int).drop_last() =~= rs@.subrange(0, i as int));
            assert(rs@.subrange(0, i + 1 as int).last() == rs@[i as int]);
        }
        i += 1;
    }
    proof {
        assert(rs@.subrange(0, rs@.len() as int) =~= rs@);
    }
    out
}

} // verus!
