//! Projecting styled runs onto the live buffer for display.
//!
//! Tokenization is not guaranteed to have run on the text as it now stands,
//! so the run sequence may be stale.  The mapper walks the runs left to
//! right over the current text, re-anchoring each run to the next span of
//! the text of the same length.  The first run that would pass the end of
//! the text stops the walk, and whatever of the text remains is drawn in a
//! fallback style: display may lag a tokenization behind the buffer, but it
//! always spells out the buffer exactly.

use crate::runs::{concat_run_texts, lemma_concat_run_texts_push, run_model, StyledRun, TextStyle};
use vstd::prelude::*;
use vstd::string::StrSliceExecFns;

verus! {

/// The models of a run sequence: each run's style and characters.
pub open spec fn run_models(rs: Seq<StyledRun>) -> Seq<(TextStyle, Seq<char>)> {
    rs.map_values(|r: StyledRun| run_model(r))
}

/// The layout that `runs` induce on the text `cur` from character offset
/// `from` on: each run in turn styles the next span of `cur` as long as its
/// own text; the first run that would pass the end of `cur` stops the walk,
/// and the rest of `cur` gets the fallback style.
pub open spec fn spec_layout(
    runs: Seq<StyledRun>,
    cur: Seq<char>,
    from: int,
    fallback: TextStyle,
) -> Seq<(TextStyle, Seq<char>)>
    decreases runs.len(),
{
    if runs.len() > 0 && from + runs.first().text@.len() <= cur.len() {
        seq![(runs.first().style, cur.subrange(from, from + runs.first().text@.len()))]
            + spec_layout(runs.drop_first(), cur, from + runs.first().text@.len(), fallback)
    } else if from < cur.len() {
        seq![(fallback, cur.subrange(from, cur.len() as int))]
    } else {
        Seq::empty()
    }
}

/// The fallback tail of a layout: the unstyled rest of the text, if any.
pub open spec fn spec_layout_tail(cur: Seq<char>, from: int, fallback: TextStyle) -> Seq<
    (TextStyle, Seq<char>),
> {
    if from < cur.len() {
        seq![(fallback, cur.subrange(from, cur.len() as int))]
    } else {
        Seq::empty()
    }
}

/// The characters of a layout, in order.
pub open spec fn concat_layout_texts(ps: Seq<(TextStyle, Seq<char>)>) -> Seq<char>
    decreases ps.len(),
{
    if ps.len() == 0 {
        Seq::empty()
    } else {
        ps.first().1 + concat_layout_texts(ps.drop_first())
    }
}

/// Truncation safety: whatever the runs, and however stale they are, the
/// layout they induce on a text spells out that whole text and nothing
/// else.  In particular no run is ever read past the text's end.
pub proof fn lemma_layout_covers(
    runs: Seq<StyledRun>,
    cur: Seq<char>,
    from: int,
    fallback: TextStyle,
)
    requires
        0 <= from <= cur.len(),
    ensures
        concat_layout_texts(spec_layout(runs, cur, from, fallback)) == cur.subrange(
            from,
            cur.len() as int,
        ),
    decreases runs.len(),
{
    if runs.len() > 0 && from + runs.first().text@.len() <= cur.len() {
        let step = from + runs.first().text@.len();
        lemma_layout_covers(runs.drop_first(), cur, step, fallback);
        let head = (runs.first().style, cur.subrange(from, step));
        let rest = spec_layout(runs.drop_first(), cur, step, fallback);
        assert((seq![head] + rest).first() == head);
        assert((seq![head] + rest).drop_first() =~= rest);
        assert(spec_layout(runs, cur, from, fallback) == seq![head] + rest);
        assert(concat_layout_texts(seq![head] + rest) == cur.subrange(from, step)
            + concat_layout_texts(rest));
        assert(cur.subrange(from, step) + cur.subrange(step, cur.len() as int) =~= cur.subrange(
            from,
            cur.len() as int,
        ));
    } else if from < cur.len() {
        let tail = (fallback, cur.subrange(from, cur.len() as int));
        assert(spec_layout(runs, cur, from, fallback) == seq![tail]);
        assert(seq![tail].first() == tail);
        assert(seq![tail].drop_first() =~= Seq::<(TextStyle, Seq<char>)>::empty());
        assert(concat_layout_texts(seq![tail]) == tail.1 + concat_layout_texts(
            Seq::<(TextStyle, Seq<char>)>::empty(),
        ));
        assert(cur.subrange(from, cur.len() as int) + Seq::<char>::empty() =~= cur.subrange(
            from,
            cur.len() as int,
        ));
    } else {
        assert(cur.subrange(from, cur.len() as int) =~= Seq::<char>::empty());
    }
}

/// Builds the display layout for the current text `cur` from a (possibly
/// stale) run sequence.  The result is exactly the layout of `spec_layout`,
/// and its runs spell out `cur` in full.
pub fn map_runs(runs: &Vec<StyledRun>, cur: &str, fallback: TextStyle) -> (out: Vec<StyledRun>)
    ensures
        run_models(out@) == spec_layout(runs@, cur@, 0, fallback),
        concat_run_texts(out@) == cur@,
{
    let len = cur.unicode_len();
    let mut out: Vec<StyledRun> = Vec::new();
    let mut cursor: usize = 0;
    let mut i: usize = 0;
    let mut stopped = false;
    proof {
        assert(runs@.skip(0) =~= runs@);
        assert(run_models(out@) + spec_layout(runs@, cur@, 0, fallback) =~= spec_layout(
            runs@,
            cur@,
            0,
            fallback,
        ));
        assert(cur@.subrange(0, 0) =~= Seq::<char>::empty());
    }
    while i < runs.len() && !stopped
        invariant
            cursor <= len,
            len == cur@.len(),
            i <= runs.len(),
            concat_run_texts(out@) == cur@.subrange(0, cursor as int),
            !stopped ==> spec_layout(runs@, cur@, 0, fallback) == run_models(out@) + spec_layout(
                runs@.skip(i as int),
                cur@,
                cursor as int,
                fallback,
            ),
            stopped ==> spec_layout(runs@, cur@, 0, fallback) == run_models(out@)
                + spec_layout_tail(cur@, cursor as int, fallback),
        decreases runs.len() - i + (if stopped { 0int } else { 1int }),
    {
        let l = runs[i].text.unicode_len();
        proof {
            assert(runs@.skip(i as int).first() == runs@[i as int]);
            assert(runs@.skip(i as int).drop_first() =~= runs@.skip(i + 1 as int));
        }
        if l <= len - cursor {
            let seg = cur.substring_char(cursor, cursor + l).to_owned();
            let piece = StyledRun { style: runs[i].style, text: seg };
            let ghost prev = out@;
            out.push(piece);
            proof {
                lemma_concat_run_texts_push(prev, out@.last());
                assert(cur@.subrange(0, cursor as int) + cur@.subrange(
                    cursor as int,
                    cursor + l as int,
                ) =~= cur@.subrange(0, cursor + l as int));
                let head = (runs@[i as int].style, cur@.subrange(
                    cursor as int,
                    cursor + l as int,
                ));
                let rest = spec_layout(runs@.skip(i + 1 as int), cur@, cursor + l as int, fallback);
                assert(spec_layout(runs@.skip(i as int), cur@, cursor as int, fallback)
                    == seq![head] + rest);
                assert(run_models(out@) =~= run_models(prev).push(head));
                assert(run_models(prev) + (seq![head] + rest) =~= run_models(prev).push(head)
                    + rest);
            }
            cursor = cursor + l;
            i = i + 1;
        } else {
            proof {
                assert(spec_layout(runs@.skip(i as int), cur@, cursor as int, fallback)
                    == spec_layout_tail(cur@, cursor as int, fallback));
            }
            stopped = true;
        }
    }
    proof {
        if !stopped {
            assert(runs@.skip(runs@.len() as int) =~= Seq::<StyledRun>::empty());
        }
    }
    if cursor < len {
        let seg = cur.substring_char(cursor, len).to_owned();
        let ghost prev = out@;
        out.push(StyledRun { style: fallback, text: seg });
        proof {
            lemma_concat_run_texts_push(prev, out@.last());
            assert(cur@.subrange(0, cursor as int) + cur@.subrange(cursor as int, len as int)
                =~= cur@.subrange(0, len as int));
            let tail = (fallback, cur@.subrange(cursor as int, cur@.len() as int));
            assert(run_models(out@) =~= run_models(prev).push(tail));
            assert(run_models(prev) + seq![tail] =~= run_models(prev).push(tail));
        }
    } else {
        proof {
            assert(run_models(out@) + Seq::<(TextStyle, Seq<char>)>::empty() =~= run_models(out@));
        }
    }
    proof {
        assert(cur@.subrange(0, cur@.len() as int) =~= cur@);
    }
    out
}

} // verus!
