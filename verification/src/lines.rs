//! Splitting buffer text into lines whose endings are kept.
//!
//! The highlight engine works strictly line by line.  A line keeps its
//! terminating newline character, so that putting the lines back together
//! reconstructs the buffer exactly.

use vstd::prelude::*;
use vstd::string::StrSliceExecFns;

verus! {

/// The characters of a sequence of texts, in order.
pub open spec fn concat_texts(ls: Seq<Seq<char>>) -> Seq<char>
    decreases ls.len(),
{
    if ls.len() == 0 {
        Seq::empty()
    } else {
        concat_texts(ls.drop_last()) + ls.last()
    }
}

/// The views of a sequence of strings.
pub open spec fn string_views(ls: Seq<String>) -> Seq<Seq<char>> {
    ls.map_values(|s: String| s@)
}

/// The view of an optional string.
pub open spec fn view_opt(o: Option<String>) -> Option<Seq<char>> {
    match o {
        Some(s) => Some(s@),
        None => None,
    }
}

/// A line is non-empty and holds a newline at most as its final character.
pub open spec fn is_line(l: Seq<char>) -> bool {
    &&& l.len() > 0
    &&& forall|j: int| 0 <= j < l.len() - 1 ==> l[j] != '\n'
}

/// `ls` is exactly the decomposition of `text` into lines with endings:
/// the lines concatenate back to `text`, every line is non-empty with no
/// interior newline, and every line but the last ends with a newline.
pub open spec fn is_line_decomposition(ls: Seq<Seq<char>>, text: Seq<char>) -> bool {
    &&& concat_texts(ls) == text
    &&& forall|i: int| 0 <= i < ls.len() ==> is_line(#[trigger] ls[i])
    &&& forall|i: int| 0 <= i < ls.len() - 1 ==> (#[trigger] ls[i]).last() == '\n'
}

pub proof fn lemma_concat_texts_push(ls: Seq<Seq<char>>, l: Seq<char>)
    ensures
        concat_texts(ls.push(l)) == concat_texts(ls) + l,
{
    assert(ls.push(l).drop_last() =~= ls);
    assert(ls.push(l).last() == l);
}

/// Splits `text` into its lines, keeping each line's ending newline.
pub fn split_lines(text: &str) -> (ls: Vec<String>)
    ensures
        is_line_decomposition(string_views(ls@), text@),
{
    let len = text.unicode_len();
    let mut ls: Vec<String> = Vec::new();
    let mut start: usize = 0;
    let mut i: usize = 0;
    while i < len
        invariant
            len == text@.len(),
            start <= i <= len,
            concat_texts(string_views(ls@)) == text@.subrange(0, start as int),
            forall|k: int|
                0 <= k < ls@.len() ==> is_line(#[trigger] ls@[k]@) && ls@[k]@.last() == '\n',
            forall|j: int| start <= j < i ==> text@[j] != '\n',
        decreases len - i,
    {
        let c = text.get_char(i);
        if c == '\n' {
            let seg = text.substring_char(start, i + 1).to_owned();
            proof {
                let prev = ls@;
                assert(string_views(prev.push(seg)) =~= string_views(prev).push(seg@));
                lemma_concat_texts_push(string_views(prev), seg@);
                assert(text@.subrange(0, start as int) + text@.subrange(
                    start as int,
                    i + 1 as int,
                ) =~= text@.subrange(0, i + 1 as int));
            }
            ls.push(seg);
            start = i + 1;
        }
        i += 1;
    }
    if start < len {
        let seg = text.substring_char(start, len).to_owned();
        proof {
            assert(string_views(ls@.push(seg)) =~= string_views(ls@).push(seg@));
            lemma_concat_texts_push(string_views(ls@), seg@);
            assert(text@.subrange(0, start as int) + text@.subrange(start as int, len as int)
                =~= text@.subrange(0, len as int));
        }
        ls.push(seg);
    }
    proof {
        assert(text@.subrange(0, text@.len() as int) =~= text@);
    }
    ls
}

} // verus!
