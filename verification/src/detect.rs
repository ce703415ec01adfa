//! The language detector: from a file path's extension to a grammar name.
//!
//! The extension is the part of the path's file name after its last dot,
//! where that dot is neither the file name's first character nor absent;
//! the file name is the part of the path after its last `/`.  The lookup
//! itself is syntect's, over its fixed default grammar catalog, so the
//! grammar found depends on the extension alone.

use crate::lines::view_opt;
use vstd::prelude::*;
use vstd::string::StrSliceExecFns;

verus! {

/// The suffix of `p` after its last `/`, or all of `p` if it has none.
pub open spec fn after_last_slash(p: Seq<char>) -> Seq<char>
    decreases p.len(),
{
    if p.len() == 0 {
        p
    } else if p.last() == '/' {
        Seq::empty()
    } else {
        after_last_slash(p.drop_last()).push(p.last())
    }
}

/// The suffix of the file name `name` after its last dot, where that dot
/// may stand anywhere but first; or nothing, if there is no such dot.
pub open spec fn ext_rec(name: Seq<char>) -> Option<Seq<char>>
    decreases name.len(),
{
    if name.len() <= 1 {
        None
    } else if name.last() == '.' {
        Some(Seq::empty())
    } else {
        match ext_rec(name.drop_last()) {
            Some(e) => Some(e.push(name.last())),
            None => None,
        }
    }
}

/// The extension of the path `p`: the part of its file name after the last
/// dot, where a dot first in the file name does not count.
pub open spec fn spec_ext_of(p: Seq<char>) -> Option<Seq<char>> {
    ext_rec(after_last_slash(p))
}

/// The name of the grammar that syntect's default catalog gives to a file
/// extension, if any.
pub uninterp spec fn syntax_for_ext(ext: Seq<char>) -> Option<Seq<char>>;

/// The syntax detected for a path: the catalog's grammar for the path's
/// extension, or none when the path has no extension or the extension is
/// unknown.
pub open spec fn spec_detect(p: Seq<char>) -> Option<Seq<char>> {
    match spec_ext_of(p) {
        Some(e) => syntax_for_ext(e),
        None => None,
    }
}

/// Relies on syntect's `SyntaxSet::load_defaults_newlines` and
/// `SyntaxSet::find_syntax_by_extension`: the default catalog is a fixed
/// set embedded in the crate, and the lookup scans it for a grammar listing
/// the extension, so the name found is a function of the extension alone.
#[verifier::external_body]
fn lookup_syntax_for_ext(ext: &str) -> (r: Option<String>)
    ensures
        view_opt(r) == syntax_for_ext(ext@),
{
    syntect::parsing::SyntaxSet::load_defaults_newlines().find_syntax_by_extension(ext).map(
        |s| s.name.clone(),
    )
}

proof fn lemma_no_slash(p: Seq<char>)
    requires
        forall|j: int| 0 <= j < p.len() ==> p[j] != '/',
    ensures
        after_last_slash(p) == p,
    decreases p.len(),
{
    if p.len() > 0 {
        lemma_no_slash(p.drop_last());
        assert(p.drop_last().push(p.last()) =~= p);
    }
}

proof fn lemma_last_slash(p: Seq<char>, k: int)
    requires
        0 <= k < p.len(),
        p[k] == '/',
        forall|j: int| k < j < p.len() ==> p[j] != '/',
    ensures
        after_last_slash(p) == p.subrange(k + 1, p.len() as int),
    decreases p.len(),
{
    if k == p.len() - 1 {
        assert(p.subrange(k + 1, p.len() as int) =~= Seq::<char>::empty());
    } else {
        lemma_last_slash(p.drop_last(), k);
        assert(p.drop_last().subrange(k + 1, p.drop_last().len() as int).push(p.last())
            =~= p.subrange(k + 1, p.len() as int));
    }
}

proof fn lemma_no_dot(name: Seq<char>)
    requires
        forall|j: int| 1 <= j < name.len() ==> name[j] != '.',
    ensures
        ext_rec(name) is None,
    decreases name.len(),
{
    if name.len() > 1 {
        lemma_no_dot(name.drop_last());
    }
}

proof fn lemma_last_dot(name: Seq<char>, k: int)
    requires
        1 <= k < name.len(),
        name[k] == '.',
        forall|j: int| k < j < name.len() ==> name[j] != '.',
    ensures
        ext_rec(name) == Some(name.subrange(k + 1, name.len() as int)),
    decreases name.len(),
{
    if k == name.len() - 1 {
        assert(name.subrange(k + 1, name.len() as int) =~= Seq::<char>::empty());
    } else {
        lemma_last_dot(name.drop_last(), k);
        assert(name.drop_last().subrange(k + 1, name.drop_last().len() as int).push(name.last())
            =~= name.subrange(k + 1, name.len() as int));
    }
}

/// Extracts the path's extension, as `spec_ext_of` defines it.
pub fn extension_of(path: &str) -> (r: Option<String>)
    ensures
        view_opt(r) == spec_ext_of(path@),
{
    let len = path.unicode_len();
    let mut last_slash: Option<usize> = None;
    let mut i: usize = 0;
    while i < len
        invariant
            len == path@.len(),
            i <= len,
            match last_slash {
                Some(k) => k < i && path@[k as int] == '/' && forall|j: int|
                    k < j < i ==> path@[j] != '/',
                None => forall|j: int| 0 <= j < i ==> path@[j] != '/',
            },
        decreases len - i,
    {
        if path.get_char(i) == '/' {
            last_slash = Some(i);
        }
        i += 1;
    }
    let s: usize = match last_slash {
        Some(k) => k + 1,
        None => 0,
    };
    proof {
        match last_slash {
            Some(k) => lemma_last_slash(path@, k as int),
            None => lemma_no_slash(path@),
        }
        assert(after_last_slash(path@) == path@.subrange(s as int, len as int));
    }
    let ghost name = after_last_slash(path@);
    let mut last_dot: Option<usize> = None;
    let mut j: usize = s;
    while j < len
        invariant
            len == path@.len(),
            s <= j <= len,
            match last_dot {
                Some(k) => s < k < j && path@[k as int] == '.' && forall|t: int|
                    k < t < j ==> path@[t] != '.',
                None => forall|t: int| s < t < j ==> path@[t] != '.',
            },
        decreases len - j,
    {
        if j > s && path.get_char(j) == '.' {
            last_dot = Some(j);
        }
        j += 1;
    }
    match last_dot {
        Some(k) => {
            let ext = path.substring_char(k + 1, len).to_owned();
            proof {
                assert(name =~= path@.subrange(s as int, len as int));
                assert(name[k - s] == path@[k as int]);
                assert forall|t: int| (k - s) < t < name.len() implies name[t] != '.' by {
                    assert(name[t] == path@[t + s]);
                }
                lemma_last_dot(name, k - s);
                assert(name.subrange(k - s + 1, name.len() as int) =~= path@.subrange(
                    k + 1 as int,
                    len as int,
                ));
            }
            Some(ext)
        },
        None => {
            proof {
                assert forall|t: int| 1 <= t < name.len() implies name[t] != '.' by {
                    assert(name[t] == path@[t + s]);
                }
                lemma_no_dot(name);
            }
            None
        },
    }
}

/// Detects the syntax for a path: looks the path's extension up in the
/// default grammar catalog.  Returns the grammar's canonical name, or
/// nothing when the path has no extension or no grammar lists it.
pub fn detect(path: &str) -> (r: Option<String>)
    ensures
        view_opt(r) == spec_detect(path@),
{
    match extension_of(path) {
        Some(e) => lookup_syntax_for_ext(e.as_str()),
        None => None,
    }
}

/// Extension-to-syntax determinism: any two paths that share an extension
/// detect the same syntax, and any two paths without one detect none.
pub proof fn lemma_detect_deterministic(p1: Seq<char>, p2: Seq<char>)
    requires
        spec_ext_of(p1) == spec_ext_of(p2),
    ensures
        spec_detect(p1) == spec_detect(p2),
{
}

} // verus!
