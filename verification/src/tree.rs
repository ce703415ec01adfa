//! The file-tree model: per-path expansion state, refresh, and row plans.
//!
//! The tree itself is never cached: a directory's children are re-read from
//! the filesystem on every render.  What the model holds is the state that
//! must survive re-renders: which directory paths are expanded (a map from
//! path to flag, collapsed by default) and whether a structural change has
//! made that whole memory stale.

use vstd::prelude::*;
use vstd::string::StrSliceExecFns;

verus! {

/// The expansion map that parallel key and flag vectors spell out.
pub open spec fn entries_map(keys: Seq<String>, vals: Seq<bool>) -> Map<Seq<char>, bool>
    decreases keys.len(),
{
    if keys.len() == 0 || vals.len() == 0 {
        Map::empty()
    } else {
        entries_map(keys.drop_last(), vals.drop_last()).insert(keys.last()@, vals.last())
    }
}

/// No two entries record the same path.
pub open spec fn keys_unique(keys: Seq<String>) -> bool {
    forall|i: int, j: int| 0 <= i < j < keys.len() ==> keys[i]@ != keys[j]@
}

/// Whether the map displays `p` as expanded: recorded and set, with
/// absence meaning collapsed.
pub open spec fn map_expanded(m: Map<Seq<char>, bool>, p: Seq<char>) -> bool {
    m.contains_key(p) && m[p]
}

proof fn lemma_entries_contains(keys: Seq<String>, vals: Seq<bool>, k: Seq<char>)
    requires
        keys.len() == vals.len(),
    ensures
        entries_map(keys, vals).contains_key(k) <==> (exists|i: int|
            0 <= i < keys.len() && keys[i]@ == k),
    decreases keys.len(),
{
    if keys.len() == 0 {
    } else {
        lemma_entries_contains(keys.drop_last(), vals.drop_last(), k);
        if keys.last()@ == k {
            assert(keys[keys.len() - 1]@ == k);
        } else {
            if entries_map(keys, vals).contains_key(k) {
                let i = choose|i: int| 0 <= i < keys.drop_last().len() && keys.drop_last()[i]@
                    == k;
                assert(keys[i]@ == k);
            }
            if exists|i: int| 0 <= i < keys.len() && keys[i]@ == k {
                let i = choose|i: int| 0 <= i < keys.len() && keys[i]@ == k;
                assert(i < keys.len() - 1);
                assert(keys.drop_last()[i]@ == k);
            }
        }
    }
}

proof fn lemma_entries_value(keys: Seq<String>, vals: Seq<bool>, i: int)
    requires
        keys.len() == vals.len(),
        keys_unique(keys),
        0 <= i < keys.len(),
    ensures
        entries_map(keys, vals).contains_key(keys[i]@),
        entries_map(keys, vals)[keys[i]@] == vals[i],
    decreases keys.len(),
{
    if i == keys.len() - 1 {
    } else {
        assert(keys_unique(keys.drop_last()));
        lemma_entries_value(keys.drop_last(), vals.drop_last(), i);
        assert(keys.drop_last()[i]@ == keys[i]@);
        assert(keys.last()@ != keys[i]@);
    }
}

proof fn lemma_entries_update(keys: Seq<String>, vals: Seq<bool>, i: int, b: bool)
    requires
        keys.len() == vals.len(),
        keys_unique(keys),
        0 <= i < keys.len(),
    ensures
        entries_map(keys, vals.update(i, b)) == entries_map(keys, vals).insert(keys[i]@, b),
    decreases keys.len(),
{
    if i == keys.len() - 1 {
        assert(vals.update(i, b).drop_last() =~= vals.drop_last());
        assert(vals.update(i, b).last() == b);
        assert(entries_map(keys.drop_last(), vals.drop_last()).insert(keys.last()@, b)
            =~= entries_map(keys.drop_last(), vals.drop_last()).insert(
            keys.last()@,
            vals.last(),
        ).insert(keys.last()@, b));
    } else {
        assert(keys_unique(keys.drop_last()));
        assert(vals.update(i, b).drop_last() =~= vals.drop_last().update(i, b));
        assert(vals.update(i, b).last() == vals.last());
        lemma_entries_update(keys.drop_last(), vals.drop_last(), i, b);
        assert(keys.drop_last()[i]@ == keys[i]@);
        assert(keys.last()@ != keys[i]@);
        assert(entries_map(keys.drop_last(), vals.drop_last()).insert(keys[i]@, b).insert(
            keys.last()@,
            vals.last(),
        ) =~= entries_map(keys.drop_last(), vals.drop_last()).insert(
            keys.last()@,
            vals.last(),
        ).insert(keys[i]@, b));
    }
}

proof fn lemma_entries_push(keys: Seq<String>, vals: Seq<bool>, s: String, b: bool)
    requires
        keys.len() == vals.len(),
    ensures
        entries_map(keys.push(s), vals.push(b)) == entries_map(keys, vals).insert(s@, b),
{
    assert(keys.push(s).drop_last() =~= keys);
    assert(vals.push(b).drop_last() =~= vals);
    assert(keys.push(s).last() == s);
    assert(vals.push(b).last() == b);
}

/// The expansion and refresh state of the file tree.
pub struct TreeState {
    pub keys: Vec<String>,
    pub vals: Vec<bool>,
    pub refresh_pending: bool,
}

impl TreeState {
    /// The entries are well-formed: one flag per path, no path twice.
    pub open spec fn wf(self) -> bool {
        &&& self.keys@.len() == self.vals@.len()
        &&& keys_unique(self.keys@)
    }

    /// The expansion map the state records.
    pub open spec fn expanded_map(self) -> Map<Seq<char>, bool> {
        entries_map(self.keys@, self.vals@)
    }

    /// Whether `p` is displayed expanded; unrecorded paths are collapsed.
    pub open spec fn spec_is_expanded(self, p: Seq<char>) -> bool {
        map_expanded(self.expanded_map(), p)
    }

    /// A fresh tree: nothing expanded, no refresh pending.
    pub fn new() -> (t: TreeState)
        ensures
            t.wf(),
            t.expanded_map() == Map::<Seq<char>, bool>::empty(),
            !t.refresh_pending,
    {
        TreeState { keys: Vec::new(), vals: Vec::new(), refresh_pending: false }
    }

    /// Whether `p` is displayed expanded.
    pub fn is_expanded(&self, p: &str) -> (b: bool)
        requires
            self.wf(),
        ensures
            b == self.spec_is_expanded(p@),
    {
        let key = p.to_owned();
        let mut i: usize = 0;
        while i < self.keys.len()
            invariant
                self.wf(),
                i <= self.keys@.len(),
                key@ == p@,
                forall|j: int| 0 <= j < i ==> self.keys@[j]@ != p@,
            decreases self.keys@.len() - i,
        {
            if self.keys[i] == key {
                proof {
                    lemma_entries_value(self.keys@, self.vals@, i as int);
                }
                return self.vals[i];
            }
            i += 1;
        }
        proof {
            lemma_entries_contains(self.keys@, self.vals@, p@);
        }
        false
    }

    /// Flips `p`'s expansion flag.  An absent path gets a fresh
    /// collapsed-by-default entry first, so its first toggle expands it.
    pub fn toggle(&mut self, p: &str)
        requires
            old(self).wf(),
        ensures
            final(self).wf(),
            final(self).expanded_map() == old(self).expanded_map().insert(
                p@,
                !old(self).spec_is_expanded(p@),
            ),
            final(self).refresh_pending == old(self).refresh_pending,
    {
        let key = p.to_owned();
        let mut i: usize = 0;
        while i < self.keys.len()
            invariant
                self.wf(),
                *self == *old(self),
                i <= self.keys@.len(),
                key@ == p@,
                forall|j: int| 0 <= j < i ==> self.keys@[j]@ != p@,
            decreases self.keys@.len() - i,
        {
            if self.keys[i] == key {
                let was = self.vals[i];
                proof {
                    lemma_entries_value(self.keys@, self.vals@, i as int);
                    lemma_entries_update(self.keys@, self.vals@, i as int, !was);
                }
                self.vals.set(i, !was);
                return ;
            }
            i += 1;
        }
        proof {
            lemma_entries_contains(self.keys@, self.vals@, p@);
            lemma_entries_push(self.keys@, self.vals@, key, true);
        }
        self.keys.push(key);
        self.vals.push(true);
    }

    /// Notes that a structural change made the expansion memory stale: the
    /// next render must re-enumerate from the root.
    pub fn request_refresh(&mut self)
        requires
            old(self).wf(),
        ensures
            final(self).wf(),
            final(self).refresh_pending,
            final(self).expanded_map() == old(self).expanded_map(),
    {
        self.refresh_pending = true;
    }

    /// Begins a render pass: a pending refresh forgets all expansion state,
    /// so every directory is collapsed again, and lowers the flag.
    pub fn begin_render(&mut self)
        requires
            old(self).wf(),
        ensures
            final(self).wf(),
            !final(self).refresh_pending,
            old(self).refresh_pending ==> final(self).expanded_map() == Map::<
                Seq<char>,
                bool,
            >::empty(),
            !old(self).refresh_pending ==> final(self).expanded_map() == old(
                self,
            ).expanded_map(),
    {
        if self.refresh_pending {
            self.keys = Vec::new();
            self.vals = Vec::new();
            self.refresh_pending = false;
        }
    }
}

/// Expansion idempotence: toggling a path twice leaves every path displayed
/// as it was before, the toggled one included.
pub proof fn lemma_toggle_twice(m: Map<Seq<char>, bool>, p: Seq<char>)
    ensures
        ({
            let m1 = m.insert(p, !map_expanded(m, p));
            let m2 = m1.insert(p, !map_expanded(m1, p));
            &&& map_expanded(m2, p) == map_expanded(m, p)
            &&& forall|q: Seq<char>| q != p ==> map_expanded(m2, q) == map_expanded(m, q)
        }),
{
}

/// One directory entry, as the filesystem lists it.
pub struct DirEntry {
    pub name: String,
    pub path: String,
    pub is_dir: bool,
}

/// One planned sidebar row: what to draw, and whether the renderer is to
/// descend into it.
pub struct RowPlan {
    pub name: String,
    pub path: String,
    pub is_dir: bool,
    pub depth: usize,
    pub selected: bool,
    pub recurse: bool,
}

/// The row that an entry at `depth` must become, under tree state `t` and
/// selection `sel`.
pub open spec fn row_matches(
    t: TreeState,
    e: DirEntry,
    sel: Option<Seq<char>>,
    depth: usize,
    r: RowPlan,
) -> bool {
    &&& r.name@ == e.name@
    &&& r.path@ == e.path@
    &&& r.is_dir == e.is_dir
    &&& r.depth == depth
    &&& r.selected == (sel == Some(e.path@))
    &&& r.recurse == (e.is_dir && t.spec_is_expanded(e.path@))
}

impl TreeState {
    /// Plans the sidebar rows for one directory's listing at `depth`: one
    /// row per entry, in listing order.  A row asks for recursion exactly
    /// when it is a directory recorded as expanded, so collapsed subtrees
    /// are never descended into, and expanded ones one level at a time.
    pub fn plan_rows(
        &self,
        entries: &Vec<DirEntry>,
        selected: &Option<String>,
        depth: usize,
    ) -> (rows: Vec<RowPlan>)
        requires
            self.wf(),
        ensures
            rows@.len() == entries@.len(),
            forall|i: int|
                0 <= i < rows@.len() ==> row_matches(
                    *self,
                    entries@[i],
                    crate::lines::view_opt(*selected),
                    depth,
                    #[trigger] rows@[i],
                ),
    {
        let mut rows: Vec<RowPlan> = Vec::new();
        let mut i: usize = 0;
        while i < entries.len()
            invariant
                self.wf(),
                i <= entries@.len(),
                rows@.len() == i,
                forall|k: int|
                    0 <= k < i ==> row_matches(
                        *self,
                        entries@[k],
                        crate::lines::view_opt(*selected),
                        depth,
                        #[trigger] rows@[k],
                    ),
            decreases entries@.len() - i,
        {
            let e = &entries[i];
            let expanded = if e.is_dir {
                self.is_expanded(e.path.as_str())
            } else {
                false
            };
            let is_sel = match selected {
                Some(s) => *s == e.path,
                None => false,
            };
            rows.push(
                RowPlan {
                    name: e.name.clone(),
                    path: e.path.clone(),
                    is_dir: e.is_dir,
                    depth,
                    selected: is_sel,
                    recurse: expanded,
                },
            );
            i += 1;
        }
        rows
    }
}

} // verus!
