//! The editor session: the one owner of the open document and of the
//! sidebar's state, and the target of every user action.
//!
//! The session starts on the splash screen and switches to editing on the
//! first new or opened document.  All filesystem work stays with the host:
//! it hands the session file contents and operation outcomes as plain
//! values, and the session says what each action does to the state.

use crate::detect::{detect, spec_detect};
use crate::highlight::highlight_text;
use crate::lines::view_opt;
use crate::runs::{concat_run_texts, StyledRun};
use crate::tree::TreeState;
use crate::vim::{spec_step, vim_step, vim_view, VimAction, VimKey, VimState, VimStateView};
use vstd::prelude::*;
use vstd::string::StringExecFns;

verus! {

/// An in-progress "new file" or "new folder" intent.
pub struct PendingCreate {
    pub is_file: bool,
    pub name: String,
}

/// The closing partner that typing an opening bracket or quote inserts.
pub open spec fn close_pair_of(c: char) -> Option<char> {
    if c == '(' {
        Some(')')
    } else if c == '[' {
        Some(']')
    } else if c == '{' {
        Some('}')
    } else if c == '"' {
        Some('"')
    } else if c == '\'' {
        Some('\'')
    } else {
        None
    }
}

/// The syntax detected for an optional path: none for an unsaved document.
pub open spec fn spec_detect_opt(p: Option<Seq<char>>) -> Option<Seq<char>> {
    match p {
        Some(q) => spec_detect(q),
        None => None,
    }
}

/// The editor session.
pub struct Session {
    /// The open document's text.
    pub content: String,
    /// Where the document lives on disk; absent for an unsaved document.
    pub file_path: Option<String>,
    /// The name of the grammar detected from `file_path`'s extension.
    pub current_syntax: Option<String>,
    /// Whether the splash screen is still up.
    pub splash: bool,
    /// Whether modal key handling is switched on.
    pub vim_enabled: bool,
    /// The modal key state.
    pub vim: VimState,
    /// The root the sidebar enumerates; absent until a folder is opened.
    pub current_dir: Option<String>,
    /// The single selected path, if any.
    pub selected: Option<String>,
    /// An in-progress new-item intent, if any.
    pub pending_create: Option<PendingCreate>,
    /// The sidebar's expansion and refresh state.
    pub tree: TreeState,
}

impl Session {
    pub open spec fn wf(self) -> bool {
        self.tree.wf()
    }

    /// A fresh session: splash up, no document, nothing expanded.
    pub fn new() -> (s: Session)
        ensures
            s.wf(),
            s.content@ == Seq::<char>::empty(),
            s.file_path is None,
            s.current_syntax is None,
            s.splash,
            !s.vim_enabled,
            vim_view(s.vim) == VimStateView::Normal,
            s.current_dir is None,
            s.selected is None,
            s.pending_create is None,
            s.tree.expanded_map() == Map::<Seq<char>, bool>::empty(),
            !s.tree.refresh_pending,
    {
        Session {
            content: String::new(),
            file_path: None,
            current_syntax: None,
            splash: true,
            vim_enabled: false,
            vim: VimState::Normal,
            current_dir: None,
            selected: None,
            pending_create: None,
            tree: TreeState::new(),
        }
    }

    /// Re-derives the syntax from the current file path's extension.
    pub fn detect_language(&mut self)
        requires
            old(self).wf(),
        ensures
            final(self).wf(),
            view_opt(final(self).current_syntax) == spec_detect_opt(
                view_opt(old(self).file_path),
            ),
            final(self).content == old(self).content,
            final(self).file_path == old(self).file_path,
            final(self).splash == old(self).splash,
            final(self).vim_enabled == old(self).vim_enabled,
            final(self).vim == old(self).vim,
            final(self).current_dir == old(self).current_dir,
            final(self).selected == old(self).selected,
            final(self).pending_create == old(self).pending_create,
            final(self).tree == old(self).tree,
    {
        self.current_syntax = match &self.file_path {
            Some(p) => detect(p.as_str()),
            None => None,
        };
    }

    /// Starts a fresh unsaved document and leaves the splash screen.
    pub fn new_file(&mut self)
        requires
            old(self).wf(),
        ensures
            final(self).wf(),
            final(self).content@ == Seq::<char>::empty(),
            final(self).file_path is None,
            final(self).current_syntax is None,
            !final(self).splash,
            final(self).vim_enabled == old(self).vim_enabled,
            final(self).vim == old(self).vim,
            final(self).current_dir == old(self).current_dir,
            final(self).selected == old(self).selected,
            final(self).pending_create == old(self).pending_create,
            final(self).tree == old(self).tree,
    {
        self.content = String::new();
        self.file_path = None;
        self.current_syntax = None;
        self.splash = false;
    }

    /// Takes an opened file as the current document and leaves the splash
    /// screen.  `loaded` is the file's text, or nothing when it could not
    /// be read; an unreadable file degrades to an empty buffer.  The
    /// syntax is re-detected from the new path.
    pub fn open_buffer(&mut self, path: &str, loaded: Option<String>)
        requires
            old(self).wf(),
        ensures
            final(self).wf(),
            final(self).content@ == match loaded {
                Some(t) => t@,
                None => Seq::<char>::empty(),
            },
            view_opt(final(self).file_path) == Some(path@),
            view_opt(final(self).current_syntax) == spec_detect(path@),
            !final(self).splash,
            final(self).vim_enabled == old(self).vim_enabled,
            final(self).vim == old(self).vim,
            final(self).current_dir == old(self).current_dir,
            final(self).selected == old(self).selected,
            final(self).pending_create == old(self).pending_create,
            final(self).tree == old(self).tree,
    {
        self.content = match loaded {
            Some(t) => t,
            None => String::new(),
        };
        self.file_path = Some(path.to_owned());
        self.splash = false;
        self.detect_language();
    }

    /// Takes a click on a file row: the path becomes the one selection,
    /// and the file becomes the current document.  Selecting a second
    /// path replaces the first: there is never more than one selection.
    pub fn tree_clicked_file(&mut self, path: &str, loaded: Option<String>)
        requires
            old(self).wf(),
        ensures
            final(self).wf(),
            view_opt(final(self).selected) == Some(path@),
            final(self).content@ == match loaded {
                Some(t) => t@,
                None => Seq::<char>::empty(),
            },
            view_opt(final(self).file_path) == Some(path@),
            view_opt(final(self).current_syntax) == spec_detect(path@),
            !final(self).splash,
            final(self).vim_enabled == old(self).vim_enabled,
            final(self).vim == old(self).vim,
            final(self).current_dir == old(self).current_dir,
            final(self).pending_create == old(self).pending_create,
            final(self).tree == old(self).tree,
    {
        self.selected = Some(path.to_owned());
        self.open_buffer(path, loaded);
    }

    /// Takes a click on a directory row: flips that directory's expansion
    /// flag and touches nothing else.
    pub fn tree_clicked_dir(&mut self, path: &str)
        requires
            old(self).wf(),
        ensures
            final(self).wf(),
            final(self).tree.expanded_map() == old(self).tree.expanded_map().insert(
                path@,
                !old(self).tree.spec_is_expanded(path@),
            ),
            final(self).tree.refresh_pending == old(self).tree.refresh_pending,
            final(self).content == old(self).content,
            final(self).file_path == old(self).file_path,
            final(self).current_syntax == old(self).current_syntax,
            final(self).splash == old(self).splash,
            final(self).vim_enabled == old(self).vim_enabled,
            final(self).vim == old(self).vim,
            final(self).current_dir == old(self).current_dir,
            final(self).selected == old(self).selected,
            final(self).pending_create == old(self).pending_create,
    {
        self.tree.toggle(path);
    }

    /// Makes `dir` the sidebar's root and forgets all expansion state.
    pub fn open_folder(&mut self, dir: String)
        requires
            old(self).wf(),
        ensures
            final(self).wf(),
            view_opt(final(self).current_dir) == Some(dir@),
            final(self).tree.expanded_map() == Map::<Seq<char>, bool>::empty(),
            final(self).tree.refresh_pending == old(self).tree.refresh_pending,
            final(self).content == old(self).content,
            final(self).file_path == old(self).file_path,
            final(self).current_syntax == old(self).current_syntax,
            final(self).splash == old(self).splash,
            final(self).vim_enabled == old(self).vim_enabled,
            final(self).vim == old(self).vim,
            final(self).selected == old(self).selected,
            final(self).pending_create == old(self).pending_create,
    {
        self.current_dir = Some(dir);
        self.tree = TreeState {
            keys: Vec::new(),
            vals: Vec::new(),
            refresh_pending: self.tree.refresh_pending,
        };
    }

    /// Records where the current document's directory is, for the sidebar.
    pub fn set_current_dir(&mut self, dir: Option<String>)
        requires
            old(self).wf(),
        ensures
            final(self).wf(),
            view_opt(final(self).current_dir) == view_opt(dir),
            final(self).content == old(self).content,
            final(self).file_path == old(self).file_path,
            final(self).current_syntax == old(self).current_syntax,
            final(self).splash == old(self).splash,
            final(self).vim_enabled == old(self).vim_enabled,
            final(self).vim == old(self).vim,
            final(self).selected == old(self).selected,
            final(self).pending_create == old(self).pending_create,
            final(self).tree == old(self).tree,
    {
        self.current_dir = dir;
    }

    /// Replaces the document's text, as typing does.
    pub fn set_content(&mut self, text: String)
        requires
            old(self).wf(),
        ensures
            final(self).wf(),
            final(self).content@ == text@,
            final(self).file_path == old(self).file_path,
            final(self).current_syntax == old(self).current_syntax,
            final(self).splash == old(self).splash,
            final(self).vim_enabled == old(self).vim_enabled,
            final(self).vim == old(self).vim,
            final(self).current_dir == old(self).current_dir,
            final(self).selected == old(self).selected,
            final(self).pending_create == old(self).pending_create,
            final(self).tree == old(self).tree,
    {
        self.content = text;
    }

    /// Auto-closes a just-typed pair opener: when the document ends with
    /// an opening bracket or quote, its partner is appended, so the caret
    /// can stay between the pair.  Otherwise nothing changes.
    pub fn auto_close(&mut self) -> (r: Option<char>)
        requires
            old(self).wf(),
        ensures
            final(self).wf(),
            ({
                let t = old(self).content@;
                if t.len() > 0 {
                    match close_pair_of(t.last()) {
                        Some(p) => r == Some(p) && final(self).content@ == t + seq![p],
                        None => r is None && final(self).content == old(self).content,
                    }
                } else {
                    r is None && final(self).content == old(self).content
                }
            }),
            final(self).file_path == old(self).file_path,
            final(self).current_syntax == old(self).current_syntax,
            final(self).splash == old(self).splash,
            final(self).vim_enabled == old(self).vim_enabled,
            final(self).vim == old(self).vim,
            final(self).current_dir == old(self).current_dir,
            final(self).selected == old(self).selected,
            final(self).pending_create == old(self).pending_create,
            final(self).tree == old(self).tree,
    {
        let len = self.content.as_str().unicode_len();
        if len == 0 {
            return None;
        }
        let c = self.content.as_str().get_char(len - 1);
        if c == '(' {
            self.content.append(")");
            proof {
                reveal_strlit(")");
                assert((")")@ =~= seq![')']);
            }
            Some(')')
        } else if c == '[' {
            self.content.append("]");
            proof {
                reveal_strlit("]");
                assert(("]")@ =~= seq![']']);
            }
            Some(']')
        } else if c == '{' {
            self.content.append("}");
            proof {
                reveal_strlit("}");
                assert(("}")@ =~= seq!['}']);
            }
            Some('}')
        } else if c == '"' {
            self.content.append("\"");
            proof {
                reveal_strlit("\"");
                assert(("\"")@ =~= seq!['"']);
            }
            Some('"')
        } else if c == '\'' {
            self.content.append("'");
            proof {
                reveal_strlit("'");
                assert(("'")@ =~= seq!['\'']);
            }
            Some('\'')
        } else {
            None
        }
    }

    /// Records a completed save under `path`: the document now lives
    /// there, and the syntax follows the new path.  The text itself is
    /// untouched: saving never changes the buffer.
    pub fn mark_saved(&mut self, path: &str)
        requires
            old(self).wf(),
        ensures
            final(self).wf(),
            view_opt(final(self).file_path) == Some(path@),
            view_opt(final(self).current_syntax) == spec_detect(path@),
            final(self).content == old(self).content,
            final(self).splash == old(self).splash,
            final(self).vim_enabled == old(self).vim_enabled,
            final(self).vim == old(self).vim,
            final(self).current_dir == old(self).current_dir,
            final(self).selected == old(self).selected,
            final(self).pending_create == old(self).pending_create,
            final(self).tree == old(self).tree,
    {
        self.file_path = Some(path.to_owned());
        self.detect_language();
    }

    /// Highlights the current document under the detected syntax.  The
    /// flag says whether every line tokenized; when it is set, the runs
    /// spell out the document exactly.
    pub fn highlight_content(&self) -> (r: (Vec<StyledRun>, bool))
        ensures
            r.1 ==> concat_run_texts(r.0@) == self.content@,
    {
        let name = match &self.current_syntax {
            Some(s) => Some(s.as_str()),
            None => None,
        };
        highlight_text(self.content.as_str(), name)
    }

    /// Performs one step of the modal machine on the session's state and
    /// hands back the action the host must perform.
    pub fn vim_key(&mut self, k: VimKey) -> (a: VimAction)
        requires
            old(self).wf(),
        ensures
            final(self).wf(),
            (vim_view(final(self).vim), a) == spec_step(vim_view(old(self).vim), k),
            final(self).content == old(self).content,
            final(self).file_path == old(self).file_path,
            final(self).current_syntax == old(self).current_syntax,
            final(self).splash == old(self).splash,
            final(self).vim_enabled == old(self).vim_enabled,
            final(self).current_dir == old(self).current_dir,
            final(self).selected == old(self).selected,
            final(self).pending_create == old(self).pending_create,
            final(self).tree == old(self).tree,
    {
        let mut s = VimState::Normal;
        core::mem::swap(&mut s, &mut self.vim);
        let (next, a) = vim_step(s, k);
        self.vim = next;
        a
    }

    /// Opens a new-item intent: a file when `is_file`, else a folder,
    /// with an empty name to be typed.
    pub fn begin_create(&mut self, is_file: bool)
        requires
            old(self).wf(),
        ensures
            final(self).wf(),
            match final(self).pending_create {
                Some(pc) => pc.is_file == is_file && pc.name@ == Seq::<char>::empty(),
                None => false,
            },
            final(self).content == old(self).content,
            final(self).file_path == old(self).file_path,
            final(self).current_syntax == old(self).current_syntax,
            final(self).splash == old(self).splash,
            final(self).vim_enabled == old(self).vim_enabled,
            final(self).vim == old(self).vim,
            final(self).current_dir == old(self).current_dir,
            final(self).selected == old(self).selected,
            final(self).tree == old(self).tree,
    {
        self.pending_create = Some(PendingCreate { is_file, name: String::new() });
    }

    /// Replaces the name being typed for the new-item intent; without an
    /// intent there is nothing to name.
    pub fn set_pending_name(&mut self, name: String)
        requires
            old(self).wf(),
        ensures
            final(self).wf(),
            match old(self).pending_create {
                Some(pc) => match final(self).pending_create {
                    Some(npc) => npc.is_file == pc.is_file && npc.name@ == name@,
                    None => false,
                },
                None => final(self).pending_create is None,
            },
            final(self).content == old(self).content,
            final(self).file_path == old(self).file_path,
            final(self).current_syntax == old(self).current_syntax,
            final(self).splash == old(self).splash,
            final(self).vim_enabled == old(self).vim_enabled,
            final(self).vim == old(self).vim,
            final(self).current_dir == old(self).current_dir,
            final(self).selected == old(self).selected,
            final(self).tree == old(self).tree,
    {
        match &self.pending_create {
            Some(pc) => {
                let is_file = pc.is_file;
                self.pending_create = Some(PendingCreate { is_file, name });
            },
            None => (),
        }
    }

    /// Drops the new-item intent without creating anything.
    pub fn cancel_create(&mut self)
        requires
            old(self).wf(),
        ensures
            final(self).wf(),
            final(self).pending_create is None,
            final(self).content == old(self).content,
            final(self).file_path == old(self).file_path,
            final(self).current_syntax == old(self).current_syntax,
            final(self).splash == old(self).splash,
            final(self).vim_enabled == old(self).vim_enabled,
            final(self).vim == old(self).vim,
            final(self).current_dir == old(self).current_dir,
            final(self).selected == old(self).selected,
            final(self).tree == old(self).tree,
    {
        self.pending_create = None;
    }

    /// The full path a committed new-item intent asks the host to create,
    /// with whether it is a file: the sidebar root, a separator, and the
    /// typed name.  Nothing to create without both a root and an intent.
    pub fn prepare_create(&self) -> (r: Option<(String, bool)>)
        ensures
            match r {
                Some(p) => match (self.current_dir, self.pending_create) {
                    (Some(d), Some(pc)) => p.0@ == d@ + seq!['/'] + pc.name@ && p.1
                        == pc.is_file,
                    _ => false,
                },
                None => self.current_dir is None || self.pending_create is None,
            },
    {
        match (&self.current_dir, &self.pending_create) {
            (Some(d), Some(pc)) => {
                let mut path = d.clone();
                path.append("/");
                path.append(pc.name.as_str());
                proof {
                    reveal_strlit("/");
                    assert(("/")@ =~= seq!['/']);
                }
                Some((path, pc.is_file))
            },
            _ => None,
        }
    }

    /// Records the outcome of the host's create call and drops the
    /// intent.  A success marks the whole tree for re-enumeration, and a
    /// created file becomes the current (empty) document; a failure
    /// changes nothing else, so no half-done state survives.
    pub fn finish_create(&mut self, path: &str, is_file: bool, ok: bool)
        requires
            old(self).wf(),
        ensures
            final(self).wf(),
            final(self).pending_create is None,
            final(self).tree.refresh_pending == (ok || old(self).tree.refresh_pending),
            final(self).tree.expanded_map() == old(self).tree.expanded_map(),
            ok && is_file ==> view_opt(final(self).file_path) == Some(path@) && final(self).content@ == Seq::<char>::empty() && view_opt(final(self).current_syntax)
                == spec_detect(path@),
            !(ok && is_file) ==> final(self).content == old(self).content && final(self).file_path == old(self).file_path && final(self).current_syntax == old(self).current_syntax,
            final(self).splash == old(self).splash,
            final(self).vim_enabled == old(self).vim_enabled,
            final(self).vim == old(self).vim,
            final(self).current_dir == old(self).current_dir,
            final(self).selected == old(self).selected,
    {
        self.pending_create = None;
        if ok {
            if is_file {
                self.content = String::new();
                self.file_path = Some(path.to_owned());
                self.detect_language();
            }
            self.tree.request_refresh();
        }
    }

    /// Begins a render pass of the sidebar: a pending refresh collapses
    /// everything, as `TreeState::begin_render` says.
    pub fn begin_render(&mut self)
        requires
            old(self).wf(),
        ensures
            final(self).wf(),
            !final(self).tree.refresh_pending,
            old(self).tree.refresh_pending ==> final(self).tree.expanded_map() == Map::<
                Seq<char>,
                bool,
            >::empty(),
            !old(self).tree.refresh_pending ==> final(self).tree.expanded_map() == old(self).tree.expanded_map(),
            final(self).content == old(self).content,
            final(self).file_path == old(self).file_path,
            final(self).current_syntax == old(self).current_syntax,
            final(self).splash == old(self).splash,
            final(self).vim_enabled == old(self).vim_enabled,
            final(self).vim == old(self).vim,
            final(self).current_dir == old(self).current_dir,
            final(self).selected == old(self).selected,
            final(self).pending_create == old(self).pending_create,
    {
        self.tree.begin_render();
    }
}

/// Tree-refresh invalidation: a successful create leaves the refresh flag
/// raised, whatever it was before, and the render pass that follows such a
/// flag shows an empty expansion map: every directory is collapsed again.
pub proof fn lemma_create_invalidates(after_create: Session, after_render: Session)
    requires
        after_create.tree.refresh_pending,
        !after_render.tree.refresh_pending,
        after_create.tree.refresh_pending ==> after_render.tree.expanded_map() == Map::<
            Seq<char>,
            bool,
        >::empty(),
    ensures
        after_render.tree.expanded_map() == Map::<Seq<char>, bool>::empty(),
{
}

} // verus!
