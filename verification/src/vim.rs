//! The modal (vim-like) editing state machine.
//!
//! Normal mode switches to insert mode on `i` and to command-line mode on
//! `:`; escape returns to normal mode; enter resolves the command line
//! (`w` save, `q` quit, `wq` both) and returns to normal mode.  Every step
//! hands the host at most one action to perform.

use vstd::prelude::*;

verus! {

/// The modal editing state.  Command-line mode carries the command typed
/// so far.
pub enum VimState {
    Normal,
    Insert,
    Command(Vec<char>),
}

/// The mathematical value of a modal state.
pub enum VimStateView {
    Normal,
    Insert,
    Command(Seq<char>),
}

/// What the host must do after a key is handled.
#[derive(PartialEq, Eq, Structural, Clone, Copy, Debug)]
pub enum VimAction {
    Idle,
    SaveFile,
    QuitApp,
    SaveAndQuit,
}

/// One key event, as the modal machine sees it.
#[derive(PartialEq, Eq, Structural, Clone, Copy, Debug)]
pub enum VimKey {
    Escape,
    Enter,
    Char(char),
}

pub open spec fn vim_view(s: VimState) -> VimStateView {
    match s {
        VimState::Normal => VimStateView::Normal,
        VimState::Insert => VimStateView::Insert,
        VimState::Command(buf) => VimStateView::Command(buf@),
    }
}

/// The action a finished command line asks for: `w` saves, `q` quits,
/// `wq` does both, anything else nothing.
pub open spec fn spec_resolve(cmd: Seq<char>) -> VimAction {
    if cmd == seq!['w'] {
        VimAction::SaveFile
    } else if cmd == seq!['q'] {
        VimAction::QuitApp
    } else if cmd == seq!['w', 'q'] {
        VimAction::SaveAndQuit
    } else {
        VimAction::Idle
    }
}

/// The transition table of the modal machine.
pub open spec fn spec_step(s: VimStateView, k: VimKey) -> (VimStateView, VimAction) {
    match s {
        VimStateView::Normal => match k {
            VimKey::Char(c) => if c == 'i' {
                (VimStateView::Insert, VimAction::Idle)
            } else if c == ':' {
                (VimStateView::Command(Seq::empty()), VimAction::Idle)
            } else {
                (VimStateView::Normal, VimAction::Idle)
            },
            _ => (VimStateView::Normal, VimAction::Idle),
        },
        VimStateView::Insert => match k {
            VimKey::Escape => (VimStateView::Normal, VimAction::Idle),
            _ => (VimStateView::Insert, VimAction::Idle),
        },
        VimStateView::Command(buf) => match k {
            VimKey::Enter => (VimStateView::Normal, spec_resolve(buf)),
            VimKey::Escape => (VimStateView::Normal, VimAction::Idle),
            VimKey::Char(c) => (VimStateView::Command(buf.push(c)), VimAction::Idle),
        },
    }
}

/// Resolves a finished command line, as `spec_resolve` says.
pub fn resolve_command(cmd: &Vec<char>) -> (a: VimAction)
    ensures
        a == spec_resolve(cmd@),
{
    if cmd.len() == 1 && cmd[0] == 'w' {
        proof {
            assert(cmd@ =~= seq!['w']);
        }
        VimAction::SaveFile
    } else if cmd.len() == 1 && cmd[0] == 'q' {
        proof {
            assert(cmd@ =~= seq!['q']);
        }
        VimAction::QuitApp
    } else if cmd.len() == 2 && cmd[0] == 'w' && cmd[1] == 'q' {
        proof {
            assert(cmd@ =~= seq!['w', 'q']);
        }
        VimAction::SaveAndQuit
    } else {
        proof {
            assert(cmd@ != seq!['w']);
            assert(cmd@ != seq!['q']);
            assert(cmd@ != seq!['w', 'q']);
        }
        VimAction::Idle
    }
}

/// Performs one step of the modal machine, as `spec_step` says.
pub fn vim_step(s: VimState, k: VimKey) -> (r: (VimState, VimAction))
    ensures
        (vim_view(r.0), r.1) == spec_step(vim_view(s), k),
{
    match s {
        VimState::Normal => match k {
            VimKey::Char(c) => {
                if c == 'i' {
                    (VimState::Insert, VimAction::Idle)
                } else if c == ':' {
                    let buf: Vec<char> = Vec::new();
                    proof {
                        assert(buf@ =~= Seq::<char>::empty());
                    }
                    (VimState::Command(buf), VimAction::Idle)
                } else {
                    (VimState::Normal, VimAction::Idle)
                }
            },
            _ => (VimState::Normal, VimAction::Idle),
        },
        VimState::Insert => match k {
            VimKey::Escape => (VimState::Normal, VimAction::Idle),
            _ => (VimState::Insert, VimAction::Idle),
        },
        VimState::Command(buf) => match k {
            VimKey::Enter => {
                let a = resolve_command(&buf);
                (VimState::Normal, a)
            },
            VimKey::Escape => (VimState::Normal, VimAction::Idle),
            VimKey::Char(c) => {
                let mut buf = buf;
                buf.push(c);
                (VimState::Command(buf), VimAction::Idle)
            },
        },
    }
}

} // verus!
