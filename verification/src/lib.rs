//! Verified core of Hydroxite, a small text editor.
//!
//! The library holds the editor's logic: detecting a language from a file
//! path, tokenizing buffer text into styled runs, projecting possibly stale
//! runs back onto the live buffer for display, the file-tree expansion and
//! selection state, a modal (vim-like) key state machine, and the editor
//! session that ties them together.  Window plumbing, dialogs and all
//! filesystem access stay outside; they hand the library plain values and
//! take plain values back.

pub mod detect;
pub mod highlight;
pub mod layout;
pub mod lines;
pub mod runs;
pub mod session;
pub mod tree;
pub mod vim;
