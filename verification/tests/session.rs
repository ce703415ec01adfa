use hydroxite::session::Session;
use hydroxite::vim::{VimAction, VimKey};

#[test]
fn fresh_session_shows_splash() {
    let s = Session::new();
    assert!(s.splash);
    assert_eq!(s.content, "");
    assert!(s.file_path.is_none());
    assert!(s.current_syntax.is_none());
    assert!(s.selected.is_none());
}

#[test]
fn new_file_clears_document_and_leaves_splash() {
    let mut s = Session::new();
    s.open_buffer("a.rs", Some("fn main() {}".to_string()));
    s.new_file();
    assert!(!s.splash);
    assert_eq!(s.content, "");
    assert!(s.file_path.is_none());
    assert!(s.current_syntax.is_none());
}

#[test]
fn open_notes_txt_scenario() {
    let mut s = Session::new();
    s.open_buffer("notes.txt", Some("hello\nworld\n".to_string()));
    assert!(!s.splash);
    assert_eq!(s.content, "hello\nworld\n");
    assert_eq!(s.file_path, Some("notes.txt".to_string()));
    // `.txt` is listed only by the plain-text grammar
    assert_eq!(s.current_syntax, Some("Plain Text".to_string()));
    let (runs, all_ok) = s.highlight_content();
    assert!(all_ok);
    let mut joined = String::new();
    for r in &runs {
        joined.push_str(&r.text);
    }
    assert_eq!(joined, s.content);
}

#[test]
fn unreadable_file_degrades_to_empty_buffer() {
    let mut s = Session::new();
    s.open_buffer("gone.rs", None);
    assert_eq!(s.content, "");
    assert_eq!(s.file_path, Some("gone.rs".to_string()));
    assert_eq!(s.current_syntax, Some("Rust".to_string()));
}

#[test]
fn selecting_a_second_file_clears_the_first() {
    let mut s = Session::new();
    s.tree_clicked_file("proj/a.txt", Some("a".to_string()));
    assert_eq!(s.selected, Some("proj/a.txt".to_string()));
    s.tree_clicked_file("proj/b.txt", Some("b".to_string()));
    assert_eq!(s.selected, Some("proj/b.txt".to_string()));
    assert_eq!(s.content, "b");
}

#[test]
fn clicking_a_directory_only_toggles_expansion() {
    let mut s = Session::new();
    s.open_buffer("proj/a.txt", Some("a".to_string()));
    s.tree_clicked_dir("proj/sub");
    assert!(s.tree.is_expanded("proj/sub"));
    // the document and the selection are untouched
    assert_eq!(s.file_path, Some("proj/a.txt".to_string()));
    assert!(s.selected.is_none());
    s.tree_clicked_dir("proj/sub");
    assert!(!s.tree.is_expanded("proj/sub"));
}

#[test]
fn mark_saved_redetects_syntax() {
    let mut s = Session::new();
    s.new_file();
    s.set_content("x = 1".to_string());
    s.mark_saved("script.py");
    assert_eq!(s.file_path, Some("script.py".to_string()));
    assert_eq!(s.current_syntax, Some("Python".to_string()));
    assert_eq!(s.content, "x = 1");
}

#[test]
fn create_file_scenario_raises_refresh_and_opens_it() {
    let mut s = Session::new();
    s.open_folder("proj".to_string());
    s.begin_create(true);
    s.set_pending_name("x.rs".to_string());
    let prepared = s.prepare_create();
    assert_eq!(prepared, Some(("proj/x.rs".to_string(), true)));
    let (path, is_file) = prepared.unwrap();
    s.finish_create(&path, is_file, true);
    assert!(s.pending_create.is_none());
    assert!(s.tree.refresh_pending);
    assert_eq!(s.file_path, Some("proj/x.rs".to_string()));
    assert_eq!(s.content, "");
    assert_eq!(s.current_syntax, Some("Rust".to_string()));
}

#[test]
fn successful_create_collapses_everything_on_next_render() {
    let mut s = Session::new();
    s.open_folder("proj".to_string());
    s.tree_clicked_dir("proj/sub");
    s.tree_clicked_dir("proj/docs");
    assert!(s.tree.is_expanded("proj/sub"));
    s.begin_create(false);
    s.set_pending_name("newdir".to_string());
    let (path, is_file) = s.prepare_create().unwrap();
    assert!(!is_file);
    s.finish_create(&path, is_file, true);
    s.begin_render();
    assert!(!s.tree.is_expanded("proj/sub"));
    assert!(!s.tree.is_expanded("proj/docs"));
    assert!(!s.tree.refresh_pending);
}

#[test]
fn failed_create_changes_nothing() {
    let mut s = Session::new();
    s.open_folder("proj".to_string());
    s.tree_clicked_dir("proj/sub");
    s.begin_create(true);
    s.set_pending_name("x.rs".to_string());
    let (path, is_file) = s.prepare_create().unwrap();
    s.finish_create(&path, is_file, false);
    assert!(!s.tree.refresh_pending);
    assert!(s.file_path.is_none());
    s.begin_render();
    assert!(s.tree.is_expanded("proj/sub"));
}

#[test]
fn create_without_folder_has_no_target() {
    let mut s = Session::new();
    s.begin_create(true);
    s.set_pending_name("x.rs".to_string());
    assert_eq!(s.prepare_create(), None);
    s.cancel_create();
    assert!(s.pending_create.is_none());
}

#[test]
fn auto_close_appends_partner() {
    let mut s = Session::new();
    s.new_file();
    s.set_content("fn main(".to_string());
    assert_eq!(s.auto_close(), Some(')'));
    assert_eq!(s.content, "fn main()");
    s.set_content("let v = vec![".to_string());
    assert_eq!(s.auto_close(), Some(']'));
    assert_eq!(s.content, "let v = vec![]");
    s.set_content("say \"".to_string());
    assert_eq!(s.auto_close(), Some('"'));
    assert_eq!(s.content, "say \"\"");
}

#[test]
fn auto_close_leaves_other_text_alone() {
    let mut s = Session::new();
    s.new_file();
    s.set_content("plain".to_string());
    assert_eq!(s.auto_close(), None);
    assert_eq!(s.content, "plain");
    s.set_content(String::new());
    assert_eq!(s.auto_close(), None);
    assert_eq!(s.content, "");
}

#[test]
fn session_vim_keys_drive_the_modal_machine() {
    let mut s = Session::new();
    s.new_file();
    assert_eq!(s.vim_key(VimKey::Char(':')), VimAction::Idle);
    assert_eq!(s.vim_key(VimKey::Char('w')), VimAction::Idle);
    assert_eq!(s.vim_key(VimKey::Enter), VimAction::SaveFile);
}
