use hydroxite::tree::{DirEntry, TreeState};

fn entry(name: &str, path: &str, is_dir: bool) -> DirEntry {
    DirEntry { name: name.to_string(), path: path.to_string(), is_dir }
}

#[test]
fn directories_are_collapsed_by_default() {
    let t = TreeState::new();
    assert!(!t.is_expanded("proj/src"));
}

#[test]
fn first_toggle_expands() {
    let mut t = TreeState::new();
    t.toggle("proj/src");
    assert!(t.is_expanded("proj/src"));
    assert!(!t.is_expanded("proj/other"));
}

#[test]
fn toggling_twice_restores_the_original_state() {
    let mut t = TreeState::new();
    t.toggle("proj/src");
    t.toggle("proj/src");
    assert!(!t.is_expanded("proj/src"));
    t.toggle("proj/a");
    t.toggle("proj/b");
    t.toggle("proj/b");
    assert!(t.is_expanded("proj/a"));
    assert!(!t.is_expanded("proj/b"));
}

#[test]
fn refresh_clears_expansion_on_next_render() {
    let mut t = TreeState::new();
    t.toggle("proj/src");
    t.toggle("proj/docs");
    t.request_refresh();
    t.begin_render();
    assert!(!t.is_expanded("proj/src"));
    assert!(!t.is_expanded("proj/docs"));
    assert!(!t.refresh_pending);
}

#[test]
fn render_without_refresh_keeps_expansion() {
    let mut t = TreeState::new();
    t.toggle("proj/src");
    t.begin_render();
    assert!(t.is_expanded("proj/src"));
}

#[test]
fn plan_recurses_one_level_into_expanded_dir_only() {
    let mut t = TreeState::new();
    let entries = vec![
        entry("a.txt", "proj/a.txt", false),
        entry("b.txt", "proj/b.txt", false),
        entry("c.txt", "proj/c.txt", false),
        entry("sub", "proj/sub", true),
    ];
    t.toggle("proj/sub");
    assert!(t.is_expanded("proj/sub"));
    let rows = t.plan_rows(&entries, &None, 0);
    assert_eq!(rows.len(), 4);
    for r in &rows[..3] {
        assert!(!r.is_dir);
        assert!(!r.recurse);
        assert_eq!(r.depth, 0);
    }
    assert!(rows[3].is_dir);
    assert!(rows[3].recurse);
    // one level down: the subdirectory's own listing is planned at depth 1,
    // and nothing in it recurses further while collapsed
    let sub_entries = vec![entry("inner", "proj/sub/inner", true)];
    let sub_rows = t.plan_rows(&sub_entries, &None, 1);
    assert_eq!(sub_rows.len(), 1);
    assert_eq!(sub_rows[0].depth, 1);
    assert!(!sub_rows[0].recurse);
}

#[test]
fn plan_marks_the_selected_row() {
    let t = TreeState::new();
    let entries = vec![
        entry("a.txt", "proj/a.txt", false),
        entry("b.txt", "proj/b.txt", false),
    ];
    let sel = Some("proj/b.txt".to_string());
    let rows = t.plan_rows(&entries, &sel, 0);
    assert!(!rows[0].selected);
    assert!(rows[1].selected);
}
