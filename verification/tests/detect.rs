use hydroxite::detect::{detect, extension_of};

#[test]
fn extension_after_last_dot() {
    assert_eq!(extension_of("a/b.tar.gz"), Some("gz".to_string()));
    assert_eq!(extension_of("main.rs"), Some("rs".to_string()));
}

#[test]
fn extension_ignores_dots_in_directories() {
    assert_eq!(extension_of("a.b/c"), None);
}

#[test]
fn extension_of_hidden_file_is_none() {
    assert_eq!(extension_of(".gitignore"), None);
    assert_eq!(extension_of("dir/.hidden"), None);
}

#[test]
fn extension_of_plain_name_is_none() {
    assert_eq!(extension_of("README"), None);
    assert_eq!(extension_of(""), None);
}

#[test]
fn detect_rust_by_extension() {
    assert_eq!(detect("src/main.rs"), Some("Rust".to_string()));
}

#[test]
fn detect_is_deterministic_per_extension() {
    assert_eq!(detect("a.rs"), detect("some/other/path.rs"));
    assert_eq!(detect("notes.txt"), detect("elsewhere/more.txt"));
    assert_eq!(detect("x.zzznope"), detect("y.zzznope"));
}

#[test]
fn detect_unknown_extension_is_none() {
    assert_eq!(detect("x.zzznope"), None);
}

#[test]
fn detect_no_extension_is_none() {
    assert_eq!(detect("README"), None);
}
