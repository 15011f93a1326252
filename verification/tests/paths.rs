use drawlots_storage::path::FsPath;

fn path(segments: &[&str]) -> FsPath {
    FsPath::from_segments(segments.iter().map(|s| s.to_string()).collect())
}

#[test]
fn display_renders_segments_with_separators() {
    let p = path(&["home", "user", "data"]);
    assert_eq!(p.display_string(), "/home/user/data");
    assert_eq!(FsPath::root().display_string(), "");
}

#[test]
fn join_appends_one_segment() {
    let p = path(&["opt", "app"]).join("data");
    assert_eq!(p.display_string(), "/opt/app/data");
    assert_eq!(p.segment_count(), 3);
}

#[test]
fn path_eq_compares_segments() {
    let a = path(&["a", "b"]);
    let b = path(&["a", "b"]);
    let c = path(&["a", "c"]);
    let d = path(&["a"]);
    assert!(a.path_eq(&b));
    assert!(!a.path_eq(&c));
    assert!(!a.path_eq(&d));
}

#[test]
fn starts_with_checks_segment_prefix() {
    let base = path(&["proj", "src-tauri"]);
    let inside = path(&["proj", "src-tauri", "data"]);
    let outside = path(&["proj", "data"]);
    assert!(inside.starts_with(&base));
    assert!(base.starts_with(&base));
    assert!(!outside.starts_with(&base));
    assert!(!base.starts_with(&inside));
}

#[test]
fn duplicate_is_equal_to_original() {
    let a = path(&["x", "y"]);
    let b = a.duplicate();
    assert!(a.path_eq(&b));
    assert_eq!(b.display_string(), "/x/y");
}
