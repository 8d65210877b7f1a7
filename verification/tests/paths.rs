use lilrepl::{default_prompter, DirPath, LilState, LilreplError};

fn path(parts: &[&str]) -> DirPath {
    DirPath { parts: parts.iter().map(|p| p.to_string()).collect() }
}

#[test]
fn normalize_removes_dots_and_empties() {
    let p = path(&["a", "..", "b", ".", "", "c"]);
    assert_eq!(p.normalize().parts, vec!["b".to_string(), "c".to_string()]);
}

#[test]
fn normalize_stops_at_filesystem_root() {
    let p = path(&["..", "..", "a"]);
    assert_eq!(p.normalize().parts, vec!["a".to_string()]);
    assert!(path(&[".."]).normalize().parts.is_empty());
}

#[test]
fn normalize_keeps_plain_paths() {
    let p = path(&["usr", "local", "bin"]);
    assert_eq!(p.normalize().parts, p.parts);
}

#[test]
fn starts_with_is_prefix() {
    assert!(path(&["a", "b"]).starts_with(&path(&["a"])));
    assert!(path(&["a", "b"]).starts_with(&path(&["a", "b"])));
    assert!(path(&["a", "b"]).starts_with(&path(&[])));
    assert!(!path(&["a", "b"]).starts_with(&path(&["b"])));
    assert!(!path(&["a"]).starts_with(&path(&["a", "b"])));
}

#[test]
fn render_below_shows_relative_text() {
    assert_eq!(path(&[]).render_below(&path(&[])), "/");
    assert_eq!(path(&["a"]).render_below(&path(&["a"])), "/");
    assert_eq!(path(&["a", "b", "c"]).render_below(&path(&["a"])), "/b/c");
    // a path that does not descend from the root is shown whole
    assert_eq!(path(&["x", "y"]).render_below(&path(&["a"])), "/x/y");
}

#[test]
fn default_prompter_renders_cwd() {
    let st = LilState {
        root: path(&["home"]),
        cwd: path(&["home", "sub"]),
        args: Vec::new(),
        stdout: String::new(),
        stderr: String::new(),
    };
    assert_eq!(default_prompter(&st), "/sub>");
}

#[test]
fn duplicate_copies_exactly() {
    let p = path(&["a", "b"]);
    let q = p.duplicate();
    assert_eq!(p.parts, q.parts);
}

#[test]
fn error_texts() {
    assert_eq!(
        LilreplError::UnknownCommand("zap".to_string()).describe(),
        "unknown command: zap"
    );
    assert_eq!(LilreplError::Interrupted.describe(), "interrupted");
    assert_eq!(LilreplError::EndOfInput.describe(), "end of input");
    assert_eq!(
        LilreplError::RootEscape.describe(),
        "cannot leave the session's root directory"
    );
    assert_eq!(
        LilreplError::ArityMismatch { expected: 1, actual: 2 }.describe(),
        "wrong number of arguments"
    );
    assert!(LilreplError::ConstructionError.is_fatal());
}
