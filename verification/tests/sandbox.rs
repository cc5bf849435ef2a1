use local_private_llm::error::McpToolError;
use local_private_llm::sandbox::{
    check_relative_path, validate_path_under_root, validate_path_under_root_for_write,
    Resolution, ResolvedPath, WriteTarget,
};

fn path(segments: &[&str]) -> ResolvedPath {
    ResolvedPath { segments: segments.iter().map(|s| s.to_string()).collect() }
}

fn root() -> Resolution {
    Ok(path(&["/", "home", "user", "data"]))
}

fn refusal(message: &str) -> McpToolError {
    McpToolError::PathNotAllowed(message.to_string())
}

const ESCAPE: &str = "Path must be relative and cannot contain '..'";

#[test]
fn relative_path_is_trimmed_and_normalized() {
    assert_eq!(check_relative_path("  notes\\daily\\a.md \n"), Ok("notes/daily/a.md".to_string()));
    assert_eq!(check_relative_path("a/b.txt"), Ok("a/b.txt".to_string()));
    assert_eq!(check_relative_path(""), Ok(String::new()));
    assert_eq!(check_relative_path("."), Ok(".".to_string()));
}

#[test]
fn relative_path_refuses_parent_segments() {
    assert_eq!(check_relative_path("../etc/passwd"), Err(refusal(ESCAPE)));
    assert_eq!(check_relative_path("a/../../b"), Err(refusal(ESCAPE)));
    assert_eq!(check_relative_path("a\\..\\b"), Err(refusal(ESCAPE)));
    assert_eq!(check_relative_path("a..b"), Err(refusal(ESCAPE)));
    assert_eq!(check_relative_path("  ..  "), Err(refusal(ESCAPE)));
}

#[test]
fn relative_path_refuses_leading_root_marker() {
    assert_eq!(check_relative_path("/etc/passwd"), Err(refusal(ESCAPE)));
    assert_eq!(check_relative_path("\\windows\\system32"), Err(refusal(ESCAPE)));
    assert_eq!(check_relative_path("   /x"), Err(refusal(ESCAPE)));
}

#[test]
fn read_validation_returns_the_resolved_path_under_the_root() {
    let target = Ok(path(&["/", "home", "user", "data", "notes", "a.md"]));
    let r = validate_path_under_root(&root(), "notes/a.md", target);
    assert_eq!(r, Ok(path(&["/", "home", "user", "data", "notes", "a.md"])));
    let p = r.unwrap();
    assert!(p.is_under(&path(&["/", "home", "user", "data"])));
    assert_eq!(p.text(), "/home/user/data/notes/a.md");
    assert!(p.text().starts_with(&path(&["/", "home", "user", "data"]).text()));
}

#[test]
fn read_validation_accepts_the_root_itself() {
    let r = validate_path_under_root(&root(), ".", Ok(path(&["/", "home", "user", "data"])));
    assert_eq!(r, Ok(path(&["/", "home", "user", "data"])));
}

#[test]
fn read_validation_refuses_traversal_whatever_resolves() {
    let inside = Ok(path(&["/", "home", "user", "data", "x"]));
    assert_eq!(validate_path_under_root(&root(), "../x", inside), Err(refusal(ESCAPE)));
    let inside = Ok(path(&["/", "home", "user", "data", "x"]));
    assert_eq!(validate_path_under_root(&root(), "/home/user/data/x", inside), Err(refusal(ESCAPE)));
}

#[test]
fn read_validation_refuses_a_link_that_leads_outside() {
    let outside = Ok(path(&["/", "etc", "passwd"]));
    assert_eq!(
        validate_path_under_root(&root(), "link", outside),
        Err(refusal("Resolved path is outside the allowed root"))
    );
}

#[test]
fn read_validation_compares_whole_components() {
    let sibling = Ok(path(&["/", "home", "user", "data2", "x"]));
    assert_eq!(
        validate_path_under_root(&root(), "x", sibling),
        Err(refusal("Resolved path is outside the allowed root"))
    );
}

#[test]
fn read_validation_reports_a_missing_target() {
    let missing: Resolution = Err("No such file or directory (os error 2)".to_string());
    assert_eq!(
        validate_path_under_root(&root(), "nope.txt", missing),
        Err(refusal("path invalid or not found: No such file or directory (os error 2)"))
    );
}

#[test]
fn read_validation_reports_an_invalid_root_first() {
    let bad_root: Resolution = Err("not found".to_string());
    let target = Ok(path(&["/", "x"]));
    assert_eq!(
        validate_path_under_root(&bad_root, "../x", target),
        Err(refusal("root invalid: not found"))
    );
}

#[test]
fn write_to_parent_traversal_is_refused() {
    let existing = WriteTarget::Existing(Ok(path(&["/", "etc", "passwd"])));
    assert_eq!(
        validate_path_under_root_for_write(&root(), "../etc/passwd", existing),
        Err(refusal(ESCAPE))
    );
    let missing = WriteTarget::Missing(None);
    assert_eq!(
        validate_path_under_root_for_write(&root(), "../etc/passwd", missing),
        Err(refusal(ESCAPE))
    );
    let parent = WriteTarget::Missing(Some(Ok(path(&["/", "home", "user", "data"]))));
    assert_eq!(
        validate_path_under_root_for_write(&root(), "../etc/passwd", parent),
        Err(refusal(ESCAPE))
    );
}

#[test]
fn write_validation_holds_an_existing_target_to_the_root() {
    let inside = WriteTarget::Existing(Ok(path(&["/", "home", "user", "data", "a.txt"])));
    assert_eq!(
        validate_path_under_root_for_write(&root(), "a.txt", inside),
        Ok(path(&["/", "home", "user", "data", "a.txt"]))
    );
    let outside = WriteTarget::Existing(Ok(path(&["/", "tmp", "a.txt"])));
    assert_eq!(
        validate_path_under_root_for_write(&root(), "a.txt", outside),
        Err(refusal("Resolved path is outside the allowed root"))
    );
    let broken = WriteTarget::Existing(Err("denied".to_string()));
    assert_eq!(
        validate_path_under_root_for_write(&root(), "a.txt", broken),
        Err(refusal("path invalid: denied"))
    );
}

#[test]
fn write_validation_accepts_a_new_file_under_an_existing_parent() {
    let parent = WriteTarget::Missing(Some(Ok(path(&["/", "home", "user", "data", "sub"]))));
    assert_eq!(
        validate_path_under_root_for_write(&root(), "sub/./new.txt", parent),
        Ok(path(&["/", "home", "user", "data", "sub", "new.txt"]))
    );
}

#[test]
fn write_validation_refuses_a_parent_outside_the_root() {
    let parent = WriteTarget::Missing(Some(Ok(path(&["/", "tmp"]))));
    assert_eq!(
        validate_path_under_root_for_write(&root(), "link/new.txt", parent),
        Err(refusal("Path is outside the allowed root"))
    );
    let broken = WriteTarget::Missing(Some(Err("denied".to_string())));
    assert_eq!(
        validate_path_under_root_for_write(&root(), "link/new.txt", broken),
        Err(refusal("parent path invalid: denied"))
    );
}

#[test]
fn write_validation_accepts_a_path_whose_parent_is_missing_too() {
    let r = validate_path_under_root_for_write(&root(), "a//b\\c.txt", WriteTarget::Missing(None));
    assert_eq!(r, Ok(path(&["/", "home", "user", "data", "a", "b", "c.txt"])));
    assert!(r.unwrap().text().starts_with("/home/user/data"));
}

#[test]
fn joined_path_skips_empty_and_dot_pieces() {
    let base = path(&["/", "r"]);
    assert_eq!(base.join_relative("a/./b//c"), path(&["/", "r", "a", "b", "c"]));
    assert_eq!(base.join_relative(""), path(&["/", "r"]));
    assert_eq!(base.join_relative("."), path(&["/", "r"]));
}

#[test]
fn path_text_joins_components_with_slashes() {
    assert_eq!(path(&["/", "r", "a"]).text(), "/r/a");
    assert_eq!(path(&["/"]).text(), "/");
    assert_eq!(path(&[]).text(), "");
    assert_eq!(path(&["C:", "Users"]).text(), "C:/Users");
}
