use local_private_llm::error::McpToolError;
use local_private_llm::files::{
    check_file_readable, check_file_writable, tool_read_file, tool_write_file,
};
use local_private_llm::listing::{clamp_depth, tool_list_dir, DirEntry, Listing};

fn numbered_lines(n: usize) -> String {
    (1..=n).map(|i| format!("line {}", i)).collect::<Vec<_>>().join("\n")
}

fn file(name: &str) -> DirEntry {
    DirEntry { name: name.to_string(), is_dir: false, children: Ok(vec![]) }
}

fn dir(name: &str, children: Vec<DirEntry>) -> DirEntry {
    DirEntry { name: name.to_string(), is_dir: true, children: Ok(children) }
}

fn tree() -> Listing {
    Ok(vec![
        file("zeta.txt"),
        dir("beta", vec![file("two.md"), dir("inner", vec![file("deep.txt"), dir("deeper", vec![file("bottom")])]), file("one.md")]),
        file("alpha.txt"),
    ])
}

#[test]
fn read_of_three_thousand_lines_returns_two_thousand_and_a_marker() {
    let content = numbered_lines(3000);
    let out = tool_read_file(&content, None, None);
    let lines: Vec<&str> = out.split('\n').collect();
    assert_eq!(lines.len(), 2001);
    assert_eq!(lines[0], "line 1");
    assert_eq!(lines[1999], "line 2000");
    assert_eq!(lines[2000], "... (truncated, max 2000 lines)");
}

#[test]
fn read_of_a_short_file_returns_it_unchanged() {
    assert_eq!(tool_read_file("a\r\nb\n\n", None, None), "a\r\nb\n\n");
    assert_eq!(tool_read_file("", None, None), "");
    let exactly = numbered_lines(2000);
    assert_eq!(tool_read_file(&exactly, None, None), exactly);
}

#[test]
fn read_head_returns_the_first_lines() {
    assert_eq!(tool_read_file("a\nb\nc\nd", Some(2), None), "a\nb");
    assert_eq!(tool_read_file("a\r\nb\r\nc", Some(2), None), "a\nb");
    assert_eq!(tool_read_file("a\nb", Some(10), None), "a\nb");
    assert_eq!(tool_read_file("a\nb", Some(0), None), "");
}

#[test]
fn read_head_is_clamped_to_two_thousand_lines() {
    let content = numbered_lines(3000);
    let out = tool_read_file(&content, Some(2500), None);
    assert_eq!(out.split('\n').count(), 2000);
    assert!(out.ends_with("line 2000"));
}

#[test]
fn read_tail_returns_the_last_lines() {
    assert_eq!(tool_read_file("a\nb\nc\nd\n", None, Some(2)), "c\nd");
    assert_eq!(tool_read_file("a\nb", None, Some(5)), "a\nb");
    let content = numbered_lines(3000);
    let out = tool_read_file(&content, None, Some(4_000_000));
    assert_eq!(out.split('\n').count(), 2000);
    assert!(out.starts_with("line 1001\n"));
    assert!(out.ends_with("line 3000"));
}

#[test]
fn read_head_wins_over_tail() {
    assert_eq!(tool_read_file("a\nb\nc", Some(1), Some(1)), "a");
}

#[test]
fn read_keeps_a_bare_carriage_return_on_the_last_line() {
    assert_eq!(tool_read_file("a\nb\r", Some(5), None), "a\nb\r");
}

#[test]
fn read_refuses_what_is_no_file_or_too_large() {
    assert_eq!(check_file_readable(true, 0), Ok(()));
    assert_eq!(check_file_readable(true, 512 * 1024), Ok(()));
    assert_eq!(
        check_file_readable(true, 512 * 1024 + 1),
        Err(McpToolError::InvalidArg("File too large (max 524288 bytes)".to_string()))
    );
    assert_eq!(
        check_file_readable(false, 10),
        Err(McpToolError::InvalidArg("Path is not a file".to_string()))
    );
}

#[test]
fn write_refuses_a_directory_and_confirms_the_bytes() {
    assert_eq!(check_file_writable(false), Ok(()));
    assert_eq!(
        check_file_writable(true),
        Err(McpToolError::InvalidArg("Path is a directory".to_string()))
    );
    assert_eq!(tool_write_file("héllo".len(), "/r/a.txt"), "Wrote 6 bytes to /r/a.txt");
    assert_eq!(tool_write_file(0, "x"), "Wrote 0 bytes to x");
}

#[test]
fn list_depth_defaults_to_one_and_stops_at_three() {
    assert_eq!(clamp_depth(None), 1);
    assert_eq!(clamp_depth(Some(0)), 0);
    assert_eq!(clamp_depth(Some(2)), 2);
    assert_eq!(clamp_depth(Some(3)), 3);
    assert_eq!(clamp_depth(Some(4)), 3);
    assert_eq!(clamp_depth(Some(u32::MAX)), 3);
}

#[test]
fn list_of_depth_one_names_the_children_only() {
    let out = tool_list_dir(true, &tree(), Some(1)).unwrap();
    assert_eq!(out, "alpha.txt\nbeta/\nzeta.txt");
    assert_eq!(tool_list_dir(true, &tree(), None).unwrap(), out);
}

#[test]
fn list_of_depth_one_ignores_what_the_children_hold() {
    let bare: Listing = Ok(vec![file("zeta.txt"), dir("beta", vec![]), file("alpha.txt")]);
    let unreadable: Listing = Ok(vec![
        file("zeta.txt"),
        DirEntry { name: "beta".to_string(), is_dir: true, children: Err("denied".to_string()) },
        file("alpha.txt"),
    ]);
    let expected = tool_list_dir(true, &tree(), Some(1));
    assert_eq!(tool_list_dir(true, &bare, Some(1)), expected);
    assert_eq!(tool_list_dir(true, &unreadable, Some(1)), expected);
}

#[test]
fn list_of_depth_two_indents_the_second_level() {
    let out = tool_list_dir(true, &tree(), Some(2)).unwrap();
    assert_eq!(out, "alpha.txt\nbeta/\n  inner/\n  one.md\n  two.md\nzeta.txt");
}

#[test]
fn list_beyond_depth_three_is_the_list_of_depth_three() {
    let three = tool_list_dir(true, &tree(), Some(3)).unwrap();
    assert_eq!(
        three,
        "alpha.txt\nbeta/\n  inner/\n    deep.txt\n    deeper/\n  one.md\n  two.md\nzeta.txt"
    );
    assert_eq!(tool_list_dir(true, &tree(), Some(4)).unwrap(), three);
    assert_eq!(tool_list_dir(true, &tree(), Some(99)).unwrap(), three);
}

#[test]
fn list_of_depth_zero_is_empty() {
    assert_eq!(tool_list_dir(true, &tree(), Some(0)), Ok(String::new()));
}

#[test]
fn list_sorts_names_by_their_characters() {
    let names: Listing = Ok(vec![file("b"), file("B"), file("a10"), file("a2"), file("a"), file("é"), file("")]);
    assert_eq!(tool_list_dir(true, &names, None).unwrap(), "\nB\na\na10\na2\nb\né");
}

#[test]
fn list_refuses_what_is_no_directory() {
    assert_eq!(
        tool_list_dir(false, &tree(), None),
        Err(McpToolError::InvalidArg("Path is not a directory".to_string()))
    );
}

#[test]
fn list_fails_where_a_directory_cannot_be_read() {
    let unreadable: Listing = Err("permission denied".to_string());
    assert_eq!(
        tool_list_dir(true, &unreadable, None),
        Err(McpToolError::Io("permission denied".to_string()))
    );
    let nested: Listing = Ok(vec![
        file("a"),
        DirEntry { name: "b".to_string(), is_dir: true, children: Err("gone".to_string()) },
    ]);
    assert_eq!(tool_list_dir(true, &nested, Some(2)), Err(McpToolError::Io("gone".to_string())));
}
