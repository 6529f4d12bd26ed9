use rocode::tui::session_tool::{
    extract_tag_value, format_bytes, format_read_summary, is_edit_tool, is_list_tool,
    is_patch_tool, is_read_tool, is_write_tool, parse_read_summary,
    prefers_specialized_block_body, split_list_output, ReadSummary,
};

#[test]
fn parse_read_summary_from_tool_output_tags() {
    let output = "<path>/tmp/a.txt</path>\n<size>4096</size>\n<total-lines>256</total-lines>\n<content>...</content>";
    let summary = parse_read_summary(output);
    assert_eq!(
        format_read_summary(&summary).as_deref(),
        Some("4.0 KB, 256 lines")
    );
}

#[test]
fn read_summary_takes_first_parsable_tag_line() {
    let output = "<size>x</size>\r\n<size>12</size>\n<size>99</size>\n<total-lines>+3</total-lines>";
    let summary = parse_read_summary(output);
    assert_eq!(summary, ReadSummary { size_bytes: Some(12), total_lines: Some(3) });
    assert_eq!(format_read_summary(&summary).as_deref(), Some("12 B, 3 lines"));
    let none = parse_read_summary("<size>-1</size>\n<total-lines></total-lines>");
    assert_eq!(none, ReadSummary { size_bytes: None, total_lines: None });
    assert_eq!(format_read_summary(&none), None);
    let only_lines = parse_read_summary("<total-lines>7</total-lines>\n");
    assert_eq!(format_read_summary(&only_lines).as_deref(), Some("7 lines"));
    let only_size = parse_read_summary("<size>2097152</size>");
    assert_eq!(format_read_summary(&only_size).as_deref(), Some("2.0 MB"));
    let overflow = parse_read_summary("<size>99999999999999999999999</size>");
    assert_eq!(overflow.size_bytes, None);
}

#[test]
fn extract_tag_value_needs_the_whole_line() {
    assert_eq!(extract_tag_value("<size>42</size>", "size").as_deref(), Some("42"));
    assert_eq!(extract_tag_value("<size></size>", "size").as_deref(), Some(""));
    assert_eq!(extract_tag_value(" <size>42</size>", "size"), None);
    assert_eq!(extract_tag_value("<size>42</size> ", "size"), None);
    assert_eq!(extract_tag_value("<size>42", "size"), None);
}

#[test]
fn format_bytes_units() {
    assert_eq!(format_bytes(0), "0 B");
    assert_eq!(format_bytes(1023), "1023 B");
    assert_eq!(format_bytes(1024), "1.0 KB");
    assert_eq!(format_bytes(1536), "1.5 KB");
    assert_eq!(format_bytes(1048575), "1024.0 KB");
    assert_eq!(format_bytes(1048576), "1.0 MB");
    assert_eq!(format_bytes(5 * 1048576 + 104858), "5.1 MB");
}

#[test]
fn format_bytes_matches_float_formatting() {
    let mut b: usize = 0;
    while b < 3 * 1048576 {
        let expected = if b as f64 >= 1048576.0 {
            format!("{:.1} MB", b as f64 / 1048576.0)
        } else if b as f64 >= 1024.0 {
            format!("{:.1} KB", b as f64 / 1024.0)
        } else {
            format!("{} B", b)
        };
        assert_eq!(format_bytes(b), expected, "bytes = {}", b);
        b += if b < 4096 { 1 } else { 97 };
    }
    for b in [1280usize, 1331, 2304, 1048576 + 52429, 1048576 + 104858, usize::MAX >> 12] {
        let expected = if b as f64 >= 1048576.0 {
            format!("{:.1} MB", b as f64 / 1048576.0)
        } else {
            format!("{:.1} KB", b as f64 / 1024.0)
        };
        assert_eq!(format_bytes(b), expected, "bytes = {}", b);
    }
}

#[test]
fn tool_kinds_by_name() {
    assert!(is_read_tool("read") && is_read_tool("read_file") && !is_read_tool("reads"));
    assert!(is_list_tool("ls") && is_list_tool("list_directory") && !is_list_tool("list_dirs"));
    assert!(is_write_tool("writefile") && !is_write_tool("Write"));
    assert!(is_edit_tool("edit_file") && !is_edit_tool("editor"));
    assert!(is_patch_tool("applypatch") && !is_patch_tool("patch"));
    assert!(prefers_specialized_block_body("todo_write"));
    assert!(prefers_specialized_block_body("edit"));
    assert!(prefers_specialized_block_body("apply_patch"));
    assert!(!prefers_specialized_block_body("bash"));
}

#[test]
fn list_output_header_is_split_off() {
    let lines = vec!["  /src/ ".to_string(), "a.rs".to_string(), "b.rs".to_string()];
    let (header, entries) = split_list_output(&lines);
    assert_eq!(header.as_deref(), Some("/src/"));
    assert_eq!(entries, vec!["a.rs".to_string(), "b.rs".to_string()]);
    let plain = vec!["a.rs".to_string()];
    let (header, entries) = split_list_output(&plain);
    assert_eq!(header, None);
    assert_eq!(entries, plain);
    let (header, entries) = split_list_output(&Vec::new());
    assert_eq!(header, None);
    assert!(entries.is_empty());
}
