use local_private_llm::device::{
    detect_gpu, get_gpu_info, get_ollama_device_info, get_performance_status, GpuInfo,
};
use local_private_llm::json::Json;
use local_private_llm::records::{
    conversation_dto, default_title, get_conversations, message_dto, pull_log_due,
    pull_progress, ConversationRow, MessageRow, PullEvent,
};
use local_private_llm::settings::{
    default_filesystem_root, default_inference_device_preference, default_max_tokens,
    default_selected_model, default_system_prompt, default_theme, default_tool_calling_mode,
    flag_text, get_mcp_settings, get_mcp_tool_definitions, model_changed,
    normalize_device_preference, parse_flag, save_mcp_settings, stored_device_preference,
    stored_system_prompt, stored_tool_calling_mode, tool_roots, McpSettings,
};
use local_private_llm::stream::{
    chat_delta, format_log_line, next_line, pull_event, rotate_if_needed, take_line,
};
use local_private_llm::text::{
    chars_of, concat_str, decimal_string, is_blank_str, str_eq, string_of, trim,
};

fn settings() -> McpSettings {
    McpSettings {
        filesystem_enabled: true,
        filesystem_root: "  ".to_string(),
        obsidian_enabled: true,
        obsidian_vault_path: "/vault".to_string(),
        web_search_enabled: false,
        terminal_enabled: true,
    }
}

#[test]
fn json_text_is_parsed_into_values() {
    let parsed = Json::parse(r#" {"a":[1,-2,3.5,true,null,"x"],"b":{"c":"d"}} "#).unwrap();
    assert_eq!(
        parsed.get("a"),
        Some(&Json::Array(vec![
            Json::Unsigned(1),
            Json::Signed(-2),
            Json::Real("3.5".to_string()),
            Json::Bool(true),
            Json::Null,
            Json::Text("x".to_string()),
        ]))
    );
    assert_eq!(parsed.get("b").unwrap().get_text("c"), Some(&"d".to_string()));
    assert_eq!(parsed.get("missing"), None);
    assert_eq!(Json::parse("18446744073709551615"), Some(Json::Unsigned(u64::MAX)));
    assert_eq!(Json::parse("\"text\""), Some(Json::Text("text".to_string())));
    assert_eq!(Json::parse(""), None);
    assert_eq!(Json::parse("{"), None);
    assert_eq!(Json::parse("{} trailing"), None);
}

#[test]
fn json_values_are_read_by_kind() {
    let object = Json::Object(vec![
        ("k".to_string(), Json::Text("first".to_string())),
        ("k".to_string(), Json::Text("second".to_string())),
        ("n".to_string(), Json::Unsigned(1)),
    ]);
    assert!(object.is_object());
    assert_eq!(object.get_text("k"), Some(&"first".to_string()));
    assert_eq!(object.get_text("n"), None);
    assert_eq!(object.as_text(), None);
    assert_eq!(object.as_array(), None);
    assert_eq!(object.first(), None);
    let list = Json::Array(vec![Json::Null, Json::Bool(false)]);
    assert_eq!(list.first(), Some(&Json::Null));
    assert_eq!(list.get("k"), None);
    assert_eq!(Json::Array(vec![]).first(), None);
    let nested = Json::parse(r#"{"a":{"b":{"c":7}}}"#).unwrap();
    assert_eq!(nested.descend(&vec!["a", "b", "c"]), Some(&Json::Unsigned(7)));
    assert_eq!(nested.descend(&vec!["a", "x", "c"]), None);
    assert_eq!(nested.descend(&vec![]), Some(&nested));
}

#[test]
fn text_primitives_agree_with_the_standard_library() {
    for s in ["", " ", "  a b \t\n", "\u{a0}x\u{3000}", "x\u{200b}", "\u{85}y\u{2028}"] {
        assert_eq!(trim(s), s.trim(), "{:?}", s);
        assert_eq!(is_blank_str(s), s.trim().is_empty(), "{:?}", s);
        assert_eq!(string_of(&chars_of(s)), s);
    }
    assert_eq!(concat_str("ab", "cd"), "abcd");
    assert!(str_eq("é", "é"));
    assert!(!str_eq("e", "é"));
    for n in [0u64, 7, 10, 99, 100, 524288, u64::MAX] {
        assert_eq!(decimal_string(n), n.to_string());
    }
}

#[test]
fn gpu_is_found_in_the_first_line_of_the_answer() {
    assert_eq!(
        detect_gpu(true, true, "  GeForce RTX 4090 \r\nTesla T4\n"),
        GpuInfo { detected: true, name: "NVIDIA GeForce RTX 4090".to_string() }
    );
    let none = GpuInfo { detected: false, name: String::new() };
    assert_eq!(detect_gpu(true, true, "\nTesla"), none);
    assert_eq!(detect_gpu(true, true, ""), none);
    assert_eq!(detect_gpu(true, false, "Tesla"), none);
    assert_eq!(detect_gpu(false, false, ""), none);
}

#[test]
fn active_device_is_unknown() {
    assert_eq!(get_ollama_device_info(true).active_device, "unknown");
    assert_eq!(get_ollama_device_info(false).active_device, "unknown");
    let status = get_performance_status(GpuInfo { detected: true, name: "NVIDIA T4".to_string() });
    assert!(status.gpu_detected);
    assert_eq!(status.gpu_name, "NVIDIA T4");
    assert_eq!(status.active_device, "unknown");
    let dto = get_gpu_info(GpuInfo { detected: false, name: String::new() });
    assert!(!dto.detected);
    assert_eq!(dto.name, "");
}

#[test]
fn stored_flags_are_true_only_for_true() {
    assert!(parse_flag(Some("true")));
    assert!(!parse_flag(Some("false")));
    assert!(!parse_flag(Some("TRUE")));
    assert!(!parse_flag(Some(" true")));
    assert!(!parse_flag(Some("1")));
    assert!(!parse_flag(None));
    assert_eq!(flag_text(true), "true");
    assert_eq!(flag_text(false), "false");
    assert!(parse_flag(Some(&flag_text(true))));
}

#[test]
fn blank_root_defaults_to_the_home_directory() {
    assert_eq!(default_filesystem_root("/data", Some("/home/me")), "/data");
    assert_eq!(default_filesystem_root("  ", Some("/home/me")), "/home/me");
    assert_eq!(default_filesystem_root("", None), "");
    let dto = get_mcp_settings(settings(), Some("/home/me"));
    assert!(dto.filesystem_enabled);
    assert_eq!(dto.filesystem_root, "/home/me");
    assert_eq!(dto.obsidian_vault_path, "/vault");
    assert!(!dto.web_search_enabled);
    assert!(dto.terminal_enabled);
    let saved = save_mcp_settings(dto);
    assert_eq!(saved.filesystem_root, "/home/me");
    assert!(saved.obsidian_enabled);
    let fresh = McpSettings::new();
    assert!(!fresh.filesystem_enabled && !fresh.terminal_enabled);
    assert_eq!(fresh.filesystem_root, "");
}

#[test]
fn roots_are_handed_out_only_for_enabled_groups() {
    assert_eq!(tool_roots(&settings(), Some("/home/me")), (Some("/home/me".to_string()), Some("/vault".to_string())));
    assert_eq!(tool_roots(&settings(), None), (None, Some("/vault".to_string())));
    let mut off = settings();
    off.filesystem_enabled = false;
    off.obsidian_enabled = false;
    assert_eq!(tool_roots(&off, Some("/home/me")), (None, None));
    let mut no_vault = settings();
    no_vault.obsidian_vault_path = String::new();
    no_vault.filesystem_root = "/data".to_string();
    assert_eq!(tool_roots(&no_vault, None), (Some("/data".to_string()), None));
}

#[test]
fn definitions_shown_follow_the_settings() {
    let names = |enabled_only: bool, home: Option<&str>| -> Vec<String> {
        get_mcp_tool_definitions(&settings(), home, enabled_only).into_iter().map(|d| d.name).collect()
    };
    assert_eq!(names(false, None).len(), 11);
    assert_eq!(
        names(true, Some("/home/me")),
        vec!["read_file", "write_file", "list_dir", "obsidian_read_note", "obsidian_write_note", "obsidian_list_notes", "run_command", "open_terminal_and_run"]
    );
    assert_eq!(
        names(true, None),
        vec!["obsidian_read_note", "obsidian_write_note", "obsidian_list_notes", "run_command", "open_terminal_and_run"]
    );
}

#[test]
fn device_preference_is_one_of_three() {
    assert_eq!(default_inference_device_preference(), "auto");
    assert!(default_tool_calling_mode());
    assert_eq!(normalize_device_preference(" prefer_gpu "), "prefer_gpu");
    assert_eq!(normalize_device_preference("force_cpu"), "force_cpu");
    assert_eq!(normalize_device_preference("auto"), "auto");
    assert_eq!(normalize_device_preference("GPU"), "auto");
    assert_eq!(normalize_device_preference(""), "auto");
    assert!(model_changed(None, "m"));
    assert!(model_changed(Some("a"), "b"));
    assert!(!model_changed(Some("a"), "a"));
}

#[test]
fn rows_become_what_the_caller_sees() {
    let row = |id: &str| ConversationRow {
        id: id.to_string(),
        title: format!("title {}", id),
        created_at: 1,
        updated_at: 2,
        message_ids: vec![format!("{}-m", id)],
    };
    let dto = conversation_dto(row("a"));
    assert_eq!((dto.id.as_str(), dto.title.as_str(), dto.created_at, dto.updated_at), ("a", "title a", 1, 2));
    assert_eq!(dto.message_ids, vec!["a-m".to_string()]);
    let all = get_conversations(vec![row("x"), row("y"), row("z")]);
    assert_eq!(all.iter().map(|d| d.id.as_str()).collect::<Vec<_>>(), vec!["x", "y", "z"]);
    assert!(get_conversations(vec![]).is_empty());
    let m = message_dto(MessageRow { id: "m".to_string(), role: "user".to_string(), content: "Hello".to_string(), timestamp: 9 });
    assert_eq!((m.id.as_str(), m.role.as_str(), m.content.as_str(), m.timestamp), ("m", "user", "Hello", 9));
    assert_eq!(default_title(None), "New chat");
    assert_eq!(default_title(Some("Test".to_string())), "Test");
}

#[test]
fn pull_progress_is_a_percentage() {
    let event = |completed, total| PullEvent { status: None, digest: None, total, completed };
    assert_eq!(pull_progress(&event(Some(50), Some(200))), (50, 200, 25));
    assert_eq!(pull_progress(&event(Some(1), Some(3))), (1, 3, 33));
    assert_eq!(pull_progress(&event(Some(5), None)), (5, 0, 0));
    assert_eq!(pull_progress(&event(None, Some(10))), (0, 10, 0));
    assert_eq!(pull_progress(&event(Some(u64::MAX), Some(u64::MAX))), (u64::MAX, u64::MAX, 100));
    assert_eq!(pull_progress(&event(Some(u64::MAX), Some(1))), (u64::MAX, 1, u64::MAX));
    assert!(pull_log_due(10, 0, None));
    assert!(!pull_log_due(0, 50, None));
    assert!(pull_log_due(10, 20, Some(10)));
    assert!(!pull_log_due(10, 19, Some(10)));
    assert!(!pull_log_due(10, 5, Some(10)));
}

#[test]
fn stream_is_cut_into_lines() {
    let mut buffer = b"{\"a\":1}\n\n{\"b\"".to_vec();
    assert_eq!(take_line(&mut buffer), Some(b"{\"a\":1}".to_vec()));
    assert_eq!(buffer, b"\n{\"b\"".to_vec());
    assert_eq!(take_line(&mut buffer), Some(vec![]));
    assert_eq!(buffer, b"{\"b\"".to_vec());
    assert_eq!(take_line(&mut buffer), None);
    assert_eq!(buffer, b"{\"b\"".to_vec());
    buffer.extend_from_slice(b":2}\n");
    assert_eq!(take_line(&mut buffer), Some(b"{\"b\":2}".to_vec()));
    assert!(buffer.is_empty());
    assert_eq!(take_line(&mut buffer), None);
}

#[test]
fn log_lines_carry_time_level_and_message() {
    assert_eq!(format_log_line(1700000000000, "INFO", "ollama health", Some("{\"ok\":true}")), "1700000000000 [INFO] ollama health {\"ok\":true}\n");
    assert_eq!(format_log_line(0, "WARN", "x", None), "0 [WARN] x\n");
    assert!(!rotate_if_needed(5 * 1024 * 1024 - 1));
    assert!(rotate_if_needed(5 * 1024 * 1024));
}

#[test]
fn stored_settings_fall_back_to_their_defaults() {
    assert_eq!(default_theme(), "system");
    assert_eq!(default_selected_model(), "qwen2.5:3b-instruct");
    assert_eq!(default_max_tokens(), 2048);
    assert!(default_system_prompt().starts_with("You are a local/offline assistant"));
    assert_eq!(stored_system_prompt(None), default_system_prompt());
    assert_eq!(stored_system_prompt(Some("  \n")), default_system_prompt());
    assert_eq!(stored_system_prompt(Some(" Be brief. ")), " Be brief. ");
    for text in ["true", "false", "TRUE", "1", "", " false"] {
        assert_eq!(
            stored_tool_calling_mode(Some(text)),
            text.parse::<bool>().ok().unwrap_or(true),
            "{:?}",
            text
        );
    }
    assert!(stored_tool_calling_mode(None));
    assert_eq!(stored_device_preference(Some("force_cpu")), "force_cpu");
    assert_eq!(stored_device_preference(Some("prefer_gpu")), "prefer_gpu");
    assert_eq!(stored_device_preference(Some(" auto ")), "auto");
    assert_eq!(stored_device_preference(Some("gpu")), "auto");
    assert_eq!(stored_device_preference(None), "auto");
}

#[test]
fn empty_lines_of_the_stream_are_passed_over() {
    let mut buffer = b"\n\n{\"a\":1}\n\nrest".to_vec();
    assert_eq!(next_line(&mut buffer), Some(b"{\"a\":1}".to_vec()));
    assert_eq!(buffer, b"\nrest".to_vec());
    assert_eq!(next_line(&mut buffer), None);
    assert_eq!(buffer, b"rest".to_vec());
    assert_eq!(next_line(&mut buffer), None);
    assert_eq!(buffer, b"rest".to_vec());
    let mut only_feeds = b"\n\n\n".to_vec();
    assert_eq!(next_line(&mut only_feeds), None);
    assert!(only_feeds.is_empty());
    let mut carriage = b"\r\nx".to_vec();
    assert_eq!(next_line(&mut carriage), Some(b"\r".to_vec()));
}

#[test]
fn pull_reports_are_read_from_lines() {
    assert_eq!(
        pull_event(r#"{"status":"downloading","digest":"sha256:ab","total":100,"completed":40,"other":1}"#),
        Some(PullEvent {
            status: Some("downloading".to_string()),
            digest: Some("sha256:ab".to_string()),
            total: Some(100),
            completed: Some(40),
        })
    );
    assert_eq!(
        pull_event(r#"{"status":"success","total":null}"#),
        Some(PullEvent { status: Some("success".to_string()), digest: None, total: None, completed: None })
    );
    assert_eq!(pull_event("{}"), Some(PullEvent { status: None, digest: None, total: None, completed: None }));
    assert_eq!(pull_event(r#"{"total":-1}"#), None);
    assert_eq!(pull_event(r#"{"total":1.5}"#), None);
    assert_eq!(pull_event(r#"{"status":5}"#), None);
    assert_eq!(pull_event("[]"), None);
    assert_eq!(pull_event("not json"), None);
}

#[test]
fn chat_chunks_give_their_text() {
    assert_eq!(chat_delta(r#"{"message":{"role":"assistant","content":"Hel"},"done":false}"#), Some("Hel".to_string()));
    assert_eq!(chat_delta(r#"{"message":{"content":""},"done":true}"#), Some(String::new()));
    assert_eq!(chat_delta(r#"{"message":{"content":null}}"#), None);
    assert_eq!(chat_delta(r#"{"message":null}"#), None);
    assert_eq!(chat_delta(r#"{"done":true}"#), None);
    assert_eq!(chat_delta(r#"{"message":{"content":"x"},"done":"yes"}"#), None);
    assert_eq!(chat_delta(r#"{"message":{"content":7}}"#), None);
    assert_eq!(chat_delta(r#"{"message":"text"}"#), None);
    assert_eq!(chat_delta("garbage"), None);
}
