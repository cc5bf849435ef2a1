use local_private_llm::dispatch::{
    conclude, execute_tool, resolve_tool, ToolCallArgs, ToolRequest,
};
use local_private_llm::error::{AppError, McpToolError};
use local_private_llm::json::Json;
use local_private_llm::diag::{DiagnosticStep, DiagnosticStepDto};
use local_private_llm::output::{execute_mcp_tool, McpToolResultDto, ToolResult};
use local_private_llm::registry::{
    all_tool_definitions, enabled_tool_definitions, filesystem_tool_defs, tool_def_dtos,
    McpToolDef,
};

fn names(defs: &[McpToolDef]) -> Vec<&str> {
    defs.iter().map(|d| d.name.as_str()).collect()
}

fn args() -> ToolCallArgs {
    ToolCallArgs::empty()
}

fn invalid(message: &str) -> Result<ToolRequest, McpToolError> {
    Err(McpToolError::InvalidArg(message.to_string()))
}

#[test]
fn catalogue_lists_every_tool_once() {
    let defs = all_tool_definitions();
    assert_eq!(
        names(&defs),
        vec![
            "read_file", "write_file", "list_dir", "obsidian_read_note", "obsidian_write_note",
            "obsidian_list_notes", "web_search", "fetch_url", "run_command",
            "open_terminal_and_run", "open_browser_search",
        ]
    );
    let ids: Vec<&str> = defs.iter().map(|d| d.id.as_str()).collect();
    assert_eq!(
        ids,
        vec![
            "filesystem", "filesystem", "filesystem", "obsidian", "obsidian", "obsidian",
            "web_search", "web", "terminal", "terminal", "browser",
        ]
    );
    let risks: Vec<&str> = defs.iter().map(|d| d.risk.as_str()).collect();
    assert_eq!(
        risks,
        vec![
            "read_only", "write", "read_only", "read_only", "write", "read_only", "network",
            "network", "high", "high", "low",
        ]
    );
    assert!(defs.iter().all(|d| !d.description.is_empty() && !d.scope.is_empty()));
}

#[test]
fn catalogue_describes_the_arguments_of_each_tool() {
    let defs = filesystem_tool_defs();
    let schema = defs[0].json_schema.as_ref().unwrap();
    assert_eq!(schema.get("type"), Some(&Json::Text("object".to_string())));
    assert_eq!(schema.get("required"), Some(&Json::Array(vec![Json::Text("path".to_string())])));
    assert_eq!(schema.get("additionalProperties"), Some(&Json::Bool(false)));
    let head = schema.get("properties").unwrap().get("head").unwrap();
    assert_eq!(head.get("type"), Some(&Json::Text("integer".to_string())));
    assert_eq!(head.get("minimum"), Some(&Json::Unsigned(1)));
    let depth = defs[2].json_schema.as_ref().unwrap().get("properties").unwrap().get("depth").unwrap();
    assert_eq!(depth.get("maximum"), Some(&Json::Unsigned(3)));
    assert_eq!(depth.get("default"), Some(&Json::Unsigned(1)));
    let all = all_tool_definitions();
    let browser = all[10].json_schema.as_ref().unwrap();
    assert_eq!(browser.get("required"), None);
    assert!(all.iter().all(|d| d.json_schema.is_some()));
}

#[test]
fn enabled_tools_follow_the_flags_and_roots() {
    assert!(enabled_tool_definitions(false, "/r", false, "/v", false, false).is_empty());
    assert_eq!(
        names(&enabled_tool_definitions(true, "/r", false, "/v", false, false)),
        vec!["read_file", "write_file", "list_dir"]
    );
    assert!(enabled_tool_definitions(true, "   ", true, "", false, false).is_empty());
    assert_eq!(
        names(&enabled_tool_definitions(false, "", true, "/vault", false, false)),
        vec!["obsidian_read_note", "obsidian_write_note", "obsidian_list_notes"]
    );
    assert_eq!(
        names(&enabled_tool_definitions(false, "", false, "", true, false)),
        vec!["web_search", "fetch_url", "open_browser_search"]
    );
    assert_eq!(
        names(&enabled_tool_definitions(false, "", false, "", false, true)),
        vec!["run_command", "open_terminal_and_run"]
    );
    assert_eq!(
        names(&enabled_tool_definitions(true, "/r", true, "/v", true, true)),
        vec![
            "read_file", "write_file", "list_dir", "obsidian_read_note", "obsidian_write_note",
            "obsidian_list_notes", "web_search", "fetch_url", "open_browser_search",
            "run_command", "open_terminal_and_run",
        ]
    );
}

#[test]
fn dispatcher_requires_a_configured_root() {
    let mut a = args();
    a.path = Some("a.txt".to_string());
    for name in ["read_file", "write_file", "list_dir"] {
        assert_eq!(resolve_tool(name, &a, None, Some("/vault")), Err(McpToolError::RootNotConfigured));
        assert_eq!(resolve_tool(name, &a, Some("  "), Some("/vault")), Err(McpToolError::RootNotConfigured));
    }
    for name in ["obsidian_read_note", "obsidian_write_note", "obsidian_list_notes"] {
        assert_eq!(resolve_tool(name, &a, Some("/root"), None), Err(McpToolError::RootNotConfigured));
        assert_eq!(resolve_tool(name, &a, Some("/root"), Some("")), Err(McpToolError::RootNotConfigured));
    }
    assert_eq!(resolve_tool("read_file", &args(), None, None), Err(McpToolError::RootNotConfigured));
}

#[test]
fn dispatcher_resolves_the_file_tools() {
    let mut a = args();
    a.path = Some("notes/a.md".to_string());
    a.head = Some(5);
    a.tail = Some(7);
    a.depth = Some(2);
    a.content = Some("text".to_string());
    assert_eq!(
        resolve_tool("read_file", &a, Some("/root"), Some("/vault")),
        Ok(ToolRequest::ReadFile { root: "/root".to_string(), path: "notes/a.md".to_string(), head: Some(5), tail: Some(7) })
    );
    assert_eq!(
        resolve_tool("obsidian_read_note", &a, Some("/root"), Some("/vault")),
        Ok(ToolRequest::ReadFile { root: "/vault".to_string(), path: "notes/a.md".to_string(), head: None, tail: None })
    );
    assert_eq!(
        resolve_tool("write_file", &a, Some("/root"), None),
        Ok(ToolRequest::WriteFile { root: "/root".to_string(), path: "notes/a.md".to_string(), content: "text".to_string() })
    );
    assert_eq!(
        resolve_tool("obsidian_list_notes", &a, None, Some("/vault")),
        Ok(ToolRequest::ListDir { root: "/vault".to_string(), path: "notes/a.md".to_string(), depth: Some(2) })
    );
    let mut dot = args();
    dot.path = Some(".".to_string());
    assert_eq!(
        resolve_tool("list_dir", &dot, Some("/root"), None),
        Ok(ToolRequest::ListDir { root: "/root".to_string(), path: ".".to_string(), depth: None })
    );
    let mut empty_content = args();
    empty_content.path = Some("x".to_string());
    empty_content.content = Some(String::new());
    assert_eq!(
        resolve_tool("obsidian_write_note", &empty_content, None, Some("/vault")),
        Ok(ToolRequest::WriteFile { root: "/vault".to_string(), path: "x".to_string(), content: String::new() })
    );
}

#[test]
fn dispatcher_rejects_missing_arguments() {
    assert_eq!(resolve_tool("read_file", &args(), Some("/root"), None), invalid("path required"));
    assert_eq!(resolve_tool("write_file", &args(), Some("/root"), None), invalid("path required"));
    assert_eq!(resolve_tool("obsidian_read_note", &args(), None, Some("/v")), invalid("path required"));
    assert_eq!(resolve_tool("list_dir", &args(), Some("/root"), None), invalid("path required"));
    assert_eq!(resolve_tool("obsidian_list_notes", &args(), None, Some("/v")), invalid("path required"));
    assert_eq!(resolve_tool("obsidian_write_note", &args(), None, Some("/v")), invalid("path required"));
    let mut no_content = args();
    no_content.path = Some("x".to_string());
    assert_eq!(resolve_tool("write_file", &no_content, Some("/root"), None), invalid("content required"));
    assert_eq!(resolve_tool("obsidian_write_note", &no_content, None, Some("/v")), invalid("content required"));
    assert_eq!(resolve_tool("write_file", &no_content, None, None), Err(McpToolError::RootNotConfigured));
    let mut no_path = args();
    no_path.content = Some("text".to_string());
    no_path.depth = Some(2);
    assert_eq!(resolve_tool("write_file", &no_path, Some("/root"), None), invalid("path required"));
    assert_eq!(resolve_tool("list_dir", &no_path, Some("/root"), None), invalid("path required"));
    assert_eq!(resolve_tool("web_search", &args(), None, None), invalid("query required"));
    assert_eq!(resolve_tool("fetch_url", &args(), None, None), invalid("url required"));
    assert_eq!(resolve_tool("run_command", &args(), None, None), invalid("command required"));
    assert_eq!(resolve_tool("open_terminal_and_run", &args(), None, None), invalid("command required"));
    let mut blank = args();
    blank.url = Some("  ".to_string());
    blank.command = Some(" \t".to_string());
    assert_eq!(resolve_tool("fetch_url", &blank, None, None), invalid("url required"));
    assert_eq!(resolve_tool("run_command", &blank, None, None), invalid("command cannot be empty"));
}

#[test]
fn dispatcher_resolves_the_network_and_terminal_tools() {
    let mut a = args();
    a.query = Some("rust".to_string());
    a.max_results = Some(3);
    a.include_page_excerpts = Some(false);
    a.url = Some(" https://example.com ".to_string());
    a.max_chars = Some(100);
    a.command = Some("  ls -la ".to_string());
    a.working_directory = Some("/tmp".to_string());
    a.engine = Some("bing".to_string());
    assert_eq!(
        resolve_tool("web_search", &a, None, None),
        Ok(ToolRequest::WebSearch { query: "rust".to_string(), max_results: Some(3), include_page_excerpts: Some(false) })
    );
    assert_eq!(
        resolve_tool("fetch_url", &a, None, None),
        Ok(ToolRequest::FetchUrl { url: "https://example.com".to_string(), max_chars: 500 })
    );
    assert_eq!(
        resolve_tool("run_command", &a, None, None),
        Ok(ToolRequest::RunCommand { command: "ls -la".to_string(), working_directory: Some("/tmp".to_string()) })
    );
    assert_eq!(
        resolve_tool("open_terminal_and_run", &a, None, None),
        Ok(ToolRequest::OpenTerminal {
            shell: "powershell".to_string(),
            command: "ls -la".to_string(),
            keep_open: true,
            working_directory: Some("/tmp".to_string()),
            new_tab: false,
        })
    );
    a.shell = Some("wt".to_string());
    a.keep_open = Some(false);
    a.new_tab = Some(true);
    assert_eq!(
        resolve_tool("open_terminal_and_run", &a, None, None),
        Ok(ToolRequest::OpenTerminal {
            shell: "wt".to_string(),
            command: "ls -la".to_string(),
            keep_open: false,
            working_directory: Some("/tmp".to_string()),
            new_tab: true,
        })
    );
    assert_eq!(
        resolve_tool("open_browser_search", &a, None, None),
        Ok(ToolRequest::OpenBrowserSearch {
            url: Some(" https://example.com ".to_string()),
            query: Some("rust".to_string()),
            engine: Some("bing".to_string()),
        })
    );
}

#[test]
fn dispatcher_does_not_know_other_tools() {
    assert_eq!(
        resolve_tool("delete_everything", &args(), Some("/r"), Some("/v")),
        Err(McpToolError::UnknownTool("delete_everything".to_string()))
    );
    assert_eq!(resolve_tool("", &args(), None, None), Err(McpToolError::UnknownTool(String::new())));
    assert_eq!(resolve_tool("Read_File", &args(), Some("/r"), None), Err(McpToolError::UnknownTool("Read_File".to_string())));
}

#[test]
fn outcome_is_wrapped_into_an_envelope() {
    assert_eq!(
        conclude(Ok("content".to_string())),
        Ok(ToolResult { ok: true, content: "content".to_string(), error: None, diagnostic_steps: None })
    );
    assert_eq!(
        conclude(Err(McpToolError::PathNotAllowed("x".to_string()))),
        Ok(ToolResult { ok: false, content: String::new(), error: Some("Path not allowed: x".to_string()), diagnostic_steps: None })
    );
    assert_eq!(
        conclude(Err(McpToolError::RootNotConfigured)),
        Ok(ToolResult { ok: false, content: String::new(), error: Some("Root not configured".to_string()), diagnostic_steps: None })
    );
    assert_eq!(
        conclude(Err(McpToolError::UnknownTool("nope".to_string()))),
        Err(McpToolError::UnknownTool("nope".to_string()))
    );
    let failed = ToolResult::failure(&McpToolError::Network("down".to_string()));
    assert!(!failed.ok && failed.error.is_some() && failed.content.is_empty());
    let fine = ToolResult::success("c".to_string(), Some(vec![]));
    assert!(fine.ok && fine.error.is_none());
}

#[test]
fn every_error_has_its_text() {
    assert_eq!(McpToolError::PathNotAllowed("p".to_string()).message(), "Path not allowed: p");
    assert_eq!(McpToolError::RootNotConfigured.message(), "Root not configured");
    assert_eq!(McpToolError::Io("disk".to_string()).message(), "IO: disk");
    assert_eq!(McpToolError::InvalidArg("a".to_string()).message(), "Invalid argument: a");
    assert_eq!(McpToolError::UnknownTool("t".to_string()).message(), "Tool not found: t");
    assert_eq!(McpToolError::Network("n".to_string()).message(), "Network: n");
    assert_eq!(McpToolError::CommandFailed("c".to_string()).message(), "Command execution failed: c");
    assert_eq!(AppError::Storage("s".to_string()).message(), "Storage error: s");
    assert_eq!(AppError::Ollama("o".to_string()).message(), "Ollama error: o");
    assert_eq!(AppError::Io("i".to_string()).message(), "IO error: i");
    assert_eq!(
        AppError::Mcp(McpToolError::InvalidArg("a".to_string())).message(),
        "MCP tool error: Invalid argument: a"
    );
}

#[test]
fn caller_receives_an_envelope_for_every_outcome() {
    let step = DiagnosticStep::info("Step".to_string(), Some(Json::Bool(true)));
    let fine = ToolResult::success("content".to_string(), Some(vec![step]));
    assert_eq!(
        execute_mcp_tool(Ok(fine)),
        McpToolResultDto {
            ok: true,
            content: "content".to_string(),
            error: None,
            diagnostic_steps: Some(vec![DiagnosticStepDto {
                level: "INFO".to_string(),
                message: "Step".to_string(),
                meta: Some(Json::Bool(true)),
            }]),
        }
    );
    assert_eq!(
        execute_mcp_tool(Err(McpToolError::UnknownTool("nope".to_string()))),
        McpToolResultDto {
            ok: false,
            content: String::new(),
            error: Some("Tool not found: nope".to_string()),
            diagnostic_steps: None,
        }
    );
    let failed = ToolResult::failure(&McpToolError::Io("disk".to_string()));
    let dto = execute_mcp_tool(Ok(failed));
    assert!(!dto.ok);
    assert_eq!(dto.error, Some("IO: disk".to_string()));
}

#[test]
fn definitions_reach_the_caller_unchanged() {
    let defs = all_tool_definitions();
    let dtos = tool_def_dtos(all_tool_definitions());
    assert_eq!(dtos.len(), defs.len());
    for (dto, def) in dtos.iter().zip(defs.iter()) {
        assert_eq!(dto.id, def.id);
        assert_eq!(dto.name, def.name);
        assert_eq!(dto.description, def.description);
        assert_eq!(dto.scope, def.scope);
        assert_eq!(dto.risk, def.risk);
        assert_eq!(dto.json_schema, def.json_schema);
    }
}

fn arguments(text: &str) -> Json {
    Json::parse(text).unwrap()
}

#[test]
fn arguments_are_read_from_json() {
    let args = ToolCallArgs::from_json(&arguments(
        r#"{"path":"a.txt","content":null,"head":5,"tail":0,"depth":4294967295,
            "query":"q","max_results":3,"include_page_excerpts":false,"command":"ls",
            "working_directory":"/tmp","shell":"wt","keep_open":true,"new_tab":false,
            "url":"https://x","engine":"bing","max_chars":700}"#,
    ))
    .unwrap();
    assert_eq!(
        args,
        ToolCallArgs {
            path: Some("a.txt".to_string()),
            content: None,
            head: Some(5),
            tail: Some(0),
            depth: Some(u32::MAX),
            query: Some("q".to_string()),
            max_results: Some(3),
            include_page_excerpts: Some(false),
            command: Some("ls".to_string()),
            working_directory: Some("/tmp".to_string()),
            shell: Some("wt".to_string()),
            keep_open: Some(true),
            new_tab: Some(false),
            url: Some("https://x".to_string()),
            engine: Some("bing".to_string()),
            max_chars: Some(700),
        }
    );
    assert_eq!(ToolCallArgs::from_json(&arguments("{}")), Ok(ToolCallArgs::empty()));
}

#[test]
fn arguments_of_the_wrong_kind_are_invalid() {
    let fault = |text: &str| -> String {
        match ToolCallArgs::from_json(&arguments(text)) {
            Err(McpToolError::InvalidArg(m)) => m,
            other => panic!("{:?}", other),
        }
    };
    assert_eq!(fault("[]"), "Invalid arguments: expected an object");
    assert_eq!(fault("null"), "Invalid arguments: expected an object");
    assert_eq!(fault("\"path\""), "Invalid arguments: expected an object");
    assert_eq!(fault(r#"{"path":5}"#), "Invalid arguments: path must be a string");
    assert_eq!(fault(r#"{"head":"5"}"#), "Invalid arguments: head must be an integer from 0 to 4294967295");
    assert_eq!(fault(r#"{"head":-1}"#), "Invalid arguments: head must be an integer from 0 to 4294967295");
    assert_eq!(fault(r#"{"head":1.5}"#), "Invalid arguments: head must be an integer from 0 to 4294967295");
    assert_eq!(fault(r#"{"max_chars":4294967296}"#), "Invalid arguments: max_chars must be an integer from 0 to 4294967295");
    assert_eq!(fault(r#"{"new_tab":"yes"}"#), "Invalid arguments: new_tab must be true or false");
    assert_eq!(fault(r#"{"keep_open":1}"#), "Invalid arguments: keep_open must be true or false");
    assert_eq!(fault(r#"{"url":[],"path":{}}"#), "Invalid arguments: path must be a string");
    assert_eq!(fault(r#"{"engine":true,"shell":false}"#), "Invalid arguments: shell must be a string");
}

#[test]
fn arguments_that_no_tool_takes_are_invalid() {
    let fault = |text: &str| -> String {
        match ToolCallArgs::from_json(&arguments(text)) {
            Err(McpToolError::InvalidArg(m)) => m,
            other => panic!("{:?}", other),
        }
    };
    assert_eq!(fault(r#"{"path":"a.txt","bogus":1}"#), "Invalid arguments: unknown field bogus");
    assert_eq!(fault(r#"{"extra":{"ignored":[1,2]}}"#), "Invalid arguments: unknown field extra");
    assert_eq!(fault(r#"{"Path":"a.txt"}"#), "Invalid arguments: unknown field Path");
    assert_eq!(fault(r#"{"":null}"#), "Invalid arguments: unknown field ");
    assert_eq!(fault(r#"{"paths":null,"path":5}"#), "Invalid arguments: unknown field paths");
    let members = |keys: &[&str]| -> Json {
        Json::object(keys.iter().map(|k| (k.to_string(), Json::Null)).collect())
    };
    assert_eq!(
        ToolCallArgs::from_json(&members(&["path", "zeta", "alpha"])),
        Err(McpToolError::InvalidArg("Invalid arguments: unknown field zeta".to_string()))
    );
    assert_eq!(
        ToolCallArgs::from_json(&members(&[
            "path", "content", "head", "tail", "depth", "query", "max_results",
            "include_page_excerpts", "command", "working_directory", "shell", "keep_open",
            "new_tab", "url", "engine", "max_chars",
        ])),
        Ok(ToolCallArgs::empty())
    );
    assert_eq!(
        execute_tool("read_file", &arguments(r#"{"path":"a.txt","bogus":1}"#), Some("/root"), None),
        Err(McpToolError::InvalidArg("Invalid arguments: unknown field bogus".to_string()))
    );
    assert_eq!(
        execute_tool("no_such_tool", &arguments(r#"{"bogus":1}"#), None, None),
        Err(McpToolError::InvalidArg("Invalid arguments: unknown field bogus".to_string()))
    );
}

#[test]
fn required_arguments_are_not_defaulted() {
    for name in ["list_dir", "obsidian_list_notes"] {
        assert_eq!(
            execute_tool(name, &arguments("{}"), Some("/root"), Some("/vault")),
            Err(McpToolError::InvalidArg("path required".to_string()))
        );
        assert_eq!(
            execute_tool(name, &arguments(r#"{"path":null,"depth":2}"#), Some("/root"), Some("/vault")),
            Err(McpToolError::InvalidArg("path required".to_string()))
        );
    }
    for name in ["write_file", "obsidian_write_note"] {
        assert_eq!(
            execute_tool(name, &arguments(r#"{"path":"a.txt"}"#), Some("/root"), Some("/vault")),
            Err(McpToolError::InvalidArg("content required".to_string()))
        );
        assert_eq!(
            execute_tool(name, &arguments(r#"{"content":"x"}"#), Some("/root"), Some("/vault")),
            Err(McpToolError::InvalidArg("path required".to_string()))
        );
    }
    assert_eq!(
        execute_tool("write_file", &arguments(r#"{"path":"a.txt","content":""}"#), Some("/root"), None),
        Ok(ToolRequest::WriteFile { root: "/root".to_string(), path: "a.txt".to_string(), content: String::new() })
    );
    assert_eq!(
        execute_tool("list_dir", &arguments(r#"{"path":"."}"#), Some("/root"), None),
        Ok(ToolRequest::ListDir { root: "/root".to_string(), path: ".".to_string(), depth: None })
    );
}

#[test]
fn dispatcher_reads_the_arguments_before_it_looks_at_the_tool() {
    assert_eq!(
        execute_tool("no_such_tool", &arguments(r#"{"path":1}"#), None, None),
        Err(McpToolError::InvalidArg("Invalid arguments: path must be a string".to_string()))
    );
    assert_eq!(
        execute_tool("no_such_tool", &arguments("{}"), None, None),
        Err(McpToolError::UnknownTool("no_such_tool".to_string()))
    );
    assert_eq!(
        execute_tool("read_file", &arguments(r#"{"path":"a.txt","tail":3}"#), Some("/root"), None),
        Ok(ToolRequest::ReadFile { root: "/root".to_string(), path: "a.txt".to_string(), head: None, tail: Some(3) })
    );
    assert_eq!(
        execute_tool("read_file", &arguments(r#"{"path":"../x"}"#), None, None),
        Err(McpToolError::RootNotConfigured)
    );
    assert_eq!(
        execute_tool("web_search", &arguments(r#"{"query":null}"#), None, None),
        Err(McpToolError::InvalidArg("query required".to_string()))
    );
}
