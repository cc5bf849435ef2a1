use local_private_llm::command::{
    check_working_dir, command_launch_failed, format_command_output, is_command_blocked,
    is_command_blocked_text, tool_run_command, Platform, WorkingDir,
};
use local_private_llm::error::McpToolError;
use local_private_llm::terminal::{
    complete_new_session, complete_new_tab, complete_reuse, resolve_working_dir,
    tool_open_terminal_and_run, Launch, OpenOutcome, StartOutcome, TerminalPlan, TerminalSession,
};

const BLOCKED: &str = "Command blocked: this command is on the safety blocklist. Dangerous system commands are not allowed.";

fn blocked() -> McpToolError {
    McpToolError::CommandFailed(BLOCKED.to_string())
}

fn strings(items: &[&str]) -> Vec<String> {
    items.iter().map(|s| s.to_string()).collect()
}

fn live_session() -> TerminalSession {
    TerminalSession { active: true, last_working_dir: "C:\\Users\\me".to_string() }
}

fn messages(steps: &[local_private_llm::diag::DiagnosticStep]) -> Vec<(String, String)> {
    steps.iter().map(|s| (s.level.clone(), s.message.clone())).collect()
}

#[test]
fn blocklist_matches_every_pattern() {
    let patterns = [
        "rm -rf /", "rm -rf /*", "del /s /q c:\\", "format c:", "format d:", "mkfs",
        ":(){:|:&};:", "shutdown", "reboot", "halt", "poweroff", "init 0", "init 6", "dd if=",
        "diskpart", "bcdedit", "reg delete", "net user", "net localgroup", "schtasks /delete",
        "wmic os delete", "cipher /w:",
    ];
    for p in patterns {
        assert!(is_command_blocked(p), "{}", p);
        assert!(is_command_blocked_text(p), "{}", p);
        assert!(is_command_blocked(&format!("echo hi; {} --now", p)), "{}", p);
    }
}

#[test]
fn blocklist_ignores_case_and_surrounding_space() {
    assert!(is_command_blocked("SHUTDOWN /s"));
    assert!(is_command_blocked("  Rm -Rf / "));
    assert!(is_command_blocked("sudo ReBoot"));
    assert!(is_command_blocked("Format C:"));
    assert!(is_command_blocked("DEL /S /Q C:\\"));
}

#[test]
fn blocklist_lets_other_commands_through() {
    assert!(!is_command_blocked("ls -la"));
    assert!(!is_command_blocked("rm -rf build"));
    assert!(!is_command_blocked("echo hello"));
    assert!(!is_command_blocked(""));
    assert!(!is_command_blocked("git init"));
}

#[test]
fn blocklist_matches_inside_quotes_too() {
    assert!(is_command_blocked("echo \"do not shutdown\""));
}

#[test]
fn blocked_text_is_decided_on_the_lower_case_form() {
    assert!(is_command_blocked_text("  shutdown now "));
    assert!(!is_command_blocked_text("SHUTDOWN"));
}

#[test]
fn run_command_refuses_a_blocked_command_on_every_platform() {
    for platform in [Platform::Windows, Platform::MacOs, Platform::Other] {
        assert_eq!(tool_run_command("Shutdown -h now", None, platform), Err(blocked()));
        assert_eq!(tool_run_command("x && MKFS.ext4 /dev/sda", Some("/tmp"), platform), Err(blocked()));
    }
}

#[test]
fn run_command_plans_the_platform_interpreter() {
    let plan = tool_run_command("ls -la", None, Platform::Other).unwrap();
    assert_eq!(plan.shell, "sh");
    assert_eq!(plan.shell_flag, "-c");
    assert_eq!(plan.command, "ls -la");
    assert_eq!(plan.working_dir, WorkingDir::Home);
    let plan = tool_run_command("dir", None, Platform::Windows).unwrap();
    assert_eq!(plan.shell, "cmd");
    assert_eq!(plan.shell_flag, "/C");
    let plan = tool_run_command("ls", None, Platform::MacOs).unwrap();
    assert_eq!(plan.shell, "sh");
}

#[test]
fn run_command_takes_a_working_directory_that_is_not_blank() {
    let plan = tool_run_command("ls", Some("  /tmp/work "), Platform::Other).unwrap();
    assert_eq!(plan.working_dir, WorkingDir::Given("/tmp/work".to_string()));
    let plan = tool_run_command("ls", Some("   "), Platform::Other).unwrap();
    assert_eq!(plan.working_dir, WorkingDir::Home);
    let plan = tool_run_command("ls", Some(""), Platform::Other).unwrap();
    assert_eq!(plan.working_dir, WorkingDir::Home);
}

#[test]
fn working_directory_must_exist_and_be_a_directory() {
    assert_eq!(check_working_dir("/tmp", true, true), Ok(()));
    assert_eq!(
        check_working_dir(" /nope ", false, false),
        Err(McpToolError::InvalidArg("Working directory does not exist:  /nope ".to_string()))
    );
    assert_eq!(
        check_working_dir("/etc/hosts", true, false),
        Err(McpToolError::InvalidArg("Working directory is not a directory: /etc/hosts".to_string()))
    );
}

#[test]
fn launch_failure_is_a_command_failure() {
    assert_eq!(
        command_launch_failed("No such file"),
        McpToolError::CommandFailed("Failed to execute command: No such file".to_string())
    );
    assert_eq!(
        command_launch_failed("x").message(),
        "Command execution failed: Failed to execute command: x"
    );
}

#[test]
fn command_report_lists_code_and_streams() {
    assert_eq!(
        format_command_output("ls", "/home/me", Some(0), "a\nb\n", ""),
        "Command: ls\n\nWorking directory: /home/me\n\nExit code: 0\n\nSTDOUT:\na\nb\n"
    );
    assert_eq!(
        format_command_output("false", "/", Some(1), "", "boom"),
        "Command: false\n\nWorking directory: /\n\nExit code: 1\n\nSTDERR:\nboom"
    );
    assert_eq!(
        format_command_output("x", "/", Some(-7), "o", "e"),
        "Command: x\n\nWorking directory: /\n\nExit code: -7\n\nSTDOUT:\no\n\nSTDERR:\ne"
    );
    assert_eq!(
        format_command_output("true", "/", None, "", ""),
        "Command: true\n\nWorking directory: /\n\nExit code: -1\n\n(No output)"
    );
    assert_eq!(
        format_command_output("x", "/", Some(i32::MIN), "", ""),
        "Command: x\n\nWorking directory: /\n\nExit code: -2147483648\n\n(No output)"
    );
}

#[test]
fn terminal_is_only_supported_on_windows() {
    let session = TerminalSession::new();
    for platform in [Platform::MacOs, Platform::Other] {
        assert_eq!(
            tool_open_terminal_and_run(&session, platform, "powershell", "dir", true, None, false, false, "/home/me"),
            Err(McpToolError::InvalidArg(
                "open_terminal_and_run is only supported on Windows. Use run_command for: dir".to_string()
            ))
        );
    }
}

#[test]
fn terminal_refuses_a_blocked_command_in_any_casing() {
    for (new_tab, alive) in [(false, false), (false, true), (true, false), (true, true)] {
        for session in [TerminalSession::new(), live_session()] {
            let r = tool_open_terminal_and_run(
                &session, Platform::Windows, "wt", "echo x; ShutDown /s", true, Some("C:\\"), new_tab, alive, "C:\\Users\\me",
            );
            assert_eq!(r, Err(blocked()));
        }
    }
    for platform in [Platform::MacOs, Platform::Other] {
        let r = tool_open_terminal_and_run(&live_session(), platform, "cmd", "REBOOT", true, None, false, true, "/h");
        assert!(r.is_err());
    }
}

#[test]
fn terminal_refuses_a_blank_command() {
    assert_eq!(
        tool_open_terminal_and_run(&TerminalSession::new(), Platform::Windows, "cmd", "   ", true, None, false, false, "C:\\"),
        Err(McpToolError::InvalidArg("command cannot be empty".to_string()))
    );
}

#[test]
fn reused_session_gets_the_command_without_a_change_of_directory() {
    let session = live_session();
    let plan = tool_open_terminal_and_run(
        &session, Platform::Windows, "powershell", " cd Screenshots && dir ", true, None, false, true, "C:\\Users\\home",
    )
    .unwrap();
    match plan {
        TerminalPlan::Reuse { input, shell_command, steps } => {
            assert_eq!(input, "cd Screenshots; dir\r\n");
            assert!(!input.contains("Set-Location"));
            assert_eq!(shell_command, "cd Screenshots; dir");
            assert_eq!(
                messages(&steps),
                vec![("INFO".to_string(), "open_terminal_and_run: validating arguments".to_string())]
            );
            let (content, shell_used, steps) = complete_reuse(shell_command, steps);
            assert_eq!(content, "Ran in existing terminal (PowerShell).\nCommand: cd Screenshots; dir");
            assert_eq!(shell_used, "powershell");
            assert_eq!(steps.len(), 2);
            assert_eq!(steps[1].message, "Reused existing terminal; command sent (no Set-Location).");
        }
        other => panic!("expected reuse, got {:?}", other),
    }
    assert_eq!(session, live_session());
}

#[test]
fn reused_session_ignores_any_directory_asked_for() {
    let with = tool_open_terminal_and_run(
        &live_session(), Platform::Windows, "cmd", "dir", false, Some("D:\\elsewhere"), false, true, "C:\\h",
    );
    let without = tool_open_terminal_and_run(
        &live_session(), Platform::Windows, "cmd", "dir", false, None, false, true, "",
    );
    match (&with, &without) {
        (Ok(TerminalPlan::Reuse { input: a, .. }), Ok(TerminalPlan::Reuse { input: b, .. })) => {
            assert_eq!(a, "dir\r\n");
            assert_eq!(a, b);
        }
        other => panic!("expected reuse twice, got {:?}", other),
    }
}

#[test]
fn dead_session_is_replaced_by_a_new_one_in_the_last_directory() {
    let mut session = live_session();
    let plan = tool_open_terminal_and_run(
        &session, Platform::Windows, "powershell", "dir", true, None, false, false, "C:\\Users\\home",
    )
    .unwrap();
    match plan {
        TerminalPlan::NewSession { launch, input, command, working_dir, steps } => {
            assert_eq!(launch, Launch { program: "powershell".to_string(), args: strings(&["-NoExit"]) });
            assert_eq!(working_dir, "C:\\Users\\me");
            assert_eq!(input, "Set-Location 'C:\\Users\\me'\r\ndir\r\n");
            assert_eq!(steps[1].message, "Step: starting persistent PowerShell (reuse same tab)");
            let r = complete_new_session(&mut session, command, working_dir, steps, StartOutcome::Started);
            let (content, shell_used, steps) = r.unwrap();
            assert_eq!(
                content,
                "Opened terminal (reuse same tab for next commands).\nWorking directory: C:\\Users\\me\nCommand: dir"
            );
            assert_eq!(shell_used, "powershell");
            assert_eq!(steps.len(), 3);
            assert_eq!(steps[2].message, "Persistent terminal started; future commands will reuse this tab.");
        }
        other => panic!("expected a new session, got {:?}", other),
    }
    assert!(session.active);
    assert_eq!(session.last_working_dir, "C:\\Users\\me");
}

#[test]
fn first_session_starts_in_the_directory_asked_for_and_quotes_it() {
    let mut session = TerminalSession::new();
    let plan = tool_open_terminal_and_run(
        &session, Platform::Windows, "powershell", "a && b && c", true, Some("C:\\It's here"), false, false, "C:\\Users\\home",
    )
    .unwrap();
    match plan {
        TerminalPlan::NewSession { input, command, working_dir, steps, .. } => {
            assert_eq!(input, "Set-Location 'C:\\It''s here'\r\na; b; c\r\n");
            assert_eq!(command, "a && b && c");
            complete_new_session(&mut session, command, working_dir, steps, StartOutcome::Started).unwrap();
        }
        other => panic!("expected a new session, got {:?}", other),
    }
    assert_eq!(session, TerminalSession { active: true, last_working_dir: "C:\\It's here".to_string() });
}

#[test]
fn session_that_fails_to_start_is_not_held() {
    let cases = [
        (StartOutcome::SpawnFailed("no shell".to_string()), "powershell spawn failed: no shell"),
        (StartOutcome::NoInput, "could not take stdin"),
        (StartOutcome::WriteFailed("pipe".to_string()), "write to terminal failed: pipe"),
        (StartOutcome::FlushFailed("pipe".to_string()), "flush failed: pipe"),
        (StartOutcome::LockFailed("poisoned".to_string()), "terminal lock poisoned: poisoned"),
    ];
    for (outcome, message) in cases {
        let mut session = live_session();
        let r = complete_new_session(&mut session, "dir".to_string(), "D:\\".to_string(), vec![], outcome);
        assert_eq!(r, Err(McpToolError::CommandFailed(message.to_string())));
        assert!(!session.active);
        assert_eq!(session.last_working_dir, "C:\\Users\\me");
    }
}

#[test]
fn working_directory_falls_back_to_last_then_home() {
    assert_eq!(resolve_working_dir(Some(" D:\\x "), "C:\\last", "C:\\home"), " D:\\x ");
    assert_eq!(resolve_working_dir(Some("   "), "C:\\last", "C:\\home"), "C:\\last");
    assert_eq!(resolve_working_dir(None, "C:\\last", "C:\\home"), "C:\\last");
    assert_eq!(resolve_working_dir(None, "", "C:\\home"), "C:\\home");
    assert_eq!(resolve_working_dir(Some(""), "", "C:\\home"), "C:\\home");
}

#[test]
fn new_tab_opens_the_terminal_host_with_a_fallback() {
    let session = live_session();
    let plan = tool_open_terminal_and_run(
        &session, Platform::Windows, "WT", "dir", true, None, true, true, "C:\\home",
    )
    .unwrap();
    match plan {
        TerminalPlan::NewTab { first, fallback, command, working_dir, steps } => {
            assert_eq!(first, Launch { program: "wt".to_string(), args: strings(&["powershell", "-NoExit", "-Command", "dir"]) });
            assert_eq!(fallback, Some(Launch { program: "powershell".to_string(), args: strings(&["-NoExit", "-Command", "dir"]) }));
            assert_eq!(working_dir, "C:\\Users\\me");
            assert_eq!(steps[1].message, "Step: Windows Terminal (wt)");
            let (content, shell_used, steps) =
                complete_new_tab(first, fallback, command, working_dir, steps, OpenOutcome::Opened).unwrap();
            assert_eq!(content, "Opened new terminal window.\nShell: wt\nCommand: dir\nWorking directory: C:\\Users\\me");
            assert_eq!(shell_used, "wt");
            assert_eq!(steps[2].message, "Opened new terminal tab. Shell: wt");
        }
        other => panic!("expected a new tab, got {:?}", other),
    }
    assert_eq!(session, live_session());
}

#[test]
fn new_tab_falls_back_to_the_default_shell() {
    let first = Launch { program: "wt".to_string(), args: strings(&["powershell", "-NoExit", "-Command", "dir"]) };
    let fallback = Some(Launch { program: "powershell".to_string(), args: strings(&["-NoExit", "-Command", "dir"]) });
    let (content, shell_used, steps) = complete_new_tab(
        first, fallback, "dir".to_string(), "C:\\".to_string(), vec![], OpenOutcome::FellBack("not found".to_string()),
    )
    .unwrap();
    assert_eq!(shell_used, "powershell");
    assert!(content.contains("Shell: powershell"));
    assert_eq!(
        messages(&steps),
        vec![
            ("WARN".to_string(), "wt failed (not found), falling back to powershell".to_string()),
            ("INFO".to_string(), "Opened new terminal tab. Shell: powershell".to_string()),
        ]
    );
}

#[test]
fn new_tab_failures_name_the_shell() {
    let wt = Launch { program: "wt".to_string(), args: vec![] };
    let ps = Launch { program: "powershell".to_string(), args: vec![] };
    let cmd = Launch { program: "cmd".to_string(), args: vec![] };
    assert_eq!(
        complete_new_tab(wt, Some(Launch { program: "powershell".to_string(), args: vec![] }), "d".to_string(), "w".to_string(), vec![], OpenOutcome::Failed("e2".to_string())),
        Err(McpToolError::CommandFailed("wt and powershell failed: e2".to_string()))
    );
    assert_eq!(
        complete_new_tab(ps, None, "d".to_string(), "w".to_string(), vec![], OpenOutcome::Failed("e".to_string())),
        Err(McpToolError::CommandFailed("powershell spawn failed: e".to_string()))
    );
    assert_eq!(
        complete_new_tab(cmd, None, "d".to_string(), "w".to_string(), vec![], OpenOutcome::Failed("e".to_string())),
        Err(McpToolError::CommandFailed("cmd spawn failed: e".to_string()))
    );
}

#[test]
fn new_tab_picks_the_shell_asked_for() {
    let session = TerminalSession::new();
    let plan = tool_open_terminal_and_run(&session, Platform::Windows, "Cmd", "dir", true, None, true, false, "C:\\h").unwrap();
    match plan {
        TerminalPlan::NewTab { first, fallback, steps, working_dir, .. } => {
            assert_eq!(first, Launch { program: "cmd".to_string(), args: strings(&["/k", "dir"]) });
            assert_eq!(fallback, None);
            assert_eq!(steps[1].message, "Step: cmd /k");
            assert_eq!(working_dir, "C:\\h");
        }
        other => panic!("expected a new tab, got {:?}", other),
    }
    let plan = tool_open_terminal_and_run(&session, Platform::Windows, "bash", "dir", false, None, true, false, "C:\\h").unwrap();
    match plan {
        TerminalPlan::NewTab { first, steps, .. } => {
            assert_eq!(first, Launch { program: "powershell".to_string(), args: strings(&["-Command", "dir"]) });
            assert_eq!(steps[1].message, "Step: PowerShell -NoExit -Command");
        }
        other => panic!("expected a new tab, got {:?}", other),
    }
    let plan = tool_open_terminal_and_run(&session, Platform::Windows, "powershell", "dir", true, None, true, false, "C:\\h").unwrap();
    match plan {
        TerminalPlan::NewTab { first, .. } => {
            assert_eq!(first.args, strings(&["-NoExit", "-Command", "dir"]));
        }
        other => panic!("expected a new tab, got {:?}", other),
    }
}
