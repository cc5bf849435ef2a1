//! The command safety policy, and the one-shot command.
//!
//! A command is refused, before any process is started, where its trimmed
//! lower-case form holds one of a fixed list of destructive patterns. The list
//! denies; it does not allow: a command that is not on it runs.

use crate::error::{ErrorView, McpToolError};
use crate::text::{
    any_found_in, chars_of, concat_str, contains_any, is_blank, lowercase, owned,
    push_signed_decimal, push_str, signed_decimal, string_of, strs_view, to_lowercase,
    trim_bounds, trim_chars, trim_of,
};
use vstd::prelude::*;

verus! {

/// The patterns of commands that are refused.
pub open spec fn blocked_patterns() -> Seq<Seq<char>> {
    seq![
        "rm -rf /"@,
        "rm -rf /*"@,
        "del /s /q c:\\"@,
        "format c:"@,
        "format d:"@,
        "mkfs"@,
        ":(){:|:&};:"@,
        "shutdown"@,
        "reboot"@,
        "halt"@,
        "poweroff"@,
        "init 0"@,
        "init 6"@,
        "dd if="@,
        "diskpart"@,
        "bcdedit"@,
        "reg delete"@,
        "net user"@,
        "net localgroup"@,
        "schtasks /delete"@,
        "wmic os delete"@,
        "cipher /w:"@,
    ]
}

/// Whether a command, given in lower case, is refused: trimmed, it holds one
/// of the blocked patterns.
pub open spec fn blocked(lower: Seq<char>) -> bool {
    any_found_in(trim_of(lower), blocked_patterns())
}

/// The message of a refusal by the blocklist.
pub open spec fn blocked_message() -> Seq<char> {
    "Command blocked: this command is on the safety blocklist. Dangerous system commands are not allowed."@
}

fn blocked_pattern_list() -> (v: Vec<&'static str>)
    ensures
        strs_view(v@) == blocked_patterns(),
{
    let v = vec![
        "rm -rf /",
        "rm -rf /*",
        "del /s /q c:\\",
        "format c:",
        "format d:",
        "mkfs",
        ":(){:|:&};:",
        "shutdown",
        "reboot",
        "halt",
        "poweroff",
        "init 0",
        "init 6",
        "dd if=",
        "diskpart",
        "bcdedit",
        "reg delete",
        "net user",
        "net localgroup",
        "schtasks /delete",
        "wmic os delete",
        "cipher /w:",
    ];
    assert(strs_view(v@) =~= blocked_patterns());
    v
}

/// Whether the command with the lower-case form `lower` is refused.
pub fn is_command_blocked_text(lower: &str) -> (r: bool)
    ensures
        r == blocked(lower@),
{
    let l = chars_of(lower);
    let t = trim_chars(&l);
    let patterns = blocked_pattern_list();
    contains_any(&t, &patterns)
}

/// Whether a command is refused: its trimmed lower-case form holds one of
/// the blocked patterns.
pub fn is_command_blocked(command: &str) -> (r: bool)
    ensures
        r == blocked(lowercase(command@)),
{
    let lower = to_lowercase(command);
    is_command_blocked_text(lower.as_str())
}

/// The refusal by the blocklist.
pub fn blocked_error() -> (e: McpToolError)
    ensures
        e@ == ErrorView::CommandFailed(blocked_message()),
{
    McpToolError::CommandFailed(
        owned(
            "Command blocked: this command is on the safety blocklist. Dangerous system commands are not allowed.",
        ),
    )
}

/// The family of operating system the program runs on.
#[derive(Debug, Clone, Copy, PartialEq, Eq)]
pub enum Platform {
    Windows,
    MacOs,
    Other,
}

/// Where a command runs.
#[derive(Debug, PartialEq, Eq)]
pub enum WorkingDir {
    /// The directory asked for, trimmed. It must exist and be a directory.
    Given(String),
    /// The user's home directory.
    Home,
}

/// A working directory as plain values.
pub enum WorkingDirView {
    Given(Seq<char>),
    Home,
}

impl View for WorkingDir {
    type V = WorkingDirView;

    open spec fn view(&self) -> WorkingDirView {
        match self {
            WorkingDir::Given(d) => WorkingDirView::Given(d@),
            WorkingDir::Home => WorkingDirView::Home,
        }
    }
}

/// One invocation of the platform's command interpreter.
#[derive(Debug, PartialEq, Eq)]
pub struct CommandPlan {
    /// The interpreter: `cmd` on Windows, `sh` elsewhere.
    pub shell: String,
    /// The flag before the command: `/C` on Windows, `-c` elsewhere.
    pub shell_flag: String,
    pub command: String,
    pub working_dir: WorkingDir,
}

/// A plan as plain values.
pub struct CommandPlanView {
    pub shell: Seq<char>,
    pub shell_flag: Seq<char>,
    pub command: Seq<char>,
    pub working_dir: WorkingDirView,
}

impl View for CommandPlan {
    type V = CommandPlanView;

    open spec fn view(&self) -> CommandPlanView {
        CommandPlanView {
            shell: self.shell@,
            shell_flag: self.shell_flag@,
            command: self.command@,
            working_dir: self.working_dir@,
        }
    }
}

/// The plan for a command that is not refused: the platform's interpreter,
/// and the directory asked for where one is given and not blank, else the
/// user's home.
pub open spec fn command_plan(
    command: Seq<char>,
    working_directory: Option<Seq<char>>,
    platform: Platform,
) -> CommandPlanView {
    CommandPlanView {
        shell: if platform == Platform::Windows {
            "cmd"@
        } else {
            "sh"@
        },
        shell_flag: if platform == Platform::Windows {
            "/C"@
        } else {
            "-c"@
        },
        command,
        working_dir: match working_directory {
            Some(wd) => if is_blank(wd) {
                WorkingDirView::Home
            } else {
                WorkingDirView::Given(trim_of(wd))
            },
            None => WorkingDirView::Home,
        },
    }
}

/// What the one-shot command does with a command whose lower-case form is
/// `lower`: refuse it, or run it by this plan.
pub open spec fn run_plan(
    command: Seq<char>,
    lower: Seq<char>,
    working_directory: Option<Seq<char>>,
    platform: Platform,
) -> Result<CommandPlanView, ErrorView> {
    if blocked(lower) {
        Err(ErrorView::CommandFailed(blocked_message()))
    } else {
        Ok(command_plan(command, working_directory, platform))
    }
}

/// Plans a command that is known not to be refused.
pub fn plan_command(command: &str, working_directory: Option<&str>, platform: Platform) -> (r:
    CommandPlan)
    ensures
        r@ == command_plan(
            command@,
            match working_directory {
                Some(w) => Some(w@),
                None => None,
            },
            platform,
        ),
{
    let windows = match platform {
        Platform::Windows => true,
        _ => false,
    };
    let working_dir = match working_directory {
        Some(wd) => {
            let v = chars_of(wd);
            let (a, b) = trim_bounds(&v);
            if a == b {
                WorkingDir::Home
            } else {
                WorkingDir::Given(crate::text::string_of_range(&v, a, b))
            }
        },
        None => WorkingDir::Home,
    };
    CommandPlan {
        shell: if windows {
            owned("cmd")
        } else {
            owned("sh")
        },
        shell_flag: if windows {
            owned("/C")
        } else {
            owned("-c")
        },
        command: owned(command),
        working_dir,
    }
}

/// Decides on a one-shot command: refused where it is on the blocklist,
/// else the plan to run it. Nothing is started here.
pub fn tool_run_command(command: &str, working_directory: Option<&str>, platform: Platform) -> (r:
    Result<CommandPlan, McpToolError>)
    ensures
        match r {
            Ok(p) => run_plan(
                command@,
                lowercase(command@),
                match working_directory {
                    Some(w) => Some(w@),
                    None => None,
                },
                platform,
            ) == Ok::<_, ErrorView>(p@),
            Err(e) => run_plan(
                command@,
                lowercase(command@),
                match working_directory {
                    Some(w) => Some(w@),
                    None => None,
                },
                platform,
            ) == Err::<CommandPlanView, _>(e@),
        },
{
    if is_command_blocked(command) {
        return Err(blocked_error());
    }
    Ok(plan_command(command, working_directory, platform))
}

/// What is wrong with a working directory that was asked for, if anything:
/// it does not exist, or it is no directory.
pub open spec fn working_dir_fault(asked: Seq<char>, exists: bool, is_dir: bool) -> Option<
    ErrorView,
> {
    if !exists {
        Some(ErrorView::InvalidArg("Working directory does not exist: "@ + asked))
    } else if !is_dir {
        Some(ErrorView::InvalidArg("Working directory is not a directory: "@ + asked))
    } else {
        None
    }
}

/// Checks the working directory that was asked for against what the file
/// system says of it. `asked` is the argument as it was given.
pub fn check_working_dir(asked: &str, exists: bool, is_dir: bool) -> (r: Result<(), McpToolError>)
    ensures
        match r {
            Ok(_) => working_dir_fault(asked@, exists, is_dir) is None,
            Err(e) => working_dir_fault(asked@, exists, is_dir) == Some(e@),
        },
{
    if !exists {
        Err(McpToolError::InvalidArg(concat_str("Working directory does not exist: ", asked)))
    } else if !is_dir {
        Err(McpToolError::InvalidArg(concat_str("Working directory is not a directory: ", asked)))
    } else {
        Ok(())
    }
}

/// The failure to start the interpreter.
pub fn command_launch_failed(reason: &str) -> (e: McpToolError)
    ensures
        e@ == ErrorView::CommandFailed("Failed to execute command: "@ + reason@),
{
    McpToolError::CommandFailed(concat_str("Failed to execute command: ", reason))
}

/// The report of a command that ran: the command, where it ran, its exit
/// code (-1 where it has none), then what it wrote to its output and to its
/// error stream where that is not empty, or a note that it wrote nothing; a
/// blank line between the parts.
pub open spec fn command_report(
    command: Seq<char>,
    working_dir: Seq<char>,
    exit_code: Option<i32>,
    stdout: Seq<char>,
    stderr: Seq<char>,
) -> Seq<char> {
    let head = "Command: "@ + command + "\n\nWorking directory: "@ + working_dir
        + "\n\nExit code: "@ + signed_decimal(
        match exit_code {
            Some(c) => c as int,
            None => -1,
        },
    );
    let out = if stdout.len() > 0 {
        head + "\n\nSTDOUT:\n"@ + stdout
    } else {
        head
    };
    let err = if stderr.len() > 0 {
        out + "\n\nSTDERR:\n"@ + stderr
    } else {
        out
    };
    if stdout.len() == 0 && stderr.len() == 0 {
        err + "\n\n(No output)"@
    } else {
        err
    }
}

/// Writes the report of a command that ran.
pub fn format_command_output(
    command: &str,
    working_dir: &str,
    exit_code: Option<i32>,
    stdout: &str,
    stderr: &str,
) -> (out: String)
    ensures
        out@ == command_report(command@, working_dir@, exit_code, stdout@, stderr@),
{
    let mut v = chars_of("Command: ");
    push_str(&mut v, command);
    push_str(&mut v, "\n\nWorking directory: ");
    push_str(&mut v, working_dir);
    push_str(&mut v, "\n\nExit code: ");
    let code: i64 = match exit_code {
        Some(c) => c as i64,
        None => -1,
    };
    push_signed_decimal(&mut v, code);
    let so = chars_of(stdout);
    let se = chars_of(stderr);
    if so.len() > 0 {
        push_str(&mut v, "\n\nSTDOUT:\n");
        crate::text::push_all(&mut v, &so);
    }
    if se.len() > 0 {
        push_str(&mut v, "\n\nSTDERR:\n");
        crate::text::push_all(&mut v, &se);
    }
    if so.len() == 0 && se.len() == 0 {
        push_str(&mut v, "\n\n(No output)");
    }
    string_of(&v)
}

/// Every blocked pattern starts and ends with a character that is no white
/// space.
pub proof fn lemma_patterns_are_trimmed(i: int)
    requires
        0 <= i < blocked_patterns().len(),
    ensures
        blocked_patterns()[i].len() > 0,
        !crate::text::is_space(blocked_patterns()[i][0]),
        !crate::text::is_space(blocked_patterns()[i].last()),
{
    reveal_strlit("rm -rf /");
    reveal_strlit("rm -rf /*");
    reveal_strlit("del /s /q c:\\");
    reveal_strlit("format c:");
    reveal_strlit("format d:");
    reveal_strlit("mkfs");
    reveal_strlit(":(){:|:&};:");
    reveal_strlit("shutdown");
    reveal_strlit("reboot");
    reveal_strlit("halt");
    reveal_strlit("poweroff");
    reveal_strlit("init 0");
    reveal_strlit("init 6");
    reveal_strlit("dd if=");
    reveal_strlit("diskpart");
    reveal_strlit("bcdedit");
    reveal_strlit("reg delete");
    reveal_strlit("net user");
    reveal_strlit("net localgroup");
    reveal_strlit("schtasks /delete");
    reveal_strlit("wmic os delete");
    reveal_strlit("cipher /w:");
}

/// A command whose lower-case form holds a blocked pattern, whatever stands
/// around the pattern, is refused, and no plan to run it exists.
pub proof fn lemma_blocked_command_never_runs(
    command: Seq<char>,
    lower: Seq<char>,
    working_directory: Option<Seq<char>>,
    platform: Platform,
    i: int,
)
    requires
        0 <= i < blocked_patterns().len(),
        crate::text::found_in(lower, blocked_patterns()[i]),
    ensures
        blocked(lower),
        run_plan(command, lower, working_directory, platform) == Err::<CommandPlanView, _>(
            ErrorView::CommandFailed(blocked_message()),
        ),
{
    lemma_patterns_are_trimmed(i);
    crate::text::lemma_strip_keeps_occurrence(
        lower,
        blocked_patterns()[i],
        crate::text::CharClass::Space,
    );
}

} // verus!
