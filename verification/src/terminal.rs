//! The persistent terminal: one visible shell that is kept between calls.
//!
//! There is at most one session. A call that does not ask for a new tab
//! reuses the session where its shell is still alive: the command is written
//! to the shell as it is, with no change of directory before it, so that a
//! `cd` in one call still holds in the next. Where there is no live session,
//! a new one is started in the directory asked for, else in the directory of
//! the session before, else in the user's home. A call that asks for a new
//! tab opens a window of its own and leaves the session alone.
//!
//! The decisions are taken here; processes are started by the caller, who
//! reports how that went.

use crate::command::{blocked, blocked_error, blocked_message, is_command_blocked_text, Platform};
use crate::diag::{
    bool_member, info_view, info_with, null_member, object, record, text_member, trail_view,
    warn_view, DiagView, DiagnosticStep,
};
use crate::error::{ErrorView, McpToolError};
use crate::json::{members_view, JsonView};
use crate::text::{
    chars_of, concat_str, concat3, is_blank, is_blank_str, is_text, lowercase, owned, push_all,
    push_str, replace_str, replaced, string_of, to_lowercase, trim_chars, trim_of,
};
use vstd::prelude::*;

verus! {

/// What is known of the persistent session.
#[derive(Debug, PartialEq, Eq)]
pub struct TerminalSession {
    /// Whether a shell is held.
    pub active: bool,
    /// The directory the session was last started in; empty before the first.
    pub last_working_dir: String,
}

/// A session as plain values.
pub struct SessionView {
    pub active: bool,
    pub last_working_dir: Seq<char>,
}

impl View for TerminalSession {
    type V = SessionView;

    open spec fn view(&self) -> SessionView {
        SessionView { active: self.active, last_working_dir: self.last_working_dir@ }
    }
}

impl TerminalSession {
    /// The state before any session was started.
    pub fn new() -> (r: TerminalSession)
        ensures
            !r.active,
            r.last_working_dir@ == Seq::<char>::empty(),
    {
        proof {
            reveal_strlit("");
            assert(""@ =~= Seq::<char>::empty());
        }
        TerminalSession { active: false, last_working_dir: owned("") }
    }
}

/// A program to start in a new console, with its arguments.
#[derive(Debug, PartialEq, Eq)]
pub struct Launch {
    pub program: String,
    pub args: Vec<String>,
}

/// The views of a list of texts.
pub open spec fn texts_view(items: Seq<String>) -> Seq<Seq<char>> {
    items.map_values(|s: String| s@)
}

/// A launch as plain values.
pub struct LaunchView {
    pub program: Seq<char>,
    pub args: Seq<Seq<char>>,
}

impl View for Launch {
    type V = LaunchView;

    open spec fn view(&self) -> LaunchView {
        LaunchView { program: self.program@, args: texts_view(self.args@) }
    }
}

/// The view of a launch that may be missing.
pub open spec fn launch_view(l: Option<Launch>) -> Option<LaunchView> {
    match l {
        Some(x) => Some(x@),
        None => None,
    }
}

/// What a call does with the terminal.
#[derive(Debug, PartialEq, Eq)]
pub enum TerminalPlan {
    /// Write `input` to the live session's shell. A failure to write is not
    /// reported.
    Reuse { input: String, shell_command: String, steps: Vec<DiagnosticStep> },
    /// Open a window of its own: start `first`, and where that fails and
    /// there is a `fallback`, start that.
    NewTab {
        first: Launch,
        fallback: Option<Launch>,
        command: String,
        working_dir: String,
        steps: Vec<DiagnosticStep>,
    },
    /// Start a new session: start `launch` with a pipe for its input, write
    /// `input` to it and keep it.
    NewSession {
        launch: Launch,
        input: String,
        command: String,
        working_dir: String,
        steps: Vec<DiagnosticStep>,
    },
}

/// A plan as plain values.
pub enum PlanView {
    Reuse { input: Seq<char>, shell_command: Seq<char>, trail: Seq<DiagView> },
    NewTab {
        first: LaunchView,
        fallback: Option<LaunchView>,
        command: Seq<char>,
        working_dir: Seq<char>,
        trail: Seq<DiagView>,
    },
    NewSession {
        launch: LaunchView,
        input: Seq<char>,
        command: Seq<char>,
        working_dir: Seq<char>,
        trail: Seq<DiagView>,
    },
}

impl View for TerminalPlan {
    type V = PlanView;

    open spec fn view(&self) -> PlanView {
        match self {
            TerminalPlan::Reuse { input, shell_command, steps } => PlanView::Reuse {
                input: input@,
                shell_command: shell_command@,
                trail: trail_view(steps@),
            },
            TerminalPlan::NewTab { first, fallback, command, working_dir, steps } => {
                PlanView::NewTab {
                    first: first@,
                    fallback: launch_view(*fallback),
                    command: command@,
                    working_dir: working_dir@,
                    trail: trail_view(steps@),
                }
            },
            TerminalPlan::NewSession { launch, input, command, working_dir, steps } => {
                PlanView::NewSession {
                    launch: launch@,
                    input: input@,
                    command: command@,
                    working_dir: working_dir@,
                    trail: trail_view(steps@),
                }
            },
        }
    }
}

/// A command as the shell takes it: `; ` for each ` && `.
pub open spec fn shell_form(command: Seq<char>) -> Seq<char> {
    replaced(command, " && "@, "; "@)
}

/// The directory a new session starts in: the one asked for where it is not
/// blank, else the one of the session before where there was one, else the
/// user's home.
pub open spec fn effective_dir(asked: Option<Seq<char>>, last: Seq<char>, home: Seq<char>) -> Seq<
    char,
> {
    match asked {
        Some(wd) => if !is_blank(wd) {
            wd
        } else if last.len() > 0 {
            last
        } else {
            home
        },
        None => if last.len() > 0 {
            last
        } else {
            home
        },
    }
}

/// What is written to a new session's shell: the change to the directory,
/// quoted, then the command.
pub open spec fn session_input(working_dir: Seq<char>, command: Seq<char>) -> Seq<char> {
    "Set-Location '"@ + replaced(working_dir, seq!['\''], seq!['\'', '\'']) + "'\r\n"@
        + shell_form(command) + "\r\n"@
}

/// The window that a call for a new tab opens, by the shell asked for in
/// lower case: the terminal host with a fallback, the command interpreter,
/// or, for everything else, the default shell.
pub open spec fn new_tab_launch(shell_lower: Seq<char>, command: Seq<char>, keep_open: bool) -> (
    LaunchView,
    Option<LaunchView>,
    Seq<char>,
) {
    if shell_lower == "wt"@ {
        (
            LaunchView {
                program: "wt"@,
                args: seq!["powershell"@, "-NoExit"@, "-Command"@, command],
            },
            Some(
                LaunchView { program: "powershell"@, args: seq!["-NoExit"@, "-Command"@, command] },
            ),
            "Step: Windows Terminal (wt)"@,
        )
    } else if shell_lower == "cmd"@ {
        (LaunchView { program: "cmd"@, args: seq!["/k"@, command] }, None, "Step: cmd /k"@)
    } else {
        (
            LaunchView {
                program: "powershell"@,
                args: if keep_open {
                    seq!["-NoExit"@, "-Command"@, command]
                } else {
                    seq!["-Command"@, command]
                },
            },
            None,
            "Step: PowerShell -NoExit -Command"@,
        )
    }
}

/// The payload of the first entry of the trail: the arguments of the call.
pub open spec fn arguments_meta(
    shell: Seq<char>,
    keep_open: bool,
    new_tab: bool,
    working_directory: Option<Seq<char>>,
) -> Seq<(Seq<char>, JsonView)> {
    seq![
        ("shell"@, JsonView::Text(shell)),
        ("keep_open"@, JsonView::Bool(keep_open)),
        ("new_tab"@, JsonView::Bool(new_tab)),
        (
            "working_directory"@,
            match working_directory {
                Some(w) => JsonView::Text(w),
                None => JsonView::Null,
            },
        ),
    ]
}

/// What a call does with the terminal. `shell_lower` and `command_lower`
/// are the lower-case forms of the shell and the command; `alive` says
/// whether the session's shell still runs (it is read only where a session
/// is held and no new tab is asked for).
pub open spec fn terminal_plan(
    session: SessionView,
    platform: Platform,
    shell: Seq<char>,
    shell_lower: Seq<char>,
    command: Seq<char>,
    command_lower: Seq<char>,
    keep_open: bool,
    working_directory: Option<Seq<char>>,
    new_tab: bool,
    alive: bool,
    home: Seq<char>,
) -> Result<PlanView, ErrorView> {
    if platform != Platform::Windows {
        Err(
            ErrorView::InvalidArg(
                "open_terminal_and_run is only supported on Windows. Use run_command for: "@
                    + command,
            ),
        )
    } else if blocked(command_lower) {
        Err(ErrorView::CommandFailed(blocked_message()))
    } else if trim_of(command).len() == 0 {
        Err(ErrorView::InvalidArg("command cannot be empty"@))
    } else {
        let cmd = trim_of(command);
        let wd = effective_dir(working_directory, session.last_working_dir, home);
        let first = info_with(
            "open_terminal_and_run: validating arguments"@,
            arguments_meta(shell, keep_open, new_tab, working_directory),
        );
        if !new_tab && session.active && alive {
            Ok(
                PlanView::Reuse {
                    input: shell_form(cmd) + "\r\n"@,
                    shell_command: shell_form(cmd),
                    trail: seq![first],
                },
            )
        } else if new_tab {
            let (launch, fallback, step) = new_tab_launch(shell_lower, cmd, keep_open);
            Ok(
                PlanView::NewTab {
                    first: launch,
                    fallback,
                    command: cmd,
                    working_dir: wd,
                    trail: seq![first, info_view(step)],
                },
            )
        } else {
            Ok(
                PlanView::NewSession {
                    launch: LaunchView { program: "powershell"@, args: seq!["-NoExit"@] },
                    input: session_input(wd, cmd),
                    command: cmd,
                    working_dir: wd,
                    trail: seq![
                        first,
                        info_view("Step: starting persistent PowerShell (reuse same tab)"@),
                    ],
                },
            )
        }
    }
}

fn launch1(program: &str, a: &str) -> (r: Launch)
    ensures
        r@ == (LaunchView { program: program@, args: seq![a@] }),
{
    let args = vec![owned(a)];
    assert(texts_view(args@) =~= seq![a@]);
    Launch { program: owned(program), args }
}

fn launch2(program: &str, a: &str, b: &str) -> (r: Launch)
    ensures
        r@ == (LaunchView { program: program@, args: seq![a@, b@] }),
{
    let args = vec![owned(a), owned(b)];
    assert(texts_view(args@) =~= seq![a@, b@]);
    Launch { program: owned(program), args }
}

fn launch3(program: &str, a: &str, b: &str, c: &str) -> (r: Launch)
    ensures
        r@ == (LaunchView { program: program@, args: seq![a@, b@, c@] }),
{
    let args = vec![owned(a), owned(b), owned(c)];
    assert(texts_view(args@) =~= seq![a@, b@, c@]);
    Launch { program: owned(program), args }
}

fn launch4(program: &str, a: &str, b: &str, c: &str, d: &str) -> (r: Launch)
    ensures
        r@ == (LaunchView { program: program@, args: seq![a@, b@, c@, d@] }),
{
    let args = vec![owned(a), owned(b), owned(c), owned(d)];
    assert(texts_view(args@) =~= seq![a@, b@, c@, d@]);
    Launch { program: owned(program), args }
}

/// Computes `effective_dir`.
pub fn resolve_working_dir(asked: Option<&str>, last: &str, home: &str) -> (r: String)
    ensures
        r@ == effective_dir(
            match asked {
                Some(w) => Some(w@),
                None => None,
            },
            last@,
            home@,
        ),
{
    let given = match asked {
        Some(wd) => !is_blank_str(wd),
        None => false,
    };
    if given {
        match asked {
            Some(wd) => owned(wd),
            None => owned(home),
        }
    } else {
        let l = chars_of(last);
        if l.len() > 0 {
            string_of(&l)
        } else {
            owned(home)
        }
    }
}

/// Decides what a call does with the terminal, given the lower-case forms of
/// the shell and the command. Nothing is started here.
pub fn plan_terminal(
    session: &TerminalSession,
    platform: Platform,
    shell: &str,
    shell_lower: &str,
    command: &str,
    command_lower: &str,
    keep_open: bool,
    working_directory: Option<&str>,
    new_tab: bool,
    alive: bool,
    home: &str,
) -> (r: Result<TerminalPlan, McpToolError>)
    ensures
        match r {
            Ok(p) => terminal_plan(
                session@,
                platform,
                shell@,
                shell_lower@,
                command@,
                command_lower@,
                keep_open,
                match working_directory {
                    Some(w) => Some(w@),
                    None => None,
                },
                new_tab,
                alive,
                home@,
            ) == Ok::<_, ErrorView>(p@),
            Err(e) => terminal_plan(
                session@,
                platform,
                shell@,
                shell_lower@,
                command@,
                command_lower@,
                keep_open,
                match working_directory {
                    Some(w) => Some(w@),
                    None => None,
                },
                new_tab,
                alive,
                home@,
            ) == Err::<PlanView, _>(e@),
        },
{
    match platform {
        Platform::Windows => {},
        _ => {
            return Err(
                McpToolError::InvalidArg(
                    concat_str(
                        "open_terminal_and_run is only supported on Windows. Use run_command for: ",
                        command,
                    ),
                ),
            );
        },
    }
    if is_command_blocked_text(command_lower) {
        return Err(blocked_error());
    }
    let raw = chars_of(command);
    let cmd = trim_chars(&raw);
    if cmd.len() == 0 {
        return Err(McpToolError::InvalidArg(owned("command cannot be empty")));
    }
    let command_text = string_of(&cmd);
    let wd = resolve_working_dir(working_directory, session.last_working_dir.as_str(), home);
    let members = vec![
        text_member("shell", shell),
        bool_member("keep_open", keep_open),
        bool_member("new_tab", new_tab),
        match working_directory {
            Some(w) => text_member("working_directory", w),
            None => null_member("working_directory"),
        },
    ];
    let ghost wanted = arguments_meta(
        shell@,
        keep_open,
        new_tab,
        match working_directory {
            Some(w) => Some(w@),
            None => None,
        },
    );
    assert(members_view(members@) =~= wanted);
    let meta = object(members);
    let mut steps: Vec<DiagnosticStep> = Vec::new();
    assert(trail_view(steps@) =~= Seq::<DiagView>::empty());
    record(
        &mut steps,
        DiagnosticStep::info(owned("open_terminal_and_run: validating arguments"), Some(meta)),
    );
    let ghost first = info_with("open_terminal_and_run: validating arguments"@, wanted);
    assert(trail_view(steps@) =~= seq![first]);
    if !new_tab && session.active && alive {
        let line = replace_str(&cmd, " && ", "; ");
        let mut input: Vec<char> = Vec::new();
        push_all(&mut input, &line);
        push_str(&mut input, "\r\n");
        assert(Seq::<char>::empty() + line@ == line@);
        return Ok(
            TerminalPlan::Reuse { input: string_of(&input), shell_command: string_of(&line), steps },
        );
    }
    if new_tab {
        let sl = chars_of(shell_lower);
        let c = command_text.as_str();
        if is_text(&sl, "wt") {
            record(&mut steps, DiagnosticStep::info(owned("Step: Windows Terminal (wt)"), None));
            assert(trail_view(steps@) =~= seq![first, info_view("Step: Windows Terminal (wt)"@)]);
            return Ok(
                TerminalPlan::NewTab {
                    first: launch4("wt", "powershell", "-NoExit", "-Command", c),
                    fallback: Some(launch3("powershell", "-NoExit", "-Command", c)),
                    command: string_of(&cmd),
                    working_dir: wd,
                    steps,
                },
            );
        } else if is_text(&sl, "cmd") {
            record(&mut steps, DiagnosticStep::info(owned("Step: cmd /k"), None));
            assert(trail_view(steps@) =~= seq![first, info_view("Step: cmd /k"@)]);
            return Ok(
                TerminalPlan::NewTab {
                    first: launch2("cmd", "/k", c),
                    fallback: None,
                    command: string_of(&cmd),
                    working_dir: wd,
                    steps,
                },
            );
        } else {
            record(
                &mut steps,
                DiagnosticStep::info(owned("Step: PowerShell -NoExit -Command"), None),
            );
            assert(trail_view(steps@) =~= seq![
                first,
                info_view("Step: PowerShell -NoExit -Command"@),
            ]);
            let launch = if keep_open {
                launch3("powershell", "-NoExit", "-Command", c)
            } else {
                launch2("powershell", "-Command", c)
            };
            return Ok(
                TerminalPlan::NewTab {
                    first: launch,
                    fallback: None,
                    command: string_of(&cmd),
                    working_dir: wd,
                    steps,
                },
            );
        }
    }
    record(
        &mut steps,
        DiagnosticStep::info(owned("Step: starting persistent PowerShell (reuse same tab)"), None),
    );
    assert(trail_view(steps@) =~= seq![
        first,
        info_view("Step: starting persistent PowerShell (reuse same tab)"@),
    ]);
    proof {
        reveal_strlit("'");
        reveal_strlit("''");
        assert("'"@ =~= seq!['\'']);
        assert("''"@ =~= seq!['\'', '\'']);
    }
    let w = chars_of(wd.as_str());
    let quoted = replace_str(&w, "'", "''");
    let line = replace_str(&cmd, " && ", "; ");
    let mut input = chars_of("Set-Location '");
    push_all(&mut input, &quoted);
    push_str(&mut input, "'\r\n");
    push_all(&mut input, &line);
    push_str(&mut input, "\r\n");
    Ok(
        TerminalPlan::NewSession {
            launch: launch1("powershell", "-NoExit"),
            input: string_of(&input),
            command: command_text,
            working_dir: wd,
            steps,
        },
    )
}

/// Decides what a call does with the terminal: a command on the blocklist
/// is refused, a blank one is invalid; a live session is reused unless a new
/// tab is asked for; else a window or a new session is started. Nothing is
/// started here.
pub fn tool_open_terminal_and_run(
    session: &TerminalSession,
    platform: Platform,
    shell: &str,
    command: &str,
    keep_open: bool,
    working_directory: Option<&str>,
    new_tab: bool,
    alive: bool,
    home: &str,
) -> (r: Result<TerminalPlan, McpToolError>)
    ensures
        match r {
            Ok(p) => terminal_plan(
                session@,
                platform,
                shell@,
                lowercase(shell@),
                command@,
                lowercase(command@),
                keep_open,
                match working_directory {
                    Some(w) => Some(w@),
                    None => None,
                },
                new_tab,
                alive,
                home@,
            ) == Ok::<_, ErrorView>(p@),
            Err(e) => terminal_plan(
                session@,
                platform,
                shell@,
                lowercase(shell@),
                command@,
                lowercase(command@),
                keep_open,
                match working_directory {
                    Some(w) => Some(w@),
                    None => None,
                },
                new_tab,
                alive,
                home@,
            ) == Err::<PlanView, _>(e@),
        },
{
    let shell_lower = to_lowercase(shell);
    let command_lower = to_lowercase(command);
    plan_terminal(
        session,
        platform,
        shell,
        shell_lower.as_str(),
        command,
        command_lower.as_str(),
        keep_open,
        working_directory,
        new_tab,
        alive,
        home,
    )
}

/// How opening a window went.
#[derive(Debug, PartialEq, Eq)]
pub enum OpenOutcome {
    /// The first program started.
    Opened,
    /// The first program failed with this message; the fallback started.
    FellBack(String),
    /// Nothing started; the field is the message of the last failure.
    Failed(String),
}

/// How starting a session went.
#[derive(Debug, PartialEq, Eq)]
pub enum StartOutcome {
    /// The shell runs and took its input.
    Started,
    /// The shell did not start.
    SpawnFailed(String),
    /// The shell started without a pipe for its input.
    NoInput,
    /// The input could not be written.
    WriteFailed(String),
    /// The input could not be flushed.
    FlushFailed(String),
    /// The session could not be stored.
    LockFailed(String),
}

/// The result of a call: the content, the shell that was used, and the
/// trail.
pub struct TerminalResultView {
    pub content: Seq<char>,
    pub shell_used: Seq<char>,
    pub trail: Seq<DiagView>,
}

/// The view of a call's result.
pub open spec fn result_view(r: (String, String, Vec<DiagnosticStep>)) -> TerminalResultView {
    TerminalResultView { content: r.0@, shell_used: r.1@, trail: trail_view(r.2@) }
}

/// The result of a command that was written to the live session.
pub open spec fn reuse_result(shell_command: Seq<char>, trail: Seq<DiagView>) -> TerminalResultView {
    TerminalResultView {
        content: "Ran in existing terminal (PowerShell).\nCommand: "@ + shell_command,
        shell_used: "powershell"@,
        trail: trail.push(
            info_with(
                "Reused existing terminal; command sent (no Set-Location)."@,
                seq![("command"@, JsonView::Text(shell_command))],
            ),
        ),
    }
}

/// The result of a window that opened with the shell `shell_used`.
pub open spec fn opened_result(
    shell_used: Seq<char>,
    command: Seq<char>,
    working_dir: Seq<char>,
    trail: Seq<DiagView>,
) -> TerminalResultView {
    TerminalResultView {
        content: "Opened new terminal window.\nShell: "@ + shell_used + "\nCommand: "@ + command
            + "\nWorking directory: "@ + working_dir,
        shell_used,
        trail: trail.push(
            info_with(
                "Opened new terminal tab. Shell: "@ + shell_used,
                seq![("shell_used"@, JsonView::Text(shell_used))],
            ),
        ),
    }
}

/// The result of opening a window, by how it went.
pub open spec fn new_tab_result(
    first: LaunchView,
    fallback: Option<LaunchView>,
    command: Seq<char>,
    working_dir: Seq<char>,
    trail: Seq<DiagView>,
    outcome: OpenOutcome,
) -> Result<TerminalResultView, ErrorView> {
    match outcome {
        OpenOutcome::Opened => Ok(opened_result(first.program, command, working_dir, trail)),
        OpenOutcome::FellBack(e) => Ok(
            opened_result(
                "powershell"@,
                command,
                working_dir,
                trail.push(warn_view("wt failed ("@ + e@ + "), falling back to powershell"@)),
            ),
        ),
        OpenOutcome::Failed(e) => Err(
            ErrorView::CommandFailed(
                if fallback is Some {
                    "wt and powershell failed: "@ + e@
                } else {
                    first.program + " spawn failed: "@ + e@
                },
            ),
        ),
    }
}

/// The result of starting a session, by how it went.
pub open spec fn new_session_result(
    command: Seq<char>,
    working_dir: Seq<char>,
    trail: Seq<DiagView>,
    outcome: StartOutcome,
) -> Result<TerminalResultView, ErrorView> {
    match outcome {
        StartOutcome::Started => Ok(
            TerminalResultView {
                content: "Opened terminal (reuse same tab for next commands).\nWorking directory: "@
                    + working_dir + "\nCommand: "@ + command,
                shell_used: "powershell"@,
                trail: trail.push(
                    info_with(
                        "Persistent terminal started; future commands will reuse this tab."@,
                        seq![("working_directory"@, JsonView::Text(working_dir))],
                    ),
                ),
            },
        ),
        StartOutcome::SpawnFailed(e) => Err(
            ErrorView::CommandFailed("powershell spawn failed: "@ + e@),
        ),
        StartOutcome::NoInput => Err(ErrorView::CommandFailed("could not take stdin"@)),
        StartOutcome::WriteFailed(e) => Err(
            ErrorView::CommandFailed("write to terminal failed: "@ + e@),
        ),
        StartOutcome::FlushFailed(e) => Err(ErrorView::CommandFailed("flush failed: "@ + e@)),
        StartOutcome::LockFailed(e) => Err(
            ErrorView::CommandFailed("terminal lock poisoned: "@ + e@),
        ),
    }
}

/// The session after an attempt to start one in `working_dir`: held, and
/// remembered with its directory, where the shell started; not held
/// otherwise.
pub open spec fn session_after_start(
    before: SessionView,
    working_dir: Seq<char>,
    outcome: StartOutcome,
) -> SessionView {
    match outcome {
        StartOutcome::Started => SessionView { active: true, last_working_dir: working_dir },
        _ => SessionView { active: false, last_working_dir: before.last_working_dir },
    }
}

/// Ends a call that wrote its command to the live session.
pub fn complete_reuse(shell_command: String, steps: Vec<DiagnosticStep>) -> (r: (
    String,
    String,
    Vec<DiagnosticStep>,
))
    ensures
        result_view(r) == reuse_result(shell_command@, trail_view(steps@)),
{
    let mut steps = steps;
    let members = vec![text_member("command", shell_command.as_str())];
    assert(members_view(members@) =~= seq![("command"@, JsonView::Text(shell_command@))]);
    let meta = object(members);
    record(
        &mut steps,
        DiagnosticStep::info(
            owned("Reused existing terminal; command sent (no Set-Location)."),
            Some(meta),
        ),
    );
    (
        concat_str("Ran in existing terminal (PowerShell).\nCommand: ", shell_command.as_str()),
        owned("powershell"),
        steps,
    )
}

fn opened(shell_used: String, command: &str, working_dir: &str, steps: Vec<DiagnosticStep>) -> (r:
    (String, String, Vec<DiagnosticStep>))
    ensures
        result_view(r) == opened_result(shell_used@, command@, working_dir@, trail_view(steps@)),
{
    let mut steps = steps;
    let members = vec![text_member("shell_used", shell_used.as_str())];
    assert(members_view(members@) =~= seq![("shell_used"@, JsonView::Text(shell_used@))]);
    let meta = object(members);
    record(
        &mut steps,
        DiagnosticStep::info(
            concat_str("Opened new terminal tab. Shell: ", shell_used.as_str()),
            Some(meta),
        ),
    );
    let mut content = chars_of("Opened new terminal window.\nShell: ");
    push_str(&mut content, shell_used.as_str());
    push_str(&mut content, "\nCommand: ");
    push_str(&mut content, command);
    push_str(&mut content, "\nWorking directory: ");
    push_str(&mut content, working_dir);
    (string_of(&content), shell_used, steps)
}

/// Ends a call that opened a window, by how that went.
pub fn complete_new_tab(
    first: Launch,
    fallback: Option<Launch>,
    command: String,
    working_dir: String,
    steps: Vec<DiagnosticStep>,
    outcome: OpenOutcome,
) -> (r: Result<(String, String, Vec<DiagnosticStep>), McpToolError>)
    ensures
        match r {
            Ok(t) => new_tab_result(
                first@,
                launch_view(fallback),
                command@,
                working_dir@,
                trail_view(steps@),
                outcome,
            ) == Ok::<_, ErrorView>(result_view(t)),
            Err(e) => new_tab_result(
                first@,
                launch_view(fallback),
                command@,
                working_dir@,
                trail_view(steps@),
                outcome,
            ) == Err::<TerminalResultView, _>(e@),
        },
{
    match outcome {
        OpenOutcome::Opened => Ok(
            opened(first.program, command.as_str(), working_dir.as_str(), steps),
        ),
        OpenOutcome::FellBack(e) => {
            let mut steps = steps;
            record(
                &mut steps,
                DiagnosticStep::warn(
                    concat3("wt failed (", e.as_str(), "), falling back to powershell"),
                    None,
                ),
            );
            Ok(opened(owned("powershell"), command.as_str(), working_dir.as_str(), steps))
        },
        OpenOutcome::Failed(e) => {
            if fallback.is_some() {
                Err(McpToolError::CommandFailed(concat_str("wt and powershell failed: ", e.as_str())))
            } else {
                Err(
                    McpToolError::CommandFailed(
                        concat3(first.program.as_str(), " spawn failed: ", e.as_str()),
                    ),
                )
            }
        },
    }
}

/// Ends a call that started a session, by how that went, and records what
/// became of the session.
pub fn complete_new_session(
    session: &mut TerminalSession,
    command: String,
    working_dir: String,
    steps: Vec<DiagnosticStep>,
    outcome: StartOutcome,
) -> (r: Result<(String, String, Vec<DiagnosticStep>), McpToolError>)
    ensures
        final(session)@ == session_after_start(old(session)@, working_dir@, outcome),
        match r {
            Ok(t) => new_session_result(command@, working_dir@, trail_view(steps@), outcome)
                == Ok::<_, ErrorView>(result_view(t)),
            Err(e) => new_session_result(command@, working_dir@, trail_view(steps@), outcome)
                == Err::<TerminalResultView, _>(e@),
        },
{
    match outcome {
        StartOutcome::Started => {
            let mut steps = steps;
            let members = vec![text_member("working_directory", working_dir.as_str())];
            assert(members_view(members@) =~= seq![
                ("working_directory"@, JsonView::Text(working_dir@)),
            ]);
            let meta = object(members);
            record(
                &mut steps,
                DiagnosticStep::info(
                    owned("Persistent terminal started; future commands will reuse this tab."),
                    Some(meta),
                ),
            );
            let mut content = chars_of(
                "Opened terminal (reuse same tab for next commands).\nWorking directory: ",
            );
            push_str(&mut content, working_dir.as_str());
            push_str(&mut content, "\nCommand: ");
            push_str(&mut content, command.as_str());
            session.active = true;
            session.last_working_dir = working_dir;
            Ok((string_of(&content), owned("powershell"), steps))
        },
        StartOutcome::SpawnFailed(e) => {
            session.active = false;
            Err(McpToolError::CommandFailed(concat_str("powershell spawn failed: ", e.as_str())))
        },
        StartOutcome::NoInput => {
            session.active = false;
            Err(McpToolError::CommandFailed(owned("could not take stdin")))
        },
        StartOutcome::WriteFailed(e) => {
            session.active = false;
            Err(McpToolError::CommandFailed(concat_str("write to terminal failed: ", e.as_str())))
        },
        StartOutcome::FlushFailed(e) => {
            session.active = false;
            Err(McpToolError::CommandFailed(concat_str("flush failed: ", e.as_str())))
        },
        StartOutcome::LockFailed(e) => {
            session.active = false;
            Err(McpToolError::CommandFailed(concat_str("terminal lock poisoned: ", e.as_str())))
        },
    }
}

/// A command on the blocklist never reaches the terminal: the call is
/// refused, on every platform, whatever the session and the arguments.
pub proof fn lemma_blocked_command_never_opens(
    session: SessionView,
    platform: Platform,
    shell: Seq<char>,
    shell_lower: Seq<char>,
    command: Seq<char>,
    command_lower: Seq<char>,
    keep_open: bool,
    working_directory: Option<Seq<char>>,
    new_tab: bool,
    alive: bool,
    home: Seq<char>,
    i: int,
)
    requires
        0 <= i < crate::command::blocked_patterns().len(),
        crate::text::found_in(command_lower, crate::command::blocked_patterns()[i]),
    ensures
        terminal_plan(
            session,
            platform,
            shell,
            shell_lower,
            command,
            command_lower,
            keep_open,
            working_directory,
            new_tab,
            alive,
            home,
        ) is Err,
{
    crate::command::lemma_blocked_command_never_runs(
        command,
        command_lower,
        working_directory,
        platform,
        i,
    );
}

/// A call that reuses the live session writes the command and nothing else:
/// what is written is the command in the shell's form and the end of the
/// line, whatever directory is asked for, remembered or the user's home. No
/// change of directory goes before it, so the shell stays where the calls
/// before left it.
pub proof fn lemma_reuse_keeps_directory(
    session: SessionView,
    shell: Seq<char>,
    shell_lower: Seq<char>,
    command: Seq<char>,
    command_lower: Seq<char>,
    keep_open: bool,
    working_directory: Option<Seq<char>>,
    home: Seq<char>,
)
    requires
        session.active,
        !blocked(command_lower),
        trim_of(command).len() > 0,
    ensures
        terminal_plan(
            session,
            Platform::Windows,
            shell,
            shell_lower,
            command,
            command_lower,
            keep_open,
            working_directory,
            false,
            true,
            home,
        ) matches Ok(PlanView::Reuse { input, .. }) && input == shell_form(trim_of(command))
            + "\r\n"@,
{
}

} // verus!
