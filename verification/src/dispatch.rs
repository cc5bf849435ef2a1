//! The dispatcher: from a tool's name and its arguments to the request that
//! the tool is to carry out, and from the tool's outcome to the envelope.
//!
//! The dispatcher is where the boundaries are enforced. A tool that works
//! under a root gets its root here, and is refused where the root is not
//! configured, whatever the catalogue offered.

use crate::error::{ErrorView, McpToolError};
use crate::json::{Json, JsonView};
use crate::fetch::{clamp_max_chars, fetch_budget};
use crate::output::{opt_view, ResultView, ToolResult};
use crate::text::{
    chars_of, concat3, concat_str, is_blank, is_blank_str, is_text, owned, trim, trim_of,
};
use vstd::prelude::*;

verus! {

/// The arguments of a tool call: every argument that any tool takes, each
/// present or not. A tool reads the ones it needs.
#[derive(Debug, PartialEq, Eq)]
pub struct ToolCallArgs {
    pub path: Option<String>,
    pub content: Option<String>,
    pub head: Option<u32>,
    pub tail: Option<u32>,
    pub depth: Option<u32>,
    pub query: Option<String>,
    pub max_results: Option<u32>,
    /// Whether the pages of the results are fetched for excerpts.
    pub include_page_excerpts: Option<bool>,
    pub command: Option<String>,
    pub working_directory: Option<String>,
    pub shell: Option<String>,
    pub keep_open: Option<bool>,
    /// Whether a new terminal window is opened instead of the shared one.
    pub new_tab: Option<bool>,
    /// The address to open or fetch.
    pub url: Option<String>,
    /// The search engine of a browser search.
    pub engine: Option<String>,
    /// The most characters of a fetched page to return.
    pub max_chars: Option<u32>,
}

/// The arguments of a call as plain values.
pub struct ArgsView {
    pub path: Option<Seq<char>>,
    pub content: Option<Seq<char>>,
    pub head: Option<u32>,
    pub tail: Option<u32>,
    pub depth: Option<u32>,
    pub query: Option<Seq<char>>,
    pub max_results: Option<u32>,
    pub include_page_excerpts: Option<bool>,
    pub command: Option<Seq<char>>,
    pub working_directory: Option<Seq<char>>,
    pub shell: Option<Seq<char>>,
    pub keep_open: Option<bool>,
    pub new_tab: Option<bool>,
    pub url: Option<Seq<char>>,
    pub engine: Option<Seq<char>>,
    pub max_chars: Option<u32>,
}

impl View for ToolCallArgs {
    type V = ArgsView;

    open spec fn view(&self) -> ArgsView {
        ArgsView {
            path: opt_view(self.path),
            content: opt_view(self.content),
            head: self.head,
            tail: self.tail,
            depth: self.depth,
            query: opt_view(self.query),
            max_results: self.max_results,
            include_page_excerpts: self.include_page_excerpts,
            command: opt_view(self.command),
            working_directory: opt_view(self.working_directory),
            shell: opt_view(self.shell),
            keep_open: self.keep_open,
            new_tab: self.new_tab,
            url: opt_view(self.url),
            engine: opt_view(self.engine),
            max_chars: self.max_chars,
        }
    }
}

impl ToolCallArgs {
    /// The arguments of a call that gives none.
    pub fn empty() -> (r: ToolCallArgs)
        ensures
            r.path is None,
            r.content is None,
            r.head is None,
            r.tail is None,
            r.depth is None,
            r.query is None,
            r.max_results is None,
            r.include_page_excerpts is None,
            r.command is None,
            r.working_directory is None,
            r.shell is None,
            r.keep_open is None,
            r.new_tab is None,
            r.url is None,
            r.engine is None,
            r.max_chars is None,
    {
        ToolCallArgs {
            path: None,
            content: None,
            head: None,
            tail: None,
            depth: None,
            query: None,
            max_results: None,
            include_page_excerpts: None,
            command: None,
            working_directory: None,
            shell: None,
            keep_open: None,
            new_tab: None,
            url: None,
            engine: None,
            max_chars: None,
        }
    }
}

/// The kind of value that an argument takes.
#[derive(Debug, Clone, Copy, PartialEq, Eq)]
pub enum ArgKind {
    /// A string.
    Text,
    /// An integer from 0 to 4294967295.
    Number,
    /// `true` or `false`.
    Flag,
}

/// The arguments that tools take, each with its kind, in the order in which
/// they are read.
pub open spec fn argument_kinds() -> Seq<(Seq<char>, ArgKind)> {
    seq![
        ("path"@, ArgKind::Text),
        ("content"@, ArgKind::Text),
        ("head"@, ArgKind::Number),
        ("tail"@, ArgKind::Number),
        ("depth"@, ArgKind::Number),
        ("query"@, ArgKind::Text),
        ("max_results"@, ArgKind::Number),
        ("include_page_excerpts"@, ArgKind::Flag),
        ("command"@, ArgKind::Text),
        ("working_directory"@, ArgKind::Text),
        ("shell"@, ArgKind::Text),
        ("keep_open"@, ArgKind::Flag),
        ("new_tab"@, ArgKind::Flag),
        ("url"@, ArgKind::Text),
        ("engine"@, ArgKind::Text),
        ("max_chars"@, ArgKind::Number),
    ]
}

/// Whether a member is a value of the kind, or is absent or `null`.
pub open spec fn fits(member: Option<JsonView>, kind: ArgKind) -> bool {
    match member {
        None => true,
        Some(JsonView::Null) => true,
        Some(JsonView::Text(_)) => kind == ArgKind::Text,
        Some(JsonView::Unsigned(n)) => kind == ArgKind::Number && n <= 0xffff_ffff,
        Some(JsonView::Bool(_)) => kind == ArgKind::Flag,
        Some(_) => false,
    }
}

/// The text of an argument that is given.
pub open spec fn text_arg(args: JsonView, key: Seq<char>) -> Option<Seq<char>> {
    match args.member(key) {
        Some(JsonView::Text(s)) => Some(s),
        _ => None,
    }
}

/// The number of an argument that is given.
pub open spec fn number_arg(args: JsonView, key: Seq<char>) -> Option<u32> {
    match args.member(key) {
        Some(JsonView::Unsigned(n)) => if n <= 0xffff_ffff {
            Some(n as u32)
        } else {
            None
        },
        _ => None,
    }
}

/// The truth value of an argument that is given.
pub open spec fn flag_arg(args: JsonView, key: Seq<char>) -> Option<bool> {
    match args.member(key) {
        Some(JsonView::Bool(b)) => Some(b),
        _ => None,
    }
}

/// What an argument of a kind must be, in words.
pub open spec fn kind_words(kind: ArgKind) -> Seq<char> {
    match kind {
        ArgKind::Text => " must be a string"@,
        ArgKind::Number => " must be an integer from 0 to 4294967295"@,
        ArgKind::Flag => " must be true or false"@,
    }
}

/// What is wrong with the first of `kinds` that the arguments do not fit, if
/// there is one.
pub open spec fn first_misfit(args: JsonView, kinds: Seq<(Seq<char>, ArgKind)>) -> Option<
    Seq<char>,
>
    decreases kinds.len(),
{
    if kinds.len() == 0 {
        None
    } else if !fits(args.member(kinds[0].0), kinds[0].1) {
        Some("Invalid arguments: "@ + kinds[0].0 + kind_words(kinds[0].1))
    } else {
        first_misfit(args, kinds.drop_first())
    }
}

/// Whether some tool takes an argument of this name.
pub open spec fn is_argument(key: Seq<char>) -> bool {
    exists|i: int| 0 <= i < argument_kinds().len() && #[trigger] argument_kinds()[i].0 == key
}

/// The key of the first of `members`, in order, that no tool takes as an
/// argument, if there is one.
pub open spec fn first_unknown(members: Seq<(Seq<char>, JsonView)>) -> Option<Seq<char>>
    decreases members.len(),
{
    if members.len() == 0 {
        None
    } else if !is_argument(members[0].0) {
        Some(members[0].0)
    } else {
        first_unknown(members.drop_first())
    }
}

/// What is wrong with the arguments of a call, if anything: they are no
/// object, or the object has a member that no tool takes as an argument, or
/// one of the arguments is of the wrong kind.
pub open spec fn arguments_fault(args: JsonView) -> Option<Seq<char>> {
    match args {
        JsonView::Object(members) => match first_unknown(members) {
            Some(key) => Some("Invalid arguments: unknown field "@ + key),
            None => first_misfit(args, argument_kinds()),
        },
        _ => Some("Invalid arguments: expected an object"@),
    }
}

/// What the arguments of a call give: each argument that is given and of
/// its kind.
pub open spec fn given(args: JsonView) -> ArgsView {
    ArgsView {
        path: text_arg(args, "path"@),
        content: text_arg(args, "content"@),
        head: number_arg(args, "head"@),
        tail: number_arg(args, "tail"@),
        depth: number_arg(args, "depth"@),
        query: text_arg(args, "query"@),
        max_results: number_arg(args, "max_results"@),
        include_page_excerpts: flag_arg(args, "include_page_excerpts"@),
        command: text_arg(args, "command"@),
        working_directory: text_arg(args, "working_directory"@),
        shell: text_arg(args, "shell"@),
        keep_open: flag_arg(args, "keep_open"@),
        new_tab: flag_arg(args, "new_tab"@),
        url: text_arg(args, "url"@),
        engine: text_arg(args, "engine"@),
        max_chars: number_arg(args, "max_chars"@),
    }
}

fn misfit(key: &str, kind: ArgKind) -> (e: McpToolError)
    ensures
        e@ == ErrorView::InvalidArg("Invalid arguments: "@ + key@ + kind_words(kind)),
{
    let words = match kind {
        ArgKind::Text => " must be a string",
        ArgKind::Number => " must be an integer from 0 to 4294967295",
        ArgKind::Flag => " must be true or false",
    };
    McpToolError::InvalidArg(concat3("Invalid arguments: ", key, words))
}

fn read_text(args: &Json, key: &str) -> (r: Result<Option<String>, McpToolError>)
    ensures
        match r {
            Ok(v) => fits(args@.member(key@), ArgKind::Text) && opt_view(v) == text_arg(
                args@,
                key@,
            ),
            Err(e) => !fits(args@.member(key@), ArgKind::Text) && e@ == ErrorView::InvalidArg(
                "Invalid arguments: "@ + key@ + kind_words(ArgKind::Text),
            ),
        },
{
    match args.get(key) {
        None => Ok(None),
        Some(Json::Null) => Ok(None),
        Some(Json::Text(s)) => Ok(Some(s.clone())),
        Some(other) => {
            proof {
                crate::json::lemma_json_view(*other);
            }
            Err(misfit(key, ArgKind::Text))
        },
    }
}

fn read_number(args: &Json, key: &str) -> (r: Result<Option<u32>, McpToolError>)
    ensures
        match r {
            Ok(v) => fits(args@.member(key@), ArgKind::Number) && v == number_arg(args@, key@),
            Err(e) => !fits(args@.member(key@), ArgKind::Number) && e@ == ErrorView::InvalidArg(
                "Invalid arguments: "@ + key@ + kind_words(ArgKind::Number),
            ),
        },
{
    match args.get(key) {
        None => Ok(None),
        Some(Json::Null) => Ok(None),
        Some(Json::Unsigned(n)) => {
            if *n <= 0xffff_ffff {
                Ok(Some(*n as u32))
            } else {
                Err(misfit(key, ArgKind::Number))
            }
        },
        Some(other) => {
            proof {
                crate::json::lemma_json_view(*other);
            }
            Err(misfit(key, ArgKind::Number))
        },
    }
}

fn read_flag(args: &Json, key: &str) -> (r: Result<Option<bool>, McpToolError>)
    ensures
        match r {
            Ok(v) => fits(args@.member(key@), ArgKind::Flag) && v == flag_arg(args@, key@),
            Err(e) => !fits(args@.member(key@), ArgKind::Flag) && e@ == ErrorView::InvalidArg(
                "Invalid arguments: "@ + key@ + kind_words(ArgKind::Flag),
            ),
        },
{
    match args.get(key) {
        None => Ok(None),
        Some(Json::Null) => Ok(None),
        Some(Json::Bool(b)) => Ok(Some(*b)),
        Some(other) => {
            proof {
                crate::json::lemma_json_view(*other);
            }
            Err(misfit(key, ArgKind::Flag))
        },
    }
}

/// Whether some tool takes an argument of the name `key`.
fn names_argument(key: &Vec<char>) -> (r: bool)
    ensures
        r == is_argument(key@),
{
    let r = is_text(key, "path") || is_text(key, "content") || is_text(key, "head") || is_text(
        key,
        "tail",
    ) || is_text(key, "depth") || is_text(key, "query") || is_text(key, "max_results") || is_text(
        key,
        "include_page_excerpts",
    ) || is_text(key, "command") || is_text(key, "working_directory") || is_text(key, "shell")
        || is_text(key, "keep_open") || is_text(key, "new_tab") || is_text(key, "url") || is_text(
        key,
        "engine",
    ) || is_text(key, "max_chars");
    proof {
        let kinds = argument_kinds();
        if r {
            let at: int = if key@ == "path"@ {
                0
            } else if key@ == "content"@ {
                1
            } else if key@ == "head"@ {
                2
            } else if key@ == "tail"@ {
                3
            } else if key@ == "depth"@ {
                4
            } else if key@ == "query"@ {
                5
            } else if key@ == "max_results"@ {
                6
            } else if key@ == "include_page_excerpts"@ {
                7
            } else if key@ == "command"@ {
                8
            } else if key@ == "working_directory"@ {
                9
            } else if key@ == "shell"@ {
                10
            } else if key@ == "keep_open"@ {
                11
            } else if key@ == "new_tab"@ {
                12
            } else if key@ == "url"@ {
                13
            } else if key@ == "engine"@ {
                14
            } else {
                15
            };
            assert(kinds[at].0 == key@);
        } else {
            assert forall|i: int| 0 <= i < kinds.len() implies kinds[i].0 != key@ by {}
        }
    }
    r
}

/// The key of the first member of an object that no tool takes as an
/// argument.
fn unknown_member(members: &Vec<(String, Json)>) -> (r: Option<String>)
    ensures
        opt_view(r) == first_unknown(crate::json::members_view(members@)),
{
    let ghost all = crate::json::members_view(members@);
    let mut i: usize = 0;
    assert(all.skip(0) == all);
    while i < members.len()
        invariant
            i <= members.len(),
            all == crate::json::members_view(members@),
            first_unknown(all) == first_unknown(all.skip(i as int)),
        decreases members.len() - i,
    {
        let key = chars_of(members[i].0.as_str());
        assert(all.skip(i as int)[0] == all[i as int]);
        assert(all[i as int].0 == members@[i as int].0@);
        if !names_argument(&key) {
            return Some(members[i].0.clone());
        }
        assert(all.skip(i as int).drop_first() == all.skip(i + 1));
        i += 1;
    }
    None
}

impl ToolCallArgs {
    /// Reads the arguments of a call from their JSON form. A member that no
    /// tool takes as an argument makes the call invalid, the first in order
    /// being named. Each argument that a tool takes must be of its kind
    /// where it is given; what is absent or `null` is not given. The first
    /// argument of the wrong kind makes the call invalid.
    pub fn from_json(args: &Json) -> (r: Result<ToolCallArgs, McpToolError>)
        ensures
            match r {
                Ok(a) => arguments_fault(args@) is None && a@ == given(args@),
                Err(e) => arguments_fault(args@) matches Some(m) && e@ == ErrorView::InvalidArg(m),
            },
    {
        proof {
            reveal_with_fuel(first_misfit, 17);
        }
        match args {
            Json::Object(members) => {
                proof {
                    crate::json::lemma_json_view(*args);
                }
                if let Some(key) = unknown_member(members) {
                    return Err(
                        McpToolError::InvalidArg(
                            concat_str("Invalid arguments: unknown field ", key.as_str()),
                        ),
                    );
                }
            },
            _ => {
                return Err(
                    McpToolError::InvalidArg(owned("Invalid arguments: expected an object")),
                );
            },
        }
        let path = read_text(args, "path")?;
        let content = read_text(args, "content")?;
        let head = read_number(args, "head")?;
        let tail = read_number(args, "tail")?;
        let depth = read_number(args, "depth")?;
        let query = read_text(args, "query")?;
        let max_results = read_number(args, "max_results")?;
        let include_page_excerpts = read_flag(args, "include_page_excerpts")?;
        let command = read_text(args, "command")?;
        let working_directory = read_text(args, "working_directory")?;
        let shell = read_text(args, "shell")?;
        let keep_open = read_flag(args, "keep_open")?;
        let new_tab = read_flag(args, "new_tab")?;
        let url = read_text(args, "url")?;
        let engine = read_text(args, "engine")?;
        let max_chars = read_number(args, "max_chars")?;
        Ok(
            ToolCallArgs {
                path,
                content,
                head,
                tail,
                depth,
                query,
                max_results,
                include_page_excerpts,
                command,
                working_directory,
                shell,
                keep_open,
                new_tab,
                url,
                engine,
                max_chars,
            },
        )
    }
}

/// What a tool is to carry out, its arguments checked and its root
/// resolved.
#[derive(Debug, PartialEq, Eq)]
#[allow(inconsistent_fields)]
pub enum ToolRequest {
    ReadFile { root: String, path: String, head: Option<u32>, tail: Option<u32> },
    WriteFile { root: String, path: String, content: String },
    ListDir { root: String, path: String, depth: Option<u32> },
    WebSearch { query: String, max_results: Option<u32>, include_page_excerpts: Option<bool> },
    FetchUrl { url: String, max_chars: usize },
    RunCommand { command: String, working_directory: Option<String> },
    OpenTerminal {
        shell: String,
        command: String,
        keep_open: bool,
        working_directory: Option<String>,
        new_tab: bool,
    },
    OpenBrowserSearch { url: Option<String>, query: Option<String>, engine: Option<String> },
}

/// A request as plain values.
#[allow(inconsistent_fields)]
pub enum RequestKind {
    ReadFile { root: Seq<char>, path: Seq<char>, head: Option<u32>, tail: Option<u32> },
    WriteFile { root: Seq<char>, path: Seq<char>, content: Seq<char> },
    ListDir { root: Seq<char>, path: Seq<char>, depth: Option<u32> },
    WebSearch { query: Seq<char>, max_results: Option<u32>, include_page_excerpts: Option<bool> },
    FetchUrl { url: Seq<char>, max_chars: int },
    RunCommand { command: Seq<char>, working_directory: Option<Seq<char>> },
    OpenTerminal {
        shell: Seq<char>,
        command: Seq<char>,
        keep_open: bool,
        working_directory: Option<Seq<char>>,
        new_tab: bool,
    },
    OpenBrowserSearch {
        url: Option<Seq<char>>,
        query: Option<Seq<char>>,
        engine: Option<Seq<char>>,
    },
}

impl View for ToolRequest {
    type V = RequestKind;

    open spec fn view(&self) -> RequestKind {
        match self {
            ToolRequest::ReadFile { root, path, head, tail } => RequestKind::ReadFile {
                root: root@,
                path: path@,
                head: *head,
                tail: *tail,
            },
            ToolRequest::WriteFile { root, path, content } => RequestKind::WriteFile {
                root: root@,
                path: path@,
                content: content@,
            },
            ToolRequest::ListDir { root, path, depth } => RequestKind::ListDir {
                root: root@,
                path: path@,
                depth: *depth,
            },
            ToolRequest::WebSearch { query, max_results, include_page_excerpts } => {
                RequestKind::WebSearch {
                    query: query@,
                    max_results: *max_results,
                    include_page_excerpts: *include_page_excerpts,
                }
            },
            ToolRequest::FetchUrl { url, max_chars } => RequestKind::FetchUrl {
                url: url@,
                max_chars: *max_chars as int,
            },
            ToolRequest::RunCommand { command, working_directory } => RequestKind::RunCommand {
                command: command@,
                working_directory: opt_view(*working_directory),
            },
            ToolRequest::OpenTerminal { shell, command, keep_open, working_directory, new_tab } => {
                RequestKind::OpenTerminal {
                    shell: shell@,
                    command: command@,
                    keep_open: *keep_open,
                    working_directory: opt_view(*working_directory),
                    new_tab: *new_tab,
                }
            },
            ToolRequest::OpenBrowserSearch { url, query, engine } => {
                RequestKind::OpenBrowserSearch {
                    url: opt_view(*url),
                    query: opt_view(*query),
                    engine: opt_view(*engine),
                }
            },
        }
    }
}

/// The root of a tool that works under one: the one configured, where it is
/// not blank.
pub open spec fn resolved_root(root: Option<Seq<char>>) -> Result<Seq<char>, ErrorView> {
    match root {
        Some(r) => if is_blank(r) {
            Err(ErrorView::RootNotConfigured)
        } else {
            Ok(r)
        },
        None => Err(ErrorView::RootNotConfigured),
    }
}

/// An argument that must be present.
pub open spec fn required(arg: Option<Seq<char>>, name: Seq<char>) -> Result<
    Seq<char>,
    ErrorView,
> {
    match arg {
        Some(v) => Ok(v),
        None => Err(ErrorView::InvalidArg(name + " required"@)),
    }
}

/// The text of an argument, or `default` where it is absent.
pub open spec fn or_default(arg: Option<Seq<char>>, default: Seq<char>) -> Seq<char> {
    match arg {
        Some(v) => v,
        None => default,
    }
}

/// Reading a file under `root`: the root must be configured, then the path
/// given.
pub open spec fn read_request(
    root: Option<Seq<char>>,
    args: ArgsView,
    head: Option<u32>,
    tail: Option<u32>,
) -> Result<RequestKind, ErrorView> {
    match resolved_root(root) {
        Err(e) => Err(e),
        Ok(r) => match required(args.path, "path"@) {
            Err(e) => Err(e),
            Ok(p) => Ok(RequestKind::ReadFile { root: r, path: p, head, tail }),
        },
    }
}

/// Writing a file under `root`: the root must be configured, then the path
/// given, then the content.
pub open spec fn write_request(root: Option<Seq<char>>, args: ArgsView) -> Result<
    RequestKind,
    ErrorView,
> {
    match resolved_root(root) {
        Err(e) => Err(e),
        Ok(r) => match required(args.path, "path"@) {
            Err(e) => Err(e),
            Ok(p) => match required(args.content, "content"@) {
                Err(e) => Err(e),
                Ok(c) => Ok(RequestKind::WriteFile { root: r, path: p, content: c }),
            },
        },
    }
}

/// Listing a directory under `root`: the root must be configured, then the
/// path given.
pub open spec fn list_request(root: Option<Seq<char>>, args: ArgsView) -> Result<
    RequestKind,
    ErrorView,
> {
    match resolved_root(root) {
        Err(e) => Err(e),
        Ok(r) => match required(args.path, "path"@) {
            Err(e) => Err(e),
            Ok(p) => Ok(RequestKind::ListDir { root: r, path: p, depth: args.depth }),
        },
    }
}

/// What the dispatcher makes of a call.
pub open spec fn dispatch(
    name: Seq<char>,
    args: ArgsView,
    filesystem_root: Option<Seq<char>>,
    obsidian_vault: Option<Seq<char>>,
) -> Result<RequestKind, ErrorView> {
    if name == "read_file"@ {
        read_request(filesystem_root, args, args.head, args.tail)
    } else if name == "write_file"@ {
        write_request(filesystem_root, args)
    } else if name == "list_dir"@ {
        list_request(filesystem_root, args)
    } else if name == "obsidian_read_note"@ {
        read_request(obsidian_vault, args, None, None)
    } else if name == "obsidian_write_note"@ {
        write_request(obsidian_vault, args)
    } else if name == "obsidian_list_notes"@ {
        list_request(obsidian_vault, args)
    } else if name == "web_search"@ {
        match required(args.query, "query"@) {
            Err(e) => Err(e),
            Ok(q) => Ok(
                RequestKind::WebSearch {
                    query: q,
                    max_results: args.max_results,
                    include_page_excerpts: args.include_page_excerpts,
                },
            ),
        }
    } else if name == "fetch_url"@ {
        match args.url {
            Some(u) => if is_blank(u) {
                Err(ErrorView::InvalidArg("url required"@))
            } else {
                Ok(
                    RequestKind::FetchUrl {
                        url: trim_of(u),
                        max_chars: fetch_budget(args.max_chars),
                    },
                )
            },
            None => Err(ErrorView::InvalidArg("url required"@)),
        }
    } else if name == "run_command"@ {
        match required(args.command, "command"@) {
            Err(e) => Err(e),
            Ok(c) => if is_blank(c) {
                Err(ErrorView::InvalidArg("command cannot be empty"@))
            } else {
                Ok(
                    RequestKind::RunCommand {
                        command: trim_of(c),
                        working_directory: args.working_directory,
                    },
                )
            },
        }
    } else if name == "open_terminal_and_run"@ {
        match required(args.command, "command"@) {
            Err(e) => Err(e),
            Ok(c) => Ok(
                RequestKind::OpenTerminal {
                    shell: or_default(args.shell, "powershell"@),
                    command: trim_of(c),
                    keep_open: match args.keep_open {
                        Some(b) => b,
                        None => true,
                    },
                    working_directory: args.working_directory,
                    new_tab: match args.new_tab {
                        Some(b) => b,
                        None => false,
                    },
                },
            ),
        }
    } else if name == "open_browser_search"@ {
        Ok(
            RequestKind::OpenBrowserSearch {
                url: args.url,
                query: args.query,
                engine: args.engine,
            },
        )
    } else {
        Err(ErrorView::UnknownTool(name))
    }
}

fn resolve_root(root: Option<&str>) -> (r: Result<String, McpToolError>)
    ensures
        match r {
            Ok(s) => resolved_root(
                match root {
                    Some(x) => Some(x@),
                    None => None,
                },
            ) == Ok::<_, ErrorView>(s@),
            Err(e) => resolved_root(
                match root {
                    Some(x) => Some(x@),
                    None => None,
                },
            ) == Err::<Seq<char>, _>(e@),
        },
{
    match root {
        Some(r) => if is_blank_str(r) {
            Err(McpToolError::RootNotConfigured)
        } else {
            Ok(owned(r))
        },
        None => Err(McpToolError::RootNotConfigured),
    }
}

fn require(arg: &Option<String>, name: &str) -> (r: Result<String, McpToolError>)
    ensures
        match r {
            Ok(s) => required(opt_view(*arg), name@) == Ok::<_, ErrorView>(s@),
            Err(e) => required(opt_view(*arg), name@) == Err::<Seq<char>, _>(e@),
        },
{
    match arg {
        Some(v) => Ok(v.clone()),
        None => Err(McpToolError::InvalidArg(concat_str(name, " required"))),
    }
}

fn copy_opt(arg: &Option<String>) -> (r: Option<String>)
    ensures
        opt_view(r) == opt_view(*arg),
{
    match arg {
        Some(v) => Some(v.clone()),
        None => None,
    }
}

fn default_to(arg: &Option<String>, default: &str) -> (r: String)
    ensures
        r@ == or_default(opt_view(*arg), default@),
{
    match arg {
        Some(v) => v.clone(),
        None => owned(default),
    }
}

fn read(root: Option<&str>, args: &ToolCallArgs, head: Option<u32>, tail: Option<u32>) -> (r:
    Result<ToolRequest, McpToolError>)
    ensures
        match r {
            Ok(q) => read_request(
                match root {
                    Some(x) => Some(x@),
                    None => None,
                },
                args@,
                head,
                tail,
            ) == Ok::<_, ErrorView>(q@),
            Err(e) => read_request(
                match root {
                    Some(x) => Some(x@),
                    None => None,
                },
                args@,
                head,
                tail,
            ) == Err::<RequestKind, _>(e@),
        },
{
    let root = resolve_root(root)?;
    let path = require(&args.path, "path")?;
    Ok(ToolRequest::ReadFile { root, path, head, tail })
}

fn write(root: Option<&str>, args: &ToolCallArgs) -> (r: Result<ToolRequest, McpToolError>)
    ensures
        match r {
            Ok(q) => write_request(
                match root {
                    Some(x) => Some(x@),
                    None => None,
                },
                args@,
            ) == Ok::<_, ErrorView>(q@),
            Err(e) => write_request(
                match root {
                    Some(x) => Some(x@),
                    None => None,
                },
                args@,
            ) == Err::<RequestKind, _>(e@),
        },
{
    let root = resolve_root(root)?;
    let path = require(&args.path, "path")?;
    let content = require(&args.content, "content")?;
    Ok(ToolRequest::WriteFile { root, path, content })
}

fn list(root: Option<&str>, args: &ToolCallArgs) -> (r: Result<ToolRequest, McpToolError>)
    ensures
        match r {
            Ok(q) => list_request(
                match root {
                    Some(x) => Some(x@),
                    None => None,
                },
                args@,
            ) == Ok::<_, ErrorView>(q@),
            Err(e) => list_request(
                match root {
                    Some(x) => Some(x@),
                    None => None,
                },
                args@,
            ) == Err::<RequestKind, _>(e@),
        },
{
    let root = resolve_root(root)?;
    let path = require(&args.path, "path")?;
    Ok(ToolRequest::ListDir { root, path, depth: args.depth })
}

/// Resolves a tool call whose arguments are read already: checks the
/// arguments that the tool needs, resolves the root or vault it works under,
/// and returns what it is to carry out.
pub fn resolve_tool(
    name: &str,
    args: &ToolCallArgs,
    filesystem_root: Option<&str>,
    obsidian_vault: Option<&str>,
) -> (r: Result<ToolRequest, McpToolError>)
    ensures
        match r {
            Ok(q) => dispatch(
                name@,
                args@,
                match filesystem_root {
                    Some(x) => Some(x@),
                    None => None,
                },
                match obsidian_vault {
                    Some(x) => Some(x@),
                    None => None,
                },
            ) == Ok::<_, ErrorView>(q@),
            Err(e) => dispatch(
                name@,
                args@,
                match filesystem_root {
                    Some(x) => Some(x@),
                    None => None,
                },
                match obsidian_vault {
                    Some(x) => Some(x@),
                    None => None,
                },
            ) == Err::<RequestKind, _>(e@),
        },
{
    let n = chars_of(name);
    if is_text(&n, "read_file") {
        read(filesystem_root, args, args.head, args.tail)
    } else if is_text(&n, "write_file") {
        write(filesystem_root, args)
    } else if is_text(&n, "list_dir") {
        list(filesystem_root, args)
    } else if is_text(&n, "obsidian_read_note") {
        read(obsidian_vault, args, None, None)
    } else if is_text(&n, "obsidian_write_note") {
        write(obsidian_vault, args)
    } else if is_text(&n, "obsidian_list_notes") {
        list(obsidian_vault, args)
    } else if is_text(&n, "web_search") {
        let query = require(&args.query, "query")?;
        Ok(
            ToolRequest::WebSearch {
                query,
                max_results: args.max_results,
                include_page_excerpts: args.include_page_excerpts,
            },
        )
    } else if is_text(&n, "fetch_url") {
        match &args.url {
            Some(u) => {
                if is_blank_str(u.as_str()) {
                    Err(McpToolError::InvalidArg(owned("url required")))
                } else {
                    Ok(
                        ToolRequest::FetchUrl {
                            url: trim(u.as_str()),
                            max_chars: clamp_max_chars(args.max_chars),
                        },
                    )
                }
            },
            None => Err(McpToolError::InvalidArg(owned("url required"))),
        }
    } else if is_text(&n, "run_command") {
        let command = require(&args.command, "command")?;
        if is_blank_str(command.as_str()) {
            return Err(McpToolError::InvalidArg(owned("command cannot be empty")));
        }
        Ok(
            ToolRequest::RunCommand {
                command: trim(command.as_str()),
                working_directory: copy_opt(&args.working_directory),
            },
        )
    } else if is_text(&n, "open_terminal_and_run") {
        let command = require(&args.command, "command")?;
        Ok(
            ToolRequest::OpenTerminal {
                shell: default_to(&args.shell, "powershell"),
                command: trim(command.as_str()),
                keep_open: match args.keep_open {
                    Some(b) => b,
                    None => true,
                },
                working_directory: copy_opt(&args.working_directory),
                new_tab: match args.new_tab {
                    Some(b) => b,
                    None => false,
                },
            },
        )
    } else if is_text(&n, "open_browser_search") {
        Ok(
            ToolRequest::OpenBrowserSearch {
                url: copy_opt(&args.url),
                query: copy_opt(&args.query),
                engine: copy_opt(&args.engine),
            },
        )
    } else {
        Err(McpToolError::UnknownTool(owned(name)))
    }
}

/// What the dispatcher makes of a call with its arguments in JSON: the
/// arguments are read first, whatever the tool; then the call is resolved.
pub open spec fn dispatch_json(
    name: Seq<char>,
    args: JsonView,
    filesystem_root: Option<Seq<char>>,
    obsidian_vault: Option<Seq<char>>,
) -> Result<RequestKind, ErrorView> {
    match arguments_fault(args) {
        Some(m) => Err(ErrorView::InvalidArg(m)),
        None => dispatch(name, given(args), filesystem_root, obsidian_vault),
    }
}

/// Resolves a tool call: reads the arguments, checks those that the tool
/// needs, resolves the root or vault it works under, and returns what the
/// tool is to carry out. Nothing is carried out here.
pub fn execute_tool(
    name: &str,
    args: &Json,
    filesystem_root: Option<&str>,
    obsidian_vault: Option<&str>,
) -> (r: Result<ToolRequest, McpToolError>)
    ensures
        match r {
            Ok(q) => dispatch_json(
                name@,
                args@,
                match filesystem_root {
                    Some(x) => Some(x@),
                    None => None,
                },
                match obsidian_vault {
                    Some(x) => Some(x@),
                    None => None,
                },
            ) == Ok::<_, ErrorView>(q@),
            Err(e) => dispatch_json(
                name@,
                args@,
                match filesystem_root {
                    Some(x) => Some(x@),
                    None => None,
                },
                match obsidian_vault {
                    Some(x) => Some(x@),
                    None => None,
                },
            ) == Err::<RequestKind, _>(e@),
        },
{
    let read = ToolCallArgs::from_json(args)?;
    resolve_tool(name, &read, filesystem_root, obsidian_vault)
}

/// The envelope that a tool's outcome is handed back in. Content is a
/// success. A failure becomes an envelope that is not ok and carries the
/// failure's text, but for an unknown tool, which stays a failure.
pub open spec fn envelope(outcome: Result<String, McpToolError>) -> Result<ResultView, ErrorView> {
    match outcome {
        Ok(content) => Ok(ResultView { ok: true, content: content@, error: None, trail: None }),
        Err(McpToolError::UnknownTool(name)) => Err(ErrorView::UnknownTool(name@)),
        Err(e) => Ok(
            ResultView {
                ok: false,
                content: Seq::<char>::empty(),
                error: Some(crate::error::message_of(e)),
                trail: None,
            },
        ),
    }
}

/// Wraps a tool's outcome into its envelope.
pub fn conclude(outcome: Result<String, McpToolError>) -> (r: Result<ToolResult, McpToolError>)
    ensures
        match r {
            Ok(t) => envelope(outcome) == Ok::<_, ErrorView>(t@) && t.wf(),
            Err(e) => envelope(outcome) == Err::<ResultView, _>(e@),
        },
{
    match outcome {
        Ok(content) => Ok(ToolResult::success(content, None)),
        Err(McpToolError::UnknownTool(name)) => Err(McpToolError::UnknownTool(name)),
        Err(e) => Ok(ToolResult::failure(&e)),
    }
}

/// The names that the dispatcher knows.
pub open spec fn known_tools() -> Seq<Seq<char>> {
    seq![
        "read_file"@,
        "write_file"@,
        "list_dir"@,
        "obsidian_read_note"@,
        "obsidian_write_note"@,
        "obsidian_list_notes"@,
        "web_search"@,
        "fetch_url"@,
        "run_command"@,
        "open_terminal_and_run"@,
        "open_browser_search"@,
    ]
}

/// The dispatcher knows exactly the tools of the catalogue: a call fails as
/// an unknown tool if and only if its name is none of theirs.
pub proof fn lemma_dispatcher_knows_the_catalogue(
    name: Seq<char>,
    args: ArgsView,
    filesystem_root: Option<Seq<char>>,
    obsidian_vault: Option<Seq<char>>,
)
    ensures
        known_tools() == crate::registry::catalogue().map_values(
            |d: crate::registry::ToolDefView| d.name,
        ),
        dispatch(name, args, filesystem_root, obsidian_vault) is Err && dispatch(
            name,
            args,
            filesystem_root,
            obsidian_vault,
        )->Err_0 is UnknownTool <==> !known_tools().contains(name),
{
    assert(known_tools() =~= crate::registry::catalogue().map_values(
        |d: crate::registry::ToolDefView| d.name,
    ));
    let known = known_tools();
    if name == "read_file"@ {
        assert(known[0] == name);
    } else if name == "write_file"@ {
        assert(known[1] == name);
    } else if name == "list_dir"@ {
        assert(known[2] == name);
    } else if name == "obsidian_read_note"@ {
        assert(known[3] == name);
    } else if name == "obsidian_write_note"@ {
        assert(known[4] == name);
    } else if name == "obsidian_list_notes"@ {
        assert(known[5] == name);
    } else if name == "web_search"@ {
        assert(known[6] == name);
    } else if name == "fetch_url"@ {
        assert(known[7] == name);
    } else if name == "run_command"@ {
        assert(known[8] == name);
    } else if name == "open_terminal_and_run"@ {
        assert(known[9] == name);
    } else if name == "open_browser_search"@ {
        assert(known[10] == name);
    } else {
        assert forall|i: int| 0 <= i < known.len() implies known[i] != name by {}
    }
}

/// The lengths of the tools' names, and the characters that tell names of
/// one length apart.
proof fn lemma_tool_names()
    ensures
        "read_file"@.len() == 9 && "read_file"@[0] == 'r',
        "write_file"@.len() == 10 && "write_file"@[1] == 'r',
        "list_dir"@.len() == 8,
        "obsidian_read_note"@.len() == 18,
        "obsidian_write_note"@.len() == 19 && "obsidian_write_note"@[1] == 'b',
        "obsidian_list_notes"@.len() == 19 && "obsidian_list_notes"@[1] == 'b',
        "obsidian_write_note"@[9] == 'w' && "obsidian_list_notes"@[9] == 'l',
        "web_search"@.len() == 10 && "web_search"@[1] == 'e',
        "fetch_url"@.len() == 9 && "fetch_url"@[0] == 'f',
        "run_command"@.len() == 11,
        "open_terminal_and_run"@.len() == 21,
        "open_browser_search"@.len() == 19 && "open_browser_search"@[1] == 'p',
{
    reveal_strlit("read_file");
    reveal_strlit("write_file");
    reveal_strlit("list_dir");
    reveal_strlit("obsidian_read_note");
    reveal_strlit("obsidian_write_note");
    reveal_strlit("obsidian_list_notes");
    reveal_strlit("web_search");
    reveal_strlit("fetch_url");
    reveal_strlit("run_command");
    reveal_strlit("open_terminal_and_run");
    reveal_strlit("open_browser_search");
}

/// A tool that works on files is refused where no root is configured, and
/// one that works on notes where no vault is, whatever its arguments.
pub proof fn lemma_root_is_required(name: Seq<char>, args: ArgsView, other: Option<Seq<char>>)
    ensures
        name == "read_file"@ || name == "write_file"@ || name == "list_dir"@ ==> dispatch(
            name,
            args,
            None,
            other,
        ) == Err::<RequestKind, _>(ErrorView::RootNotConfigured),
        name == "obsidian_read_note"@ || name == "obsidian_write_note"@ || name
            == "obsidian_list_notes"@ ==> dispatch(name, args, other, None) == Err::<
            RequestKind,
            _,
        >(ErrorView::RootNotConfigured),
{
    lemma_tool_names();
}

/// A call whose arguments hold a member that no tool takes is refused as
/// invalid, whatever the tool and whatever else is given.
pub proof fn lemma_unknown_argument_is_refused(
    name: Seq<char>,
    args: JsonView,
    at: int,
    filesystem_root: Option<Seq<char>>,
    obsidian_vault: Option<Seq<char>>,
)
    requires
        args is Object,
        0 <= at < args->Object_0.len(),
        !is_argument(args->Object_0[at].0),
    ensures
        dispatch_json(name, args, filesystem_root, obsidian_vault) is Err,
        dispatch_json(name, args, filesystem_root, obsidian_vault)->Err_0 is InvalidArg,
{
    lemma_unknown_is_found(args->Object_0, at);
}

proof fn lemma_unknown_is_found(members: Seq<(Seq<char>, JsonView)>, at: int)
    requires
        0 <= at < members.len(),
        !is_argument(members[at].0),
    ensures
        first_unknown(members) is Some,
    decreases members.len(),
{
    if is_argument(members[0].0) {
        lemma_unknown_is_found(members.drop_first(), at - 1);
    }
}

/// Whether a tool works on a file, a note or a directory under a root.
pub open spec fn works_on_path(name: Seq<char>) -> bool {
    name == "read_file"@ || name == "write_file"@ || name == "list_dir"@ || name
        == "obsidian_read_note"@ || name == "obsidian_write_note"@ || name
        == "obsidian_list_notes"@
}

/// Whether the tool `name` cannot do without the argument `key`: the path
/// of a tool that works under a root, the content of one that writes, the
/// query of a search, the address of a fetch, the command of a tool that
/// runs one.
pub open spec fn needs(name: Seq<char>, key: Seq<char>) -> bool {
    ||| works_on_path(name) && key == "path"@
    ||| (name == "write_file"@ || name == "obsidian_write_note"@) && key == "content"@
    ||| name == "web_search"@ && key == "query"@
    ||| name == "fetch_url"@ && key == "url"@
    ||| (name == "run_command"@ || name == "open_terminal_and_run"@) && key == "command"@
}

/// A call that does not give an argument that its tool needs is refused:
/// nothing is read, listed, written, fetched or run. Where the tool's root
/// is configured, or the tool works under none, the failure is an invalid
/// argument.
pub proof fn lemma_missing_argument_is_refused(
    name: Seq<char>,
    key: Seq<char>,
    args: JsonView,
    filesystem_root: Option<Seq<char>>,
    obsidian_vault: Option<Seq<char>>,
)
    requires
        needs(name, key),
        args.member(key) is None,
    ensures
        dispatch_json(name, args, filesystem_root, obsidian_vault) is Err,
        resolved_root(filesystem_root) is Ok && resolved_root(obsidian_vault) is Ok
            ==> dispatch_json(name, args, filesystem_root, obsidian_vault)->Err_0 is InvalidArg,
{
    lemma_tool_names();
}

/// The values that a schema names as required: the items of its member
/// `required`, none where it has no such member.
pub open spec fn named_required(schema: JsonView) -> Seq<JsonView> {
    match schema.member("required"@) {
        Some(JsonView::Array(names)) => names,
        _ => Seq::<JsonView>::empty(),
    }
}

/// The values that the schema of a definition names as required.
pub open spec fn required_by(def: crate::registry::ToolDefView) -> Seq<JsonView> {
    match def.json_schema {
        Some(schema) => named_required(schema),
        None => Seq::<JsonView>::empty(),
    }
}

/// A schema names as required the arguments it was made with.
pub proof fn lemma_required_of_schema(
    required: Seq<Seq<char>>,
    properties: Seq<(Seq<char>, JsonView)>,
)
    ensures
        named_required(crate::registry::schema_of(required, properties))
            == crate::registry::text_values(required),
{
    reveal_strlit("type");
    reveal_strlit("required");
    reveal_strlit("properties");
    reveal_strlit("additionalProperties");
    assert("type"@.len() == 4);
    assert("required"@.len() == 8);
    assert("properties"@.len() == 10);
    assert("additionalProperties"@.len() == 20);
    reveal_with_fuel(crate::json::lookup, 5);
    let schema = crate::registry::schema_of(required, properties);
    let members = schema->Object_0;
    if required.len() > 0 {
        assert(members[0].0 == "type"@);
        assert(members.drop_first()[0] == members[1]);
        assert(members[1] == ("required"@, JsonView::Array(crate::registry::text_values(required))));
    } else {
        assert(members =~= seq![
            ("type"@, JsonView::Text("object"@)),
            ("properties"@, JsonView::Object(properties)),
            ("additionalProperties"@, JsonView::Bool(false)),
        ]);
        assert(members.drop_first() =~= seq![
            ("properties"@, JsonView::Object(properties)),
            ("additionalProperties"@, JsonView::Bool(false)),
        ]);
        assert(members.drop_first().drop_first() =~= seq![
            ("additionalProperties"@, JsonView::Bool(false)),
        ]);
        assert(members.drop_first().drop_first().drop_first() =~= Seq::<
            (Seq<char>, JsonView),
        >::empty());
        assert(schema.member("required"@) is None);
        assert(crate::registry::text_values(required) =~= Seq::<JsonView>::empty());
    }
}

/// A list of JSON strings holds a text exactly where the list of the texts
/// holds it.
proof fn lemma_text_values_hold(values: Seq<Seq<char>>, key: Seq<char>)
    ensures
        crate::registry::text_values(values).contains(JsonView::Text(key)) <==> values.contains(
            key,
        ),
{
    let texts = crate::registry::text_values(values);
    if values.contains(key) {
        let i = choose|i: int| 0 <= i < values.len() && values[i] == key;
        assert(texts[i] == JsonView::Text(key));
    }
    if texts.contains(JsonView::Text(key)) {
        let i = choose|i: int| 0 <= i < texts.len() && texts[i] == JsonView::Text(key);
        assert(values[i] == key);
    }
}

/// The catalogue and the dispatcher agree on what a tool needs: the schema
/// of each tool names as required exactly the arguments without which the
/// dispatcher refuses the call.
pub proof fn lemma_catalogue_names_what_is_needed(d: int, key: Seq<char>)
    requires
        0 <= d < crate::registry::catalogue().len(),
    ensures
        needs(crate::registry::catalogue()[d].name, key) <==> required_by(
            crate::registry::catalogue()[d],
        ).contains(JsonView::Text(key)),
{
    assert forall|required: Seq<Seq<char>>, properties: Seq<(Seq<char>, JsonView)>|
        named_required(#[trigger] crate::registry::schema_of(required, properties))
            == crate::registry::text_values(required) by {
        lemma_required_of_schema(required, properties);
    }
    lemma_tool_names();
    let def = crate::registry::catalogue()[d];
    let known = known_tools();
    assert(known =~= crate::registry::catalogue().map_values(
        |d: crate::registry::ToolDefView| d.name,
    ));
    assert(def.name == known[d]);
    assert(known[0] == "read_file"@ && known[1] == "write_file"@ && known[2] == "list_dir"@);
    assert(known[3] == "obsidian_read_note"@ && known[4] == "obsidian_write_note"@ && known[5]
        == "obsidian_list_notes"@);
    assert(known[6] == "web_search"@ && known[7] == "fetch_url"@ && known[8] == "run_command"@);
    assert(known[9] == "open_terminal_and_run"@ && known[10] == "open_browser_search"@);
    let path = seq!["path"@];
    let both = seq!["path"@, "content"@];
    let required: Seq<Seq<char>> = if d == 0 || d == 2 || d == 3 || d == 5 {
        path
    } else if d == 1 || d == 4 {
        both
    } else if d == 6 {
        seq!["query"@]
    } else if d == 7 {
        seq!["url"@]
    } else if d == 8 || d == 9 {
        seq!["command"@]
    } else {
        Seq::<Seq<char>>::empty()
    };
    assert(required_by(def) == crate::registry::text_values(required));
    lemma_text_values_hold(required, key);
    assert(path[0] == "path"@);
    assert(both[0] == "path"@ && both[1] == "content"@);
    assert(seq!["query"@][0] == "query"@);
    assert(seq!["url"@][0] == "url"@);
    assert(seq!["command"@][0] == "command"@);
}

} // verus!
