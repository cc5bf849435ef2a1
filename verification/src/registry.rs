//! The catalogue of tools.
//!
//! Every tool belongs to a capability group. The catalogue is fixed; what a
//! caller is offered is the catalogue filtered by the groups that are
//! enabled, and, for the groups that work under a root, configured.

use crate::json::{items_views, members_view, opt_json_view, Json, JsonView};
use crate::text::{is_blank, is_blank_str, owned, strs_view};
use vstd::prelude::*;

verus! {

/// The definition of one tool.
#[derive(Debug, PartialEq, Eq)]
pub struct McpToolDef {
    /// The capability group.
    pub id: String,
    /// The tool's name, unique in the catalogue.
    pub name: String,
    pub description: String,
    /// The boundary the tool works within, for a human reader.
    pub scope: String,
    /// `read_only`, `write`, `network`, `low` or `high`.
    pub risk: String,
    /// The shape of the tool's arguments.
    pub json_schema: Option<Json>,
}

/// The definition of a tool as plain values.
pub struct ToolDefView {
    pub id: Seq<char>,
    pub name: Seq<char>,
    pub description: Seq<char>,
    pub scope: Seq<char>,
    pub risk: Seq<char>,
    pub json_schema: Option<JsonView>,
}

impl View for McpToolDef {
    type V = ToolDefView;

    open spec fn view(&self) -> ToolDefView {
        ToolDefView {
            id: self.id@,
            name: self.name@,
            description: self.description@,
            scope: self.scope@,
            risk: self.risk@,
            json_schema: opt_json_view(self.json_schema),
        }
    }
}

/// The definition of one tool, as the caller receives it.
#[derive(Debug, PartialEq, Eq)]
pub struct McpToolDefDto {
    pub id: String,
    pub name: String,
    pub description: String,
    pub scope: String,
    pub risk: String,
    pub json_schema: Option<Json>,
}

impl View for McpToolDefDto {
    type V = ToolDefView;

    open spec fn view(&self) -> ToolDefView {
        ToolDefView {
            id: self.id@,
            name: self.name@,
            description: self.description@,
            scope: self.scope@,
            risk: self.risk@,
            json_schema: opt_json_view(self.json_schema),
        }
    }
}

/// The views of a list of definitions as the caller receives them.
pub open spec fn dtos_view(defs: Seq<McpToolDefDto>) -> Seq<ToolDefView> {
    defs.map_values(|d: McpToolDefDto| d@)
}

/// The definitions as the caller receives them: the same, in order.
pub fn tool_def_dtos(defs: Vec<McpToolDef>) -> (out: Vec<McpToolDefDto>)
    ensures
        dtos_view(out@) == defs_view(defs@),
{
    let ghost all = defs@;
    let mut out: Vec<McpToolDefDto> = Vec::new();
    for d in it: defs.into_iter()
        invariant
            it.seq() == all,
            dtos_view(out@) == defs_view(all.take(it.index())),
    {
        let ghost before = out@;
        let dto = McpToolDefDto {
            id: d.id,
            name: d.name,
            description: d.description,
            scope: d.scope,
            risk: d.risk,
            json_schema: d.json_schema,
        };
        out.push(dto);
        assert(dtos_view(out@) =~= dtos_view(before).push(dto@));
        assert(defs_view(all.take(it.index() + 1)) =~= defs_view(all.take(it.index())).push(d@));
    }
    assert(all.take(all.len() as int) == all);
    out
}

/// The views of a list of definitions.
pub open spec fn defs_view(defs: Seq<McpToolDef>) -> Seq<ToolDefView> {
    defs.map_values(|d: McpToolDef| d@)
}

/// The definition with the given parts.
pub open spec fn definition(
    id: Seq<char>,
    name: Seq<char>,
    description: Seq<char>,
    scope: Seq<char>,
    risk: Seq<char>,
    json_schema: JsonView,
) -> ToolDefView {
    ToolDefView { id, name, description, scope, risk, json_schema: Some(json_schema) }
}

/// A text that may be missing, as a member of an object: one member where
/// it is there, none where it is not.
pub open spec fn optional_text(key: Seq<char>, value: Option<Seq<char>>) -> Seq<
    (Seq<char>, JsonView),
> {
    match value {
        Some(v) => seq![(key, JsonView::Text(v))],
        None => Seq::<(Seq<char>, JsonView)>::empty(),
    }
}

/// A number that may be missing, as a member of an object.
pub open spec fn optional_number(key: Seq<char>, value: Option<u64>) -> Seq<
    (Seq<char>, JsonView),
> {
    match value {
        Some(v) => seq![(key, JsonView::Unsigned(v))],
        None => Seq::<(Seq<char>, JsonView)>::empty(),
    }
}

/// The texts `values` as JSON strings.
pub open spec fn text_values(values: Seq<Seq<char>>) -> Seq<JsonView> {
    values.map_values(|v: Seq<char>| JsonView::Text(v))
}

/// A string argument.
pub open spec fn string_kind(description: Seq<char>) -> JsonView {
    JsonView::Object(
        seq![("type"@, JsonView::Text("string"@)), ("description"@, JsonView::Text(description))],
    )
}

/// A string argument that takes one of a few values.
pub open spec fn choice_kind(
    values: Seq<Seq<char>>,
    default: Seq<char>,
    description: Option<Seq<char>>,
) -> JsonView {
    JsonView::Object(
        seq![
            ("type"@, JsonView::Text("string"@)),
            ("enum"@, JsonView::Array(text_values(values))),
            ("default"@, JsonView::Text(default)),
        ] + optional_text("description"@, description),
    )
}

/// An integer argument with its bounds.
pub open spec fn integer_kind(
    minimum: u64,
    maximum: Option<u64>,
    default: Option<u64>,
    description: Option<Seq<char>>,
) -> JsonView {
    JsonView::Object(
        seq![("type"@, JsonView::Text("integer"@)), ("minimum"@, JsonView::Unsigned(minimum))]
            + optional_number("maximum"@, maximum) + optional_number("default"@, default)
            + optional_text("description"@, description),
    )
}

/// A truth-value argument with its default.
pub open spec fn bool_kind(default: bool, description: Option<Seq<char>>) -> JsonView {
    JsonView::Object(
        seq![("type"@, JsonView::Text("boolean"@)), ("default"@, JsonView::Bool(default))]
            + optional_text("description"@, description),
    )
}

/// The shape of a tool's arguments: an object with these properties, of
/// which `required` must be present (the member is left out where none
/// must), and no others.
pub open spec fn schema_of(required: Seq<Seq<char>>, properties: Seq<(Seq<char>, JsonView)>)
    -> JsonView {
    JsonView::Object(
        seq![("type"@, JsonView::Text("object"@))] + (if required.len() > 0 {
            seq![("required"@, JsonView::Array(text_values(required)))]
        } else {
            Seq::<(Seq<char>, JsonView)>::empty()
        }) + seq![
            ("properties"@, JsonView::Object(properties)),
            ("additionalProperties"@, JsonView::Bool(false)),
        ],
    )
}

/// The depth of a listing as an argument.
pub open spec fn depth_kind() -> JsonView {
    integer_kind(1, Some(3), Some(1), None)
}

/// The tools that work on files under the root.
pub open spec fn filesystem_tools() -> Seq<ToolDefView> {
    seq![
        definition(
            "filesystem"@,
            "read_file"@,
            "Read a UTF-8 text file. Only within the selected root directory. Use relative path from root."@,
            "Sandboxed to user-selected root"@,
            "read_only"@,
            schema_of(
                seq!["path"@],
                seq![
                    ("path"@, string_kind("Relative path to file from root"@)),
                    ("head"@, integer_kind(1, None, None, Some("Return only first N lines"@))),
                    ("tail"@, integer_kind(1, None, None, Some("Return only last N lines"@))),
                ],
            ),
        ),
        definition(
            "filesystem"@,
            "write_file"@,
            "Write a UTF-8 text file. Only within the selected root. Creates parent directories if needed."@,
            "Sandboxed to user-selected root"@,
            "write"@,
            schema_of(
                seq!["path"@, "content"@],
                seq![
                    ("path"@, string_kind("Relative path from root"@)),
                    ("content"@, string_kind("File content"@)),
                ],
            ),
        ),
        definition(
            "filesystem"@,
            "list_dir"@,
            "List directory contents (names, with / for dirs). Only within the selected root."@,
            "Sandboxed to user-selected root"@,
            "read_only"@,
            schema_of(
                seq!["path"@],
                seq![
                    ("path"@, string_kind("Relative path to directory from root"@)),
                    ("depth"@, depth_kind()),
                ],
            ),
        ),
    ]
}

/// The tools that work on notes in the vault.
pub open spec fn obsidian_tools() -> Seq<ToolDefView> {
    seq![
        definition(
            "obsidian"@,
            "obsidian_read_note"@,
            "Read an Obsidian note (Markdown) from the vault. Path is vault-relative (e.g. 'Daily/2026-02-10.md'). Preserves frontmatter."@,
            "Obsidian vault path"@,
            "read_only"@,
            schema_of(
                seq!["path"@],
                seq![("path"@, string_kind("Vault-relative path, e.g. 'Daily/2026-02-10.md'"@))],
            ),
        ),
        definition(
            "obsidian"@,
            "obsidian_write_note"@,
            "Write an Obsidian note (Markdown) to the vault. Preserve frontmatter if present in content."@,
            "Obsidian vault path"@,
            "write"@,
            schema_of(
                seq!["path"@, "content"@],
                seq![
                    ("path"@, string_kind("Vault-relative path"@)),
                    (
                        "content"@,
                        string_kind("Markdown content (include frontmatter if desired)"@),
                    ),
                ],
            ),
        ),
        definition(
            "obsidian"@,
            "obsidian_list_notes"@,
            "List note files in a vault folder. Path is vault-relative."@,
            "Obsidian vault path"@,
            "read_only"@,
            schema_of(
                seq!["path"@],
                seq![
                    ("path"@, string_kind("Vault-relative path to directory"@)),
                    ("depth"@, depth_kind()),
                ],
            ),
        ),
    ]
}

/// The web search.
pub open spec fn web_search_tools() -> Seq<ToolDefView> {
    seq![
        definition(
            "web_search"@,
            "web_search"@,
            "Search the web (DuckDuckGo). Returns title, snippet, URL, and optional page excerpts so you can summarize the pages (not just list links). Use for current info and to summarize what each result says. Cite results."@,
            "Internet (opt-in)"@,
            "network"@,
            schema_of(
                seq!["query"@],
                seq![
                    ("query"@, string_kind("Search query"@)),
                    ("max_results"@, integer_kind(1, Some(10), Some(5), None)),
                    (
                        "include_page_excerpts"@,
                        bool_kind(
                            true,
                            Some(
                                "When true (default), fetch each result URL and include a text excerpt so you can summarize the page content."@,
                            ),
                        ),
                    ),
                ],
            ),
        ),
    ]
}

/// The fetch of one address.
pub open spec fn fetch_url_tools() -> Seq<ToolDefView> {
    seq![
        definition(
            "web"@,
            "fetch_url"@,
            "Fetch a URL and return the page content as plain text. Use when the user asks to summarize a link, explain a page, or gives you a URL\u{2014}you receive the content as context and summarize or answer from it; the user does not need to copy-paste anything."@,
            "Internet (opt-in)"@,
            "network"@,
            schema_of(
                seq!["url"@],
                seq![
                    ("url"@, string_kind("Full URL to fetch (e.g. https://example.com/article)"@)),
                    (
                        "max_chars"@,
                        integer_kind(
                            500,
                            Some(20000),
                            Some(12000),
                            Some("Max plain-text characters to return (for context window)"@),
                        ),
                    ),
                ],
            ),
        ),
    ]
}

/// The tools that run commands.
pub open spec fn terminal_tools() -> Seq<ToolDefView> {
    seq![
        definition(
            "terminal"@,
            "run_command"@,
            "Execute a shell command. Returns stdout and stderr. One command per call. Use with caution\u{2014}commands run with your user permissions."@,
            "Local system (opt-in)"@,
            "high"@,
            schema_of(
                seq!["command"@],
                seq![
                    (
                        "command"@,
                        string_kind("Command to execute (e.g. 'ls -la' or 'dir' on Windows)"@),
                    ),
                    (
                        "working_directory"@,
                        string_kind(
                            "Optional: working directory (absolute path). Defaults to user home (root), not the app folder."@,
                        ),
                    ),
                ],
            ),
        ),
        definition(
            "terminal"@,
            "open_terminal_and_run"@,
            "Open a visible CLI and run a command. By default reuses the same terminal tab; set new_tab=true for a new tab. Default working directory is user home (root), not the app folder. Windows: PowerShell, cmd, or wt."@,
            "Local system (opt-in)"@,
            "high"@,
            schema_of(
                seq!["command"@],
                seq![
                    (
                        "shell"@,
                        choice_kind(seq!["powershell"@, "cmd"@, "wt"@], "powershell"@, None),
                    ),
                    ("command"@, string_kind("Command to run in the terminal"@)),
                    ("keep_open"@, bool_kind(true, None)),
                    (
                        "working_directory"@,
                        string_kind(
                            "Optional: working directory. Defaults to user home (root), not the app folder."@,
                        ),
                    ),
                    (
                        "new_tab"@,
                        bool_kind(
                            false,
                            Some(
                                "If true, open a new terminal tab/window. If false (default), reuse the same terminal."@,
                            ),
                        ),
                    ),
                ],
            ),
        ),
    ]
}

/// The tool that opens the browser.
pub open spec fn browser_tools() -> Seq<ToolDefView> {
    seq![
        definition(
            "browser"@,
            "open_browser_search"@,
            "Open the default browser to a URL or search page. The app also fetches the opened page (or first DuckDuckGo result) and returns its text in the tool response\u{2014}use that content as context to summarize or answer; do not ask the user to paste."@,
            "Local (opens browser)"@,
            "low"@,
            schema_of(
                Seq::<Seq<char>>::empty(),
                seq![
                    (
                        "url"@,
                        string_kind("Direct URL to open (e.g. https://duckduckgo.com/?q=...)"@),
                    ),
                    ("query"@, string_kind("Search query when using engine"@)),
                    (
                        "engine"@,
                        choice_kind(
                            seq!["duckduckgo"@, "bing"@, "google"@],
                            "duckduckgo"@,
                            Some("Search engine when using query"@),
                        ),
                    ),
                ],
            ),
        ),
    ]
}

/// The whole catalogue, group by group.
pub open spec fn catalogue() -> Seq<ToolDefView> {
    filesystem_tools() + obsidian_tools() + web_search_tools() + fetch_url_tools()
        + terminal_tools() + browser_tools()
}

/// The tools that are offered: a group's tools where the group is enabled
/// and, for files and notes, its root or vault is not blank. Web search
/// brings the fetch and the browser with it.
pub open spec fn offered(
    filesystem_enabled: bool,
    filesystem_root: Seq<char>,
    obsidian_enabled: bool,
    obsidian_vault: Seq<char>,
    web_search_enabled: bool,
    terminal_enabled: bool,
) -> Seq<ToolDefView> {
    let none = Seq::<ToolDefView>::empty();
    (if filesystem_enabled && !is_blank(filesystem_root) {
        filesystem_tools()
    } else {
        none
    }) + (if obsidian_enabled && !is_blank(obsidian_vault) {
        obsidian_tools()
    } else {
        none
    }) + (if web_search_enabled {
        web_search_tools() + fetch_url_tools() + browser_tools()
    } else {
        none
    }) + (if terminal_enabled {
        terminal_tools()
    } else {
        none
    })
}

fn member(key: &str, value: Json) -> (r: (String, Json))
    ensures
        r.0@ == key@,
        r.1 == value,
{
    (owned(key), value)
}

fn text(value: &str) -> (r: Json)
    ensures
        r@ == JsonView::Text(value@),
{
    Json::Text(owned(value))
}

/// Appends the member `key` with the text `value`, where there is one.
fn push_text(members: &mut Vec<(String, Json)>, key: &str, value: Option<&str>)
    ensures
        members_view(final(members)@) == members_view(old(members)@) + optional_text(
            key@,
            match value {
                Some(v) => Some(v@),
                None => None,
            },
        ),
{
    if let Some(v) = value {
        members.push(member(key, text(v)));
        assert(members_view(members@) =~= members_view(old(members)@) + seq![
            (key@, JsonView::Text(v@)),
        ]);
    } else {
        assert(members_view(members@) =~= members_view(old(members)@) + Seq::<
            (Seq<char>, JsonView),
        >::empty());
    }
}

/// Appends the member `key` with the number `value`, where there is one.
fn push_number(members: &mut Vec<(String, Json)>, key: &str, value: Option<u64>)
    ensures
        members_view(final(members)@) == members_view(old(members)@) + optional_number(
            key@,
            value,
        ),
{
    if let Some(v) = value {
        members.push(member(key, Json::Unsigned(v)));
        assert(members_view(members@) =~= members_view(old(members)@) + seq![
            (key@, JsonView::Unsigned(v)),
        ]);
    } else {
        assert(members_view(members@) =~= members_view(old(members)@) + Seq::<
            (Seq<char>, JsonView),
        >::empty());
    }
}

/// The texts `values` as an array of strings.
fn text_list(values: &Vec<&str>) -> (r: Json)
    ensures
        r@ == JsonView::Array(text_values(strs_view(values@))),
{
    let mut items: Vec<Json> = Vec::new();
    let mut i: usize = 0;
    while i < values.len()
        invariant
            i <= values.len(),
            items_views(items@) == text_values(strs_view(values@)).take(i as int),
        decreases values.len() - i,
    {
        let ghost before = items@;
        let item = text(values[i]);
        items.push(item);
        assert(strs_view(values@)[i as int] == values@[i as int]@);
        assert(items_views(items@) =~= items_views(before).push(item@));
        assert(text_values(strs_view(values@)).take(i + 1) =~= text_values(
            strs_view(values@),
        ).take(i as int).push(JsonView::Text(values@[i as int]@)));
        i += 1;
    }
    assert(text_values(strs_view(values@)).take(values.len() as int) == text_values(
        strs_view(values@),
    ));
    Json::array(items)
}

/// A string argument.
fn string_arg(description: &str) -> (r: Json)
    ensures
        r@ == string_kind(description@),
{
    let members = vec![member("type", text("string")), member("description", text(description))];
    assert(members_view(members@) =~= seq![
        ("type"@, JsonView::Text("string"@)),
        ("description"@, JsonView::Text(description@)),
    ]);
    Json::object(members)
}

/// A string argument that takes one of a few values.
fn choice_arg(values: Vec<&str>, default: &str, description: Option<&str>) -> (r: Json)
    ensures
        r@ == choice_kind(
            strs_view(values@),
            default@,
            match description {
                Some(d) => Some(d@),
                None => None,
            },
        ),
{
    let mut members = vec![
        member("type", text("string")),
        member("enum", text_list(&values)),
        member("default", text(default)),
    ];
    assert(members_view(members@) =~= seq![
        ("type"@, JsonView::Text("string"@)),
        ("enum"@, JsonView::Array(text_values(strs_view(values@)))),
        ("default"@, JsonView::Text(default@)),
    ]);
    push_text(&mut members, "description", description);
    Json::object(members)
}

/// An integer argument with its bounds.
fn integer_arg(
    minimum: u64,
    maximum: Option<u64>,
    default: Option<u64>,
    description: Option<&str>,
) -> (r: Json)
    ensures
        r@ == integer_kind(
            minimum,
            maximum,
            default,
            match description {
                Some(d) => Some(d@),
                None => None,
            },
        ),
{
    let mut members = vec![
        member("type", text("integer")),
        member("minimum", Json::Unsigned(minimum)),
    ];
    assert(members_view(members@) =~= seq![
        ("type"@, JsonView::Text("integer"@)),
        ("minimum"@, JsonView::Unsigned(minimum)),
    ]);
    push_number(&mut members, "maximum", maximum);
    push_number(&mut members, "default", default);
    push_text(&mut members, "description", description);
    Json::object(members)
}

/// A truth-value argument with its default.
fn bool_arg(default: bool, description: Option<&str>) -> (r: Json)
    ensures
        r@ == bool_kind(
            default,
            match description {
                Some(d) => Some(d@),
                None => None,
            },
        ),
{
    let mut members = vec![member("type", text("boolean")), member("default", Json::Bool(default))];
    assert(members_view(members@) =~= seq![
        ("type"@, JsonView::Text("boolean"@)),
        ("default"@, JsonView::Bool(default)),
    ]);
    push_text(&mut members, "description", description);
    Json::object(members)
}

/// The shape of a tool's arguments: an object with these properties, of
/// which `required` must be present, and no others.
fn schema(required: Vec<&str>, properties: Vec<(String, Json)>) -> (r: Json)
    ensures
        r@ == schema_of(strs_view(required@), members_view(properties@)),
{
    let mut members = vec![member("type", text("object"))];
    assert(members_view(members@) =~= seq![("type"@, JsonView::Text("object"@))]);
    let ghost first = members_view(members@);
    if required.len() > 0 {
        members.push(member("required", text_list(&required)));
        assert(members_view(members@) =~= first + seq![
            ("required"@, JsonView::Array(text_values(strs_view(required@)))),
        ]);
    } else {
        assert(members_view(members@) =~= first + Seq::<(Seq<char>, JsonView)>::empty());
    }
    let ghost second = members_view(members@);
    members.push(member("properties", Json::object(properties)));
    members.push(member("additionalProperties", Json::Bool(false)));
    assert(members_view(members@) =~= second + seq![
        ("properties"@, JsonView::Object(members_view(properties@))),
        ("additionalProperties"@, JsonView::Bool(false)),
    ]);
    Json::object(members)
}

fn define(id: &str, name: &str, description: &str, scope: &str, risk: &str, json_schema: Json)
    -> (d: McpToolDef)
    ensures
        d@ == definition(id@, name@, description@, scope@, risk@, json_schema@),
{
    McpToolDef {
        id: owned(id),
        name: owned(name),
        description: owned(description),
        scope: owned(scope),
        risk: owned(risk),
        json_schema: Some(json_schema),
    }
}

fn depth_arg() -> (r: Json)
    ensures
        r@ == depth_kind(),
{
    integer_arg(1, Some(3), Some(1), None)
}

fn names0() -> (r: Vec<&'static str>)
    ensures
        strs_view(r@) == Seq::<Seq<char>>::empty(),
{
    let r: Vec<&'static str> = Vec::new();
    assert(strs_view(r@) =~= Seq::<Seq<char>>::empty());
    r
}

fn names1(a: &'static str) -> (r: Vec<&'static str>)
    ensures
        strs_view(r@) == seq![a@],
{
    let r = vec![a];
    assert(strs_view(r@) =~= seq![a@]);
    r
}

fn names2(a: &'static str, b: &'static str) -> (r: Vec<&'static str>)
    ensures
        strs_view(r@) == seq![a@, b@],
{
    let r = vec![a, b];
    assert(strs_view(r@) =~= seq![a@, b@]);
    r
}

fn names3(a: &'static str, b: &'static str, c: &'static str) -> (r: Vec<&'static str>)
    ensures
        strs_view(r@) == seq![a@, b@, c@],
{
    let r = vec![a, b, c];
    assert(strs_view(r@) =~= seq![a@, b@, c@]);
    r
}

fn properties1(a: (String, Json)) -> (r: Vec<(String, Json)>)
    ensures
        members_view(r@) == seq![(a.0@, a.1@)],
{
    let r = vec![a];
    assert(members_view(r@) =~= seq![(a.0@, a.1@)]);
    r
}

fn properties2(a: (String, Json), b: (String, Json)) -> (r: Vec<(String, Json)>)
    ensures
        members_view(r@) == seq![(a.0@, a.1@), (b.0@, b.1@)],
{
    let r = vec![a, b];
    assert(members_view(r@) =~= seq![(a.0@, a.1@), (b.0@, b.1@)]);
    r
}

fn properties3(a: (String, Json), b: (String, Json), c: (String, Json)) -> (r: Vec<
    (String, Json),
>)
    ensures
        members_view(r@) == seq![(a.0@, a.1@), (b.0@, b.1@), (c.0@, c.1@)],
{
    let r = vec![a, b, c];
    assert(members_view(r@) =~= seq![(a.0@, a.1@), (b.0@, b.1@), (c.0@, c.1@)]);
    r
}

fn properties5(
    a: (String, Json),
    b: (String, Json),
    c: (String, Json),
    d: (String, Json),
    e: (String, Json),
) -> (r: Vec<(String, Json)>)
    ensures
        members_view(r@) == seq![
            (a.0@, a.1@),
            (b.0@, b.1@),
            (c.0@, c.1@),
            (d.0@, d.1@),
            (e.0@, e.1@),
        ],
{
    let r = vec![a, b, c, d, e];
    assert(members_view(r@) =~= seq![
        (a.0@, a.1@),
        (b.0@, b.1@),
        (c.0@, c.1@),
        (d.0@, d.1@),
        (e.0@, e.1@),
    ]);
    r
}

/// A property of a schema: the argument `key` of the kind `kind`.
fn property(key: &str, kind: Json) -> (r: (String, Json))
    ensures
        r.0@ == key@,
        r.1@ == kind@,
{
    (owned(key), kind)
}

/// The definitions of the tools that work on files under the root.
pub fn filesystem_tool_defs() -> (defs: Vec<McpToolDef>)
    ensures
        defs_view(defs@) == filesystem_tools(),
{
    let scope = "Sandboxed to user-selected root";
    let defs = vec![
        define(
            "filesystem",
            "read_file",
            "Read a UTF-8 text file. Only within the selected root directory. Use relative path from root.",
            scope,
            "read_only",
            schema(
                names1("path"),
                properties3(
                    property("path", string_arg("Relative path to file from root")),
                    property("head", integer_arg(1, None, None, Some("Return only first N lines"))),
                    property("tail", integer_arg(1, None, None, Some("Return only last N lines"))),
                ),
            ),
        ),
        define(
            "filesystem",
            "write_file",
            "Write a UTF-8 text file. Only within the selected root. Creates parent directories if needed.",
            scope,
            "write",
            schema(
                names2("path", "content"),
                properties2(
                    property("path", string_arg("Relative path from root")),
                    property("content", string_arg("File content")),
                ),
            ),
        ),
        define(
            "filesystem",
            "list_dir",
            "List directory contents (names, with / for dirs). Only within the selected root.",
            scope,
            "read_only",
            schema(
                names1("path"),
                properties2(
                    property("path", string_arg("Relative path to directory from root")),
                    property("depth", depth_arg()),
                ),
            ),
        ),
    ];
    assert(defs_view(defs@) =~= filesystem_tools());
    defs
}

/// The definitions of the tools that work on notes in the vault.
pub fn obsidian_tool_defs() -> (defs: Vec<McpToolDef>)
    ensures
        defs_view(defs@) == obsidian_tools(),
{
    let scope = "Obsidian vault path";
    let defs = vec![
        define(
            "obsidian",
            "obsidian_read_note",
            "Read an Obsidian note (Markdown) from the vault. Path is vault-relative (e.g. 'Daily/2026-02-10.md'). Preserves frontmatter.",
            scope,
            "read_only",
            schema(
                names1("path"),
                properties1(
                    property(
                        "path",
                        string_arg("Vault-relative path, e.g. 'Daily/2026-02-10.md'"),
                    ),
                ),
            ),
        ),
        define(
            "obsidian",
            "obsidian_write_note",
            "Write an Obsidian note (Markdown) to the vault. Preserve frontmatter if present in content.",
            scope,
            "write",
            schema(
                names2("path", "content"),
                properties2(
                    property("path", string_arg("Vault-relative path")),
                    property(
                        "content",
                        string_arg("Markdown content (include frontmatter if desired)"),
                    ),
                ),
            ),
        ),
        define(
            "obsidian",
            "obsidian_list_notes",
            "List note files in a vault folder. Path is vault-relative.",
            scope,
            "read_only",
            schema(
                names1("path"),
                properties2(
                    property("path", string_arg("Vault-relative path to directory")),
                    property("depth", depth_arg()),
                ),
            ),
        ),
    ];
    assert(defs_view(defs@) =~= obsidian_tools());
    defs
}

/// The definition of the web search.
pub fn web_search_tool_defs() -> (defs: Vec<McpToolDef>)
    ensures
        defs_view(defs@) == web_search_tools(),
{
    let defs = vec![
        define(
            "web_search",
            "web_search",
            "Search the web (DuckDuckGo). Returns title, snippet, URL, and optional page excerpts so you can summarize the pages (not just list links). Use for current info and to summarize what each result says. Cite results.",
            "Internet (opt-in)",
            "network",
            schema(
                names1("query"),
                properties3(
                    property("query", string_arg("Search query")),
                    property("max_results", integer_arg(1, Some(10), Some(5), None)),
                    property(
                        "include_page_excerpts",
                        bool_arg(
                            true,
                            Some(
                                "When true (default), fetch each result URL and include a text excerpt so you can summarize the page content.",
                            ),
                        ),
                    ),
                ),
            ),
        ),
    ];
    assert(defs_view(defs@) =~= web_search_tools());
    defs
}

/// The definitions of the tools that run commands.
pub fn terminal_tool_defs() -> (defs: Vec<McpToolDef>)
    ensures
        defs_view(defs@) == terminal_tools(),
{
    let scope = "Local system (opt-in)";
    let defs = vec![
        define(
            "terminal",
            "run_command",
            "Execute a shell command. Returns stdout and stderr. One command per call. Use with caution\u{2014}commands run with your user permissions.",
            scope,
            "high",
            schema(
                names1("command"),
                properties2(
                    property(
                        "command",
                        string_arg("Command to execute (e.g. 'ls -la' or 'dir' on Windows)"),
                    ),
                    property(
                        "working_directory",
                        string_arg(
                            "Optional: working directory (absolute path). Defaults to user home (root), not the app folder.",
                        ),
                    ),
                ),
            ),
        ),
        define(
            "terminal",
            "open_terminal_and_run",
            "Open a visible CLI and run a command. By default reuses the same terminal tab; set new_tab=true for a new tab. Default working directory is user home (root), not the app folder. Windows: PowerShell, cmd, or wt.",
            scope,
            "high",
            schema(
                names1("command"),
                properties5(
                    property("shell", choice_arg(names3("powershell", "cmd", "wt"), "powershell", None)),
                    property("command", string_arg("Command to run in the terminal")),
                    property("keep_open", bool_arg(true, None)),
                    property(
                        "working_directory",
                        string_arg(
                            "Optional: working directory. Defaults to user home (root), not the app folder.",
                        ),
                    ),
                    property(
                        "new_tab",
                        bool_arg(
                            false,
                            Some(
                                "If true, open a new terminal tab/window. If false (default), reuse the same terminal.",
                            ),
                        ),
                    ),
                ),
            ),
        ),
    ];
    assert(defs_view(defs@) =~= terminal_tools());
    defs
}

/// The definition of the fetch of one address.
pub fn fetch_url_tool_defs() -> (defs: Vec<McpToolDef>)
    ensures
        defs_view(defs@) == fetch_url_tools(),
{
    let defs = vec![
        define(
            "web",
            "fetch_url",
            "Fetch a URL and return the page content as plain text. Use when the user asks to summarize a link, explain a page, or gives you a URL\u{2014}you receive the content as context and summarize or answer from it; the user does not need to copy-paste anything.",
            "Internet (opt-in)",
            "network",
            schema(
                names1("url"),
                properties2(
                    property(
                        "url",
                        string_arg("Full URL to fetch (e.g. https://example.com/article)"),
                    ),
                    property(
                        "max_chars",
                        integer_arg(
                            500,
                            Some(20000),
                            Some(12000),
                            Some("Max plain-text characters to return (for context window)"),
                        ),
                    ),
                ),
            ),
        ),
    ];
    assert(defs_view(defs@) =~= fetch_url_tools());
    defs
}

/// The definition of the tool that opens the browser.
pub fn open_browser_search_tool_defs() -> (defs: Vec<McpToolDef>)
    ensures
        defs_view(defs@) == browser_tools(),
{
    let defs = vec![
        define(
            "browser",
            "open_browser_search",
            "Open the default browser to a URL or search page. The app also fetches the opened page (or first DuckDuckGo result) and returns its text in the tool response\u{2014}use that content as context to summarize or answer; do not ask the user to paste.",
            "Local (opens browser)",
            "low",
            schema(
                names0(),
                properties3(
                    property(
                        "url",
                        string_arg("Direct URL to open (e.g. https://duckduckgo.com/?q=...)"),
                    ),
                    property("query", string_arg("Search query when using engine")),
                    property(
                        "engine",
                        choice_arg(
                            names3("duckduckgo", "bing", "google"),
                            "duckduckgo",
                            Some("Search engine when using query"),
                        ),
                    ),
                ),
            ),
        ),
    ];
    assert(defs_view(defs@) =~= browser_tools());
    defs
}

/// Appends the definitions `more` to `out`.
fn extend(out: &mut Vec<McpToolDef>, more: Vec<McpToolDef>)
    ensures
        defs_view(final(out)@) == defs_view(old(out)@) + defs_view(more@),
{
    let ghost added = more@;
    let mut more = more;
    out.append(&mut more);
    assert(defs_view(out@) =~= defs_view(old(out)@) + defs_view(added));
}

/// The whole catalogue, whatever is enabled.
pub fn all_tool_definitions() -> (defs: Vec<McpToolDef>)
    ensures
        defs_view(defs@) == catalogue(),
{
    let mut out = filesystem_tool_defs();
    extend(&mut out, obsidian_tool_defs());
    extend(&mut out, web_search_tool_defs());
    extend(&mut out, fetch_url_tool_defs());
    extend(&mut out, terminal_tool_defs());
    extend(&mut out, open_browser_search_tool_defs());
    out
}

/// The definitions of the tools that are offered: those of the groups that
/// are enabled, and, for files and notes, have a root or vault that is not
/// blank.
pub fn enabled_tool_definitions(
    filesystem_enabled: bool,
    filesystem_root: &str,
    obsidian_enabled: bool,
    obsidian_vault: &str,
    web_search_enabled: bool,
    terminal_enabled: bool,
) -> (defs: Vec<McpToolDef>)
    ensures
        defs_view(defs@) == offered(
            filesystem_enabled,
            filesystem_root@,
            obsidian_enabled,
            obsidian_vault@,
            web_search_enabled,
            terminal_enabled,
        ),
{
    let mut out: Vec<McpToolDef> = Vec::new();
    let ghost none = Seq::<ToolDefView>::empty();
    assert(defs_view(out@) =~= none);
    if filesystem_enabled && !is_blank_str(filesystem_root) {
        extend(&mut out, filesystem_tool_defs());
    }
    let ghost a = defs_view(out@);
    assert(a =~= if filesystem_enabled && !is_blank(filesystem_root@) {
        filesystem_tools()
    } else {
        none
    });
    if obsidian_enabled && !is_blank_str(obsidian_vault) {
        extend(&mut out, obsidian_tool_defs());
    }
    let ghost b = defs_view(out@);
    assert(b =~= a + (if obsidian_enabled && !is_blank(obsidian_vault@) {
        obsidian_tools()
    } else {
        none
    }));
    if web_search_enabled {
        extend(&mut out, web_search_tool_defs());
        extend(&mut out, fetch_url_tool_defs());
        extend(&mut out, open_browser_search_tool_defs());
    }
    let ghost c = defs_view(out@);
    assert(c =~= b + (if web_search_enabled {
        web_search_tools() + fetch_url_tools() + browser_tools()
    } else {
        none
    }));
    if terminal_enabled {
        extend(&mut out, terminal_tool_defs());
    }
    assert(defs_view(out@) =~= c + (if terminal_enabled {
        terminal_tools()
    } else {
        none
    }));
    out
}

/// Every tool that is offered is a tool of the catalogue: the filter
/// selects, it never adds.
pub proof fn lemma_offered_is_in_catalogue(
    filesystem_enabled: bool,
    filesystem_root: Seq<char>,
    obsidian_enabled: bool,
    obsidian_vault: Seq<char>,
    web_search_enabled: bool,
    terminal_enabled: bool,
    i: int,
)
    requires
        0 <= i < offered(
            filesystem_enabled,
            filesystem_root,
            obsidian_enabled,
            obsidian_vault,
            web_search_enabled,
            terminal_enabled,
        ).len(),
    ensures
        catalogue().contains(
            offered(
                filesystem_enabled,
                filesystem_root,
                obsidian_enabled,
                obsidian_vault,
                web_search_enabled,
                terminal_enabled,
            )[i],
        ),
{
    let all = catalogue();
    let x = offered(
        filesystem_enabled,
        filesystem_root,
        obsidian_enabled,
        obsidian_vault,
        web_search_enabled,
        terminal_enabled,
    )[i];
    assert(all.len() == 11);
    assert(all[0] == filesystem_tools()[0] && all[1] == filesystem_tools()[1] && all[2]
        == filesystem_tools()[2]);
    assert(all[3] == obsidian_tools()[0] && all[4] == obsidian_tools()[1] && all[5]
        == obsidian_tools()[2]);
    assert(all[6] == web_search_tools()[0] && all[7] == fetch_url_tools()[0]);
    assert(all[8] == terminal_tools()[0] && all[9] == terminal_tools()[1]);
    assert(all[10] == browser_tools()[0]);
    assert(x == all[0] || x == all[1] || x == all[2] || x == all[3] || x == all[4] || x == all[5]
        || x == all[6] || x == all[7] || x == all[8] || x == all[9] || x == all[10]);
}

/// A group that is not enabled offers none of its tools; with nothing
/// enabled, nothing is offered.
pub proof fn lemma_nothing_enabled_nothing_offered(
    filesystem_root: Seq<char>,
    obsidian_vault: Seq<char>,
)
    ensures
        offered(false, filesystem_root, false, obsidian_vault, false, false).len() == 0,
{
}

} // verus!
