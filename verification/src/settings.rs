//! Which capability groups are enabled, and the boundaries they work
//! within, as the settings store holds them and as the tools need them.

use crate::registry::{
    all_tool_definitions, catalogue, dtos_view, enabled_tool_definitions, offered,
    tool_def_dtos, McpToolDefDto,
};
use crate::text::{chars_of, is_blank, is_blank_str, is_text, owned, string_of, trim_chars, trim_of};
use vstd::prelude::*;

verus! {

/// The settings of the capability groups.
#[derive(Debug, PartialEq, Eq)]
pub struct McpSettings {
    pub filesystem_enabled: bool,
    pub filesystem_root: String,
    pub obsidian_enabled: bool,
    pub obsidian_vault_path: String,
    pub web_search_enabled: bool,
    pub terminal_enabled: bool,
}

/// The settings of the capability groups, as the caller edits them.
#[derive(Debug, PartialEq, Eq)]
pub struct McpSettingsDto {
    pub filesystem_enabled: bool,
    pub filesystem_root: String,
    pub obsidian_enabled: bool,
    pub obsidian_vault_path: String,
    pub web_search_enabled: bool,
    pub terminal_enabled: bool,
}

impl McpSettings {
    /// The settings before anything is stored: nothing enabled, no root.
    pub fn new() -> (r: McpSettings)
        ensures
            !r.filesystem_enabled,
            !r.obsidian_enabled,
            !r.web_search_enabled,
            !r.terminal_enabled,
            r.filesystem_root@ == Seq::<char>::empty(),
            r.obsidian_vault_path@ == Seq::<char>::empty(),
    {
        proof {
            reveal_strlit("");
            assert(""@ =~= Seq::<char>::empty());
        }
        McpSettings {
            filesystem_enabled: false,
            filesystem_root: owned(""),
            obsidian_enabled: false,
            obsidian_vault_path: owned(""),
            web_search_enabled: false,
            terminal_enabled: false,
        }
    }
}

/// A stored truth value: `true` for the text `true`; every other text, and a
/// value that is not stored, is `false`.
pub open spec fn stored_flag(value: Option<Seq<char>>) -> bool {
    value == Some("true"@)
}

/// Reads a stored truth value.
pub fn parse_flag(value: Option<&str>) -> (r: bool)
    ensures
        r == stored_flag(
            match value {
                Some(v) => Some(v@),
                None => None,
            },
        ),
{
    match value {
        Some(v) => {
            let t = chars_of(v);
            is_text(&t, "true")
        },
        None => false,
    }
}

/// The text a truth value is stored as.
pub fn flag_text(value: bool) -> (r: String)
    ensures
        r@ == if value {
            "true"@
        } else {
            "false"@
        },
        stored_flag(Some(r@)) == value,
{
    proof {
        reveal_strlit("true");
        reveal_strlit("false");
        assert("true"@.len() == 4);
        assert("false"@.len() == 5);
    }
    if value {
        owned("true")
    } else {
        owned("false")
    }
}

/// The root that the file tools work under: the one configured, or, where
/// that is blank, the user's home (empty where there is none).
pub open spec fn effective_root(configured: Seq<char>, home: Option<Seq<char>>) -> Seq<char> {
    if is_blank(configured) {
        match home {
            Some(h) => h,
            None => Seq::<char>::empty(),
        }
    } else {
        configured
    }
}

/// Computes `effective_root`.
pub fn default_filesystem_root(configured: &str, home: Option<&str>) -> (r: String)
    ensures
        r@ == effective_root(
            configured@,
            match home {
                Some(h) => Some(h@),
                None => None,
            },
        ),
{
    if is_blank_str(configured) {
        match home {
            Some(h) => owned(h),
            None => {
                proof {
                    reveal_strlit("");
                    assert(""@ =~= Seq::<char>::empty());
                }
                owned("")
            },
        }
    } else {
        owned(configured)
    }
}

/// The settings as the caller sees them: the root filled in where none is
/// configured.
pub fn get_mcp_settings(s: McpSettings, home: Option<&str>) -> (r: McpSettingsDto)
    ensures
        r.filesystem_enabled == s.filesystem_enabled,
        r.filesystem_root@ == effective_root(
            s.filesystem_root@,
            match home {
                Some(h) => Some(h@),
                None => None,
            },
        ),
        r.obsidian_enabled == s.obsidian_enabled,
        r.obsidian_vault_path == s.obsidian_vault_path,
        r.web_search_enabled == s.web_search_enabled,
        r.terminal_enabled == s.terminal_enabled,
{
    let root = default_filesystem_root(s.filesystem_root.as_str(), home);
    McpSettingsDto {
        filesystem_enabled: s.filesystem_enabled,
        filesystem_root: root,
        obsidian_enabled: s.obsidian_enabled,
        obsidian_vault_path: s.obsidian_vault_path,
        web_search_enabled: s.web_search_enabled,
        terminal_enabled: s.terminal_enabled,
    }
}

/// The settings to store, from what the caller edited.
pub fn save_mcp_settings(settings: McpSettingsDto) -> (r: McpSettings)
    ensures
        r.filesystem_enabled == settings.filesystem_enabled,
        r.filesystem_root == settings.filesystem_root,
        r.obsidian_enabled == settings.obsidian_enabled,
        r.obsidian_vault_path == settings.obsidian_vault_path,
        r.web_search_enabled == settings.web_search_enabled,
        r.terminal_enabled == settings.terminal_enabled,
{
    McpSettings {
        filesystem_enabled: settings.filesystem_enabled,
        filesystem_root: settings.filesystem_root,
        obsidian_enabled: settings.obsidian_enabled,
        obsidian_vault_path: settings.obsidian_vault_path,
        web_search_enabled: settings.web_search_enabled,
        terminal_enabled: settings.terminal_enabled,
    }
}

/// The root handed to the dispatcher for the file tools: none where the
/// group is not enabled or no root can be had.
pub open spec fn files_root(s: McpSettings, home: Option<Seq<char>>) -> Option<Seq<char>> {
    if s.filesystem_enabled && effective_root(s.filesystem_root@, home).len() > 0 {
        Some(effective_root(s.filesystem_root@, home))
    } else {
        None
    }
}

/// The vault handed to the dispatcher for the note tools: none where the
/// group is not enabled or no vault is configured.
pub open spec fn notes_root(s: McpSettings) -> Option<Seq<char>> {
    if s.obsidian_enabled && s.obsidian_vault_path@.len() > 0 {
        Some(s.obsidian_vault_path@)
    } else {
        None
    }
}

/// The root and the vault that the dispatcher is called with.
pub fn tool_roots(s: &McpSettings, home: Option<&str>) -> (r: (Option<String>, Option<String>))
    ensures
        crate::output::opt_view(r.0) == files_root(
            *s,
            match home {
                Some(h) => Some(h@),
                None => None,
            },
        ),
        crate::output::opt_view(r.1) == notes_root(*s),
{
    let files = if s.filesystem_enabled {
        let root = default_filesystem_root(s.filesystem_root.as_str(), home);
        if root.as_str().unicode_len() == 0 {
            None
        } else {
            Some(root)
        }
    } else {
        None
    };
    let notes = if s.obsidian_enabled && s.obsidian_vault_path.as_str().unicode_len() != 0 {
        Some(s.obsidian_vault_path.clone())
    } else {
        None
    };
    (files, notes)
}

/// The definitions that the caller is shown: the whole catalogue, or, with
/// `enabled_only`, what the settings offer.
pub fn get_mcp_tool_definitions(s: &McpSettings, home: Option<&str>, enabled_only: bool) -> (r:
    Vec<McpToolDefDto>)
    ensures
        dtos_view(r@) == if enabled_only {
            offered(
                s.filesystem_enabled,
                effective_root(
                    s.filesystem_root@,
                    match home {
                        Some(h) => Some(h@),
                        None => None,
                    },
                ),
                s.obsidian_enabled,
                s.obsidian_vault_path@,
                s.web_search_enabled,
                s.terminal_enabled,
            )
        } else {
            catalogue()
        },
{
    if enabled_only {
        let root = default_filesystem_root(s.filesystem_root.as_str(), home);
        tool_def_dtos(
            enabled_tool_definitions(
                s.filesystem_enabled,
                root.as_str(),
                s.obsidian_enabled,
                s.obsidian_vault_path.as_str(),
                s.web_search_enabled,
                s.terminal_enabled,
            ),
        )
    } else {
        tool_def_dtos(all_tool_definitions())
    }
}

/// The theme where none is stored.
pub fn default_theme() -> (r: String)
    ensures
        r@ == "system"@,
{
    owned("system")
}

/// The model where none is stored.
pub fn default_selected_model() -> (r: String)
    ensures
        r@ == "qwen2.5:3b-instruct"@,
{
    owned("qwen2.5:3b-instruct")
}

/// The system prompt where none is stored.
pub open spec fn system_prompt_default() -> Seq<char> {
    "You are a local/offline assistant running in this app. You do not have access to the internet unless the web_search tool is enabled and you explicitly call it. Be direct, accurate, and concise."@
}

/// The system prompt where none is stored.
pub fn default_system_prompt() -> (r: String)
    ensures
        r@ == system_prompt_default(),
{
    owned(
        "You are a local/offline assistant running in this app. You do not have access to the internet unless the web_search tool is enabled and you explicitly call it. Be direct, accurate, and concise.",
    )
}

/// The most tokens of an answer where none is stored.
pub fn default_max_tokens() -> (r: i64)
    ensures
        r == 2048,
{
    2048
}

/// The system prompt in use: the one stored, unless it is blank.
pub fn stored_system_prompt(stored: Option<&str>) -> (r: String)
    ensures
        r@ == match stored {
            Some(p) => if is_blank(p@) {
                system_prompt_default()
            } else {
                p@
            },
            None => system_prompt_default(),
        },
{
    match stored {
        Some(p) => if is_blank_str(p) {
            default_system_prompt()
        } else {
            owned(p)
        },
        None => default_system_prompt(),
    }
}

/// Whether tools are offered to the model: as stored where `true` or
/// `false` is stored, else yes.
pub fn stored_tool_calling_mode(stored: Option<&str>) -> (r: bool)
    ensures
        r == match stored {
            Some(v) => v@ != "false"@,
            None => true,
        },
{
    match stored {
        Some(v) => {
            let t = chars_of(v);
            !is_text(&t, "false")
        },
        None => true,
    }
}

/// The preference for the inference device in use: the one stored where
/// that is one of `auto`, `prefer_gpu` and `force_cpu`, else `auto`.
pub fn stored_device_preference(stored: Option<&str>) -> (r: String)
    ensures
        r@ == match stored {
            Some(p) => if p@ == "auto"@ || p@ == "prefer_gpu"@ || p@ == "force_cpu"@ {
                p@
            } else {
                "auto"@
            },
            None => "auto"@,
        },
{
    match stored {
        Some(p) => {
            let t = chars_of(p);
            if is_text(&t, "auto") || is_text(&t, "prefer_gpu") || is_text(&t, "force_cpu") {
                string_of(&t)
            } else {
                owned("auto")
            }
        },
        None => owned("auto"),
    }
}

/// The preference for the inference device where none is stored.
pub fn default_inference_device_preference() -> (r: String)
    ensures
        r@ == "auto"@,
{
    owned("auto")
}

/// Whether tools are offered to the model where nothing is stored.
pub fn default_tool_calling_mode() -> (r: bool)
    ensures
        r,
{
    true
}

/// A preference for the inference device as it is stored: the trimmed text
/// where that is one of `auto`, `prefer_gpu` and `force_cpu`, else `auto`.
pub open spec fn device_preference(asked: Seq<char>) -> Seq<char> {
    let p = trim_of(asked);
    if p == "auto"@ || p == "prefer_gpu"@ || p == "force_cpu"@ {
        p
    } else {
        "auto"@
    }
}

/// Computes `device_preference`.
pub fn normalize_device_preference(asked: &str) -> (r: String)
    ensures
        r@ == device_preference(asked@),
{
    let raw = chars_of(asked);
    let p = trim_chars(&raw);
    if is_text(&p, "auto") || is_text(&p, "prefer_gpu") || is_text(&p, "force_cpu") {
        string_of(&p)
    } else {
        owned("auto")
    }
}

/// Whether saving settings changed the model in use: the model chosen is
/// not the one stored before.
pub fn model_changed(previous: Option<&str>, selected: &str) -> (r: bool)
    ensures
        r == match previous {
            Some(p) => p@ != selected@,
            None => true,
        },
{
    match previous {
        Some(p) => !crate::text::str_eq(p, selected),
        None => true,
    }
}

} // verus!
