//! The failures a tool call can end in, and the text each is reported with.

use crate::text::{concat_str, owned};
use vstd::prelude::*;

verus! {

/// Why a tool call was refused or failed.
#[derive(Debug, PartialEq, Eq)]
pub enum McpToolError {
    /// The requested path leaves, or may leave, the configured root.
    PathNotAllowed(String),
    /// The capability is enabled but no root or vault is set.
    RootNotConfigured,
    /// The local file system failed; the field is its message.
    Io(String),
    /// An argument is missing or malformed.
    InvalidArg(String),
    /// No tool has this name.
    UnknownTool(String),
    /// A transport failure unrelated to any HTTP status.
    Network(String),
    /// A process could not be launched, or the command is on the blocklist.
    CommandFailed(String),
}

/// An error as plain values.
pub enum ErrorView {
    PathNotAllowed(Seq<char>),
    RootNotConfigured,
    Io(Seq<char>),
    InvalidArg(Seq<char>),
    UnknownTool(Seq<char>),
    Network(Seq<char>),
    CommandFailed(Seq<char>),
}

impl View for McpToolError {
    type V = ErrorView;

    open spec fn view(&self) -> ErrorView {
        match self {
            McpToolError::PathNotAllowed(s) => ErrorView::PathNotAllowed(s@),
            McpToolError::RootNotConfigured => ErrorView::RootNotConfigured,
            McpToolError::Io(s) => ErrorView::Io(s@),
            McpToolError::InvalidArg(s) => ErrorView::InvalidArg(s@),
            McpToolError::UnknownTool(s) => ErrorView::UnknownTool(s@),
            McpToolError::Network(s) => ErrorView::Network(s@),
            McpToolError::CommandFailed(s) => ErrorView::CommandFailed(s@),
        }
    }
}

/// The text an error is reported with.
pub open spec fn message_of(e: McpToolError) -> Seq<char> {
    match e {
        McpToolError::PathNotAllowed(s) => "Path not allowed: "@ + s@,
        McpToolError::RootNotConfigured => "Root not configured"@,
        McpToolError::Io(s) => "IO: "@ + s@,
        McpToolError::InvalidArg(s) => "Invalid argument: "@ + s@,
        McpToolError::UnknownTool(s) => "Tool not found: "@ + s@,
        McpToolError::Network(s) => "Network: "@ + s@,
        McpToolError::CommandFailed(s) => "Command execution failed: "@ + s@,
    }
}

impl McpToolError {
    /// The text this error is reported with.
    pub fn message(&self) -> (out: String)
        ensures
            out@ == message_of(*self),
    {
        match self {
            McpToolError::PathNotAllowed(s) => concat_str("Path not allowed: ", s.as_str()),
            McpToolError::RootNotConfigured => owned("Root not configured"),
            McpToolError::Io(s) => concat_str("IO: ", s.as_str()),
            McpToolError::InvalidArg(s) => concat_str("Invalid argument: ", s.as_str()),
            McpToolError::UnknownTool(s) => concat_str("Tool not found: ", s.as_str()),
            McpToolError::Network(s) => concat_str("Network: ", s.as_str()),
            McpToolError::CommandFailed(s) => concat_str("Command execution failed: ", s.as_str()),
        }
    }
}

/// A failure of the application around the tools.
#[derive(Debug, PartialEq, Eq)]
pub enum AppError {
    /// The conversation store failed; the field is its message.
    Storage(String),
    /// The inference server failed or could not be reached.
    Ollama(String),
    /// The local file system failed; the field is its message.
    Io(String),
    /// A tool call failed.
    Mcp(McpToolError),
}

/// The text an application error is reported with.
pub open spec fn app_message_of(e: AppError) -> Seq<char> {
    match e {
        AppError::Storage(s) => "Storage error: "@ + s@,
        AppError::Ollama(s) => "Ollama error: "@ + s@,
        AppError::Io(s) => "IO error: "@ + s@,
        AppError::Mcp(inner) => "MCP tool error: "@ + message_of(inner),
    }
}

impl AppError {
    /// The text this error is reported with.
    pub fn message(&self) -> (out: String)
        ensures
            out@ == app_message_of(*self),
    {
        match self {
            AppError::Storage(s) => concat_str("Storage error: ", s.as_str()),
            AppError::Ollama(s) => concat_str("Ollama error: ", s.as_str()),
            AppError::Io(s) => concat_str("IO error: ", s.as_str()),
            AppError::Mcp(inner) => {
                let m = inner.message();
                concat_str("MCP tool error: ", m.as_str())
            },
        }
    }
}

} // verus!
