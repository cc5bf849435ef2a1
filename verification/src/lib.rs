//! The tool-execution core of a local chat assistant.
//!
//! A conversational agent may invoke a fixed catalogue of capabilities: file
//! access under a configured root, a note vault, web search, URL fetch, shell
//! commands and launching a browser. This library holds the rules that keep
//! those capabilities inside their bounds, as verified functions from plain
//! values to plain values. The program around it performs the file, network
//! and process operations and hands their outcomes in.

pub mod browser;
pub mod command;
pub mod device;
pub mod diag;
pub mod dispatch;
pub mod encyclopedia;
pub mod error;
pub mod fetch;
pub mod files;
pub mod http;
pub mod json;
pub mod listing;
pub mod officeholder;
pub mod output;
pub mod query;
pub mod records;
pub mod registry;
pub mod results;
pub mod sandbox;
pub mod settings;
pub mod stream;
pub mod terminal;
pub mod text;
pub mod websearch;
