//! What tool calls hand back: the envelope that every call ends in, and, for a
//! web search, the structured output with its own coarse log of steps and the
//! report that carries the output together with the diagnostic trail.

use crate::diag::{
    dto_trail_view, trail_dto, trail_view, DiagView, DiagnosticStep, DiagnosticStepDto,
};
use crate::error::McpToolError;
use crate::results::{items_view, ItemView, WebSearchResultItem};
use crate::text::{concat_str, owned};
use vstd::prelude::*;

verus! {

/// One step of a search as the caller sees it.
#[derive(Debug, PartialEq, Eq)]
pub struct WebSearchStep {
    pub name: String,
    pub ok: bool,
    pub detail: String,
}

/// A step as plain values.
pub struct StepView {
    pub name: Seq<char>,
    pub ok: bool,
    pub detail: Seq<char>,
}

impl View for WebSearchStep {
    type V = StepView;

    open spec fn view(&self) -> StepView {
        StepView { name: self.name@, ok: self.ok, detail: self.detail@ }
    }
}

/// The views of a log of steps.
pub open spec fn steps_view(steps: Seq<WebSearchStep>) -> Seq<StepView> {
    steps.map_values(|s: WebSearchStep| s@)
}

/// The step with the given name, outcome and detail.
pub open spec fn step_view(name: Seq<char>, ok: bool, detail: Seq<char>) -> StepView {
    StepView { name, ok, detail }
}

/// Appends a step to a log.
pub fn log_step(steps: &mut Vec<WebSearchStep>, name: &str, ok: bool, detail: String)
    ensures
        steps_view(final(steps)@) == steps_view(old(steps)@).push(step_view(name@, ok, detail@)),
{
    let step = WebSearchStep { name: owned(name), ok, detail };
    steps.push(step);
    assert(steps_view(steps@) =~= steps_view(old(steps)@).push(step@));
}

/// The structured output of a web search.
#[derive(Debug, PartialEq, Eq)]
pub struct WebSearchOutput {
    pub ok: bool,
    /// Which provider the results come from.
    pub provider: String,
    /// The query as it was sent.
    pub query: String,
    pub query_original: Option<String>,
    pub query_rewritten: Option<String>,
    pub recency_days: Option<u32>,
    /// The status of the primary provider's response, 0 where none arrived.
    pub status: u16,
    pub results: Vec<WebSearchResultItem>,
    /// The number of results.
    pub result_count: usize,
    pub error: Option<String>,
    pub steps: Vec<WebSearchStep>,
    /// Set where the caller should open a live search in the browser.
    pub suggest_open_browser_search: Option<bool>,
}

/// The view of a text that may be missing.
pub open spec fn opt_view(s: Option<String>) -> Option<Seq<char>> {
    match s {
        Some(t) => Some(t@),
        None => None,
    }
}

/// The output as plain values.
pub struct OutputView {
    pub ok: bool,
    pub provider: Seq<char>,
    pub query: Seq<char>,
    pub query_original: Option<Seq<char>>,
    pub query_rewritten: Option<Seq<char>>,
    pub recency_days: Option<u32>,
    pub status: u16,
    pub results: Seq<ItemView>,
    pub result_count: int,
    pub error: Option<Seq<char>>,
    pub steps: Seq<StepView>,
    pub suggest_open_browser_search: Option<bool>,
}

impl View for WebSearchOutput {
    type V = OutputView;

    open spec fn view(&self) -> OutputView {
        OutputView {
            ok: self.ok,
            provider: self.provider@,
            query: self.query@,
            query_original: opt_view(self.query_original),
            query_rewritten: opt_view(self.query_rewritten),
            recency_days: self.recency_days,
            status: self.status,
            results: items_view(self.results@),
            result_count: self.result_count as int,
            error: opt_view(self.error),
            steps: steps_view(self.steps@),
            suggest_open_browser_search: self.suggest_open_browser_search,
        }
    }
}

/// What holds of every output: the count is the number of results, and an
/// error is reported exactly where the search is not ok.
pub open spec fn output_wf(out: OutputView) -> bool {
    &&& out.result_count == out.results.len()
    &&& out.ok == (out.error is None)
}

impl WebSearchOutput {
    /// Whether this output is well formed.
    pub open spec fn wf(&self) -> bool {
        output_wf(self@)
    }
}

/// The envelope every tool call ends in.
#[derive(Debug, PartialEq, Eq)]
pub struct ToolResult {
    pub ok: bool,
    pub content: String,
    pub error: Option<String>,
    pub diagnostic_steps: Option<Vec<DiagnosticStep>>,
}

/// The envelope as plain values.
pub struct ResultView {
    pub ok: bool,
    pub content: Seq<char>,
    pub error: Option<Seq<char>>,
    pub trail: Option<Seq<DiagView>>,
}

impl View for ToolResult {
    type V = ResultView;

    open spec fn view(&self) -> ResultView {
        ResultView {
            ok: self.ok,
            content: self.content@,
            error: opt_view(self.error),
            trail: match self.diagnostic_steps {
                Some(t) => Some(trail_view(t@)),
                None => None,
            },
        }
    }
}

impl ToolResult {
    /// What holds of every envelope: an error is present exactly where the
    /// call is not ok.
    pub open spec fn wf(&self) -> bool {
        self.ok == (self.error is None)
    }

    /// The envelope of a call that succeeded.
    pub fn success(content: String, diagnostic_steps: Option<Vec<DiagnosticStep>>) -> (r:
        ToolResult)
        ensures
            r.ok,
            r.content == content,
            r.error is None,
            r.diagnostic_steps == diagnostic_steps,
            r.wf(),
    {
        ToolResult { ok: true, content, error: None, diagnostic_steps }
    }

    /// The envelope of a call that failed: no content, the error's text.
    pub fn failure(error: &McpToolError) -> (r: ToolResult)
        ensures
            !r.ok,
            r.content@ == Seq::<char>::empty(),
            opt_view(r.error) == Some(crate::error::message_of(*error)),
            r.diagnostic_steps is None,
            r.wf(),
    {
        proof {
            reveal_strlit("");
            assert(""@ =~= Seq::<char>::empty());
        }
        ToolResult {
            ok: false,
            content: owned(""),
            error: Some(error.message()),
            diagnostic_steps: None,
        }
    }
}

/// The envelope as the caller receives it.
#[derive(Debug, PartialEq, Eq)]
pub struct McpToolResultDto {
    pub ok: bool,
    pub content: String,
    pub error: Option<String>,
    pub diagnostic_steps: Option<Vec<DiagnosticStepDto>>,
}

impl View for McpToolResultDto {
    type V = ResultView;

    open spec fn view(&self) -> ResultView {
        ResultView {
            ok: self.ok,
            content: self.content@,
            error: opt_view(self.error),
            trail: match self.diagnostic_steps {
                Some(t) => Some(dto_trail_view(t@)),
                None => None,
            },
        }
    }
}

/// What the caller receives for a tool call: the envelope, or, where the
/// call itself failed, an envelope that is not ok and carries the failure's
/// text. The caller never receives a bare failure.
pub open spec fn received(outcome: Result<ToolResult, McpToolError>) -> ResultView {
    match outcome {
        Ok(r) => r@,
        Err(e) => ResultView {
            ok: false,
            content: Seq::<char>::empty(),
            error: Some(crate::error::message_of(e)),
            trail: None,
        },
    }
}

/// Hands the outcome of a tool call to the caller.
pub fn execute_mcp_tool(outcome: Result<ToolResult, McpToolError>) -> (r: McpToolResultDto)
    ensures
        r@ == received(outcome),
{
    match outcome {
        Ok(t) => McpToolResultDto {
            ok: t.ok,
            content: t.content,
            error: t.error,
            diagnostic_steps: match t.diagnostic_steps {
                Some(steps) => Some(trail_dto(steps)),
                None => None,
            },
        },
        Err(e) => {
            proof {
                reveal_strlit("");
                assert(""@ =~= Seq::<char>::empty());
            }
            McpToolResultDto {
                ok: false,
                content: owned(""),
                error: Some(e.message()),
                diagnostic_steps: None,
            }
        },
    }
}

/// The end of a web search: the output and the diagnostic trail.
#[derive(Debug, PartialEq, Eq)]
pub struct WebSearchReport {
    pub output: WebSearchOutput,
    pub diagnostic_steps: Vec<DiagnosticStep>,
}

/// A report as plain values.
pub struct ReportView {
    pub output: OutputView,
    pub trail: Seq<DiagView>,
}

impl View for WebSearchReport {
    type V = ReportView;

    open spec fn view(&self) -> ReportView {
        ReportView { output: self.output@, trail: trail_view(self.diagnostic_steps@) }
    }
}

/// The envelope of a web search, given the output as JSON text (or the
/// message of the failure to write it). A search that failed still has its
/// output as content, `{}` where that could not be written; a search that
/// succeeded and could not be written is an invalid argument.
pub open spec fn search_envelope(report: ReportView, written: Result<Seq<char>, Seq<char>>)
    -> Result<ResultView, Seq<char>> {
    if report.output.ok {
        match written {
            Ok(text) => Ok(
                ResultView { ok: true, content: text, error: None, trail: Some(report.trail) },
            ),
            Err(e) => Err("serialize: "@ + e),
        }
    } else {
        Ok(
            ResultView {
                ok: false,
                content: match written {
                    Ok(text) => text,
                    Err(_) => "{}"@,
                },
                error: report.output.error,
                trail: Some(report.trail),
            },
        )
    }
}

impl WebSearchReport {
    /// Wraps the search into its envelope. `written` is the output as JSON
    /// text, or the message of the failure to write it.
    pub fn into_tool_result(self, written: Result<String, String>) -> (r: Result<
        ToolResult,
        McpToolError,
    >)
        ensures
            match r {
                Ok(t) => search_envelope(
                    self@,
                    match written {
                        Ok(w) => Ok(w@),
                        Err(e) => Err(e@),
                    },
                ) == Ok::<_, Seq<char>>(t@) && (self.output.wf() ==> t.wf()),
                Err(e) => e matches McpToolError::InvalidArg(m) && search_envelope(
                    self@,
                    match written {
                        Ok(w) => Ok(w@),
                        Err(e) => Err(e@),
                    },
                ) == Err::<ResultView, _>(m@),
            },
    {
        if self.output.ok {
            match written {
                Ok(text) => Ok(
                    ToolResult {
                        ok: true,
                        content: text,
                        error: None,
                        diagnostic_steps: Some(self.diagnostic_steps),
                    },
                ),
                Err(e) => Err(McpToolError::InvalidArg(concat_str("serialize: ", e.as_str()))),
            }
        } else {
            let content = match written {
                Ok(text) => text,
                Err(_) => owned("{}"),
            };
            Ok(
                ToolResult {
                    ok: false,
                    content,
                    error: self.output.error,
                    diagnostic_steps: Some(self.diagnostic_steps),
                },
            )
        }
    }
}

} // verus!
