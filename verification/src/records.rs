//! Conversations and messages as the store holds them and as the caller sees
//! them, and what the inference server reports.

use vstd::prelude::*;

verus! {

/// A conversation as stored.
#[derive(Debug, PartialEq, Eq)]
pub struct ConversationRow {
    pub id: String,
    pub title: String,
    pub created_at: i64,
    pub updated_at: i64,
    pub message_ids: Vec<String>,
}

/// A message as stored.
#[derive(Debug, PartialEq, Eq)]
pub struct MessageRow {
    pub id: String,
    pub role: String,
    pub content: String,
    pub timestamp: i64,
}

/// A conversation as the caller sees it.
#[derive(Debug, PartialEq, Eq)]
pub struct ConversationDto {
    pub id: String,
    pub title: String,
    pub created_at: i64,
    pub updated_at: i64,
    pub message_ids: Vec<String>,
}

/// A message as the caller sees it.
#[derive(Debug, PartialEq, Eq)]
pub struct MessageDto {
    pub id: String,
    pub role: String,
    pub content: String,
    pub timestamp: i64,
}

/// A model that the inference server holds.
#[derive(Debug, PartialEq, Eq)]
pub struct ModelInfo {
    pub name: String,
    pub size: u64,
    pub modified_at: Option<String>,
}

/// One message of a chat.
#[derive(Debug, PartialEq, Eq)]
pub struct ChatMessage {
    pub role: String,
    pub content: String,
}

/// One report of the inference server on a model it is pulling.
#[derive(Debug, PartialEq, Eq)]
pub struct PullEvent {
    pub status: Option<String>,
    pub digest: Option<String>,
    pub total: Option<u64>,
    pub completed: Option<u64>,
}

/// A backend that runs models.
pub trait LLMProvider: Send + Sync {
    /// The backend's name.
    fn name(&self) -> &str;

    /// Whether the backend answers.
    fn health(&self) -> Result<bool, String>;

    /// The models the backend holds.
    fn list_models(&self) -> Result<Vec<String>, String>;
}

/// The title of a conversation that is created without one.
pub fn default_title(title: Option<String>) -> (r: String)
    ensures
        r@ == match title {
            Some(t) => t@,
            None => "New chat"@,
        },
{
    match title {
        Some(t) => t,
        None => crate::text::owned("New chat"),
    }
}

/// The conversation as the caller sees it.
pub fn conversation_dto(row: ConversationRow) -> (r: ConversationDto)
    ensures
        r.id == row.id,
        r.title == row.title,
        r.created_at == row.created_at,
        r.updated_at == row.updated_at,
        r.message_ids == row.message_ids,
        shows(r, row),
{
    ConversationDto {
        id: row.id,
        title: row.title,
        created_at: row.created_at,
        updated_at: row.updated_at,
        message_ids: row.message_ids,
    }
}

/// The message as the caller sees it.
pub fn message_dto(row: MessageRow) -> (r: MessageDto)
    ensures
        r.id == row.id,
        r.role == row.role,
        r.content == row.content,
        r.timestamp == row.timestamp,
{
    MessageDto { id: row.id, role: row.role, content: row.content, timestamp: row.timestamp }
}

/// Whether a conversation is shown as it is stored.
pub open spec fn shows(dto: ConversationDto, row: ConversationRow) -> bool {
    &&& dto.id == row.id
    &&& dto.title == row.title
    &&& dto.created_at == row.created_at
    &&& dto.updated_at == row.updated_at
    &&& dto.message_ids == row.message_ids
}

/// The conversations as the caller sees them, in the order of the rows.
pub fn get_conversations(rows: Vec<ConversationRow>) -> (out: Vec<ConversationDto>)
    ensures
        out.len() == rows.len(),
        forall|i: int| 0 <= i < rows.len() ==> shows(#[trigger] out[i], rows[i]),
{
    let ghost all = rows@;
    let mut out: Vec<ConversationDto> = Vec::new();
    for row in it: rows.into_iter()
        invariant
            it.seq() == all,
            out.len() == it.index(),
            forall|i: int| 0 <= i < out.len() ==> shows(#[trigger] out[i], all[i]),
    {
        out.push(conversation_dto(row));
    }
    out
}

/// How far a pull has come, in percent: nothing where the total is unknown
/// or zero.
pub open spec fn pull_percent(completed: u64, total: u64) -> int {
    if total > 0 {
        (100 * completed) / (total as int)
    } else {
        0
    }
}

/// What is shown of a pull on one report: the bytes done, the total, and
/// the percentage, held to what a `u64` can hold.
pub fn pull_progress(event: &PullEvent) -> (r: (u64, u64, u64))
    ensures
        r.0 == match event.completed {
            Some(c) => c,
            None => 0,
        },
        r.1 == match event.total {
            Some(t) => t,
            None => 0,
        },
        r.2 == if pull_percent(r.0, r.1) > u64::MAX {
            u64::MAX as int
        } else {
            pull_percent(r.0, r.1)
        },
{
    let completed: u64 = match event.completed {
        Some(c) => c,
        None => 0,
    };
    let total: u64 = match event.total {
        Some(t) => t,
        None => 0,
    };
    let percent: u64 = if total > 0 {
        let wide: u128 = (100u128 * (completed as u128)) / (total as u128);
        if wide > u64::MAX as u128 {
            u64::MAX
        } else {
            wide as u64
        }
    } else {
        0
    };
    (completed, total, percent)
}

/// Whether a report is worth a line in the log: the total is known, and the
/// pull has come ten points further than at the last line, or there was no
/// line yet.
pub fn pull_log_due(total: u64, percent: u64, last_logged: Option<u64>) -> (r: bool)
    ensures
        r == (total > 0 && match last_logged {
            Some(p) => percent >= p && percent - p >= 10,
            None => true,
        }),
{
    total > 0 && match last_logged {
        Some(p) => percent >= p && percent - p >= 10,
        None => true,
    }
}

} // verus!
