//! Framing of the inference server's streams, and the lines of the log.
//!
//! The server streams one JSON document a line. Bytes arrive in chunks that
//! end anywhere; `next_line` cuts complete lines off the front of what has
//! arrived so far, and `pull_event` and `chat_delta` read what a line
//! reports. A line that cannot be read is passed over.

use crate::json::{opt_json_view, parsed_json, Json, JsonView};
use crate::records::PullEvent;
use crate::text::{decimal, push_decimal, push_str, string_of};
use vstd::prelude::*;

verus! {

/// The position of the first line feed in `bytes`, or the length of `bytes`
/// where there is none.
pub open spec fn line_end(bytes: Seq<u8>) -> int
    decreases bytes.len(),
{
    if bytes.len() == 0 || bytes[0] == 0x0A {
        0
    } else {
        1 + line_end(bytes.drop_first())
    }
}

/// `line_end` lies within the bytes.
pub proof fn lemma_line_end_bounds(bytes: Seq<u8>)
    ensures
        0 <= line_end(bytes) <= bytes.len(),
    decreases bytes.len(),
{
    if bytes.len() == 0 || bytes[0] == 0x0A {
    } else {
        lemma_line_end_bounds(bytes.drop_first());
    }
}

/// A position with no line feed before it, which holds a line feed or ends
/// the bytes, is `line_end`.
pub proof fn lemma_line_end(bytes: Seq<u8>, k: int)
    requires
        0 <= k <= bytes.len(),
        forall|j: int| 0 <= j < k ==> bytes[j] != 0x0A,
        k == bytes.len() || bytes[k] == 0x0A,
    ensures
        line_end(bytes) == k,
    decreases bytes.len(),
{
    if bytes.len() == 0 || bytes[0] == 0x0A {
    } else {
        let t = bytes.drop_first();
        assert forall|j: int| 0 <= j < k - 1 implies t[j] != 0x0A by {
            assert(t[j] == bytes[j + 1]);
        }
        lemma_line_end(t, k - 1);
    }
}

/// Cuts the first complete line off the front of `buffer`: the bytes before
/// the first line feed are returned, and they and the line feed leave the
/// buffer. Without a line feed the buffer stays as it is.
pub fn take_line(buffer: &mut Vec<u8>) -> (line: Option<Vec<u8>>)
    ensures
        0 <= line_end(old(buffer)@) <= old(buffer)@.len(),
        match line {
            Some(l) => line_end(old(buffer)@) < old(buffer)@.len() && l@ == old(buffer)@.take(
                line_end(old(buffer)@),
            ) && final(buffer)@ == old(buffer)@.skip(line_end(old(buffer)@) + 1),
            None => line_end(old(buffer)@) == old(buffer)@.len() && final(buffer)@ == old(
                buffer,
            )@,
        },
{
    let mut k: usize = 0;
    while k < buffer.len() && buffer[k] != 0x0A
        invariant
            k <= buffer.len(),
            buffer@ == old(buffer)@,
            forall|j: int| 0 <= j < k ==> buffer@[j] != 0x0A,
        decreases buffer.len() - k,
    {
        k += 1;
    }
    proof {
        lemma_line_end(buffer@, k as int);
    }
    if k == buffer.len() {
        return None;
    }
    let mut rest = buffer.split_off(k);
    let ghost cut = rest@;
    assert(buffer@ == old(buffer)@.take(k as int));
    assert(cut == old(buffer)@.skip(k as int));
    let _ = rest.remove(0);
    assert(rest@ =~= old(buffer)@.skip(k + 1));
    let mut line: Vec<u8> = Vec::new();
    line.append(buffer);
    assert(line@ =~= old(buffer)@.take(k as int));
    buffer.append(&mut rest);
    assert(buffer@ =~= old(buffer)@.skip(k + 1));
    Some(line)
}

/// The first complete line of `bytes` that is not empty, with what follows
/// it; `None` where no complete line but empty ones is there.
pub open spec fn first_full_line(bytes: Seq<u8>) -> Option<(Seq<u8>, Seq<u8>)>
    decreases bytes.len(),
{
    let k = line_end(bytes);
    if 0 <= k < bytes.len() {
        if k > 0 {
            Some((bytes.take(k), bytes.skip(k + 1)))
        } else {
            first_full_line(bytes.skip(1))
        }
    } else {
        None
    }
}

/// What is left of `bytes` once every empty line at its front is dropped.
pub open spec fn without_empty_lines(bytes: Seq<u8>) -> Seq<u8>
    decreases bytes.len(),
{
    if bytes.len() > 0 && bytes[0] == 0x0A {
        without_empty_lines(bytes.skip(1))
    } else {
        bytes
    }
}

/// Cuts the first complete line that is not empty off the front of
/// `buffer`, and drops the empty lines before it. Where there is none, only
/// the empty lines at the front leave the buffer.
pub fn next_line(buffer: &mut Vec<u8>) -> (line: Option<Vec<u8>>)
    ensures
        match line {
            Some(l) => first_full_line(old(buffer)@) == Some((l@, final(buffer)@)),
            None => first_full_line(old(buffer)@) is None && final(buffer)@
                == without_empty_lines(old(buffer)@),
        },
{
    loop
        invariant
            first_full_line(buffer@) == first_full_line(old(buffer)@),
            without_empty_lines(buffer@) == without_empty_lines(old(buffer)@),
        decreases buffer.len(),
    {
        let ghost before = buffer@;
        match take_line(buffer) {
            Some(l) => {
                assert(l@.len() == line_end(before));
                if l.len() > 0 {
                    return Some(l);
                }
                assert(line_end(before) == 0);
                proof {
                    lemma_line_end_bounds(before.drop_first());
                }
                assert(before.len() > 0 && before[0] == 0x0A);
                assert(buffer@ == before.skip(1));
            },
            None => {
                proof {
                    if before.len() > 0 && before[0] == 0x0A {
                        assert(line_end(before) == 0);
                    }
                }
                return None;
            },
        }
    }
}

/// A member that must be a string where it is given.
pub open spec fn text_member(j: JsonView, key: Seq<char>) -> Result<Option<Seq<char>>, ()> {
    match j.member(key) {
        None => Ok(None),
        Some(JsonView::Null) => Ok(None),
        Some(JsonView::Text(s)) => Ok(Some(s)),
        Some(_) => Err(()),
    }
}

/// A member that must be a non-negative integer where it is given.
pub open spec fn count_member(j: JsonView, key: Seq<char>) -> Result<Option<u64>, ()> {
    match j.member(key) {
        None => Ok(None),
        Some(JsonView::Null) => Ok(None),
        Some(JsonView::Unsigned(n)) => Ok(Some(n)),
        Some(_) => Err(()),
    }
}

/// A report on a pull as plain values.
pub struct PullView {
    pub status: Option<Seq<char>>,
    pub digest: Option<Seq<char>>,
    pub total: Option<u64>,
    pub completed: Option<u64>,
}

/// The view of a report on a pull.
pub open spec fn pull_view(e: PullEvent) -> PullView {
    PullView {
        status: crate::output::opt_view(e.status),
        digest: crate::output::opt_view(e.digest),
        total: e.total,
        completed: e.completed,
    }
}

/// The report on a pull that a JSON value holds: an object whose `status`
/// and `digest` are strings and whose `total` and `completed` are
/// non-negative integers, each where it is given. `None` for anything else.
pub open spec fn pull_in(j: Option<JsonView>) -> Option<PullView> {
    match j {
        Some(v) => if v is Object && text_member(v, "status"@) is Ok && text_member(
            v,
            "digest"@,
        ) is Ok && count_member(v, "total"@) is Ok && count_member(v, "completed"@) is Ok {
            Some(
                PullView {
                    status: text_member(v, "status"@)->Ok_0,
                    digest: text_member(v, "digest"@)->Ok_0,
                    total: count_member(v, "total"@)->Ok_0,
                    completed: count_member(v, "completed"@)->Ok_0,
                },
            )
        } else {
            None
        },
        None => None,
    }
}

fn read_text(j: &Json, key: &str) -> (r: Result<Option<String>, ()>)
    ensures
        match r {
            Ok(v) => text_member(j@, key@) == Ok::<_, ()>(crate::output::opt_view(v)),
            Err(_) => text_member(j@, key@) is Err,
        },
{
    match j.get(key) {
        None => Ok(None),
        Some(Json::Null) => Ok(None),
        Some(Json::Text(s)) => Ok(Some(s.clone())),
        Some(other) => {
            proof {
                crate::json::lemma_json_view(*other);
            }
            Err(())
        },
    }
}

fn read_count(j: &Json, key: &str) -> (r: Result<Option<u64>, ()>)
    ensures
        match r {
            Ok(v) => count_member(j@, key@) == Ok::<_, ()>(v),
            Err(_) => count_member(j@, key@) is Err,
        },
{
    match j.get(key) {
        None => Ok(None),
        Some(Json::Null) => Ok(None),
        Some(Json::Unsigned(n)) => Ok(Some(*n)),
        Some(other) => {
            proof {
                crate::json::lemma_json_view(*other);
            }
            Err(())
        },
    }
}

/// Reads a report on a pull from a JSON value.
pub fn pull_event_of(json: Option<Json>) -> (r: Option<PullEvent>)
    ensures
        match r {
            Some(e) => pull_in(opt_json_view(json)) == Some(pull_view(e)),
            None => pull_in(opt_json_view(json)) is None,
        },
{
    let j = match json {
        Some(j) => j,
        None => {
            return None;
        },
    };
    if !j.is_object() {
        return None;
    }
    let status = match read_text(&j, "status") {
        Ok(v) => v,
        Err(_) => {
            return None;
        },
    };
    let digest = match read_text(&j, "digest") {
        Ok(v) => v,
        Err(_) => {
            return None;
        },
    };
    let total = match read_count(&j, "total") {
        Ok(v) => v,
        Err(_) => {
            return None;
        },
    };
    let completed = match read_count(&j, "completed") {
        Ok(v) => v,
        Err(_) => {
            return None;
        },
    };
    Some(PullEvent { status, digest, total, completed })
}

/// Reads a report on a pull from one line of the stream; `None` for a line
/// that is not JSON or not shaped like a report.
pub fn pull_event(line: &str) -> (r: Option<PullEvent>)
    ensures
        match r {
            Some(e) => pull_in(parsed_json(line@)) == Some(pull_view(e)),
            None => pull_in(parsed_json(line@)) is None,
        },
{
    pull_event_of(Json::parse(line))
}

/// The text that a chunk of a chat carries: the string `content` of its
/// object `message`. `None` for anything else, and for a chunk whose `done`
/// is given and is no truth value.
pub open spec fn delta_in(j: Option<JsonView>) -> Option<Seq<char>> {
    match j {
        Some(v) => if v is Object && (v.member("done"@) is None || v.member("done"@)
            == Some(JsonView::Null) || v.member("done"@)->Some_0 is Bool) {
            match v.member("message"@) {
                Some(m) => if m is Object {
                    match text_member(m, "content"@) {
                        Ok(Some(c)) => Some(c),
                        _ => None,
                    }
                } else {
                    None
                },
                None => None,
            }
        } else {
            None
        },
        None => None,
    }
}

/// Reads the text of a chunk of a chat from a JSON value.
pub fn chat_delta_of(json: Option<Json>) -> (r: Option<String>)
    ensures
        crate::output::opt_view(r) == delta_in(opt_json_view(json)),
{
    let j = match json {
        Some(j) => j,
        None => {
            return None;
        },
    };
    if !j.is_object() {
        return None;
    }
    match j.get("done") {
        None => {},
        Some(Json::Null) => {},
        Some(Json::Bool(_)) => {},
        Some(other) => {
            proof {
                crate::json::lemma_json_view(*other);
            }
            return None;
        },
    }
    match j.get("message") {
        Some(m) => {
            if !m.is_object() {
                return None;
            }
            match read_text(m, "content") {
                Ok(Some(c)) => Some(c),
                _ => None,
            }
        },
        None => None,
    }
}

/// Reads the text of a chunk of a chat from one line of the stream.
pub fn chat_delta(line: &str) -> (r: Option<String>)
    ensures
        crate::output::opt_view(r) == delta_in(parsed_json(line@)),
{
    chat_delta_of(Json::parse(line))
}

/// The size at which the log is put aside and started anew: 5 MiB.
pub const ROTATE_SIZE_BYTES: u64 = 5242880;

/// Whether a log of `size` bytes is put aside before the next line.
pub fn rotate_if_needed(size: u64) -> (r: bool)
    ensures
        r == (size >= 5242880),
{
    size >= ROTATE_SIZE_BYTES
}

/// One line of the log: the time in milliseconds, the level in brackets,
/// the message, and the payload's text where there is one.
pub open spec fn log_line(ts: u64, level: Seq<char>, message: Seq<char>, meta: Option<Seq<char>>)
    -> Seq<char> {
    let head = decimal(ts as nat) + " ["@ + level + "] "@ + message;
    match meta {
        Some(m) => head + " "@ + m + "\n"@,
        None => head + "\n"@,
    }
}

/// One line of the log, as text.
pub fn format_log_line(ts: u64, level: &str, message: &str, meta: Option<&str>) -> (out: String)
    ensures
        out@ == log_line(
            ts,
            level@,
            message@,
            match meta {
                Some(m) => Some(m@),
                None => None,
            },
        ),
{
    let mut v: Vec<char> = Vec::new();
    push_decimal(&mut v, ts);
    assert(Seq::<char>::empty() + decimal(ts as nat) == decimal(ts as nat));
    push_str(&mut v, " [");
    push_str(&mut v, level);
    push_str(&mut v, "] ");
    push_str(&mut v, message);
    if let Some(m) = meta {
        push_str(&mut v, " ");
        push_str(&mut v, m);
    }
    push_str(&mut v, "\n");
    string_of(&v)
}

} // verus!
