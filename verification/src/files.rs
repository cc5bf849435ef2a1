//! Reading and writing files under the sandbox.
//!
//! The caller validates the path, looks at the file system and hands in what
//! it found; what is then refused, and what is returned, is decided here.

use crate::error::{ErrorView, McpToolError};
use crate::text::{
    chars_of, decimal, join_chars, joined, owned, push_decimal, push_str, slice_chars, split_chars,
    split_on, string_of, views_of,
};
use vstd::prelude::*;

verus! {

/// The largest file that is read, in bytes: 512 KiB.
pub const MAX_FILE_SIZE_BYTES: u64 = 524288;

/// The most lines that are returned.
pub const MAX_READ_LINES: usize = 2000;

// ---------------------------------------------------------------------------
// Reading
// ---------------------------------------------------------------------------

/// Why a path cannot be read, if it cannot: it is no file, or the file is
/// larger than 512 KiB.
pub open spec fn read_fault(is_file: bool, size: u64) -> Option<ErrorView> {
    if !is_file {
        Some(ErrorView::InvalidArg("Path is not a file"@))
    } else if size > 524288 {
        Some(ErrorView::InvalidArg("File too large (max 524288 bytes)"@))
    } else {
        None
    }
}

/// Checks, before a file is read, that it is a file and not too large.
pub fn check_file_readable(is_file: bool, size: u64) -> (r: Result<(), McpToolError>)
    ensures
        match r {
            Ok(_) => read_fault(is_file, size) is None,
            Err(e) => read_fault(is_file, size) == Some(e@),
        },
{
    if !is_file {
        Err(McpToolError::InvalidArg(owned("Path is not a file")))
    } else if size > MAX_FILE_SIZE_BYTES {
        Err(McpToolError::InvalidArg(owned("File too large (max 524288 bytes)")))
    } else {
        Ok(())
    }
}

/// A piece that a line feed ended, as a line: without the carriage return
/// that may stand before the line feed.
pub open spec fn ended_line(piece: Seq<char>) -> Seq<char> {
    if piece.len() > 0 && piece.last() == '\r' {
        piece.drop_last()
    } else {
        piece
    }
}

/// The lines of `pieces`, the pieces of a text between its line feeds: each
/// piece but the last is a line that a line feed ended; the last is a line
/// as it stands, unless it is empty.
pub open spec fn lines_from(pieces: Seq<Seq<char>>) -> Seq<Seq<char>> {
    if pieces.len() == 0 {
        pieces
    } else {
        let ended = pieces.drop_last().map_values(|p: Seq<char>| ended_line(p));
        if pieces.last().len() > 0 {
            ended.push(pieces.last())
        } else {
            ended
        }
    }
}

/// The lines of a text. A line ends at a line feed, or at a carriage return
/// and a line feed; the last line need not be ended.
pub open spec fn lines_of(content: Seq<char>) -> Seq<Seq<char>> {
    lines_from(split_on(content, '\n'))
}

/// The smaller of `n` and 2000, the most lines that are returned.
pub open spec fn line_limit(n: u32) -> int {
    if n < 2000 {
        n as int
    } else {
        2000
    }
}

/// What reading a file returns. Without `head` and `tail`, a file of more
/// than 2000 lines is cut to its first 2000, with a marker after them, and
/// any other file is returned as it is. With `head`, the first lines; else
/// with `tail`, the last; in both cases 2000 at most, joined by line feeds.
pub open spec fn read_view(content: Seq<char>, head: Option<u32>, tail: Option<u32>) -> Seq<char> {
    let lines = lines_of(content);
    let total = lines.len() as int;
    let feed = seq!['\n'];
    if total > 2000 && head is None && tail is None {
        joined(lines.take(2000), feed) + "\n... (truncated, max 2000 lines)"@
    } else {
        match head {
            Some(n) => joined(
                lines.take(
                    if line_limit(n) < total {
                        line_limit(n)
                    } else {
                        total
                    },
                ),
                feed,
            ),
            None => match tail {
                Some(n) => joined(
                    lines.skip(
                        if line_limit(n) < total {
                            total - line_limit(n)
                        } else {
                            0
                        },
                    ),
                    feed,
                ),
                None => content,
            },
        }
    }
}

/// Computes `lines_of`.
pub fn lines(content: &Vec<char>) -> (out: Vec<Vec<char>>)
    ensures
        views_of(out@) == lines_of(content@),
{
    let pieces = split_chars(content, '\n');
    let ghost all = views_of(pieces@);
    let mut out: Vec<Vec<char>> = Vec::new();
    if pieces.len() == 0 {
        assert(views_of(out@) =~= all);
        return out;
    }
    let last = pieces.len() - 1;
    let ghost ended = all.drop_last().map_values(|p: Seq<char>| ended_line(p));
    let mut i: usize = 0;
    while i < last
        invariant
            i <= last,
            last == pieces.len() - 1,
            all == views_of(pieces@),
            ended == all.drop_last().map_values(|p: Seq<char>| ended_line(p)),
            views_of(out@) == ended.take(i as int),
        decreases last - i,
    {
        let p = &pieces[i];
        let n = p.len();
        let line = if n > 0 && p[n - 1] == '\r' {
            slice_chars(p, 0, n - 1)
        } else {
            slice_chars(p, 0, n)
        };
        assert(line@ == ended_line(p@)) by {
            assert(p@.subrange(0, n as int) == p@);
            if n > 0 {
                assert(p@.subrange(0, n - 1) == p@.drop_last());
            }
        }
        assert(all[i as int] == p@);
        assert(all.drop_last()[i as int] == all[i as int]);
        let ghost before = out@;
        out.push(line);
        assert(views_of(out@) =~= views_of(before).push(line@));
        assert(ended.take(i + 1) =~= ended.take(i as int).push(ended[i as int]));
        i += 1;
    }
    assert(ended.take(last as int) == ended);
    if pieces[last].len() > 0 {
        let tail = slice_chars(&pieces[last], 0, pieces[last].len());
        assert(tail@ == all.last()) by {
            assert(pieces@[last as int]@.subrange(0, pieces@[last as int]@.len() as int)
                == pieces@[last as int]@);
        }
        let ghost before = out@;
        out.push(tail);
        assert(views_of(out@) =~= views_of(before).push(tail@));
    }
    out
}

/// A copy of `lines[from..to]`.
fn select(lines: &Vec<Vec<char>>, from: usize, to: usize) -> (out: Vec<Vec<char>>)
    requires
        from <= to <= lines.len(),
    ensures
        views_of(out@) == views_of(lines@).subrange(from as int, to as int),
{
    let mut out: Vec<Vec<char>> = Vec::new();
    let mut i: usize = from;
    while i < to
        invariant
            from <= i <= to <= lines.len(),
            views_of(out@) == views_of(lines@).subrange(from as int, i as int),
        decreases to - i,
    {
        let l = slice_chars(&lines[i], 0, lines[i].len());
        assert(l@ == lines@[i as int]@) by {
            assert(lines@[i as int]@.subrange(0, lines@[i as int]@.len() as int)
                == lines@[i as int]@);
        }
        let ghost before = out@;
        out.push(l);
        assert(views_of(out@) =~= views_of(before).push(l@));
        assert(views_of(lines@).subrange(from as int, i + 1) =~= views_of(lines@).subrange(
            from as int,
            i as int,
        ).push(views_of(lines@)[i as int]));
        i += 1;
    }
    out
}

/// What reading a file returns, from its content: the whole content, its
/// first or last lines, or its first 2000 lines with a marker.
pub fn tool_read_file(content: &str, head: Option<u32>, tail: Option<u32>) -> (out: String)
    ensures
        out@ == read_view(content@, head, tail),
{
    let text = chars_of(content);
    let all = lines(&text);
    let total = all.len();
    proof {
        reveal_strlit("\n");
        assert("\n"@ =~= seq!['\n']);
    }
    if total > MAX_READ_LINES && head.is_none() && tail.is_none() {
        let first = select(&all, 0, MAX_READ_LINES);
        assert(views_of(all@).subrange(0, 2000) == views_of(all@).take(2000));
        let mut v = join_chars(&first, "\n");
        push_str(&mut v, "\n... (truncated, max 2000 lines)");
        return string_of(&v);
    }
    match head {
        Some(n) => {
            let limit: usize = if n < 2000 {
                n as usize
            } else {
                2000
            };
            let count = if limit < total {
                limit
            } else {
                total
            };
            let first = select(&all, 0, count);
            assert(views_of(all@).subrange(0, count as int) == views_of(all@).take(count as int));
            let v = join_chars(&first, "\n");
            string_of(&v)
        },
        None => match tail {
            Some(n) => {
                let limit: usize = if n < 2000 {
                    n as usize
                } else {
                    2000
                };
                let start = if limit < total {
                    total - limit
                } else {
                    0
                };
                let rest = select(&all, start, total);
                assert(views_of(all@).subrange(start as int, total as int) == views_of(
                    all@,
                ).skip(start as int));
                let v = join_chars(&rest, "\n");
                string_of(&v)
            },
            None => string_of(&text),
        },
    }
}

// ---------------------------------------------------------------------------
// Writing
// ---------------------------------------------------------------------------

/// Checks, before a file is written, that its path is no directory.
pub fn check_file_writable(is_dir: bool) -> (r: Result<(), McpToolError>)
    ensures
        match r {
            Ok(_) => !is_dir,
            Err(e) => is_dir && e@ == ErrorView::InvalidArg("Path is a directory"@),
        },
{
    if is_dir {
        Err(McpToolError::InvalidArg(owned("Path is a directory")))
    } else {
        Ok(())
    }
}

/// The confirmation of a write: the number of bytes written, and the path.
pub open spec fn write_confirmation(bytes: nat, path: Seq<char>) -> Seq<char> {
    "Wrote "@ + decimal(bytes) + " bytes to "@ + path
}

/// Confirms that `bytes` bytes were written to `path`.
pub fn tool_write_file(bytes: usize, path: &str) -> (out: String)
    ensures
        out@ == write_confirmation(bytes as nat, path@),
{
    let mut v = chars_of("Wrote ");
    push_decimal(&mut v, bytes as u64);
    push_str(&mut v, " bytes to ");
    push_str(&mut v, path);
    string_of(&v)
}

} // verus!
