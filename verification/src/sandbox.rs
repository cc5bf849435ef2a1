//! The path sandbox: which requested paths a file tool may touch.
//!
//! Validation has two phases. The requested text is checked first, before
//! anything is resolved: a path that holds `..` or starts at the file system's
//! root is refused whatever it would resolve to. Then the resolved path is
//! compared with the resolved root, component by component, which catches a
//! link that leads outside. The caller resolves paths on the file system and
//! hands the outcomes in; the decisions are taken here.

use crate::error::{ErrorView, McpToolError};
use crate::text::{
    begins_with, chars_of, concat_str, contains_str, found_in, is_text, owned, replace_str, replaced,
    same_chars, split_chars, split_on, starts_with_str, string_of, trim_chars, trim_of, views_of,
};
use vstd::prelude::*;

verus! {

/// An absolute path, held as its components from the outermost inwards.
#[derive(Debug, PartialEq, Eq)]
pub struct ResolvedPath {
    pub segments: Vec<String>,
}

impl View for ResolvedPath {
    type V = Seq<Seq<char>>;

    open spec fn view(&self) -> Seq<Seq<char>> {
        self.segments@.map_values(|s: String| s@)
    }
}

/// What resolving a path on the file system gave: the resolved path, or the
/// message of the failure.
pub type Resolution = Result<ResolvedPath, String>;

/// The text of a path: its components, a `/` before each one that follows a
/// text not already ending in `/`.
pub open spec fn path_text(segments: Seq<Seq<char>>) -> Seq<char>
    decreases segments.len(),
{
    if segments.len() == 0 {
        Seq::<char>::empty()
    } else {
        let head = path_text(segments.drop_last());
        if head.len() == 0 || head.last() == '/' {
            head + segments.last()
        } else {
            head + seq!['/'] + segments.last()
        }
    }
}

/// The requested text as it is checked: trimmed, with every backslash turned
/// into a slash.
pub open spec fn normalized(requested: Seq<char>) -> Seq<char> {
    replaced(trim_of(requested), seq!['\\'], seq!['/'])
}

/// Whether a normalized request could leave the root: it holds `..`
/// anywhere, or starts with `/`.
pub open spec fn escapes(path: Seq<char>) -> bool {
    found_in(path, seq!['.', '.']) || begins_with(path, seq!['/'])
}

/// The message for a request that `escapes`.
pub open spec fn escape_message() -> Seq<char> {
    "Path must be relative and cannot contain '..'"@
}

/// The refusal of a path, with its message.
pub open spec fn refusal(message: Seq<char>) -> ErrorView {
    ErrorView::PathNotAllowed(message)
}

/// Normalizes a requested path and refuses it if it `escapes`.
pub fn check_relative_path(requested: &str) -> (r: Result<String, McpToolError>)
    ensures
        match r {
            Ok(t) => !escapes(normalized(requested@)) && t@ == normalized(requested@),
            Err(e) => escapes(normalized(requested@)) && e@ == refusal(escape_message()),
        },
{
    let raw = chars_of(requested);
    let trimmed = trim_chars(&raw);
    proof {
        reveal_strlit("\\");
        reveal_strlit("/");
        reveal_strlit("..");
        assert("\\"@ == seq!['\\']);
        assert("/"@ == seq!['/']);
        assert(".."@ == seq!['.', '.']);
    }
    let path = replace_str(&trimmed, "\\", "/");
    if contains_str(&path, "..") || starts_with_str(&path, "/") {
        return Err(
            McpToolError::PathNotAllowed(owned("Path must be relative and cannot contain '..'")),
        );
    }
    Ok(string_of(&path))
}

/// The components a relative path adds to the directory it is joined to: the
/// pieces between slashes, but for empty pieces and `.`.
pub open spec fn named_pieces(pieces: Seq<Seq<char>>) -> Seq<Seq<char>>
    decreases pieces.len(),
{
    if pieces.len() == 0 {
        Seq::<Seq<char>>::empty()
    } else {
        let p = pieces.last();
        if p.len() == 0 || p == seq!['.'] {
            named_pieces(pieces.drop_last())
        } else {
            named_pieces(pieces.drop_last()).push(p)
        }
    }
}

/// The path that joining the relative path `relative` to `root` names.
pub open spec fn joined_path(root: Seq<Seq<char>>, relative: Seq<char>) -> Seq<Seq<char>> {
    root + named_pieces(split_on(relative, '/'))
}

impl ResolvedPath {
    /// A copy of this path.
    pub fn duplicate(&self) -> (r: ResolvedPath)
        ensures
            r@ == self@,
    {
        let mut segments: Vec<String> = Vec::new();
        let mut i: usize = 0;
        while i < self.segments.len()
            invariant
                i <= self.segments.len(),
                segments@.map_values(|s: String| s@) == self@.take(i as int),
            decreases self.segments.len() - i,
        {
            let ghost before = segments@;
            let item = self.segments[i].clone();
            assert(item@ == self.segments@[i as int]@);
            segments.push(item);
            assert(segments@ == before.push(item));
            assert(segments@.map_values(|s: String| s@) =~= before.map_values(|s: String| s@).push(item@));
            assert(self@.take(i + 1) =~= self@.take(i as int).push(self@[i as int]));
            i += 1;
        }
        assert(self@.take(self.segments.len() as int) == self@);
        ResolvedPath { segments }
    }

    /// Whether `self` is `root` or lies below it: `root`'s components are the
    /// first components of `self`.
    pub fn is_under(&self, root: &ResolvedPath) -> (r: bool)
        ensures
            r == root@.is_prefix_of(self@),
    {
        if root.segments.len() > self.segments.len() {
            return false;
        }
        let mut i: usize = 0;
        while i < root.segments.len()
            invariant
                i <= root.segments.len() <= self.segments.len(),
                root@.take(i as int) == self@.take(i as int),
            decreases root.segments.len() - i,
        {
            let a = chars_of(root.segments[i].as_str());
            let b = chars_of(self.segments[i].as_str());
            if !same_chars(&a, &b) {
                assert(self@.subrange(0, root@.len() as int)[i as int] != root@[i as int]);
                return false;
            }
            assert(root@.take(i + 1) == root@.take(i as int).push(root@[i as int]));
            assert(self@.take(i + 1) == self@.take(i as int).push(self@[i as int]));
            i += 1;
        }
        assert(root@.take(root@.len() as int) == root@);
        true
    }

    /// The path that joining `relative` to this directory names.
    pub fn join_relative(&self, relative: &str) -> (r: ResolvedPath)
        ensures
            r@ == joined_path(self@, relative@),
    {
        let mut out = self.duplicate();
        let rel = chars_of(relative);
        let pieces = split_chars(&rel, '/');
        let ghost all = views_of(pieces@);
        let mut i: usize = 0;
        proof {
            reveal_strlit(".");
            assert("."@ == seq!['.']);
            assert(self@ + named_pieces(all.take(0)) == self@);
        }
        while i < pieces.len()
            invariant
                i <= pieces.len(),
                all == views_of(pieces@),
                "."@ == seq!['.'],
                out@ == self@ + named_pieces(all.take(i as int)),
            decreases pieces.len() - i,
        {
            let ghost head = all.take(i + 1);
            assert(head.drop_last() == all.take(i as int));
            assert(head.last() == pieces@[i as int]@);
            if pieces[i].len() > 0 && !is_text(&pieces[i], ".") {
                let ghost before = out@;
                out.segments.push(string_of(&pieces[i]));
                assert(out@ == before.push(pieces@[i as int]@));
                assert(self@ + named_pieces(all.take(i as int)).push(pieces@[i as int]@) == (self@
                    + named_pieces(all.take(i as int))).push(pieces@[i as int]@));
            }
            i += 1;
        }
        assert(all.take(pieces.len() as int) == all);
        out
    }

    /// The text of this path.
    pub fn text(&self) -> (out: String)
        ensures
            out@ == path_text(self@),
    {
        let mut v: Vec<char> = Vec::new();
        let mut i: usize = 0;
        assert(path_text(self@.take(0)) == Seq::<char>::empty());
        while i < self.segments.len()
            invariant
                i <= self.segments.len(),
                v@ == path_text(self@.take(i as int)),
            decreases self.segments.len() - i,
        {
            let ghost head = self@.take(i + 1);
            assert(head.drop_last() == self@.take(i as int));
            assert(head.last() == self.segments@[i as int]@);
            if v.len() > 0 && v[v.len() - 1] != '/' {
                v.push('/');
            }
            crate::text::push_str(&mut v, self.segments[i].as_str());
            i += 1;
        }
        assert(self@.take(self.segments.len() as int) == self@);
        string_of(&v)
    }
}

/// The outcome of a validation as plain values: the allowed path, or the
/// refusal.
pub open spec fn verdict_of(r: Result<ResolvedPath, McpToolError>) -> Result<
    Seq<Seq<char>>,
    ErrorView,
> {
    match r {
        Ok(p) => Ok(p@),
        Err(e) => Err(e@),
    }
}

/// The rule for a path that must exist (reading, listing).
///
/// `root` is the outcome of resolving the configured root, `target` the
/// outcome of resolving the requested path joined to the resolved root.
pub open spec fn read_verdict(root: Resolution, requested: Seq<char>, target: Resolution) -> Result<
    Seq<Seq<char>>,
    ErrorView,
> {
    match root {
        Err(e) => Err(refusal("root invalid: "@ + e@)),
        Ok(r) => if escapes(normalized(requested)) {
            Err(refusal(escape_message()))
        } else {
            match target {
                Err(e) => Err(refusal("path invalid or not found: "@ + e@)),
                Ok(t) => if r@.is_prefix_of(t@) {
                    Ok(t@)
                } else {
                    Err(refusal("Resolved path is outside the allowed root"@))
                },
            }
        },
    }
}

/// Validates a path that must exist. Returns the resolved path, which lies
/// under the resolved root, or `PathNotAllowed`.
///
/// `root` is the outcome of resolving the configured root. `target` is the
/// outcome of resolving `root.join_relative(t)`, `t` being the text that
/// `check_relative_path(requested)` returned; it is not read where `root`
/// failed or the request is refused as text.
pub fn validate_path_under_root(root: &Resolution, requested: &str, target: Resolution) -> (r:
    Result<ResolvedPath, McpToolError>)
    ensures
        verdict_of(r) == read_verdict(*root, requested@, target),
{
    let base = match root {
        Ok(b) => b,
        Err(e) => {
            return Err(McpToolError::PathNotAllowed(concat_str("root invalid: ", e.as_str())));
        },
    };
    match check_relative_path(requested) {
        Ok(_) => {},
        Err(e) => {
            return Err(e);
        },
    }
    let found = match target {
        Ok(t) => t,
        Err(e) => {
            return Err(
                McpToolError::PathNotAllowed(concat_str("path invalid or not found: ", e.as_str())),
            );
        },
    };
    if !found.is_under(base) {
        return Err(
            McpToolError::PathNotAllowed(owned("Resolved path is outside the allowed root")),
        );
    }
    Ok(found)
}

/// What the file system says of a path that is about to be written.
#[derive(Debug, PartialEq, Eq)]
pub enum WriteTarget {
    /// The joined path exists; the field is the outcome of resolving it.
    Existing(Resolution),
    /// The joined path does not exist. The field is `None` where its parent
    /// directory does not exist either (or it has none), else the outcome of
    /// resolving the parent.
    Missing(Option<Resolution>),
}

/// The rule for a path that is about to be written, which may not exist yet.
pub open spec fn write_verdict(root: Resolution, requested: Seq<char>, target: WriteTarget)
    -> Result<Seq<Seq<char>>, ErrorView> {
    match root {
        Err(e) => Err(refusal("root invalid: "@ + e@)),
        Ok(r) => if escapes(normalized(requested)) {
            Err(refusal(escape_message()))
        } else {
            match target {
                WriteTarget::Existing(Err(e)) => Err(refusal("path invalid: "@ + e@)),
                WriteTarget::Existing(Ok(t)) => if r@.is_prefix_of(t@) {
                    Ok(t@)
                } else {
                    Err(refusal("Resolved path is outside the allowed root"@))
                },
                WriteTarget::Missing(Some(Err(e))) => Err(refusal("parent path invalid: "@ + e@)),
                WriteTarget::Missing(Some(Ok(p))) => if r@.is_prefix_of(p@) {
                    Ok(joined_path(r@, normalized(requested)))
                } else {
                    Err(refusal("Path is outside the allowed root"@))
                },
                WriteTarget::Missing(None) => Ok(joined_path(r@, normalized(requested))),
            }
        },
    }
}

/// Validates a path that is about to be written. An existing target is held
/// to the rule for reading. A missing one is accepted where its parent
/// resolves under the root, or does not exist yet; the path returned is then
/// the request joined to the resolved root.
///
/// `root` is the outcome of resolving the configured root; `target` says
/// what the file system holds at `root.join_relative(t)`, `t` being the text
/// that `check_relative_path(requested)` returned. `target` is not read where
/// `root` failed or the request is refused as text.
pub fn validate_path_under_root_for_write(
    root: &Resolution,
    requested: &str,
    target: WriteTarget,
) -> (r: Result<ResolvedPath, McpToolError>)
    ensures
        verdict_of(r) == write_verdict(*root, requested@, target),
{
    let base = match root {
        Ok(b) => b,
        Err(e) => {
            return Err(McpToolError::PathNotAllowed(concat_str("root invalid: ", e.as_str())));
        },
    };
    let relative = match check_relative_path(requested) {
        Ok(t) => t,
        Err(e) => {
            return Err(e);
        },
    };
    match target {
        WriteTarget::Existing(Err(e)) => Err(
            McpToolError::PathNotAllowed(concat_str("path invalid: ", e.as_str())),
        ),
        WriteTarget::Existing(Ok(found)) => {
            if !found.is_under(base) {
                return Err(
                    McpToolError::PathNotAllowed(
                        owned("Resolved path is outside the allowed root"),
                    ),
                );
            }
            Ok(found)
        },
        WriteTarget::Missing(Some(Err(e))) => Err(
            McpToolError::PathNotAllowed(concat_str("parent path invalid: ", e.as_str())),
        ),
        WriteTarget::Missing(Some(Ok(parent))) => {
            if !parent.is_under(base) {
                return Err(McpToolError::PathNotAllowed(owned("Path is outside the allowed root")));
            }
            Ok(base.join_relative(relative.as_str()))
        },
        WriteTarget::Missing(None) => Ok(base.join_relative(relative.as_str())),
    }
}

/// A request that holds `..` or starts with `/` is refused, for reading and
/// for writing, whatever the file system holds.
pub proof fn lemma_escape_always_refused(
    root: Resolution,
    requested: Seq<char>,
    target: Resolution,
    write_target: WriteTarget,
)
    requires
        escapes(normalized(requested)),
    ensures
        read_verdict(root, requested, target) matches Err(e) && e is PathNotAllowed,
        write_verdict(root, requested, write_target) matches Err(e) && e is PathNotAllowed,
{
}

/// A normalized request holds no backslash: every one has become a slash,
/// so that a path written with either separator is checked the same way.
pub proof fn lemma_normalized_has_no_backslash(requested: Seq<char>)
    ensures
        forall|i: int|
            0 <= i < normalized(requested).len() ==> #[trigger] normalized(requested)[i]
                != '\\',
{
    crate::text::lemma_replaced_char(trim_of(requested), '\\', '/');
}

/// The components that a relative path adds are pieces of the path, and
/// none of them is empty or `.`.
pub proof fn lemma_named_pieces(pieces: Seq<Seq<char>>, k: int)
    requires
        0 <= k < named_pieces(pieces).len(),
    ensures
        pieces.contains(named_pieces(pieces)[k]),
        named_pieces(pieces)[k].len() > 0,
        named_pieces(pieces)[k] != seq!['.'],
    decreases pieces.len(),
{
    let p = pieces.last();
    let before = named_pieces(pieces.drop_last());
    if k < before.len() {
        lemma_named_pieces(pieces.drop_last(), k);
        let x = before[k];
        let m = choose|m: int| 0 <= m < pieces.drop_last().len() && pieces.drop_last()[m] == x;
        assert(pieces[m] == x);
    } else {
        assert(pieces[pieces.len() - 1] == p);
    }
}

/// A request that passes the check as text adds no component that climbs:
/// whatever it is joined to, every component it adds has a name, and that
/// name is neither `.` nor `..`. The joined path lies under the directory
/// as far as its text goes; only a link can still lead outside.
pub proof fn lemma_joined_path_does_not_climb(
    root: Seq<Seq<char>>,
    requested: Seq<char>,
    k: int,
)
    requires
        !escapes(normalized(requested)),
        root.len() <= k < joined_path(root, normalized(requested)).len(),
    ensures
        root.is_prefix_of(joined_path(root, normalized(requested))),
        joined_path(root, normalized(requested))[k].len() > 0,
        joined_path(root, normalized(requested))[k] != seq!['.'],
        joined_path(root, normalized(requested))[k] != seq!['.', '.'],
{
    let relative = normalized(requested);
    let pieces = split_on(relative, '/');
    let added = named_pieces(pieces);
    let joined = joined_path(root, relative);
    assert(joined.subrange(0, root.len() as int) == root);
    let x = added[k - root.len()];
    assert(joined[k] == x);
    lemma_named_pieces(pieces, k - root.len());
    let m = choose|m: int| 0 <= m < pieces.len() && pieces[m] == x;
    crate::text::lemma_pieces_occur(relative, '/', m);
}

/// Validation refuses in one way only: whatever goes wrong, the failure is
/// `PathNotAllowed`.
pub proof fn lemma_every_refusal_is_path_not_allowed(
    root: Resolution,
    requested: Seq<char>,
    target: Resolution,
    write_target: WriteTarget,
)
    ensures
        read_verdict(root, requested, target) matches Err(e) ==> e is PathNotAllowed,
        write_verdict(root, requested, write_target) matches Err(e) ==> e is PathNotAllowed,
{
}

/// A prefix of a path, component by component, gives a prefix of its text.
pub proof fn lemma_prefix_text(root: Seq<Seq<char>>, path: Seq<Seq<char>>)
    requires
        root.is_prefix_of(path),
    ensures
        path_text(root).is_prefix_of(path_text(path)),
    decreases path.len(),
{
    if path.len() == root.len() {
        assert(path == root);
    } else {
        let shorter = path.drop_last();
        assert(root.is_prefix_of(shorter)) by {
            assert(shorter.subrange(0, root.len() as int) == path.subrange(0, root.len() as int));
        }
        lemma_prefix_text(root, shorter);
        let head = path_text(shorter);
        let full = path_text(path);
        assert(head.is_prefix_of(full)) by {
            if head.len() == 0 || head.last() == '/' {
                assert(full == head + path.last());
            } else {
                assert(full == head + seq!['/'] + path.last());
            }
            assert(full.subrange(0, head.len() as int) == head);
        }
        assert(path_text(root) == full.subrange(0, path_text(root).len() as int)) by {
            assert(path_text(root) == head.subrange(0, path_text(root).len() as int));
        }
    }
}

/// Whenever validation succeeds, for reading or for writing, the resolved
/// root's components are the first components of the path returned, and the
/// root's text is the start of the path's text.
pub proof fn lemma_allowed_path_is_under_root(
    root: Resolution,
    requested: Seq<char>,
    target: Resolution,
    write_target: WriteTarget,
)
    ensures
        read_verdict(root, requested, target) matches Ok(p) ==> root matches Ok(r)
            && r@.is_prefix_of(p) && path_text(r@).is_prefix_of(path_text(p)),
        write_verdict(root, requested, write_target) matches Ok(p) ==> root matches Ok(r)
            && r@.is_prefix_of(p) && path_text(r@).is_prefix_of(path_text(p)),
{
    if let Ok(p) = read_verdict(root, requested, target) {
        lemma_prefix_text(root->Ok_0@, p);
    }
    if let Ok(p) = write_verdict(root, requested, write_target) {
        let r = root->Ok_0@;
        assert(r.is_prefix_of(p)) by {
            let j = joined_path(r, normalized(requested));
            assert(j.subrange(0, r.len() as int) == r);
        }
        lemma_prefix_text(r, p);
    }
}

} // verus!
