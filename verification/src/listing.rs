//! Listing a directory as an indented tree of names.
//!
//! The caller reads the directory from the file system, as deep as
//! `clamp_depth` says, and hands the tree in. Here the entries of each level
//! are sorted by name, and the tree is written out one name a line, two
//! spaces of indentation for each level, a `/` after each directory.

use crate::error::{ErrorView, McpToolError};
use crate::text::{chars_of, join_chars, joined, owned, push_str, string_of, views_of};
use vstd::prelude::*;

verus! {

/// The deepest a listing goes.
pub const MAX_LIST_DEPTH: u32 = 3;

/// What reading a directory gave: its entries, in any order, or the message
/// of the failure.
pub type Listing = Result<Vec<DirEntry>, String>;

/// One entry of a directory.
#[derive(Debug, PartialEq, Eq)]
pub struct DirEntry {
    pub name: String,
    pub is_dir: bool,
    /// For a directory that lies within the depth of the listing, what
    /// reading it gave. It is not read for any other entry.
    pub children: Listing,
}

/// How deep a listing goes: one level where nothing is asked for, and three
/// at most.
pub open spec fn list_depth(depth: Option<u32>) -> u32 {
    match depth {
        None => 1,
        Some(d) => if d > 3 {
            3
        } else {
            d
        },
    }
}

/// Computes `list_depth`.
pub fn clamp_depth(depth: Option<u32>) -> (r: u32)
    ensures
        r == list_depth(depth),
{
    match depth {
        None => 1,
        Some(d) => if d > MAX_LIST_DEPTH {
            MAX_LIST_DEPTH
        } else {
            d
        },
    }
}

/// Whether the text `a` comes before the text `b`, or is `b`, in the order of
/// a dictionary over the numbers of their characters.
pub open spec fn text_le(a: Seq<char>, b: Seq<char>) -> bool
    decreases a.len(),
{
    if a.len() == 0 {
        true
    } else if b.len() == 0 {
        false
    } else if a[0] != b[0] {
        (a[0] as u32) < (b[0] as u32)
    } else {
        text_le(a.drop_first(), b.drop_first())
    }
}

/// Decides `text_le`.
pub fn name_le(a: &Vec<char>, b: &Vec<char>) -> (r: bool)
    ensures
        r == text_le(a@, b@),
{
    let mut i: usize = 0;
    assert(a@.skip(0) == a@);
    assert(b@.skip(0) == b@);
    loop
        invariant
            i <= a.len(),
            i <= b.len(),
            text_le(a@, b@) == text_le(a@.skip(i as int), b@.skip(i as int)),
        decreases a.len() - i,
    {
        if i >= a.len() {
            return true;
        }
        if i >= b.len() {
            return false;
        }
        assert(a@.skip(i as int)[0] == a@[i as int]);
        assert(b@.skip(i as int)[0] == b@[i as int]);
        let x: char = a[i];
        let y: char = b[i];
        if x != y {
            return (x as u32) < (y as u32);
        }
        assert(a@.skip(i as int).drop_first() == a@.skip(i + 1));
        assert(b@.skip(i as int).drop_first() == b@.skip(i + 1));
        i += 1;
    }
}

/// `sorted` with `e` put in after the last entry whose name does not come
/// after the name of `e`.
pub open spec fn insert_sorted(sorted: Seq<DirEntry>, e: DirEntry) -> Seq<DirEntry>
    decreases sorted.len(),
{
    if sorted.len() == 0 {
        seq![e]
    } else if text_le(sorted.last().name@, e.name@) {
        sorted.push(e)
    } else {
        insert_sorted(sorted.drop_last(), e).push(sorted.last())
    }
}

/// The entries sorted by name; entries of one name keep their order.
pub open spec fn sort_by_name(entries: Seq<DirEntry>) -> Seq<DirEntry>
    decreases entries.len(),
{
    if entries.len() == 0 {
        entries
    } else {
        insert_sorted(sort_by_name(entries.drop_last()), entries.last())
    }
}

/// Of two texts, one comes before the other or is the other.
pub proof fn lemma_text_le_total(a: Seq<char>, b: Seq<char>)
    ensures
        text_le(a, b) || text_le(b, a),
    decreases a.len(),
{
    if a.len() > 0 && b.len() > 0 {
        if a[0] == b[0] {
            lemma_text_le_total(a.drop_first(), b.drop_first());
        } else {
            vstd::utf8::char_u32_cast(a[0], a[0] as u32);
            vstd::utf8::char_u32_cast(b[0], b[0] as u32);
        }
    }
}

/// The order of texts is transitive.
pub proof fn lemma_text_le_transitive(a: Seq<char>, b: Seq<char>, c: Seq<char>)
    requires
        text_le(a, b),
        text_le(b, c),
    ensures
        text_le(a, c),
    decreases a.len(),
{
    if a.len() > 0 && b.len() > 0 && c.len() > 0 && a[0] == b[0] && b[0] == c[0] {
        lemma_text_le_transitive(a.drop_first(), b.drop_first(), c.drop_first());
    }
}

/// Whether the names of the entries never go down.
pub open spec fn ordered(entries: Seq<DirEntry>) -> bool {
    forall|i: int, j: int|
        0 <= i < j < entries.len() ==> text_le(
            (#[trigger] entries[i]).name@,
            (#[trigger] entries[j]).name@,
        )
}

/// Putting an entry into ordered entries keeps them ordered and adds just
/// that entry.
pub proof fn lemma_insert_sorted(sorted: Seq<DirEntry>, e: DirEntry)
    requires
        ordered(sorted),
    ensures
        ordered(insert_sorted(sorted, e)),
        insert_sorted(sorted, e).len() == sorted.len() + 1,
        insert_sorted(sorted, e).to_multiset() == sorted.to_multiset().insert(e),
        forall|k: int|
            0 <= k < insert_sorted(sorted, e).len() ==> #[trigger] insert_sorted(sorted, e)[k]
                == e || sorted.contains(insert_sorted(sorted, e)[k]),
    decreases sorted.len(),
{
    broadcast use vstd::seq_lib::to_multiset_build;

    let r = insert_sorted(sorted, e);
    if sorted.len() == 0 {
        assert(r == Seq::<DirEntry>::empty().push(e));
        assert(sorted == Seq::<DirEntry>::empty());
    } else if text_le(sorted.last().name@, e.name@) {
        assert forall|i: int, j: int| 0 <= i < j < r.len() implies text_le(
            (#[trigger] r[i]).name@,
            (#[trigger] r[j]).name@,
        ) by {
            if j == sorted.len() {
                if i < sorted.len() - 1 {
                    assert(text_le(sorted[i].name@, sorted[sorted.len() - 1].name@));
                    lemma_text_le_transitive(sorted[i].name@, sorted.last().name@, e.name@);
                }
            }
        }
        assert forall|k: int| 0 <= k < r.len() implies #[trigger] r[k] == e || sorted.contains(
            r[k],
        ) by {
            if k < sorted.len() {
                assert(sorted[k] == r[k]);
            }
        }
    } else {
        let t = sorted.drop_last();
        let last = sorted.last();
        assert(ordered(t));
        lemma_insert_sorted(t, e);
        let q = insert_sorted(t, e);
        assert(r == q.push(last));
        lemma_text_le_total(last.name@, e.name@);
        assert forall|i: int, j: int| 0 <= i < j < r.len() implies text_le(
            (#[trigger] r[i]).name@,
            (#[trigger] r[j]).name@,
        ) by {
            if j == q.len() {
                if q[i] == e {
                } else {
                    assert(t.contains(q[i]));
                    let m = choose|m: int| 0 <= m < t.len() && t[m] == q[i];
                    assert(sorted[m] == q[i]);
                    assert(text_le(sorted[m].name@, sorted[sorted.len() - 1].name@));
                }
            } else {
                assert(r[i] == q[i] && r[j] == q[j]);
            }
        }
        assert forall|k: int| 0 <= k < r.len() implies #[trigger] r[k] == e || sorted.contains(
            r[k],
        ) by {
            if k < q.len() {
                if q[k] != e {
                    let m = choose|m: int| 0 <= m < t.len() && t[m] == q[k];
                    assert(sorted[m] == r[k]);
                }
            } else {
                assert(sorted[sorted.len() - 1] == r[k]);
            }
        }
        assert(sorted == t.push(last));
        assert(q.to_multiset().insert(last) =~= t.to_multiset().insert(last).insert(e));
    }
}

/// Sorting gives the same entries, each as often as before, in an order in
/// which the names never go down.
pub proof fn lemma_sort_by_name(entries: Seq<DirEntry>)
    ensures
        ordered(sort_by_name(entries)),
        sort_by_name(entries).len() == entries.len(),
        sort_by_name(entries).to_multiset() == entries.to_multiset(),
    decreases entries.len(),
{
    broadcast use vstd::seq_lib::to_multiset_build;

    if entries.len() > 0 {
        lemma_sort_by_name(entries.drop_last());
        lemma_insert_sorted(sort_by_name(entries.drop_last()), entries.last());
        assert(entries == entries.drop_last().push(entries.last()));
    }
}

/// The entries that the positions `order` pick, in that order.
pub open spec fn picked(entries: Seq<DirEntry>, order: Seq<usize>) -> Seq<DirEntry> {
    order.map_values(|j: usize| entries[j as int])
}

/// The names of the entries, as characters.
fn names_of(entries: &Vec<DirEntry>) -> (names: Vec<Vec<char>>)
    ensures
        names.len() == entries.len(),
        forall|i: int| 0 <= i < names.len() ==> (#[trigger] names[i])@ == entries[i].name@,
{
    let mut names: Vec<Vec<char>> = Vec::new();
    let mut i: usize = 0;
    while i < entries.len()
        invariant
            i <= entries.len(),
            names.len() == i,
            forall|k: int| 0 <= k < names.len() ==> (#[trigger] names[k])@ == entries[k].name@,
        decreases entries.len() - i,
    {
        names.push(chars_of(entries[i].name.as_str()));
        i += 1;
    }
    names
}

/// The positions of the entries in the order of their names.
fn order_by_name(entries: &Vec<DirEntry>) -> (order: Vec<usize>)
    ensures
        order.len() == entries.len(),
        forall|i: int| 0 <= i < order.len() ==> order[i] < entries.len(),
        picked(entries@, order@) == sort_by_name(entries@),
{
    let names = names_of(entries);
    let mut order: Vec<usize> = Vec::new();
    let mut i: usize = 0;
    assert(entries@.take(0) =~= Seq::<DirEntry>::empty());
    assert(picked(entries@, order@) =~= Seq::<DirEntry>::empty());
    while i < entries.len()
        invariant
            i <= entries.len(),
            order.len() == i,
            names.len() == entries.len(),
            forall|k: int| 0 <= k < names.len() ==> (#[trigger] names[k])@ == entries[k].name@,
            forall|k: int| 0 <= k < order.len() ==> order[k] < entries.len(),
            picked(entries@, order@) == sort_by_name(entries@.take(i as int)),
        decreases entries.len() - i,
    {
        let ghost s = picked(entries@, order@);
        let ghost e = entries@[i as int];
        let name = &names[i];
        let mut p: usize = order.len();
        assert(s.take(p as int) == s);
        assert(s.skip(p as int) =~= Seq::<DirEntry>::empty());
        assert(insert_sorted(s, e) + Seq::<DirEntry>::empty() == insert_sorted(s, e));
        loop
            invariant
                p <= order.len(),
                order.len() == i,
                i < entries.len(),
                name@ == e.name@,
                e == entries@[i as int],
                names.len() == entries.len(),
                forall|k: int| 0 <= k < names.len() ==> (#[trigger] names[k])@ == entries[k].name@,
                s == picked(entries@, order@),
                forall|k: int| 0 <= k < order.len() ==> order[k] < entries.len(),
                insert_sorted(s, e) == insert_sorted(s.take(p as int), e) + s.skip(p as int),
            ensures
                p <= order.len(),
                insert_sorted(s, e) == s.take(p as int).push(e) + s.skip(p as int),
            decreases p,
        {
            if p == 0 {
                assert(s.take(0) =~= Seq::<DirEntry>::empty());
                break ;
            }
            let other = &names[order[p - 1]];
            let ghost head = s.take(p as int);
            assert(head.last() == entries@[order@[p - 1] as int]);
            if name_le(other, name) {
                break ;
            }
            assert(head.drop_last() == s.take(p - 1));
            assert(insert_sorted(s.take(p - 1), e).push(head.last()) + s.skip(p as int)
                =~= insert_sorted(s.take(p - 1), e) + s.skip(p - 1));
            p -= 1;
        }
        order.insert(p, i);
        assert(picked(entries@, order@) =~= s.take(p as int).push(e) + s.skip(p as int));
        let ghost head = entries@.take(i + 1);
        assert(head.drop_last() == entries@.take(i as int));
        assert(head.last() == e);
        i += 1;
    }
    assert(entries@.take(entries.len() as int) == entries@);
    order
}

/// The indentation of a level: two spaces for each level.
pub open spec fn indent(level: nat) -> Seq<char>
    decreases level,
{
    if level == 0 {
        Seq::<char>::empty()
    } else {
        indent((level - 1) as nat) + seq![' ', ' ']
    }
}

/// The line of an entry: its indentation, its name, and `/` for a
/// directory.
pub open spec fn entry_line(e: DirEntry, level: nat) -> Seq<char> {
    if e.is_dir {
        indent(level) + e.name@ + seq!['/']
    } else {
        indent(level) + e.name@
    }
}

/// `lines` before what `rest` gives, or the failure of `rest`.
pub open spec fn after_lines(lines: Seq<Seq<char>>, rest: Result<Seq<Seq<char>>, Seq<char>>)
    -> Result<Seq<Seq<char>>, Seq<char>> {
    match rest {
        Ok(more) => Ok(lines + more),
        Err(e) => Err(e),
    }
}

/// The lines of a directory at `level`: nothing at or beyond the depth of the
/// listing, the failure where the directory could not be read, else the lines
/// of its entries, sorted by name.
pub open spec fn level_lines(listing: Listing, level: nat, max_depth: nat) -> Result<
    Seq<Seq<char>>,
    Seq<char>,
>
    decreases max_depth - level, 1nat, 0nat,
{
    if level >= max_depth {
        Ok(Seq::<Seq<char>>::empty())
    } else {
        match listing {
            Err(e) => Err(e@),
            Ok(entries) => sorted_lines(sort_by_name(entries@), level, max_depth),
        }
    }
}

/// The lines of entries that are sorted already: for each entry its line,
/// then, for a directory above the last level, the lines of what it holds.
/// The first failure on the way ends the listing.
pub open spec fn sorted_lines(sorted: Seq<DirEntry>, level: nat, max_depth: nat) -> Result<
    Seq<Seq<char>>,
    Seq<char>,
>
    decreases max_depth - level, 0nat, sorted.len(),
{
    if sorted.len() == 0 || level >= max_depth {
        Ok(Seq::<Seq<char>>::empty())
    } else {
        let e = sorted[0];
        let below = if e.is_dir && level + 1 < max_depth {
            level_lines(e.children, level + 1, max_depth)
        } else {
            Ok(Seq::<Seq<char>>::empty())
        };
        match below {
            Err(x) => Err(x),
            Ok(sub) => after_lines(
                seq![entry_line(e, level)] + sub,
                sorted_lines(sorted.drop_first(), level, max_depth),
            ),
        }
    }
}

/// What listing a directory returns: the failure where it is no directory
/// or cannot be read, else its lines joined by line feeds.
pub open spec fn list_view(is_dir: bool, listing: Listing, depth: Option<u32>) -> Result<
    Seq<char>,
    ErrorView,
> {
    if !is_dir {
        Err(ErrorView::InvalidArg("Path is not a directory"@))
    } else {
        match level_lines(listing, 0, list_depth(depth) as nat) {
            Ok(lines) => Ok(joined(lines, seq!['\n'])),
            Err(e) => Err(ErrorView::Io(e)),
        }
    }
}

fn indentation(level: u32) -> (out: Vec<char>)
    ensures
        out@ == indent(level as nat),
{
    let mut out: Vec<char> = Vec::new();
    let mut i: u32 = 0;
    while i < level
        invariant
            i <= level,
            out@ == indent(i as nat),
        decreases level - i,
    {
        out.push(' ');
        out.push(' ');
        assert(out@ =~= indent(i as nat) + seq![' ', ' ']);
        i += 1;
    }
    out
}

fn line_of(e: &DirEntry, level: u32) -> (out: Vec<char>)
    ensures
        out@ == entry_line(*e, level as nat),
{
    let mut out = indentation(level);
    push_str(&mut out, e.name.as_str());
    if e.is_dir {
        out.push('/');
        assert(out@ =~= indent(level as nat) + e.name@ + seq!['/']);
    }
    out
}

/// Writes the lines of a directory at `level` after the lines in `out`.
pub fn list_dir_inner(listing: &Listing, current: u32, max_depth: u32, out: &mut Vec<Vec<char>>)
    -> (r: Result<(), McpToolError>)
    ensures
        match level_lines(*listing, current as nat, max_depth as nat) {
            Ok(lines) => r is Ok && views_of(final(out)@) == views_of(old(out)@) + lines,
            Err(e) => r matches Err(x) && x@ == ErrorView::Io(e),
        },
    decreases max_depth - current, 1nat, 0nat,
{
    if current >= max_depth {
        assert(views_of(out@) + Seq::<Seq<char>>::empty() == views_of(out@));
        return Ok(());
    }
    let entries = match listing {
        Ok(entries) => entries,
        Err(e) => {
            return Err(McpToolError::Io(e.clone()));
        },
    };
    let order = order_by_name(entries);
    let ghost sorted = sort_by_name(entries@);
    let ghost start = views_of(out@);
    let ghost mut done: Seq<Seq<char>> = Seq::<Seq<char>>::empty();
    let mut i: usize = 0;
    assert(sorted.skip(0) == sorted);
    assert(start + done == start);
    while i < order.len()
        invariant
            i <= order.len(),
            current < max_depth,
            order.len() == entries.len(),
            forall|k: int| 0 <= k < order.len() ==> order[k] < entries.len(),
            sorted == picked(entries@, order@),
            level_lines(*listing, current as nat, max_depth as nat) == sorted_lines(
                sorted,
                current as nat,
                max_depth as nat,
            ),
            views_of(out@) == start + done,
            sorted_lines(sorted, current as nat, max_depth as nat) == after_lines(
                done,
                sorted_lines(sorted.skip(i as int), current as nat, max_depth as nat),
            ),
        decreases order.len() - i,
    {
        let e = &entries[order[i]];
        let ghost rest = sorted.skip(i as int);
        assert(rest[0] == *e);
        assert(rest.drop_first() == sorted.skip(i + 1));
        let line = line_of(e, current);
        let ghost before = out@;
        out.push(line);
        assert(views_of(out@) =~= views_of(before).push(line@));
        let ghost with_line = done.push(line@);
        if e.is_dir && current + 1 < max_depth {
            match list_dir_inner(&e.children, current + 1, max_depth, out) {
                Ok(_) => {
                    proof {
                        let sub = level_lines(
                            e.children,
                            (current + 1) as nat,
                            max_depth as nat,
                        )->Ok_0;
                        assert(views_of(out@) =~= start + (with_line + sub));
                        assert(done + (seq![line@] + sub) =~= with_line + sub);
                        assert(after_lines(
                            done,
                            after_lines(
                                seq![line@] + sub,
                                sorted_lines(rest.drop_first(), current as nat, max_depth as nat),
                            ),
                        ) == after_lines(
                            with_line + sub,
                            sorted_lines(rest.drop_first(), current as nat, max_depth as nat),
                        )) by {
                            match sorted_lines(
                                rest.drop_first(),
                                current as nat,
                                max_depth as nat,
                            ) {
                                Ok(more) => {
                                    assert(done + ((seq![line@] + sub) + more) =~= (with_line
                                        + sub) + more);
                                },
                                Err(_) => {},
                            }
                        }
                        done = with_line + sub;
                    }
                },
                Err(x) => {
                    assert(sorted_lines(rest, current as nat, max_depth as nat) is Err);
                    return Err(x);
                },
            }
        } else {
            proof {
                let none = Seq::<Seq<char>>::empty();
                assert(seq![line@] + none =~= seq![line@]);
                assert(views_of(out@) =~= start + with_line);
                assert(after_lines(
                    done,
                    after_lines(
                        seq![line@] + none,
                        sorted_lines(rest.drop_first(), current as nat, max_depth as nat),
                    ),
                ) == after_lines(
                    with_line,
                    sorted_lines(rest.drop_first(), current as nat, max_depth as nat),
                )) by {
                    match sorted_lines(rest.drop_first(), current as nat, max_depth as nat) {
                        Ok(more) => {
                            assert(done + (seq![line@] + more) =~= with_line + more);
                        },
                        Err(_) => {},
                    }
                }
                done = with_line;
            }
        }
        i += 1;
    }
    assert(sorted.skip(order.len() as int) =~= Seq::<DirEntry>::empty());
    assert(done + Seq::<Seq<char>>::empty() == done);
    Ok(())
}

/// Lists a directory: refused where the path is no directory, failed where
/// a directory cannot be read, else the tree of names down to the depth
/// asked for, three levels at most.
pub fn tool_list_dir(is_dir: bool, listing: &Listing, depth: Option<u32>) -> (r: Result<
    String,
    McpToolError,
>)
    ensures
        match r {
            Ok(text) => list_view(is_dir, *listing, depth) == Ok::<_, ErrorView>(text@),
            Err(e) => list_view(is_dir, *listing, depth) == Err::<Seq<char>, _>(e@),
        },
{
    if !is_dir {
        return Err(McpToolError::InvalidArg(owned("Path is not a directory")));
    }
    let max_depth = clamp_depth(depth);
    let mut lines: Vec<Vec<char>> = Vec::new();
    assert(views_of(lines@) =~= Seq::<Seq<char>>::empty());
    match list_dir_inner(listing, 0, max_depth, &mut lines) {
        Ok(_) => {
            proof {
                reveal_strlit("\n");
                assert("\n"@ =~= seq!['\n']);
                let l = level_lines(*listing, 0, max_depth as nat)->Ok_0;
                assert(Seq::<Seq<char>>::empty() + l == l);
            }
            let text = join_chars(&lines, "\n");
            Ok(string_of(&text))
        },
        Err(e) => Err(e),
    }
}

/// A listing of depth one holds one line for each entry and nothing of what
/// the entries hold: it is the same whatever their children are.
pub proof fn lemma_depth_one_is_flat(sorted: Seq<DirEntry>)
    ensures
        sorted_lines(sorted, 0, 1) == Ok::<_, Seq<char>>(
            sorted.map_values(|e: DirEntry| entry_line(e, 0)),
        ),
    decreases sorted.len(),
{
    if sorted.len() > 0 {
        lemma_depth_one_is_flat(sorted.drop_first());
        let rest = sorted.drop_first().map_values(|e: DirEntry| entry_line(e, 0));
        assert(seq![entry_line(sorted[0], 0)] + Seq::<Seq<char>>::empty() + rest
            =~= sorted.map_values(|e: DirEntry| entry_line(e, 0)));
    } else {
        assert(sorted.map_values(|e: DirEntry| entry_line(e, 0)) =~= Seq::<Seq<char>>::empty());
    }
}

/// A depth of more than three lists what a depth of three lists.
pub proof fn lemma_depth_is_capped(is_dir: bool, listing: Listing, depth: u32)
    requires
        depth > 3,
    ensures
        list_view(is_dir, listing, Some(depth)) == list_view(is_dir, listing, Some(3u32)),
{
}

} // verus!
