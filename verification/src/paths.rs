//! Paths as texts: taking one apart at its last segment and building one
//! from a base and a segment, under either path style.

use crate::platform::PathStyle;
use vstd::prelude::*;

verus! {

/// How many characters of a path are left when the separators at its end
/// are dropped.
pub open spec fn trimmed_len(path: Seq<char>, style: PathStyle) -> nat
    decreases path.len(),
{
    if path.len() > 0 && style.is_separator(path.last()) {
        trimmed_len(path.drop_last(), style)
    } else {
        path.len()
    }
}

/// Where the run of characters without a separator that ends a text begins.
pub open spec fn tail_start(text: Seq<char>, style: PathStyle) -> nat
    decreases text.len(),
{
    if text.len() > 0 && !style.is_separator(text.last()) {
        tail_start(text.drop_last(), style)
    } else {
        text.len()
    }
}

/// Where the last segment of a path begins.
pub open spec fn segment_start(path: Seq<char>, style: PathStyle) -> nat {
    tail_start(path.take(trimmed_len(path, style) as int), style)
}

/// The last segment of a path: what stands between its last separator and
/// its end, separators at the very end not counted. Empty for a path made
/// of separators only.
pub open spec fn last_segment(path: Seq<char>, style: PathStyle) -> Seq<char> {
    path.subrange(segment_start(path, style) as int, trimmed_len(path, style) as int)
}

/// What stands before the last segment of a path, the separator that
/// closes it included, so that a root stays a root.
pub open spec fn parent(path: Seq<char>, style: PathStyle) -> Seq<char> {
    path.take(segment_start(path, style) as int)
}

/// A base extended by a segment. The style's separator is put between
/// them unless the base is empty or ends in a separator already.
pub open spec fn join(base: Seq<char>, segment: Seq<char>, style: PathStyle) -> Seq<char> {
    if base.len() == 0 || style.is_separator(base.last()) {
        base + segment
    } else {
        base.push(style.separator()) + segment
    }
}

/// Whether no character of a text is a separator.
pub open spec fn is_segment(text: Seq<char>, style: PathStyle) -> bool {
    forall|i: int| 0 <= i < text.len() ==> !style.is_separator(#[trigger] text[i])
}

/// Whether every character of a text is a separator.
pub open spec fn is_separators(text: Seq<char>, style: PathStyle) -> bool {
    forall|i: int| 0 <= i < text.len() ==> style.is_separator(#[trigger] text[i])
}

/// The trimmed length never exceeds the length, what is cut off is
/// separators, and what is left does not end in one.
pub proof fn lemma_trimmed_len(path: Seq<char>, style: PathStyle)
    ensures
        trimmed_len(path, style) <= path.len(),
        is_separators(path.skip(trimmed_len(path, style) as int), style),
        trimmed_len(path, style) > 0 ==> !style.is_separator(
            path[trimmed_len(path, style) - 1],
        ),
    decreases path.len(),
{
    if path.len() > 0 && style.is_separator(path.last()) {
        let shorter = path.drop_last();
        lemma_trimmed_len(shorter, style);
        let n = trimmed_len(path, style) as int;
        assert forall|i: int| 0 <= i < path.skip(n).len() implies style.is_separator(
            #[trigger] path.skip(n)[i],
        ) by {
            if n + i < shorter.len() {
                assert(path.skip(n)[i] == shorter.skip(n)[i]);
            } else {
                assert(path.skip(n)[i] == path.last());
            }
        }
        if n > 0 {
            assert(path[n - 1] == shorter[n - 1]);
        }
    } else {
        assert(path.skip(path.len() as int) =~= Seq::<char>::empty());
    }
}

/// The closing run starts within the text, holds no separator, and is
/// preceded by one unless it starts the text.
pub proof fn lemma_tail_start(text: Seq<char>, style: PathStyle)
    ensures
        tail_start(text, style) <= text.len(),
        is_segment(text.skip(tail_start(text, style) as int), style),
        tail_start(text, style) > 0 ==> style.is_separator(text[tail_start(text, style) - 1]),
    decreases text.len(),
{
    if text.len() > 0 && !style.is_separator(text.last()) {
        let shorter = text.drop_last();
        lemma_tail_start(shorter, style);
        let n = tail_start(text, style) as int;
        assert forall|i: int| 0 <= i < text.skip(n).len() implies !style.is_separator(
            #[trigger] text.skip(n)[i],
        ) by {
            if n + i < shorter.len() {
                assert(text.skip(n)[i] == shorter.skip(n)[i]);
            } else {
                assert(text.skip(n)[i] == text.last());
            }
        }
        if n > 0 {
            assert(text[n - 1] == shorter[n - 1]);
        }
    } else {
        assert(text.skip(text.len() as int) =~= Seq::<char>::empty());
    }
}

/// A path is its parent, then its last segment, then the separators at its
/// end; the last segment holds no separator.
pub proof fn lemma_split(path: Seq<char>, style: PathStyle)
    ensures
        segment_start(path, style) <= trimmed_len(path, style) <= path.len(),
        path == parent(path, style) + last_segment(path, style) + path.skip(
            trimmed_len(path, style) as int,
        ),
        is_segment(last_segment(path, style), style),
        is_separators(path.skip(trimmed_len(path, style) as int), style),
{
    lemma_trimmed_len(path, style);
    let end = trimmed_len(path, style) as int;
    let kept = path.take(end);
    lemma_tail_start(kept, style);
    let start = segment_start(path, style) as int;
    assert(last_segment(path, style) =~= kept.skip(start));
    assert(path =~= parent(path, style) + last_segment(path, style) + path.skip(end));
}

/// A text that ends in a character that is no separator is not trimmed.
proof fn lemma_trimmed_len_of_closed(path: Seq<char>, style: PathStyle)
    requires
        path.len() == 0 || !style.is_separator(path.last()),
    ensures
        trimmed_len(path, style) == path.len(),
{
}

/// The closing run of a text that ends in a segment starts where the
/// segment starts, if a separator or nothing stands before the segment.
proof fn lemma_tail_start_of_append(head: Seq<char>, segment: Seq<char>, style: PathStyle)
    requires
        is_segment(segment, style),
        head.len() == 0 || style.is_separator(head.last()),
    ensures
        tail_start(head + segment, style) == head.len(),
    decreases segment.len(),
{
    let text = head + segment;
    if segment.len() == 0 {
        assert(text =~= head);
    } else {
        assert(text.last() == segment.last());
        assert(text.drop_last() =~= head + segment.drop_last());
        lemma_tail_start_of_append(head, segment.drop_last(), style);
    }
}

/// Joining a segment to a base and taking the result apart gives the
/// segment back, and as parent the base closed by a separator.
pub proof fn lemma_join_then_split(base: Seq<char>, segment: Seq<char>, style: PathStyle)
    requires
        segment.len() > 0,
        is_segment(segment, style),
    ensures
        last_segment(join(base, segment, style), style) == segment,
        join(base, segment, style) == parent(join(base, segment, style), style) + segment,
        parent(join(base, segment, style), style) == if base.len() == 0 || style.is_separator(
            base.last(),
        ) {
            base
        } else {
            base.push(style.separator())
        },
{
    let head = if base.len() == 0 || style.is_separator(base.last()) {
        base
    } else {
        base.push(style.separator())
    };
    let path = join(base, segment, style);
    assert(path =~= head + segment);
    assert(path.last() == segment.last());
    lemma_trimmed_len_of_closed(path, style);
    assert(path.take(path.len() as int) =~= path);
    lemma_tail_start_of_append(head, segment, style);
    assert(parent(path, style) =~= head);
    assert(last_segment(path, style) =~= segment);
}

/// Whether two texts hold the same characters.
pub fn same_text(a: &str, b: &str) -> (same: bool)
    ensures
        same == (a@ == b@),
{
    let n = a.unicode_len();
    if n != b.unicode_len() {
        return false;
    }
    let mut i: usize = 0;
    while i < n
        invariant
            n == a@.len(),
            n == b@.len(),
            i <= n,
            a@.take(i as int) == b@.take(i as int),
        decreases n - i,
    {
        if a.get_char(i) != b.get_char(i) {
            return false;
        }
        assert(a@.take(i + 1) =~= a@.take(i as int).push(a@[i as int]));
        assert(b@.take(i + 1) =~= b@.take(i as int).push(b@[i as int]));
        i += 1;
    }
    assert(a@ =~= a@.take(n as int));
    assert(b@ =~= b@.take(n as int));
    true
}

/// How many characters of a path are left when the separators at its end
/// are dropped.
pub fn trimmed_length(path: &str, style: PathStyle) -> (n: usize)
    ensures
        n == trimmed_len(path@, style),
{
    let mut n: usize = path.unicode_len();
    assert(path@.take(n as int) =~= path@);
    while n > 0 && style.separates(path.get_char(n - 1))
        invariant
            n <= path@.len(),
            trimmed_len(path@, style) == trimmed_len(path@.take(n as int), style),
        decreases n,
    {
        assert(path@.take(n as int).drop_last() =~= path@.take(n - 1));
        n -= 1;
    }
    n
}

/// Where the last segment of a path begins, counted in characters.
pub fn segment_begin(path: &str, style: PathStyle) -> (start: usize)
    ensures
        start == segment_start(path@, style),
        start <= trimmed_len(path@, style) <= path@.len(),
{
    let end = trimmed_length(path, style);
    proof {
        lemma_trimmed_len(path@, style);
    }
    let ghost kept = path@.take(end as int);
    let mut start: usize = end;
    assert(kept.take(start as int) =~= kept);
    while start > 0 && !style.separates(path.get_char(start - 1))
        invariant
            start <= end <= path@.len(),
            kept == path@.take(end as int),
            tail_start(kept, style) == tail_start(kept.take(start as int), style),
        decreases start,
    {
        assert(kept.take(start as int).drop_last() =~= kept.take(start - 1));
        start -= 1;
    }
    start
}

/// The last segment of a path.
pub fn last_segment_of(path: &str, style: PathStyle) -> (segment: String)
    ensures
        segment@ == last_segment(path@, style),
{
    let start = segment_begin(path, style);
    let end = trimmed_length(path, style);
    String::from_str(path.substring_char(start, end))
}

/// What stands before the last segment of a path.
pub fn parent_of(path: &str, style: PathStyle) -> (parent_path: String)
    ensures
        parent_path@ == parent(path@, style),
{
    let start = segment_begin(path, style);
    String::from_str(path.substring_char(0, start))
}

/// A base extended by a segment.
pub fn join_path(base: &str, segment: &str, style: PathStyle) -> (path: String)
    ensures
        path@ == join(base@, segment@, style),
{
    let n = base.unicode_len();
    if n == 0 || style.separates(base.get_char(n - 1)) {
        String::from_str(base).concat(segment)
    } else {
        let path = String::from_str(base).concat(style.separator_text()).concat(segment);
        assert(path@ =~= join(base@, segment@, style));
        path
    }
}

} // verus!
