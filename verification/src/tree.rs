//! The tree assembler: materializes a comment's descendants into a nested
//! structure, ordered by creation time (with the id as tie-breaker) in the
//! caller-selected direction, honoring a temporal visibility cutoff.
//!
//! Assembly works over an in-memory snapshot of a post's comments rather than
//! one query per node, and carries a recursion budget so that a malformed
//! parent chain (a cycle) cannot drive it into unbounded recursion: in an
//! acyclic snapshot a budget of the snapshot's length never runs out.

use vstd::prelude::*;
use vstd::relations::sorted_by;

use crate::comment::Comment;

verus! {

/// The order comments are listed in: by `created`, with `id` breaking ties,
/// ascending or descending.
pub open spec fn spec_key_le(asc: bool, a: Comment, b: Comment) -> bool {
    if asc {
        a.created < b.created || (a.created == b.created && a.id <= b.id)
    } else {
        a.created > b.created || (a.created == b.created && a.id >= b.id)
    }
}

/// The listing order as a binary relation, for sortedness statements.
pub open spec fn key_le_fn(asc: bool) -> spec_fn(Comment, Comment) -> bool {
    |a: Comment, b: Comment| spec_key_le(asc, a, b)
}

/// Compares two comments in the listing order.
pub fn key_le(asc: bool, a: &Comment, b: &Comment) -> (r: bool)
    ensures
        r == spec_key_le(asc, *a, *b),
{
    if asc {
        a.created < b.created || (a.created == b.created && a.id <= b.id)
    } else {
        a.created > b.created || (a.created == b.created && a.id >= b.id)
    }
}

/// `c` inserted into `s` before the first element it does not come after:
/// with `s` sorted, the sorted sequence holding `s`'s elements and `c`.
pub open spec fn spec_insert_sorted(s: Seq<Comment>, c: Comment, asc: bool) -> Seq<Comment>
    decreases s.len(),
{
    if s.len() == 0 {
        seq![c]
    } else if spec_key_le(asc, s[0], c) {
        seq![s[0]] + spec_insert_sorted(s.drop_first(), c, asc)
    } else {
        seq![c] + s
    }
}

/// Insertion sort of `s` in the listing order.
pub open spec fn spec_sort(s: Seq<Comment>, asc: bool) -> Seq<Comment>
    decreases s.len(),
{
    if s.len() == 0 {
        Seq::<Comment>::empty()
    } else {
        spec_insert_sorted(spec_sort(s.drop_last(), asc), s.last(), asc)
    }
}

/// Inserting before the first position `i` whose element does not come before
/// `c` is what `spec_insert_sorted` does.
proof fn lemma_insert_sorted_at(s: Seq<Comment>, c: Comment, asc: bool, i: int)
    requires
        0 <= i <= s.len(),
        forall|j: int| 0 <= j < i ==> spec_key_le(asc, #[trigger] s[j], c),
        i < s.len() ==> !spec_key_le(asc, s[i], c),
    ensures
        spec_insert_sorted(s, c, asc) =~= s.insert(i, c),
    decreases s.len(),
{
    if s.len() == 0 {
    } else if i == 0 {
    } else {
        assert(spec_key_le(asc, s[0], c));
        assert forall|j: int| 0 <= j < i - 1 implies spec_key_le(
            asc,
            #[trigger] s.drop_first()[j],
            c,
        ) by {
            assert(s.drop_first()[j] == s[j + 1]);
        }
        assert(i - 1 < s.drop_first().len() ==> s.drop_first()[i - 1] == s[i]);
        lemma_insert_sorted_at(s.drop_first(), c, asc, i - 1);
    }
}

/// Inserting adds one element, adds `c` to the contents, and keeps the
/// sequence sorted.
proof fn lemma_insert_sorted_props(s: Seq<Comment>, c: Comment, asc: bool)
    ensures
        spec_insert_sorted(s, c, asc).len() == s.len() + 1,
        spec_insert_sorted(s, c, asc).to_multiset() =~= s.to_multiset().insert(c),
        sorted_by(s, key_le_fn(asc)) ==> sorted_by(spec_insert_sorted(s, c, asc), key_le_fn(asc)),
    decreases s.len(),
{
    broadcast use vstd::seq_lib::group_to_multiset_ensures;

    let res = spec_insert_sorted(s, c, asc);
    if s.len() == 0 {
        assert(seq![c] =~= Seq::<Comment>::empty().push(c));
        assert(res.to_multiset() =~= s.to_multiset().insert(c));
        assert(sorted_by(res, key_le_fn(asc)));
    } else if spec_key_le(asc, s[0], c) {
        let rest = s.drop_first();
        let ins_rest = spec_insert_sorted(rest, c, asc);
        lemma_insert_sorted_props(rest, c, asc);
        // contents: s == [s[0]] + rest, res == [s[0]] + ins_rest
        vstd::seq_lib::lemma_multiset_commutative(seq![s[0]], ins_rest);
        vstd::seq_lib::lemma_multiset_commutative(seq![s[0]], rest);
        assert(s =~= seq![s[0]] + rest);
        assert(res.to_multiset() =~= s.to_multiset().insert(c));
        if sorted_by(s, key_le_fn(asc)) {
            assert forall|i: int, j: int| 0 <= i < j < rest.len() implies key_le_fn(asc)(
                rest[i],
                rest[j],
            ) by {
                assert(key_le_fn(asc)(s[i + 1], s[j + 1]));
            }
            assert(sorted_by(rest, key_le_fn(asc)));
            assert forall|i: int, j: int| 0 <= i < j < res.len() implies key_le_fn(asc)(
                res[i],
                res[j],
            ) by {
                if i == 0 {
                    let y = res[j];
                    assert(y == ins_rest[j - 1]);
                    assert(ins_rest.to_multiset().count(y) > 0);
                    if y == c {
                        assert(spec_key_le(asc, s[0], c));
                    } else {
                        assert(rest.to_multiset().count(y) > 0);
                        assert(rest.contains(y));
                        let k = choose|k: int| 0 <= k < rest.len() && rest[k] == y;
                        assert(key_le_fn(asc)(s[0], s[k + 1]));
                    }
                } else {
                    assert(key_le_fn(asc)(ins_rest[i - 1], ins_rest[j - 1]));
                }
            }
        }
    } else {
        // res == [c] + s
        vstd::seq_lib::lemma_multiset_commutative(seq![c], s);
        assert(res.to_multiset() =~= s.to_multiset().insert(c));
        if sorted_by(s, key_le_fn(asc)) {
            assert(spec_key_le(asc, c, s[0]));
            assert forall|i: int, j: int| 0 <= i < j < res.len() implies key_le_fn(asc)(
                res[i],
                res[j],
            ) by {
                if i == 0 {
                    if j > 1 {
                        assert(key_le_fn(asc)(s[0], s[j - 1]));
                    }
                    assert(spec_key_le(asc, c, s[j - 1]));
                } else {
                    assert(key_le_fn(asc)(s[i - 1], s[j - 1]));
                }
            }
        }
    }
}

/// The sorted sequence has the same length and contents as the input and is
/// sorted in the listing order: within any parent's children, creation order
/// is respected in the caller-selected direction.
pub proof fn lemma_sort_props(s: Seq<Comment>, asc: bool)
    ensures
        spec_sort(s, asc).len() == s.len(),
        spec_sort(s, asc).to_multiset() =~= s.to_multiset(),
        sorted_by(spec_sort(s, asc), key_le_fn(asc)),
    decreases s.len(),
{
    broadcast use vstd::seq_lib::group_to_multiset_ensures;

    if s.len() == 0 {
    } else {
        let head = spec_sort(s.drop_last(), asc);
        lemma_sort_props(s.drop_last(), asc);
        lemma_insert_sorted_props(head, s.last(), asc);
        assert(s =~= s.drop_last().push(s.last()));
        assert(s.to_multiset() =~= s.drop_last().to_multiset().insert(s.last()));
    }
}

/// Inserts `c` into an already sorted vector at its place in the listing
/// order.
fn insert_sorted(v: &mut Vec<Comment>, c: Comment, asc: bool)
    ensures
        final(v)@ == spec_insert_sorted(old(v)@, c, asc),
{
    let mut i: usize = 0;
    while i < v.len() && key_le(asc, &v[i], &c)
        invariant
            *v == *old(v),
            0 <= i <= v@.len(),
            forall|j: int| 0 <= j < i ==> spec_key_le(asc, #[trigger] v@[j], c),
        decreases v@.len() - i,
    {
        i = i + 1;
    }
    proof {
        lemma_insert_sorted_at(v@, c, asc, i as int);
    }
    v.insert(i, c);
}

/// Sorts a snapshot of comments in the listing order.
pub fn sort_comments(input: &Vec<Comment>, asc: bool) -> (r: Vec<Comment>)
    ensures
        r@ == spec_sort(input@, asc),
{
    let mut out: Vec<Comment> = Vec::new();
    let mut i: usize = 0;
    while i < input.len()
        invariant
            0 <= i <= input@.len(),
            out@ == spec_sort(input@.take(i as int), asc),
        decreases input@.len() - i,
    {
        insert_sorted(&mut out, input[i].clone(), asc);
        proof {
            assert(input@.take(i + 1).drop_last() =~= input@.take(i as int));
            assert(input@.take(i + 1).last() == input@[i as int]);
        }
        i = i + 1;
    }
    proof {
        assert(input@.take(input@.len() as int) =~= input@);
    }
    out
}

/// Whether a comment falls inside the temporal visibility cutoff: `None`
/// disables the cutoff (the authenticated manager sees future-dated
/// comments), `Some(t)` admits only comments created at or before `t`.
pub open spec fn spec_within_cutoff(c: Comment, cutoff: Option<i64>) -> bool {
    match cutoff {
        Some(t) => c.created <= t,
        None => true,
    }
}

/// Whether a comment is a direct child of `parent_id` that falls inside the
/// cutoff.
pub open spec fn spec_is_child_of(c: Comment, parent_id: i64, cutoff: Option<i64>) -> bool {
    c.parent == Some(parent_id) && spec_within_cutoff(c, cutoff)
}

/// The child test as a predicate, for filtering.
pub open spec fn child_pred(parent_id: i64, cutoff: Option<i64>) -> spec_fn(Comment) -> bool {
    |c: Comment| spec_is_child_of(c, parent_id, cutoff)
}

/// The direct children of `parent_id` in the snapshot that fall inside the
/// cutoff, in the listing order.
pub open spec fn spec_child_comments(
    s: Seq<Comment>,
    parent_id: i64,
    cutoff: Option<i64>,
    asc: bool,
) -> Seq<Comment> {
    spec_sort(s.filter(child_pred(parent_id, cutoff)), asc)
}

fn within_cutoff(c: &Comment, cutoff: Option<i64>) -> (r: bool)
    ensures
        r == spec_within_cutoff(*c, cutoff),
{
    match cutoff {
        Some(t) => c.created <= t,
        None => true,
    }
}

/// Collects the direct children of `parent_id` inside the cutoff, in
/// snapshot order.
fn filter_children(s: &Vec<Comment>, parent_id: i64, cutoff: Option<i64>) -> (r: Vec<Comment>)
    ensures
        r@ == s@.filter(child_pred(parent_id, cutoff)),
{
    let mut out: Vec<Comment> = Vec::new();
    let mut i: usize = 0;
    proof {
        reveal(Seq::filter);
        assert(s@.take(0).filter(child_pred(parent_id, cutoff)) =~= Seq::<Comment>::empty());
    }
    while i < s.len()
        invariant
            0 <= i <= s@.len(),
            out@ == s@.take(i as int).filter(child_pred(parent_id, cutoff)),
        decreases s@.len() - i,
    {
        let is_child = match s[i].parent {
            Some(p) => p == parent_id,
            None => false,
        };
        if is_child && within_cutoff(&s[i], cutoff) {
            out.push(s[i].clone());
        }
        proof {
            assert(s@.take(i + 1) =~= s@.take(i as int).push(s@[i as int]));
            s@.take(i as int).lemma_filter_push(s@[i as int], child_pred(parent_id, cutoff));
        }
        i = i + 1;
    }
    proof {
        assert(s@.take(s@.len() as int) =~= s@);
    }
    out
}

/// A comment with its assembled descendants: the transient, request-scoped
/// tree shape that listing builds and that is never written back.
pub struct CommentNode {
    pub comment: Comment,
    pub children: Vec<CommentNode>,
}

/// What a correctly assembled forest under `parent_id` looks like: one node
/// per visible direct child, in the listing order, each node's children
/// assembled the same way one budget step down. A spent budget means an
/// empty forest.
pub open spec fn nodes_match(
    r: Seq<CommentNode>,
    s: Seq<Comment>,
    parent_id: i64,
    cutoff: Option<i64>,
    asc: bool,
    fuel: nat,
) -> bool
    decreases fuel,
{
    if fuel == 0 {
        r == Seq::<CommentNode>::empty()
    } else {
        let kids = spec_child_comments(s, parent_id, cutoff, asc);
        &&& r.len() == kids.len()
        &&& forall|i: int| 0 <= i < r.len() ==> (#[trigger] r[i]).comment == kids[i]
        &&& forall|i: int|
            0 <= i < r.len() ==> nodes_match(
                (#[trigger] r[i]).children@,
                s,
                kids[i].id,
                cutoff,
                asc,
                (fuel - 1) as nat,
            )
    }
}

/// Assembles the subtrees of all direct children of `parent_id` from the
/// snapshot `s`, children ordered by creation time in the given direction at
/// every level, honoring the cutoff. `fuel` bounds the recursion depth; a
/// snapshot whose parent chains are acyclic is assembled in full whenever
/// `fuel >= s.len()`.
pub fn list_children(
    s: &Vec<Comment>,
    parent_id: i64,
    cutoff: Option<i64>,
    asc: bool,
    fuel: u64,
) -> (r: Vec<CommentNode>)
    ensures
        nodes_match(r@, s@, parent_id, cutoff, asc, fuel as nat),
    decreases fuel,
{
    if fuel == 0 {
        return Vec::new();
    }
    let kids = filter_children(s, parent_id, cutoff);
    let sorted = sort_comments(&kids, asc);
    let mut out: Vec<CommentNode> = Vec::new();
    let mut i: usize = 0;
    while i < sorted.len()
        invariant
            0 <= i <= sorted@.len(),
            fuel >= 1,
            sorted@ == spec_child_comments(s@, parent_id, cutoff, asc),
            out@.len() == i,
            forall|j: int| 0 <= j < i ==> (#[trigger] out@[j]).comment == sorted@[j],
            forall|j: int|
                0 <= j < i ==> nodes_match(
                    (#[trigger] out@[j]).children@,
                    s@,
                    sorted@[j].id,
                    cutoff,
                    asc,
                    (fuel - 1) as nat,
                ),
        decreases sorted@.len() - i,
    {
        let children = list_children(s, sorted[i].id, cutoff, asc, fuel - 1);
        out.push(CommentNode { comment: sorted[i].clone(), children });
        i = i + 1;
    }
    out
}

/// The law of assembled children: under any parent, the assembled forest
/// holds exactly the direct children that fall inside the cutoff, each once,
/// and creation order (the id breaking ties) is respected in the
/// caller-selected direction.
pub proof fn lemma_children_ordered(
    r: Seq<CommentNode>,
    s: Seq<Comment>,
    parent_id: i64,
    cutoff: Option<i64>,
    asc: bool,
    fuel: nat,
)
    requires
        fuel > 0,
        nodes_match(r, s, parent_id, cutoff, asc, fuel),
    ensures
        forall|i: int, j: int|
            0 <= i < j < r.len() ==> spec_key_le(asc, #[trigger] r[i].comment, #[trigger] r[j].comment),
        r.len() == s.filter(child_pred(parent_id, cutoff)).len(),
        Seq::new(r.len(), |i: int| r[i].comment).to_multiset() =~= s.filter(
            child_pred(parent_id, cutoff),
        ).to_multiset(),
{
    let flt = s.filter(child_pred(parent_id, cutoff));
    let kids = spec_child_comments(s, parent_id, cutoff, asc);
    lemma_sort_props(flt, asc);
    assert forall|i: int, j: int| 0 <= i < j < r.len() implies spec_key_le(
        asc,
        #[trigger] r[i].comment,
        #[trigger] r[j].comment,
    ) by {
        assert(key_le_fn(asc)(kids[i], kids[j]));
    }
    assert(Seq::new(r.len(), |i: int| r[i].comment) =~= kids);
}

} // verus!
