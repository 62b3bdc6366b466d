//! The listing service: pages through a snapshot of a post's comments,
//! restricting an anonymous viewer to published, non-future-dated comments,
//! and renders each page item either flat or with its assembled descendant
//! tree, projected for the viewer.

use vstd::prelude::*;

use crate::auth::WeekClaims;
use crate::comment::{Comment, CommentStatus};
use crate::projection::{project, wire_matches, WireComment};
use crate::tree::{
    list_children, nodes_match, sort_comments, spec_child_comments, spec_sort, CommentNode,
};
use crate::utils::SqlOrder;

verus! {

/// The shape a listing is returned in: one flat page of comments at any
/// depth, or a page of top-level comments each carrying its descendant tree.
#[derive(Clone, Copy, Debug, PartialEq, Eq, Structural)]
pub enum Format {
    List,
    Tree,
}

impl Default for Format {
    fn default() -> (r: Self)
        ensures
            r == Format::Tree,
    {
        Format::Tree
    }
}

impl Format {
    /// The string each format is written as on the wire.
    pub open spec fn spec_wire(self) -> Seq<char> {
        match self {
            Format::List => "list"@,
            Format::Tree => "tree"@,
        }
    }

    pub fn as_wire(&self) -> (r: String)
        ensures
            r@ == self.spec_wire(),
    {
        match self {
            Format::List => "list".to_owned(),
            Format::Tree => "tree".to_owned(),
        }
    }

    /// The format a wire string denotes, if any: the vocabulary is closed.
    pub open spec fn spec_from_wire(s: Seq<char>) -> Option<Format> {
        if s == "list"@ {
            Some(Format::List)
        } else if s == "tree"@ {
            Some(Format::Tree)
        } else {
            None
        }
    }

    /// Parses a wire string; an unknown value is an `InvalidRequest` error
    /// rather than a silent default.
    pub fn from_wire(s: &String) -> (r: Result<Format, crate::error::AppError>)
        ensures
            r is Ok <==> Self::spec_from_wire(s@) is Some,
            r matches Ok(v) ==> Self::spec_from_wire(s@) == Some(v),
            r matches Err(e) ==> e.code == crate::error::ErrorCode::InvalidRequest,
    {
        if *s == "list".to_owned() {
            Ok(Format::List)
        } else if *s == "tree".to_owned() {
            Ok(Format::Tree)
        } else {
            Err(crate::error::AppError::from_code(crate::error::ErrorCode::InvalidRequest, None))
        }
    }
}

/// The query parameters a comment listing accepts; each defaults when absent.
#[derive(Clone, Copy)]
pub struct ListFilter {
    pub post_id: Option<i64>,
    pub format: Option<Format>,
    pub order: Option<SqlOrder>,
}

/// A page selection: the zero-based page index and the page size.
#[derive(Clone, Copy)]
pub struct Pagination {
    pub page: usize,
    pub per: usize,
}

/// The paginated envelope a listing is answered with.
pub struct PaginationData<T> {
    pub total: usize,
    pub pages: usize,
    pub items: T,
}

impl<T> PaginationData<T> {
    pub fn new(items: T, total: usize, pages: usize) -> (r: Self)
        ensures
            r.items == items,
            r.total == total,
            r.pages == pages,
    {
        Self { items, total, pages }
    }
}

/// The query parameter of a comment creation: the post commented on.
#[derive(Clone, Copy)]
pub struct CreateQuery {
    pub post_id: i64,
}

/// Whether a comment belongs to the post the listing asks for (no post
/// filter admits every comment).
pub open spec fn spec_post_matches(c: Comment, post_id: Option<i64>) -> bool {
    match post_id {
        Some(pid) => c.post_id == pid,
        None => true,
    }
}

/// Whether a comment is visible to the viewer: the manager sees everything;
/// an anonymous viewer sees only published comments created at or before
/// `now`.
pub open spec fn spec_visible(c: Comment, post_id: Option<i64>, authed: bool, now: i64) -> bool {
    spec_post_matches(c, post_id) && (!authed ==> (c.status == CommentStatus::Published
        && c.created <= now))
}

/// The effective format: `Tree` when none was asked for.
pub open spec fn spec_format(filter: ListFilter) -> Format {
    match filter.format {
        Some(f) => f,
        None => Format::Tree,
    }
}

/// The effective direction: descending when none was asked for.
pub open spec fn spec_asc(filter: ListFilter) -> bool {
    match filter.order {
        Some(SqlOrder::Asc) => true,
        _ => false,
    }
}

/// The temporal cutoff for assembling descendants: disabled for the manager,
/// `now` for an anonymous viewer.
pub open spec fn spec_cutoff(authed: bool, now: i64) -> Option<i64> {
    if authed {
        None
    } else {
        Some(now)
    }
}

/// The filter a listing counts and pages over: visibility, and in `Tree`
/// format only top-level comments.
pub open spec fn candidate_pred(filter: ListFilter, authed: bool, now: i64) -> spec_fn(
    Comment,
) -> bool {
    |c: Comment|
        spec_visible(c, filter.post_id, authed, now) && (spec_format(filter) is Tree
            ==> c.parent is None)
}

/// The comments a listing's `total`, `pages` and page slice are computed
/// over, in snapshot order.
pub open spec fn spec_listing_base(
    s: Seq<Comment>,
    filter: ListFilter,
    authed: bool,
    now: i64,
) -> Seq<Comment> {
    s.filter(candidate_pred(filter, authed, now))
}

/// The number of pages `total` items make at `per` items a page.
pub open spec fn spec_pages(total: int, per: int) -> int {
    total / per + if total % per == 0 {
        0int
    } else {
        1int
    }
}

/// Where a page's slice starts: past the end for a page beyond the last.
pub open spec fn spec_page_start(page: int, per: int, total: int) -> int {
    if page * per <= total {
        page * per
    } else {
        total
    }
}

/// Where a page's slice ends.
pub open spec fn spec_page_end(start: int, per: int, total: int) -> int {
    if start + per <= total {
        start + per
    } else {
        total
    }
}

/// The recursion budget a listing assembles descendant trees with: the
/// snapshot's length (enough for any acyclic parent chain), or none in the
/// flat format, whose items carry no children.
pub open spec fn spec_item_fuel(s: Seq<Comment>, filter: ListFilter) -> nat {
    if spec_format(filter) is Tree {
        s.len()
    } else {
        0
    }
}

/// What a correctly rendered listing item looks like: the wire form of `c`
/// projected for the viewer, its children (budget permitting) exactly the
/// assembled, ordered, cutoff-respecting descendants of `c` in the snapshot,
/// rendered the same way.
pub open spec fn spec_wire_tree(
    w: WireComment,
    c: Comment,
    s: Seq<Comment>,
    cutoff: Option<i64>,
    asc: bool,
    authed: bool,
    fuel: nat,
) -> bool
    decreases fuel,
{
    &&& w.id == c.id
    &&& w.created == c.created
    &&& w.modified == (if authed {
        Some(c.modified)
    } else {
        None::<i64>
    })
    &&& w.status == c.status
    &&& w.nickname == c.nickname
    &&& w.email == c.email
    &&& w.site == c.site
    &&& w.parent == c.parent
    &&& w.role == c.role
    &&& if fuel == 0 {
        w.children@.len() == 0
    } else {
        let kids = spec_child_comments(s, c.id, cutoff, asc);
        w.children@.len() == kids.len() && forall|i: int|
            0 <= i < kids.len() ==> spec_wire_tree(
                #[trigger] w.children@[i],
                kids[i],
                s,
                cutoff,
                asc,
                authed,
                (fuel - 1) as nat,
            )
    }
}

/// A projected, correctly assembled node is a correctly rendered item.
proof fn lemma_wire_of_node(
    w: WireComment,
    n: CommentNode,
    s: Seq<Comment>,
    cutoff: Option<i64>,
    asc: bool,
    authed: bool,
    fuel: nat,
)
    requires
        wire_matches(w, n, authed),
        nodes_match(n.children@, s, n.comment.id, cutoff, asc, fuel),
    ensures
        spec_wire_tree(w, n.comment, s, cutoff, asc, authed, fuel),
    decreases fuel,
{
    if fuel == 0 {
    } else {
        let kids = spec_child_comments(s, n.comment.id, cutoff, asc);
        assert forall|i: int| 0 <= i < kids.len() implies spec_wire_tree(
            #[trigger] w.children@[i],
            kids[i],
            s,
            cutoff,
            asc,
            authed,
            (fuel - 1) as nat,
        ) by {
            lemma_wire_of_node(
                w.children@[i],
                n.children@[i],
                s,
                cutoff,
                asc,
                authed,
                (fuel - 1) as nat,
            );
        }
    }
}

/// What a correct listing's items are: one rendered item per comment of the
/// requested page's slice of the base, sorted in the listing order.
pub open spec fn spec_listing_matches(
    items: Seq<WireComment>,
    s: Seq<Comment>,
    filter: ListFilter,
    p: Pagination,
    authed: bool,
    now: i64,
) -> bool {
    let base = spec_listing_base(s, filter, authed, now);
    let sorted = spec_sort(base, spec_asc(filter));
    let total = base.len() as int;
    let start = spec_page_start(p.page as int, p.per as int, total);
    let end = spec_page_end(start, p.per as int, total);
    &&& items.len() == end - start
    &&& forall|i: int|
        0 <= i < items.len() ==> spec_wire_tree(
            #[trigger] items[i],
            sorted[start + i],
            s,
            spec_cutoff(authed, now),
            spec_asc(filter),
            authed,
            spec_item_fuel(s, filter),
        )
}

/// Collects the comments a listing is computed over, in snapshot order.
fn filter_candidates(s: &Vec<Comment>, filter: &ListFilter, authed: bool, now: i64) -> (r: Vec<
    Comment,
>)
    ensures
        r@ == spec_listing_base(s@, *filter, authed, now),
{
    let tree = match filter.format {
        Some(Format::List) => false,
        _ => true,
    };
    let mut out: Vec<Comment> = Vec::new();
    let mut i: usize = 0;
    proof {
        reveal(Seq::filter);
        assert(s@.take(0).filter(candidate_pred(*filter, authed, now)) =~= Seq::<
            Comment,
        >::empty());
    }
    while i < s.len()
        invariant
            0 <= i <= s@.len(),
            tree == spec_format(*filter) is Tree,
            out@ == s@.take(i as int).filter(candidate_pred(*filter, authed, now)),
        decreases s@.len() - i,
    {
        let post_ok = match filter.post_id {
            Some(pid) => s[i].post_id == pid,
            None => true,
        };
        let vis_ok = authed || (s[i].status == CommentStatus::Published && s[i].created <= now);
        let top_ok = !tree || s[i].parent.is_none();
        if post_ok && vis_ok && top_ok {
            out.push(s[i].clone());
        }
        proof {
            assert(s@.take(i + 1) =~= s@.take(i as int).push(s@[i as int]));
            s@.take(i as int).lemma_filter_push(s@[i as int], candidate_pred(*filter, authed, now));
        }
        i = i + 1;
    }
    proof {
        assert(s@.take(s@.len() as int) =~= s@);
    }
    out
}

/// Pages through the snapshot of a post's comments for the given viewer at
/// time `now`. The returned envelope counts exactly the comments the viewer
/// may see (top-level ones in `Tree` format, any depth in `List` format),
/// and its items are the requested page's slice in the listing order, each
/// rendered for the viewer — in `Tree` format with its full descendant tree
/// attached. A page beyond the last yields an empty item set with the
/// correct `total` and `pages`.
pub fn list_comments(
    comments: &Vec<Comment>,
    filter: &ListFilter,
    pagination: &Pagination,
    w_claims: &WeekClaims,
    now: i64,
) -> (r: PaginationData<Vec<WireComment>>)
    requires
        pagination.per >= 1,
    ensures
        r.total == spec_listing_base(comments@, *filter, w_claims.spec_is_authed(), now).len(),
        r.pages == spec_pages(r.total as int, pagination.per as int),
        spec_listing_matches(
            r.items@,
            comments@,
            *filter,
            *pagination,
            w_claims.spec_is_authed(),
            now,
        ),
{
    let authed = w_claims.is_authed();
    let tree = match filter.format {
        Some(Format::List) => false,
        _ => true,
    };
    let asc = match filter.order {
        Some(SqlOrder::Asc) => true,
        _ => false,
    };
    let base = filter_candidates(comments, filter, authed, now);
    let sorted = sort_comments(&base, asc);
    proof {
        crate::tree::lemma_sort_props(base@, asc);
    }
    let total = base.len();
    let per = pagination.per;
    proof {
        if total % per != 0 {
            assert(per >= 2);
            vstd::arithmetic::div_mod::lemma_div_is_ordered_by_denominator(
                total as int,
                2,
                per as int,
            );
        }
    }
    let pages = total / per + if total % per == 0 {
        0
    } else {
        1
    };
    let start = match pagination.page.checked_mul(per) {
        Some(v) => if v <= total {
            v
        } else {
            total
        },
        None => total,
    };
    let end = if total - start < per {
        total
    } else {
        start + per
    };
    let cutoff = if authed {
        None
    } else {
        Some(now)
    };
    let fuel = comments.len() as u64;
    let ghost spec_fuel = spec_item_fuel(comments@, *filter);
    let mut items: Vec<WireComment> = Vec::new();
    let mut i: usize = start;
    while i < end
        invariant
            start <= i <= end <= sorted@.len(),
            sorted@ == spec_sort(
                spec_listing_base(comments@, *filter, w_claims.spec_is_authed(), now),
                asc,
            ),
            asc == spec_asc(*filter),
            tree == spec_format(*filter) is Tree,
            authed == w_claims.spec_is_authed(),
            cutoff == spec_cutoff(authed, now),
            fuel == comments@.len(),
            spec_fuel == spec_item_fuel(comments@, *filter),
            items@.len() == i - start,
            forall|j: int|
                0 <= j < items@.len() ==> spec_wire_tree(
                    #[trigger] items@[j],
                    sorted@[start + j],
                    comments@,
                    cutoff,
                    asc,
                    authed,
                    spec_fuel,
                ),
        decreases end - i,
    {
        let node = if tree {
            let children = list_children(comments, sorted[i].id, cutoff, asc, fuel);
            CommentNode { comment: sorted[i].clone(), children }
        } else {
            CommentNode { comment: sorted[i].clone(), children: Vec::new() }
        };
        let w = project(&node, authed);
        proof {
            if !tree {
                assert(nodes_match(node.children@, comments@, node.comment.id, cutoff, asc, 0));
            }
            lemma_wire_of_node(w, node, comments@, cutoff, asc, authed, spec_fuel);
        }
        items.push(w);
        i = i + 1;
    }
    PaginationData { total, pages, items }
}

/// Answers a comment listing at the present moment: what `list_comments`
/// yields for some reading of the wall clock.
pub fn get_comments(
    comments: &Vec<Comment>,
    filter: &ListFilter,
    pagination: &Pagination,
    w_claims: &WeekClaims,
) -> (r: PaginationData<Vec<WireComment>>)
    requires
        pagination.per >= 1,
    ensures
        exists|now: i64|
            {
                &&& r.total == spec_listing_base(
                    comments@,
                    *filter,
                    w_claims.spec_is_authed(),
                    now,
                ).len()
                &&& r.pages == spec_pages(r.total as int, pagination.per as int)
                &&& spec_listing_matches(
                    r.items@,
                    comments@,
                    *filter,
                    *pagination,
                    w_claims.spec_is_authed(),
                    now,
                )
            },
{
    let now = crate::clock::now_utc();
    let r = list_comments(comments, filter, pagination, w_claims, now);
    proof {
        assert({
            &&& r.total == spec_listing_base(comments@, *filter, w_claims.spec_is_authed(), now).len()
            &&& r.pages == spec_pages(r.total as int, pagination.per as int)
            &&& spec_listing_matches(
                r.items@,
                comments@,
                *filter,
                *pagination,
                w_claims.spec_is_authed(),
                now,
            )
        });
    }
    r
}

/// The visibility filter alone, as a predicate.
pub open spec fn visible_pred(post_id: Option<i64>, authed: bool, now: i64) -> spec_fn(
    Comment,
) -> bool {
    |c: Comment| spec_visible(c, post_id, authed, now)
}

/// The law of the flat format: its base — what `total` counts and pages are
/// sliced from — holds exactly the comments matching the visibility filter,
/// at any depth, not just top-level ones.
pub proof fn lemma_list_total_counts_all_depths(
    s: Seq<Comment>,
    filter: ListFilter,
    authed: bool,
    now: i64,
)
    requires
        spec_format(filter) is List,
    ensures
        spec_listing_base(s, filter, authed, now) == s.filter(
            visible_pred(filter.post_id, authed, now),
        ),
{
    assert(candidate_pred(filter, authed, now) =~= visible_pred(filter.post_id, authed, now));
}

/// The law of the temporal cutoff: a comment created after `now` is not in
/// an anonymous listing's base (so neither counted nor listed), while the
/// authenticated manager's base keeps it whenever it is in the snapshot and
/// matches the listing's post and format.
pub proof fn lemma_future_comment_excluded(
    s: Seq<Comment>,
    filter: ListFilter,
    now: i64,
    c: Comment,
)
    requires
        c.created > now,
    ensures
        !spec_listing_base(s, filter, false, now).contains(c),
        s.contains(c) && spec_post_matches(c, filter.post_id) && (spec_format(filter) is Tree
            ==> c.parent is None) ==> spec_listing_base(s, filter, true, now).contains(c),
{
    broadcast use vstd::seq_lib::group_filter_ensures;

    let anon = spec_listing_base(s, filter, false, now);
    if anon.contains(c) {
        let i = choose|i: int| 0 <= i < anon.len() && anon[i] == c;
        assert(candidate_pred(filter, false, now)(anon[i]));
    }
    if s.contains(c) && spec_post_matches(c, filter.post_id) && (spec_format(filter) is Tree
        ==> c.parent is None) {
        let i = choose|i: int| 0 <= i < s.len() && s[i] == c;
        assert(candidate_pred(filter, true, now)(s[i]));
        assert(spec_listing_base(s, filter, true, now).contains(s[i]));
    }
}

/// Every listed item renders a comment of the listing base: a comment kept
/// out of the base appears under no item.
pub proof fn lemma_items_drawn_from_base(
    items: Seq<WireComment>,
    s: Seq<Comment>,
    filter: ListFilter,
    p: Pagination,
    authed: bool,
    now: i64,
    j: int,
)
    requires
        spec_listing_matches(items, s, filter, p, authed, now),
        0 <= j < items.len(),
    ensures
        exists|c: Comment|
            #[trigger] spec_listing_base(s, filter, authed, now).contains(c) && items[j].id == c.id,
{
    broadcast use vstd::seq_lib::group_to_multiset_ensures;

    let base = spec_listing_base(s, filter, authed, now);
    let sorted = spec_sort(base, spec_asc(filter));
    let total = base.len() as int;
    let start = spec_page_start(p.page as int, p.per as int, total);
    let end = spec_page_end(start, p.per as int, total);
    crate::tree::lemma_sort_props(base, spec_asc(filter));
    vstd::arithmetic::mul::lemma_mul_nonnegative(p.page as int, p.per as int);
    let c = sorted[start + j];
    assert(sorted.contains(c));
    assert(sorted.to_multiset().count(c) > 0);
    assert(base.contains(c));
    assert(spec_wire_tree(
        items[j],
        c,
        s,
        spec_cutoff(authed, now),
        spec_asc(filter),
        authed,
        spec_item_fuel(s, filter),
    ));
}

} // verus!
