//! The listing service, tree assembly and authorized projection.

use perzine::auth::{Claims, WeekClaims};
use perzine::comment::{Comment, CommentStatus, UserRole};
use perzine::listing::{list_comments, Format, ListFilter, Pagination, PaginationData};
use perzine::projection::WireComment;
use perzine::utils::SqlOrder;

fn anon() -> WeekClaims {
    WeekClaims { claims: None }
}

fn authed() -> WeekClaims {
    WeekClaims {
        claims: Some(Claims {
            email: "owner@example.com".to_owned(),
            nickname: "owner".to_owned(),
            exp: 2_000_000_000,
        }),
    }
}

fn comment(id: i64, post_id: i64, parent: Option<i64>, created: i64, status: CommentStatus) -> Comment {
    Comment {
        id,
        created,
        modified: created + 5,
        status,
        nickname: format!("n{}", id),
        email: format!("e{}@example.com", id),
        site: None,
        content: format!("c{}", id),
        parent,
        post_id,
        role: UserRole::Visitor,
    }
}

fn filter(post_id: i64, format: Format, order: SqlOrder) -> ListFilter {
    ListFilter { post_id: Some(post_id), format: Some(format), order: Some(order) }
}

fn page(per: usize) -> Pagination {
    Pagination { page: 0, per }
}

fn listing(
    comments: &Vec<Comment>,
    f: &ListFilter,
    p: &Pagination,
    w: &WeekClaims,
    now: i64,
) -> PaginationData<Vec<WireComment>> {
    list_comments(comments, f, p, w, now)
}

#[test]
fn tree_children_are_ordered_ascending_and_descending() {
    let t1 = 100;
    let t2 = 200;
    let comments = vec![
        comment(1, 9, None, 50, CommentStatus::Published),
        comment(2, 9, Some(1), t1, CommentStatus::Published),
        comment(3, 9, Some(1), t2, CommentStatus::Published),
    ];
    let asc = listing(&comments, &filter(9, Format::Tree, SqlOrder::Asc), &page(10), &anon(), 1000);
    assert_eq!(asc.items.len(), 1);
    let kids: Vec<i64> = asc.items[0].children.iter().map(|w| w.id).collect();
    assert_eq!(kids, vec![2, 3]);

    let desc = listing(&comments, &filter(9, Format::Tree, SqlOrder::Desc), &page(10), &anon(), 1000);
    let kids: Vec<i64> = desc.items[0].children.iter().map(|w| w.id).collect();
    assert_eq!(kids, vec![3, 2]);
}

#[test]
fn list_format_counts_all_depths() {
    let comments = vec![
        comment(1, 9, None, 100, CommentStatus::Published),
        comment(2, 9, Some(1), 200, CommentStatus::Published),
        comment(3, 9, Some(2), 300, CommentStatus::Published),
        comment(4, 9, None, 400, CommentStatus::Pending),
    ];
    let flat = listing(&comments, &filter(9, Format::List, SqlOrder::Desc), &page(10), &anon(), 1000);
    // every published comment at any depth, not just top-level ones
    assert_eq!(flat.total, 3);
    assert_eq!(flat.items.len(), 3);
    assert!(flat.items.iter().all(|w| w.children.is_empty()));

    let tree = listing(&comments, &filter(9, Format::Tree, SqlOrder::Desc), &page(10), &anon(), 1000);
    assert_eq!(tree.total, 1);
}

#[test]
fn projection_withholds_modified_from_anonymous_at_every_level() {
    let comments = vec![
        comment(1, 9, None, 100, CommentStatus::Published),
        comment(2, 9, Some(1), 200, CommentStatus::Published),
        comment(3, 9, Some(2), 300, CommentStatus::Published),
    ];
    let f = filter(9, Format::Tree, SqlOrder::Asc);
    let anon_listing = listing(&comments, &f, &page(10), &anon(), 1000);
    let root = &anon_listing.items[0];
    assert_eq!(root.modified, None);
    assert_eq!(root.children[0].modified, None);
    assert_eq!(root.children[0].children[0].modified, None);

    let authed_listing = listing(&comments, &f, &page(10), &authed(), 1000);
    let root = &authed_listing.items[0];
    assert_eq!(root.modified, Some(105));
    assert_eq!(root.children[0].modified, Some(205));
    assert_eq!(root.children[0].children[0].modified, Some(305));
}

#[test]
fn projection_carries_every_public_field() {
    let mut c = comment(1, 9, None, 100, CommentStatus::Published);
    c.site = Some("https://example.com".to_owned());
    c.role = UserRole::Manager;
    let comments = vec![c];
    let r = listing(&comments, &filter(9, Format::Tree, SqlOrder::Desc), &page(10), &anon(), 1000);
    let w = &r.items[0];
    assert_eq!(w.id, 1);
    assert_eq!(w.created, 100);
    assert_eq!(w.status, CommentStatus::Published);
    assert_eq!(w.nickname, "n1");
    assert_eq!(w.email, "e1@example.com");
    assert_eq!(w.site.as_deref(), Some("https://example.com"));
    assert_eq!(w.parent, None);
    assert_eq!(w.role, UserRole::Manager);
}

#[test]
fn future_comment_hidden_from_anonymous_but_shown_to_manager() {
    let comments = vec![
        comment(1, 9, None, 100, CommentStatus::Published),
        comment(2, 9, None, 5000, CommentStatus::Published),
    ];
    let f = filter(9, Format::Tree, SqlOrder::Desc);
    let now = 1000;
    let anon_listing = listing(&comments, &f, &page(10), &anon(), now);
    assert_eq!(anon_listing.total, 1);
    assert!(anon_listing.items.iter().all(|w| w.id != 2));

    let authed_listing = listing(&comments, &f, &page(10), &authed(), now);
    assert_eq!(authed_listing.total, 2);
    assert!(authed_listing.items.iter().any(|w| w.id == 2));
}

#[test]
fn future_reply_hidden_from_anonymous_subtree() {
    let comments = vec![
        comment(1, 9, None, 100, CommentStatus::Published),
        comment(2, 9, Some(1), 5000, CommentStatus::Published),
    ];
    let f = filter(9, Format::Tree, SqlOrder::Desc);
    let anon_listing = listing(&comments, &f, &page(10), &anon(), 1000);
    assert!(anon_listing.items[0].children.is_empty());
    let authed_listing = listing(&comments, &f, &page(10), &authed(), 1000);
    assert_eq!(authed_listing.items[0].children.len(), 1);
}

#[test]
fn example_post_with_pending_top_and_nested_reply() {
    // post 42: A (top, published, T), B (reply to A, published, T+1),
    // C (top, pending, T+2)
    let t = 100;
    let comments = vec![
        comment(1, 42, None, t, CommentStatus::Published),
        comment(2, 42, Some(1), t + 1, CommentStatus::Published),
        comment(3, 42, None, t + 2, CommentStatus::Pending),
    ];
    let f = ListFilter { post_id: Some(42), format: None, order: None };
    let now = 1000;

    let anon_listing = listing(&comments, &f, &page(10), &anon(), now);
    assert_eq!(anon_listing.total, 1);
    assert_eq!(anon_listing.items.len(), 1);
    assert_eq!(anon_listing.items[0].id, 1);
    assert_eq!(anon_listing.items[0].children.len(), 1);
    assert_eq!(anon_listing.items[0].children[0].id, 2);

    let authed_listing = listing(&comments, &f, &page(10), &authed(), now);
    assert_eq!(authed_listing.total, 2);
    let ids: Vec<i64> = authed_listing.items.iter().map(|w| w.id).collect();
    // default order is newest first
    assert_eq!(ids, vec![3, 1]);
    assert_eq!(authed_listing.items[1].children.len(), 1);
    assert_eq!(authed_listing.items[1].children[0].id, 2);
}

#[test]
fn other_posts_comments_are_not_listed() {
    let comments = vec![
        comment(1, 9, None, 100, CommentStatus::Published),
        comment(2, 8, None, 200, CommentStatus::Published),
    ];
    let r = listing(&comments, &filter(9, Format::List, SqlOrder::Desc), &page(10), &anon(), 1000);
    assert_eq!(r.total, 1);
    assert_eq!(r.items[0].id, 1);
}

#[test]
fn no_post_filter_lists_every_post() {
    let comments = vec![
        comment(1, 9, None, 100, CommentStatus::Published),
        comment(2, 8, None, 200, CommentStatus::Published),
    ];
    let f = ListFilter { post_id: None, format: Some(Format::List), order: None };
    let r = listing(&comments, &f, &page(10), &anon(), 1000);
    assert_eq!(r.total, 2);
}

#[test]
fn pagination_slices_and_counts_pages() {
    let mut comments = Vec::new();
    for i in 0..21 {
        comments.push(comment(i + 1, 9, None, 1000 + i, CommentStatus::Published));
    }
    let f = filter(9, Format::List, SqlOrder::Asc);
    let first = listing(&comments, &f, &Pagination { page: 0, per: 10 }, &anon(), 5000);
    assert_eq!(first.total, 21);
    assert_eq!(first.pages, 3);
    assert_eq!(first.items.len(), 10);
    assert_eq!(first.items[0].id, 1);

    let last = listing(&comments, &f, &Pagination { page: 2, per: 10 }, &anon(), 5000);
    assert_eq!(last.items.len(), 1);
    assert_eq!(last.items[0].id, 21);

    let beyond = listing(&comments, &f, &Pagination { page: 7, per: 10 }, &anon(), 5000);
    assert_eq!(beyond.items.len(), 0);
    assert_eq!(beyond.total, 21);
    assert_eq!(beyond.pages, 3);
}

#[test]
fn ties_in_created_are_broken_by_id() {
    let comments = vec![
        comment(2, 9, None, 100, CommentStatus::Published),
        comment(1, 9, None, 100, CommentStatus::Published),
    ];
    let asc = listing(&comments, &filter(9, Format::List, SqlOrder::Asc), &page(10), &anon(), 1000);
    let ids: Vec<i64> = asc.items.iter().map(|w| w.id).collect();
    assert_eq!(ids, vec![1, 2]);
    let desc = listing(&comments, &filter(9, Format::List, SqlOrder::Desc), &page(10), &anon(), 1000);
    let ids: Vec<i64> = desc.items.iter().map(|w| w.id).collect();
    assert_eq!(ids, vec![2, 1]);
}

#[test]
fn get_comments_answers_for_the_manager_regardless_of_clock() {
    let comments = vec![
        comment(1, 9, None, 100, CommentStatus::Hidden),
        comment(2, 9, Some(1), i64::MAX - 10, CommentStatus::Published),
    ];
    let f = filter(9, Format::Tree, SqlOrder::Desc);
    let r = perzine::listing::get_comments(&comments, &f, &page(10), &authed());
    // the manager's view has no temporal cutoff: the far-future reply shows
    assert_eq!(r.total, 1);
    assert_eq!(r.items[0].id, 1);
    assert_eq!(r.items[0].children.len(), 1);
    assert_eq!(r.items[0].children[0].id, 2);
}

#[test]
fn pagination_data_new_keeps_its_fields() {
    let d = PaginationData::new(vec![1u32, 2], 17, 4);
    assert_eq!(d.total, 17);
    assert_eq!(d.pages, 4);
    assert_eq!(d.items, vec![1, 2]);
}
