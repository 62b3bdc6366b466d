//! The moderation policy and the store operations: status and role of new
//! comments and replies, and the reply-target check.

use perzine::auth::{Claims, WeekClaims};
use perzine::comment::{Comment, CommentPayload, CommentStatus, UserRole};
use perzine::error::ErrorCode;
use perzine::store::CommentStore;

fn anon() -> WeekClaims {
    WeekClaims { claims: None }
}

fn authed() -> WeekClaims {
    WeekClaims {
        claims: Some(Claims {
            email: "owner@example.com".to_owned(),
            nickname: "owner".to_owned(),
            exp: 2_000_000_000,
        }),
    }
}

fn payload_from(email: &str) -> CommentPayload {
    CommentPayload {
        nickname: Some("nick".to_owned()),
        email: Some(email.to_owned()),
        site: None,
        content: Some("hello".to_owned()),
        parent: None,
        post_id: None,
        status: None,
    }
}

fn stored(id: i64, email: &str, status: CommentStatus) -> Comment {
    Comment {
        id,
        created: 100,
        modified: 100,
        status,
        nickname: "nick".to_owned(),
        email: email.to_owned(),
        site: None,
        content: "older".to_owned(),
        parent: None,
        post_id: 1,
        role: UserRole::Visitor,
    }
}

fn owner_option() -> Option<String> {
    Some("owner@example.com".to_owned())
}

#[test]
fn anonymous_first_submission_is_pending_visitor() {
    let mut store = CommentStore::new();
    let c = store.create_comment(&anon(), &payload_from("new@example.com"), 7, &owner_option(), 500);
    assert_eq!(c.status, CommentStatus::Pending);
    assert_eq!(c.role, UserRole::Visitor);
    assert_eq!(c.post_id, 7);
    assert_eq!(c.created, 500);
    assert_eq!(c.id, 1);
    assert_eq!(store.comments.len(), 1);
}

#[test]
fn anonymous_repeat_commenter_is_published() {
    let mut store = CommentStore {
        comments: vec![stored(1, "known@example.com", CommentStatus::Published)],
        next_id: 2,
    };
    let c = store.create_comment(&anon(), &payload_from("known@example.com"), 7, &owner_option(), 500);
    assert_eq!(c.status, CommentStatus::Published);
    assert_eq!(c.role, UserRole::Visitor);
}

#[test]
fn anonymous_with_only_pending_history_stays_pending() {
    let mut store = CommentStore {
        comments: vec![
            stored(1, "known@example.com", CommentStatus::Pending),
            stored(2, "known@example.com", CommentStatus::Hidden),
        ],
        next_id: 3,
    };
    let c = store.create_comment(&anon(), &payload_from("known@example.com"), 7, &owner_option(), 500);
    assert_eq!(c.status, CommentStatus::Pending);
}

#[test]
fn anonymous_prior_under_other_email_does_not_count() {
    let mut store = CommentStore {
        comments: vec![stored(1, "other@example.com", CommentStatus::Published)],
        next_id: 2,
    };
    let c = store.create_comment(&anon(), &payload_from("new@example.com"), 7, &owner_option(), 500);
    assert_eq!(c.status, CommentStatus::Pending);
}

#[test]
fn authenticated_owner_email_is_manager_published() {
    let mut store = CommentStore::new();
    let c = store.create_comment(
        &authed(),
        &payload_from("owner@example.com"),
        7,
        &owner_option(),
        500,
    );
    assert_eq!(c.status, CommentStatus::Published);
    assert_eq!(c.role, UserRole::Manager);
}

#[test]
fn authenticated_other_email_is_visitor_published() {
    let mut store = CommentStore::new();
    let c = store.create_comment(
        &authed(),
        &payload_from("guest@example.com"),
        7,
        &owner_option(),
        500,
    );
    assert_eq!(c.status, CommentStatus::Published);
    assert_eq!(c.role, UserRole::Visitor);
}

#[test]
fn owner_email_comparison_is_case_sensitive() {
    let mut store = CommentStore::new();
    let c = store.create_comment(
        &authed(),
        &payload_from("Owner@example.com"),
        7,
        &owner_option(),
        500,
    );
    assert_eq!(c.role, UserRole::Visitor);
}

#[test]
fn authenticated_without_configured_owner_is_visitor() {
    let mut store = CommentStore::new();
    let c = store.create_comment(&authed(), &payload_from("owner@example.com"), 7, &None, 500);
    assert_eq!(c.role, UserRole::Visitor);
    assert_eq!(c.status, CommentStatus::Published);
}

#[test]
fn reply_to_missing_comment_is_not_found_and_inserts_nothing() {
    let mut store = CommentStore {
        comments: vec![stored(1, "a@example.com", CommentStatus::Published)],
        next_id: 2,
    };
    let before = store.comments.len();
    let r = store.reply_comment(&anon(), 99, &payload_from("new@example.com"), &owner_option(), 500);
    let e = r.err().expect("reply to a missing id must fail");
    assert_eq!(e.code, ErrorCode::NotFound);
    assert_eq!(e.msg.as_deref(), Some("the reply target does not exist."));
    assert_eq!(store.comments.len(), before);
    assert_eq!(store.next_id, 2);
}

#[test]
fn reply_inherits_post_and_parent() {
    let mut store = CommentStore {
        comments: vec![Comment { post_id: 42, ..stored(5, "a@example.com", CommentStatus::Published) }],
        next_id: 6,
    };
    let c = store
        .reply_comment(&anon(), 5, &payload_from("a@example.com"), &owner_option(), 600)
        .expect("reply to an existing id succeeds");
    assert_eq!(c.parent, Some(5));
    assert_eq!(c.post_id, 42);
    // the replier's own published history approves the reply at once
    assert_eq!(c.status, CommentStatus::Published);
    assert_eq!(store.comments.len(), 2);
}

#[test]
fn authenticated_reply_keeps_explicit_status() {
    let mut store = CommentStore {
        comments: vec![stored(1, "a@example.com", CommentStatus::Published)],
        next_id: 2,
    };
    let mut payload = payload_from("owner@example.com");
    payload.status = Some(CommentStatus::Hidden);
    let c = store
        .reply_comment(&authed(), 1, &payload, &owner_option(), 600)
        .expect("reply succeeds");
    assert_eq!(c.status, CommentStatus::Hidden);
    assert_eq!(c.role, UserRole::Manager);
}

#[test]
fn authenticated_reply_without_status_is_published() {
    let mut store = CommentStore {
        comments: vec![stored(1, "a@example.com", CommentStatus::Published)],
        next_id: 2,
    };
    let c = store
        .reply_comment(&authed(), 1, &payload_from("guest@example.com"), &owner_option(), 600)
        .expect("reply succeeds");
    assert_eq!(c.status, CommentStatus::Published);
    assert_eq!(c.role, UserRole::Visitor);
}

#[test]
fn anonymous_reply_explicit_status_is_overridden() {
    let mut store = CommentStore {
        comments: vec![stored(1, "a@example.com", CommentStatus::Published)],
        next_id: 2,
    };
    let mut payload = payload_from("new@example.com");
    payload.status = Some(CommentStatus::Published);
    let c = store
        .reply_comment(&anon(), 1, &payload, &owner_option(), 600)
        .expect("reply succeeds");
    assert_eq!(c.status, CommentStatus::Pending);
}

#[test]
fn update_patches_fields_and_stamps_modified() {
    let mut store = CommentStore {
        comments: vec![stored(3, "a@example.com", CommentStatus::Pending)],
        next_id: 4,
    };
    let patch = CommentPayload {
        nickname: None,
        email: None,
        site: None,
        content: Some("edited".to_owned()),
        parent: None,
        post_id: None,
        status: Some(CommentStatus::Published),
    };
    let c = store.update_comment_at(3, &patch, 900).expect("update succeeds");
    assert_eq!(c.id, 3);
    assert_eq!(c.status, CommentStatus::Published);
    assert_eq!(c.content, "edited");
    assert_eq!(c.nickname, "nick");
    assert_eq!(c.created, 100);
    assert_eq!(c.modified, 900);
    assert_eq!(store.comments.len(), 1);
    assert_eq!(store.comments[0].modified, 900);
}

#[test]
fn update_of_missing_comment_is_not_found() {
    let mut store = CommentStore::new();
    let patch = CommentPayload {
        nickname: None,
        email: None,
        site: None,
        content: None,
        parent: None,
        post_id: None,
        status: None,
    };
    let e = store.update_comment_at(9, &patch, 900).err().expect("missing id must fail");
    assert_eq!(e.code, ErrorCode::NotFound);
    assert_eq!(store.comments.len(), 0);
}

#[test]
fn update_with_wall_clock_stamps_a_recent_time() {
    let mut store = CommentStore {
        comments: vec![stored(3, "a@example.com", CommentStatus::Pending)],
        next_id: 4,
    };
    let patch = CommentPayload {
        nickname: None,
        email: None,
        site: None,
        content: None,
        parent: None,
        post_id: None,
        status: None,
    };
    let before = chrono::Utc::now().timestamp();
    let c = store.update_comment(3, &patch).expect("update succeeds");
    let after = chrono::Utc::now().timestamp();
    assert!(before <= c.modified && c.modified <= after);
}

#[test]
fn missing_payload_fields_default_to_empty() {
    let mut store = CommentStore::new();
    let payload = CommentPayload {
        nickname: None,
        email: None,
        site: None,
        content: None,
        parent: None,
        post_id: None,
        status: None,
    };
    let c = store.create_comment(&anon(), &payload, 7, &None, 500);
    assert_eq!(c.nickname, "");
    assert_eq!(c.email, "");
    assert_eq!(c.content, "");
    assert_eq!(c.site, None);
    assert_eq!(c.parent, None);
}
