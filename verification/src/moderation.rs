//! The moderation policy: given a submission and the caller's authentication
//! state, decide the status and role a new comment is stored with.
//!
//! An anonymous submitter is always a `Visitor`; the submission is published
//! at once only when the same email already has a published comment (the
//! repeat-commenter heuristic), and held as `Pending` otherwise. An
//! authenticated submission is published (a reply may carry an explicit
//! status, which is preserved), and its role is `Manager` exactly when the
//! submitted email equals the configured site-owner email.

use vstd::prelude::*;

use crate::auth::WeekClaims;
use crate::comment::{Comment, CommentStatus, UserRole};

verus! {

/// Whether any comment in `s` was submitted under `email` and is published:
/// the repeat-commenter check.
pub open spec fn spec_has_prior_published(s: Seq<Comment>, email: Seq<char>) -> bool {
    exists|i: int|
        #![trigger s[i]]
        0 <= i < s.len() && s[i].status == CommentStatus::Published && s[i].email@ == email
}

/// The role a submission is stored with: `Manager` exactly when the caller is
/// authenticated and the submitted email equals the configured owner email
/// (a case-sensitive comparison); `Visitor` in every other case, also when no
/// owner email is configured.
pub open spec fn spec_role(authed: bool, email: Seq<char>, owner_email: Option<String>) -> UserRole {
    if authed {
        match owner_email {
            Some(owner) => if email == owner@ {
                UserRole::Manager
            } else {
                UserRole::Visitor
            },
            None => UserRole::Visitor,
        }
    } else {
        UserRole::Visitor
    }
}

/// The status of a new top-level comment: authenticated submissions are
/// published unconditionally; an anonymous one is published only for a
/// recognized repeat commenter and held as `Pending` otherwise.
pub open spec fn spec_status_new(authed: bool, has_prior_published: bool) -> CommentStatus {
    if authed || has_prior_published {
        CommentStatus::Published
    } else {
        CommentStatus::Pending
    }
}

/// The status of a reply: as for a new comment, except that an authenticated
/// reply that explicitly carries a status keeps it rather than being forced
/// to `Published`.
pub open spec fn spec_status_reply(
    authed: bool,
    has_prior_published: bool,
    explicit: Option<CommentStatus>,
) -> CommentStatus {
    if authed {
        match explicit {
            Some(status) => status,
            None => CommentStatus::Published,
        }
    } else {
        spec_status_new(false, has_prior_published)
    }
}

/// Scans the stored comments for a published one under the given email.
pub fn has_prior_published(comments: &Vec<Comment>, email: &String) -> (r: bool)
    ensures
        r == spec_has_prior_published(comments@, email@),
{
    let mut i: usize = 0;
    while i < comments.len()
        invariant
            0 <= i <= comments@.len(),
            forall|j: int|
                #![trigger comments@[j]]
                0 <= j < i ==> !(comments@[j].status == CommentStatus::Published
                    && comments@[j].email@ == email@),
        decreases comments@.len() - i,
    {
        if comments[i].status == CommentStatus::Published && comments[i].email == *email {
            return true;
        }
        i = i + 1;
    }
    false
}

/// Resolves the stored role of a submission from the caller's authentication
/// state, the submitted email and the configured site-owner email.
pub fn resolve_role(w_claims: &WeekClaims, email: &String, owner_email: &Option<String>) -> (r:
    UserRole)
    ensures
        r == spec_role(w_claims.spec_is_authed(), email@, *owner_email),
{
    if w_claims.is_authed() {
        match owner_email {
            Some(owner) => if *email == *owner {
                UserRole::Manager
            } else {
                UserRole::Visitor
            },
            None => UserRole::Visitor,
        }
    } else {
        UserRole::Visitor
    }
}

/// Resolves the status a new top-level comment is stored with.
pub fn resolve_status_new(authed: bool, has_prior_published: bool) -> (r: CommentStatus)
    ensures
        r == spec_status_new(authed, has_prior_published),
{
    if authed || has_prior_published {
        CommentStatus::Published
    } else {
        CommentStatus::Pending
    }
}

/// Resolves the status a reply is stored with.
pub fn resolve_status_reply(
    authed: bool,
    has_prior_published: bool,
    explicit: &Option<CommentStatus>,
) -> (r: CommentStatus)
    ensures
        r == spec_status_reply(authed, has_prior_published, *explicit),
{
    if authed {
        match explicit {
            Some(status) => *status,
            None => CommentStatus::Published,
        }
    } else {
        resolve_status_new(false, has_prior_published)
    }
}

} // verus!
