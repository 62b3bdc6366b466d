//! An in-memory comment store with the creation, reply and update operations
//! of the comment subsystem. The store models the persistence collaborator:
//! ids are unique and assigned monotonically, and each operation performs the
//! one moderation read that precedes its write.

use vstd::prelude::*;

use crate::auth::WeekClaims;
use crate::comment::{
    clone_opt_string, spec_or_empty, unwrap_or_empty, Comment, CommentPayload,
};
use crate::error::{AppError, ErrorCode};
use crate::moderation::{
    has_prior_published, resolve_role, resolve_status_new, resolve_status_reply,
    spec_has_prior_published, spec_role, spec_status_new, spec_status_reply,
};

verus! {

/// Whether some stored comment has the given id.
pub open spec fn spec_contains_id(s: Seq<Comment>, id: i64) -> bool {
    exists|i: int| 0 <= i < s.len() && #[trigger] s[i].id == id
}

/// The stored comment with the given id, where there is one.
pub open spec fn spec_find(s: Seq<Comment>, id: i64) -> Option<Comment> {
    if spec_contains_id(s, id) {
        Some(s[choose|i: int| 0 <= i < s.len() && #[trigger] s[i].id == id])
    } else {
        None
    }
}

/// A comment equal to `c` except for the fields the patch sets, with
/// `modified` forced to the patch time. `id`, `created` and `role` can never
/// be patched.
pub open spec fn spec_patched(c: Comment, p: CommentPayload, now: i64) -> Comment {
    Comment {
        id: c.id,
        created: c.created,
        modified: now,
        status: match p.status {
            Some(status) => status,
            None => c.status,
        },
        nickname: match p.nickname {
            Some(nickname) => nickname,
            None => c.nickname,
        },
        email: match p.email {
            Some(email) => email,
            None => c.email,
        },
        site: match p.site {
            Some(site) => Some(site),
            None => c.site,
        },
        content: match p.content {
            Some(content) => content,
            None => c.content,
        },
        parent: match p.parent {
            Some(parent) => Some(parent),
            None => c.parent,
        },
        post_id: match p.post_id {
            Some(post_id) => post_id,
            None => c.post_id,
        },
        role: c.role,
    }
}

/// The comment store: the persisted rows and the next id to assign.
pub struct CommentStore {
    pub comments: Vec<Comment>,
    pub next_id: i64,
}

impl CommentStore {
    /// Well-formedness: ids are unique, and every assigned id is below the
    /// next one.
    pub open spec fn wf(self) -> bool {
        &&& forall|i: int, j: int|
            0 <= i < j < self.comments@.len() ==> #[trigger] self.comments@[i].id
                != #[trigger] self.comments@[j].id
        &&& forall|i: int|
            0 <= i < self.comments@.len() ==> #[trigger] self.comments@[i].id < self.next_id
    }

    /// An empty store; ids start at 1.
    pub fn new() -> (r: Self)
        ensures
            r.wf(),
            r.comments@.len() == 0,
            r.next_id == 1,
    {
        CommentStore { comments: Vec::new(), next_id: 1 }
    }

    /// Looks a comment up by id; with a well-formed store the result is the
    /// one stored comment carrying that id.
    pub fn find_by_id(&self, id: i64) -> (r: Option<Comment>)
        requires
            self.wf(),
        ensures
            r is Some <==> spec_contains_id(self.comments@, id),
            r == spec_find(self.comments@, id),
            r matches Some(c) ==> c.id == id && self.comments@.contains(c),
    {
        let mut i: usize = 0;
        while i < self.comments.len()
            invariant
                self.wf(),
                0 <= i <= self.comments@.len(),
                forall|j: int| 0 <= j < i ==> #[trigger] self.comments@[j].id != id,
            decreases self.comments@.len() - i,
        {
            if self.comments[i].id == id {
                let c = self.comments[i].clone();
                proof {
                    let k = choose|k: int|
                        0 <= k < self.comments@.len() && #[trigger] self.comments@[k].id == id;
                    assert(self.comments@[k] == self.comments@[i as int]);
                }
                return Some(c);
            }
            i = i + 1;
        }
        None
    }

    /// Appends a freshly built comment, assigning it the next id.
    fn insert(&mut self, c: Comment) -> (r: Comment)
        requires
            old(self).wf(),
            old(self).next_id < i64::MAX,
            c.id == old(self).next_id,
        ensures
            final(self).wf(),
            final(self).next_id == old(self).next_id + 1,
            final(self).comments@ == old(self).comments@.push(c),
            r == c,
    {
        let r = c.clone();
        self.comments.push(c);
        self.next_id = self.next_id + 1;
        r
    }

    /// Creates a top-level comment for `post_id` from a submission, deciding
    /// its status and role by the moderation policy, and stores it. `now` is
    /// the insertion timestamp the storage layer stamps rows with.
    pub fn create_comment(
        &mut self,
        w_claims: &WeekClaims,
        payload: &CommentPayload,
        post_id: i64,
        owner_email: &Option<String>,
        now: i64,
    ) -> (r: Comment)
        requires
            old(self).wf(),
            old(self).next_id < i64::MAX,
        ensures
            final(self).wf(),
            final(self).comments@ == old(self).comments@.push(r),
            final(self).next_id == old(self).next_id + 1,
            r.id == old(self).next_id,
            r.created == now,
            r.modified == now,
            r.post_id == post_id,
            r.parent == payload.parent,
            r.nickname@ == spec_or_empty(payload.nickname),
            r.email@ == spec_or_empty(payload.email),
            r.site == payload.site,
            r.content@ == spec_or_empty(payload.content),
            r.role == spec_role(
                w_claims.spec_is_authed(),
                spec_or_empty(payload.email),
                *owner_email,
            ),
            r.status == spec_status_new(
                w_claims.spec_is_authed(),
                spec_has_prior_published(old(self).comments@, spec_or_empty(payload.email)),
            ),
    {
        let email = unwrap_or_empty(&payload.email);
        let authed = w_claims.is_authed();
        let role = resolve_role(w_claims, &email, owner_email);
        let prior = has_prior_published(&self.comments, &email);
        let status = resolve_status_new(authed, prior);
        let c = Comment {
            id: self.next_id,
            created: now,
            modified: now,
            status,
            nickname: unwrap_or_empty(&payload.nickname),
            email,
            site: clone_opt_string(&payload.site),
            content: unwrap_or_empty(&payload.content),
            parent: payload.parent,
            post_id,
            role,
        };
        self.insert(c)
    }

    /// Creates a reply to the comment with id `id`. When no such comment is
    /// stored the operation fails with `NotFound` and the store is unchanged;
    /// otherwise the reply inherits the parent's `post_id`, its status and
    /// role are decided by the moderation policy (an authenticated reply that
    /// explicitly carries a status keeps it), and it is stored.
    pub fn reply_comment(
        &mut self,
        w_claims: &WeekClaims,
        id: i64,
        payload: &CommentPayload,
        owner_email: &Option<String>,
        now: i64,
    ) -> (r: Result<Comment, AppError>)
        requires
            old(self).wf(),
            old(self).next_id < i64::MAX,
        ensures
            final(self).wf(),
            r is Ok <==> spec_contains_id(old(self).comments@, id),
            r matches Err(e) ==> *final(self) == *old(self) && e.code == ErrorCode::NotFound && (
            e.msg matches Some(m) && m@ == "the reply target does not exist."@),
            r matches Ok(c) ==> {
                &&& final(self).comments@ == old(self).comments@.push(c)
                &&& final(self).next_id == old(self).next_id + 1
                &&& c.id == old(self).next_id
                &&& c.created == now
                &&& c.modified == now
                &&& c.parent == Some(id)
                &&& c.post_id == spec_find(old(self).comments@, id).unwrap().post_id
                &&& c.nickname@ == spec_or_empty(payload.nickname)
                &&& c.email@ == spec_or_empty(payload.email)
                &&& c.site == payload.site
                &&& c.content@ == spec_or_empty(payload.content)
                &&& c.role == spec_role(
                    w_claims.spec_is_authed(),
                    spec_or_empty(payload.email),
                    *owner_email,
                )
                &&& c.status == spec_status_reply(
                    w_claims.spec_is_authed(),
                    spec_has_prior_published(old(self).comments@, spec_or_empty(payload.email)),
                    payload.status,
                )
            },
    {
        let parent = match self.find_by_id(id) {
            Some(parent) => parent,
            None => {
                return Err(AppError::from_code(
                    ErrorCode::NotFound,
                    Some("the reply target does not exist.".to_owned()),
                ));
            },
        };
        let email = unwrap_or_empty(&payload.email);
        let authed = w_claims.is_authed();
        let role = resolve_role(w_claims, &email, owner_email);
        let prior = has_prior_published(&self.comments, &email);
        let status = resolve_status_reply(authed, prior, &payload.status);
        let c = Comment {
            id: self.next_id,
            created: now,
            modified: now,
            status,
            nickname: unwrap_or_empty(&payload.nickname),
            email,
            site: clone_opt_string(&payload.site),
            content: unwrap_or_empty(&payload.content),
            parent: Some(id),
            post_id: parent.post_id,
            role,
        };
        Ok(self.insert(c))
    }

    /// Applies a manager's free-form patch to the comment with id `id`,
    /// forcing `modified` to the edit time. When no such comment is stored
    /// the operation fails with `NotFound` and the store is unchanged.
    pub fn update_comment_at(&mut self, id: i64, patch: &CommentPayload, now: i64) -> (r: Result<
        Comment,
        AppError,
    >)
        requires
            old(self).wf(),
        ensures
            final(self).wf(),
            r is Ok <==> spec_contains_id(old(self).comments@, id),
            r matches Err(e) ==> *final(self) == *old(self) && e.code == ErrorCode::NotFound,
            r matches Ok(c) ==> {
                &&& c == spec_patched(spec_find(old(self).comments@, id).unwrap(), *patch, now)
                &&& exists|i: int|
                    0 <= i < old(self).comments@.len() && #[trigger] old(self).comments@[i].id
                        == id && final(self).comments@ == old(self).comments@.update(i, c)
                &&& final(self).next_id == old(self).next_id
            },
    {
        let mut i: usize = 0;
        while i < self.comments.len()
            invariant
                old(self) == self,
                self.wf(),
                0 <= i <= self.comments@.len(),
                forall|j: int| 0 <= j < i ==> #[trigger] self.comments@[j].id != id,
            decreases self.comments@.len() - i,
        {
            if self.comments[i].id == id {
                let c = apply_patch(&self.comments[i], patch, now);
                proof {
                    let k = choose|k: int|
                        0 <= k < self.comments@.len() && #[trigger] self.comments@[k].id == id;
                    assert(self.comments@[k] == self.comments@[i as int]);
                }
                let r = c.clone();
                self.comments.set(i, c);
                return Ok(r);
            }
            i = i + 1;
        }
        Err(AppError::from_code(ErrorCode::NotFound, None))
    }

    /// Applies a manager's patch with `modified` stamped from the wall
    /// clock: what `update_comment_at` does for some reading of it.
    pub fn update_comment(&mut self, id: i64, patch: &CommentPayload) -> (r: Result<
        Comment,
        AppError,
    >)
        requires
            old(self).wf(),
        ensures
            final(self).wf(),
            r is Ok <==> spec_contains_id(old(self).comments@, id),
            r matches Err(e) ==> *final(self) == *old(self) && e.code == ErrorCode::NotFound,
            r matches Ok(c) ==> exists|now: i64|
                {
                    &&& c == spec_patched(spec_find(old(self).comments@, id).unwrap(), *patch, now)
                    &&& exists|i: int|
                        0 <= i < old(self).comments@.len() && #[trigger] old(self).comments@[i].id
                            == id && final(self).comments@ == old(self).comments@.update(i, c)
                    &&& final(self).next_id == old(self).next_id
                },
    {
        let now = crate::clock::now_utc();
        let r = self.update_comment_at(id, patch, now);
        proof {
            if r is Ok {
                let c = r.unwrap();
                assert({
                    &&& c == spec_patched(spec_find(old(self).comments@, id).unwrap(), *patch, now)
                    &&& exists|i: int|
                        0 <= i < old(self).comments@.len() && #[trigger] old(self).comments@[i].id
                            == id && final(self).comments@ == old(self).comments@.update(i, c)
                    &&& final(self).next_id == old(self).next_id
                });
            }
        }
        r
    }
}

/// Builds the patched copy of a comment: each field the patch sets replaces
/// the stored one, `modified` becomes the edit time, and `id`, `created` and
/// `role` are kept.
fn apply_patch(c: &Comment, p: &CommentPayload, now: i64) -> (r: Comment)
    ensures
        r == spec_patched(*c, *p, now),
{
    Comment {
        id: c.id,
        created: c.created,
        modified: now,
        status: match &p.status {
            Some(status) => *status,
            None => c.status,
        },
        nickname: match &p.nickname {
            Some(nickname) => nickname.clone(),
            None => c.nickname.clone(),
        },
        email: match &p.email {
            Some(email) => email.clone(),
            None => c.email.clone(),
        },
        site: match &p.site {
            Some(site) => Some(site.clone()),
            None => clone_opt_string(&c.site),
        },
        content: match &p.content {
            Some(content) => content.clone(),
            None => c.content.clone(),
        },
        parent: match p.parent {
            Some(parent) => Some(parent),
            None => c.parent,
        },
        post_id: match p.post_id {
            Some(post_id) => post_id,
            None => c.post_id,
        },
        role: c.role,
    }
}

} // verus!
