//! The authorized projection: renders an assembled comment tree to its wire
//! form. Every field of the record is carried over except `modified`, which
//! only an authenticated viewer is shown; the same rule is applied at every
//! level of the tree, not only at the root.

use vstd::prelude::*;

use crate::comment::{clone_opt_string, CommentStatus, UserRole};
use crate::tree::CommentNode;

verus! {

/// A comment as it is rendered on the wire, children recursively rendered.
/// `modified` is `None` exactly where the viewer was not authenticated and
/// the field is withheld.
pub struct WireComment {
    pub id: i64,
    pub created: i64,
    pub modified: Option<i64>,
    pub status: CommentStatus,
    pub nickname: String,
    pub email: String,
    pub site: Option<String>,
    pub parent: Option<i64>,
    pub children: Vec<WireComment>,
    pub role: UserRole,
}

/// What the projection of a node looks like: each field carried over,
/// `modified` only for an authenticated viewer, and every child projected
/// under the same flag.
pub open spec fn wire_matches(w: WireComment, n: CommentNode, authed: bool) -> bool
    decreases n,
{
    &&& w.id == n.comment.id
    &&& w.created == n.comment.created
    &&& w.modified == (if authed {
        Some(n.comment.modified)
    } else {
        None::<i64>
    })
    &&& w.status == n.comment.status
    &&& w.nickname == n.comment.nickname
    &&& w.email == n.comment.email
    &&& w.site == n.comment.site
    &&& w.parent == n.comment.parent
    &&& w.role == n.comment.role
    &&& w.children@.len() == n.children@.len()
    &&& forall|i: int|
        0 <= i < n.children@.len() ==> wire_matches(
            w.children@[i],
            #[trigger] n.children@[i],
            authed,
        )
}

/// Renders a node and all of its descendants for the given viewer.
pub fn project(n: &CommentNode, authed: bool) -> (w: WireComment)
    ensures
        wire_matches(w, *n, authed),
    decreases *n,
{
    let mut children: Vec<WireComment> = Vec::new();
    let mut i: usize = 0;
    while i < n.children.len()
        invariant
            0 <= i <= n.children@.len(),
            children@.len() == i,
            forall|j: int|
                0 <= j < i ==> wire_matches(children@[j], #[trigger] n.children@[j], authed),
        decreases n.children@.len() - i,
    {
        let w = project(&n.children[i], authed);
        children.push(w);
        i = i + 1;
    }
    WireComment {
        id: n.comment.id,
        created: n.comment.created,
        modified: if authed {
            Some(n.comment.modified)
        } else {
            None
        },
        status: n.comment.status,
        nickname: n.comment.nickname.clone(),
        email: n.comment.email.clone(),
        site: clone_opt_string(&n.comment.site),
        parent: n.comment.parent,
        children,
        role: n.comment.role,
    }
}

/// Whether a rendered tree shows `modified` exactly for an authenticated
/// viewer, at every level.
pub open spec fn spec_modified_shown(w: WireComment, authed: bool) -> bool
    decreases w,
{
    &&& (w.modified is Some <==> authed)
    &&& forall|i: int|
        0 <= i < w.children@.len() ==> spec_modified_shown(#[trigger] w.children@[i], authed)
}

/// The law of the projection: an anonymous viewer's rendering of any comment
/// never carries `modified`, an authenticated viewer's always does, at every
/// level of the tree.
pub proof fn lemma_projection_modified(w: WireComment, n: CommentNode, authed: bool)
    requires
        wire_matches(w, n, authed),
    ensures
        spec_modified_shown(w, authed),
    decreases n,
{
    assert forall|i: int| 0 <= i < w.children@.len() implies spec_modified_shown(
        #[trigger] w.children@[i],
        authed,
    ) by {
        lemma_projection_modified(w.children@[i], n.children@[i], authed);
    }
}

} // verus!
