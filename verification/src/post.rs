//! Post listing helpers: the post status vocabulary and the column a listing
//! may be ordered by, resolved against the viewer's authentication.

use vstd::prelude::*;

verus! {

/// The publication status of a post.
#[allow(non_camel_case_types)]
#[derive(Clone, Copy, Debug, PartialEq, Eq, Structural)]
pub enum Status {
    PUBLISHED,
    UNPUBLISHED,
    HIDDEN,
}

impl Default for Status {
    fn default() -> (r: Self)
        ensures
            r == Status::PUBLISHED,
    {
        Status::PUBLISHED
    }
}

/// A column of the post table that a listing can be ordered by.
#[derive(Clone, Copy, Debug, PartialEq, Eq, Structural)]
pub enum PostColumn {
    Created,
    Modified,
    Published,
}

/// The ordering key a post listing asks for.
#[derive(Clone, Copy, Debug, PartialEq, Eq, Structural)]
pub enum OrderKey {
    Created,
    Modified,
    Published,
}

impl Default for OrderKey {
    fn default() -> (r: Self)
        ensures
            r == OrderKey::Published,
    {
        OrderKey::Published
    }
}

impl OrderKey {
    /// The column each key orders by: an anonymous viewer asking for
    /// creation order is given publication order, the only time they can see.
    pub open spec fn spec_column(self, authed: bool) -> PostColumn {
        match self {
            OrderKey::Published => PostColumn::Published,
            OrderKey::Modified => PostColumn::Modified,
            OrderKey::Created => if authed {
                PostColumn::Created
            } else {
                PostColumn::Published
            },
        }
    }

    pub fn column(&self, authed: bool) -> (r: PostColumn)
        ensures
            r == self.spec_column(authed),
    {
        match self {
            OrderKey::Published => PostColumn::Published,
            OrderKey::Modified => PostColumn::Modified,
            OrderKey::Created => {
                if authed {
                    PostColumn::Created
                } else {
                    PostColumn::Published
                }
            },
        }
    }
}

} // verus!
