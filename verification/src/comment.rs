//! The comment record: the persisted entity, its closed status and role
//! vocabularies with their wire forms, and the submission payload.

use vstd::prelude::*;

use crate::error::{AppError, ErrorCode};

verus! {

/// The role a submitter was recognized as when the comment was created.
/// Resolved once at creation time and stored, never recomputed on read.
#[derive(Clone, Copy, Debug, PartialEq, Eq, Structural)]
pub enum UserRole {
    Visitor,
    Manager,
}

/// The moderation status of a comment. `Published` is the only status shown
/// to unauthenticated viewers; the authenticated manager sees all four.
#[derive(Clone, Copy, Debug, PartialEq, Eq, Structural)]
pub enum CommentStatus {
    Pending,
    Published,
    Hidden,
    Trashed,
}

impl UserRole {
    /// The string each role is written as on the wire.
    pub open spec fn spec_wire(self) -> Seq<char> {
        match self {
            UserRole::Visitor => "visitor"@,
            UserRole::Manager => "manager"@,
        }
    }

    pub fn as_wire(&self) -> (r: String)
        ensures
            r@ == self.spec_wire(),
    {
        match self {
            UserRole::Visitor => "visitor".to_owned(),
            UserRole::Manager => "manager".to_owned(),
        }
    }

    /// The role a wire string denotes, if any: the vocabulary is closed.
    pub open spec fn spec_from_wire(s: Seq<char>) -> Option<UserRole> {
        if s == "visitor"@ {
            Some(UserRole::Visitor)
        } else if s == "manager"@ {
            Some(UserRole::Manager)
        } else {
            None
        }
    }

    /// Parses a wire string; an unknown value is an `InvalidRequest` error
    /// rather than a silent default.
    pub fn from_wire(s: &String) -> (r: Result<UserRole, AppError>)
        ensures
            r is Ok <==> Self::spec_from_wire(s@) is Some,
            r matches Ok(v) ==> Self::spec_from_wire(s@) == Some(v),
            r matches Err(e) ==> e.code == ErrorCode::InvalidRequest,
    {
        if *s == "visitor".to_owned() {
            Ok(UserRole::Visitor)
        } else if *s == "manager".to_owned() {
            Ok(UserRole::Manager)
        } else {
            Err(AppError::from_code(ErrorCode::InvalidRequest, None))
        }
    }
}

impl Default for UserRole {
    fn default() -> (r: Self)
        ensures
            r == UserRole::Visitor,
    {
        UserRole::Visitor
    }
}

impl CommentStatus {
    /// The string each status is written as on the wire.
    pub open spec fn spec_wire(self) -> Seq<char> {
        match self {
            CommentStatus::Pending => "pending"@,
            CommentStatus::Published => "published"@,
            CommentStatus::Hidden => "hidden"@,
            CommentStatus::Trashed => "trashed"@,
        }
    }

    pub fn as_wire(&self) -> (r: String)
        ensures
            r@ == self.spec_wire(),
    {
        match self {
            CommentStatus::Pending => "pending".to_owned(),
            CommentStatus::Published => "published".to_owned(),
            CommentStatus::Hidden => "hidden".to_owned(),
            CommentStatus::Trashed => "trashed".to_owned(),
        }
    }

    /// The status a wire string denotes, if any: the vocabulary is closed.
    pub open spec fn spec_from_wire(s: Seq<char>) -> Option<CommentStatus> {
        if s == "pending"@ {
            Some(CommentStatus::Pending)
        } else if s == "published"@ {
            Some(CommentStatus::Published)
        } else if s == "hidden"@ {
            Some(CommentStatus::Hidden)
        } else if s == "trashed"@ {
            Some(CommentStatus::Trashed)
        } else {
            None
        }
    }

    /// Parses a wire string; an unknown value is an `InvalidRequest` error
    /// rather than a silent default.
    pub fn from_wire(s: &String) -> (r: Result<CommentStatus, AppError>)
        ensures
            r is Ok <==> Self::spec_from_wire(s@) is Some,
            r matches Ok(v) ==> Self::spec_from_wire(s@) == Some(v),
            r matches Err(e) ==> e.code == ErrorCode::InvalidRequest,
    {
        if *s == "pending".to_owned() {
            Ok(CommentStatus::Pending)
        } else if *s == "published".to_owned() {
            Ok(CommentStatus::Published)
        } else if *s == "hidden".to_owned() {
            Ok(CommentStatus::Hidden)
        } else if *s == "trashed".to_owned() {
            Ok(CommentStatus::Trashed)
        } else {
            Err(AppError::from_code(ErrorCode::InvalidRequest, None))
        }
    }
}

/// The persisted comment entity. Timestamps are Unix seconds; `parent` is
/// `None` for a top-level comment attached directly to a post, or the id of
/// the comment it replies to.
pub struct Comment {
    pub id: i64,
    pub created: i64,
    pub modified: i64,
    pub status: CommentStatus,
    pub nickname: String,
    pub email: String,
    pub site: Option<String>,
    pub content: String,
    pub parent: Option<i64>,
    pub post_id: i64,
    pub role: UserRole,
}

/// Clones an optional string, keeping its value.
pub fn clone_opt_string(o: &Option<String>) -> (r: Option<String>)
    ensures
        r == *o,
{
    match o {
        Some(s) => Some(s.clone()),
        None => None,
    }
}

/// The string a submitter supplied, or the empty string where the field was
/// left out.
pub open spec fn spec_or_empty(o: Option<String>) -> Seq<char> {
    match o {
        Some(s) => s@,
        None => Seq::<char>::empty(),
    }
}

/// Takes the supplied string out of an optional field, defaulting to empty.
pub fn unwrap_or_empty(o: &Option<String>) -> (r: String)
    ensures
        r@ == spec_or_empty(*o),
{
    match o {
        Some(s) => s.clone(),
        None => String::new(),
    }
}

impl Clone for Comment {
    fn clone(&self) -> (r: Self)
        ensures
            r == *self,
    {
        Comment {
            id: self.id,
            created: self.created,
            modified: self.modified,
            status: self.status,
            nickname: self.nickname.clone(),
            email: self.email.clone(),
            site: clone_opt_string(&self.site),
            content: self.content.clone(),
            parent: self.parent,
            post_id: self.post_id,
            role: self.role,
        }
    }
}

/// A comment submission as it arrives from a client: every field optional,
/// to be defaulted or overridden by the creation and update paths.
pub struct CommentPayload {
    pub nickname: Option<String>,
    pub email: Option<String>,
    pub site: Option<String>,
    pub content: Option<String>,
    pub parent: Option<i64>,
    pub post_id: Option<i64>,
    pub status: Option<CommentStatus>,
}

impl Clone for CommentPayload {
    fn clone(&self) -> (r: Self)
        ensures
            r == *self,
    {
        CommentPayload {
            nickname: clone_opt_string(&self.nickname),
            email: clone_opt_string(&self.email),
            site: clone_opt_string(&self.site),
            content: clone_opt_string(&self.content),
            parent: self.parent,
            post_id: self.post_id,
            status: self.status,
        }
    }
}

} // verus!
