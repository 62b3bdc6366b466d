//! The sort direction a listing can ask for.

use vstd::prelude::*;

use crate::error::{AppError, ErrorCode};

verus! {

/// The direction comments are ordered in: by creation time, ascending or
/// descending.
#[derive(Clone, Copy, Debug, PartialEq, Eq, Structural)]
pub enum SqlOrder {
    Asc,
    Desc,
}

impl Default for SqlOrder {
    fn default() -> (r: Self)
        ensures
            r == SqlOrder::Desc,
    {
        SqlOrder::Desc
    }
}

impl SqlOrder {
    /// The string each direction is written as on the wire.
    pub open spec fn spec_wire(self) -> Seq<char> {
        match self {
            SqlOrder::Asc => "asc"@,
            SqlOrder::Desc => "desc"@,
        }
    }

    pub fn as_wire(&self) -> (r: String)
        ensures
            r@ == self.spec_wire(),
    {
        match self {
            SqlOrder::Asc => "asc".to_owned(),
            SqlOrder::Desc => "desc".to_owned(),
        }
    }

    /// The direction a wire string denotes, if any: the vocabulary is closed.
    pub open spec fn spec_from_wire(s: Seq<char>) -> Option<SqlOrder> {
        if s == "asc"@ {
            Some(SqlOrder::Asc)
        } else if s == "desc"@ {
            Some(SqlOrder::Desc)
        } else {
            None
        }
    }

    /// Parses a wire string; an unknown value is an `InvalidRequest` error
    /// rather than a silent default.
    pub fn from_wire(s: &String) -> (r: Result<SqlOrder, AppError>)
        ensures
            r is Ok <==> Self::spec_from_wire(s@) is Some,
            r matches Ok(v) ==> Self::spec_from_wire(s@) == Some(v),
            r matches Err(e) ==> e.code == ErrorCode::InvalidRequest,
    {
        if *s == "asc".to_owned() {
            Ok(SqlOrder::Asc)
        } else if *s == "desc".to_owned() {
            Ok(SqlOrder::Desc)
        } else {
            Err(AppError::from_code(ErrorCode::InvalidRequest, None))
        }
    }
}

} // verus!
