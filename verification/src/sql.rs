//! Plain-SQL pagination and filter-string helpers.

use vstd::prelude::*;
use vstd::string::StringExecFns;

verus! {

/// A sort direction rendered into SQL.
#[derive(Clone, Copy, Debug, PartialEq, Eq, Structural)]
pub enum Order {
    DESC,
    ASC,
}

/// A page request: one-based page number, page size, and the ordering column
/// and direction.
pub struct Pagination {
    pub per: u32,
    pub page: u32,
    pub order_by: String,
    pub order: Order,
}

impl Pagination {
    /// The default page request for a page number: ten items a page, newest
    /// first.
    pub fn from_page(page: u32) -> (r: Self)
        ensures
            r.per == 10,
            r.page == page,
            r.order_by@ == "created"@,
            r.order == Order::DESC,
    {
        Self { per: 10, page, order_by: "created".to_string(), order: Order::DESC }
    }

    /// The direction as it is written in SQL.
    pub fn order(&self) -> (r: String)
        ensures
            self.order == Order::ASC ==> r@ == "ASC"@,
            self.order == Order::DESC ==> r@ == "DESC"@,
    {
        match self.order {
            Order::ASC => "ASC".to_string(),
            Order::DESC => "DESC".to_string(),
        }
    }

    /// The offset of this page's first row. Pages are one-based.
    pub fn offset(&self) -> (r: u32)
        requires
            self.page >= 1,
            self.per * (self.page - 1) <= u32::MAX,
        ensures
            r == self.per * (self.page - 1),
    {
        self.per * (self.page - 1)
    }
}

/// A conjunction of SQL conditions, accumulated as text.
pub struct SQLFilter {
    pub where_str: String,
}

impl SQLFilter {
    /// An empty condition.
    pub fn new() -> (r: Self)
        ensures
            r.where_str@ == Seq::<char>::empty(),
    {
        Self { where_str: String::new() }
    }

    /// Appends a condition conjunctively.
    pub fn and(&mut self, con: &str)
        ensures
            final(self).where_str@ == old(self).where_str@ + " AND "@ + con@,
    {
        self.where_str.append(" AND ");
        self.where_str.append(con);
    }

    /// Appends a condition disjunctively.
    pub fn or(&mut self, con: &str)
        ensures
            final(self).where_str@ == old(self).where_str@ + "OR "@ + con@,
    {
        self.where_str.append("OR ");
        self.where_str.append(con);
    }
}

} // verus!
