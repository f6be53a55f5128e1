//! SQL statements built from request parameters: the statement text
//! with `?` placeholders and the values bound to them, in order.

use vstd::prelude::*;

verus! {

/// A value bound to a `?` placeholder.
#[derive(Debug, Clone)]
pub enum SqlArg {
    Int(i64),
    Text(String),
}

/// The view of a bound value.
pub enum SqlArgView {
    Int(i64),
    Text(Seq<char>),
}

impl View for SqlArg {
    type V = SqlArgView;

    open spec fn view(&self) -> SqlArgView {
        match self {
            SqlArg::Int(v) => SqlArgView::Int(*v),
            SqlArg::Text(s) => SqlArgView::Text(s@),
        }
    }
}

/// The bound values, in order.
pub open spec fn args_view(args: Seq<SqlArg>) -> Seq<SqlArgView> {
    args.map_values(|a: SqlArg| a@)
}

/// A statement and the values for its placeholders.
pub struct SqlQuery {
    pub sql: String,
    pub args: Vec<SqlArg>,
}

/// A page size limited to `1..=1000`.
pub open spec fn clamp_limit(limit: i64) -> i64 {
    if limit < 1 {
        1
    } else if limit > 1000 {
        1000
    } else {
        limit
    }
}

/// `limit` limited to `1..=1000`.
pub fn clamped_limit(limit: i64) -> (r: i64)
    ensures
        r == clamp_limit(limit),
        1 <= r <= 1000,
{
    if limit < 1 {
        1
    } else if limit > 1000 {
        1000
    } else {
        limit
    }
}

} // verus!
