//! Device events: rows of the `events` table and the listing query.
//! A device keeps at most `EVENTS_MAX_PER_DEVICE` events; older ones
//! are pruned on insert.

use vstd::prelude::*;

use crate::db::query::{args_view, clamp_limit, clamped_limit, SqlArg, SqlArgView, SqlQuery};
use crate::text::{opt_str_chars, push_str};

verus! {

/// Events kept per device.
pub const EVENTS_MAX_PER_DEVICE: i64 = 10000;

/// One row of the `events` table; `payload` holds the serialised JSON
/// as stored.
#[derive(Debug, Clone)]
pub struct EventRow {
    pub id: i64,
    pub device_id: i64,
    pub topic: String,
    pub ts: i64,
    pub content_type: String,
    pub payload: Vec<u8>,
}

/// Optional condition: `cond` when the filter is set.
pub open spec fn when_set<T>(o: Option<T>, cond: Seq<char>) -> Seq<char> {
    if o is Some {
        cond
    } else {
        Seq::empty()
    }
}

/// The statement listing an org's events, newest first, filtered by
/// device, topic glob, start time and cursor.
pub open spec fn events_list_sql(device_id: Option<i64>, topic_glob: Option<Seq<char>>, since_ms: Option<i64>, cursor: Option<i64>) -> Seq<char> {
    "SELECT e.id, e.device_id, e.topic, e.ts, e.content_type, e.payload
         FROM events e
         JOIN devices d ON d.id = e.device_id
         WHERE d.org_id = ?"@ + when_set(device_id, " AND e.device_id = ?"@) + when_set(
        topic_glob,
        " AND e.topic GLOB ?"@,
    ) + when_set(since_ms, " AND e.ts >= ?"@) + when_set(cursor, " AND e.id < ?"@)
        + " ORDER BY e.id DESC LIMIT ?"@
}

/// The bound value of a set integer filter.
pub open spec fn int_arg(o: Option<i64>) -> Seq<SqlArgView> {
    match o {
        Some(v) => seq![SqlArgView::Int(v)],
        None => Seq::empty(),
    }
}

/// The values bound to `events_list_sql`.
pub open spec fn events_list_args(
    org_id: i64,
    device_id: Option<i64>,
    topic_glob: Option<Seq<char>>,
    since_ms: Option<i64>,
    cursor: Option<i64>,
    limit: i64,
) -> Seq<SqlArgView> {
    seq![SqlArgView::Int(org_id)] + int_arg(device_id) + (match topic_glob {
        Some(t) => seq![SqlArgView::Text(t)],
        None => Seq::empty(),
    }) + int_arg(since_ms) + int_arg(cursor) + seq![SqlArgView::Int(clamp_limit(limit))]
}

/// The statement listing an org's events for `GET /v1/events`; the
/// page size is limited to `1..=1000`.
pub fn events_list_query(
    org_id: i64,
    device_id: Option<i64>,
    topic_glob: Option<&str>,
    since_ms: Option<i64>,
    cursor: Option<i64>,
    limit: i64,
) -> (r: SqlQuery)
    ensures
        r.sql@ == events_list_sql(device_id, opt_str_chars(topic_glob), since_ms, cursor),
        args_view(r.args@) == events_list_args(org_id, device_id, opt_str_chars(topic_glob), since_ms, cursor, limit),
{
    let limit = clamped_limit(limit);
    let mut sql = "SELECT e.id, e.device_id, e.topic, e.ts, e.content_type, e.payload
         FROM events e
         JOIN devices d ON d.id = e.device_id
         WHERE d.org_id = ?".to_owned();
    let mut args: Vec<SqlArg> = Vec::new();
    args.push(SqlArg::Int(org_id));
    if let Some(d) = device_id {
        push_str(&mut sql, " AND e.device_id = ?");
        args.push(SqlArg::Int(d));
    }
    if let Some(t) = topic_glob {
        push_str(&mut sql, " AND e.topic GLOB ?");
        args.push(SqlArg::Text(t.to_owned()));
    }
    if let Some(s) = since_ms {
        push_str(&mut sql, " AND e.ts >= ?");
        args.push(SqlArg::Int(s));
    }
    if let Some(c) = cursor {
        push_str(&mut sql, " AND e.id < ?");
        args.push(SqlArg::Int(c));
    }
    push_str(&mut sql, " ORDER BY e.id DESC LIMIT ?");
    args.push(SqlArg::Int(limit));
    assert(sql@ =~= events_list_sql(device_id, opt_str_chars(topic_glob), since_ms, cursor));
    assert(args_view(args@) =~= events_list_args(org_id, device_id, opt_str_chars(topic_glob), since_ms, cursor, limit));
    SqlQuery { sql, args }
}

} // verus!
