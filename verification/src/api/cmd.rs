//! Command endpoints: `POST /v1/devices/:id/cmd/:topic` enqueues a
//! command, `GET /v1/devices/:id/cmd` lists the outbox, and
//! `DELETE /v1/cmd/:cmd_id` cancels a command not yet delivered.

use vstd::prelude::*;

use crate::api::paging::{next_cursor, page_cursor};
use crate::db::cmd_outbox::{CmdRow, CMD_DEFAULT_TTL_MS};
use crate::error::{GatewayError, GatewayErrorView};
use crate::text::opt_chars;

verus! {

/// Answer of an accepted command: its id.
pub struct SendCmdResponse {
    pub cmd_id: String,
}

/// Query string of the outbox listing.
pub struct ListQuery {
    pub status: Option<String>,
    pub cursor: Option<i64>,
    pub limit: i64,
}

/// Rows listed when the query gives no `limit`.
pub fn default_limit() -> (r: i64)
    ensures
        r == 100,
{
    100
}

/// A page of outbox rows.
pub struct CmdPage {
    pub items: Vec<CmdRow>,
    pub next_cursor: Option<i64>,
}

/// The page answered for `items`, listed with `limit`.
pub fn cmd_page(items: Vec<CmdRow>, limit: i64) -> (r: CmdPage)
    ensures
        r.items@ == items@,
        r.next_cursor == page_cursor(
            items@.len(),
            if items@.len() > 0 {
                Some(items@.last().id)
            } else {
                None
            },
            limit,
        ),
{
    let n = items.len();
    let last = if n > 0 {
        Some(items[n - 1].id)
    } else {
        None
    };
    CmdPage { items, next_cursor: next_cursor(n, last, limit) }
}

/// What an accepted command is stored with.
pub struct SendPlan {
    pub expires_at: i64,
    pub content_type: String,
}

/// Time to live: the one asked, else seven days; at least 1 ms.
pub open spec fn cmd_ttl(expires_in_ms: Option<i64>) -> i64 {
    let t = match expires_in_ms {
        Some(t) => t,
        None => CMD_DEFAULT_TTL_MS,
    };
    if t < 1 {
        1
    } else {
        t
    }
}

/// `now + ttl`, held at `i64::MAX`.
pub open spec fn cmd_expiry(now: i64, ttl: i64) -> i64 {
    if now + ttl > i64::MAX {
        i64::MAX
    } else {
        (now + ttl) as i64
    }
}

/// Plans storing a command on `topic` at `now` (milliseconds): an
/// empty topic is refused; the command expires after its time to live
/// and has content type `application/json` unless one is given.
pub fn send_plan(topic: &str, now: i64, expires_in_ms: Option<i64>, content_type: Option<String>) -> (r: Result<
    SendPlan,
    GatewayError,
>)
    ensures
        topic@.len() == 0 ==> (r matches Err(e) && e@ == GatewayErrorView::BadRequest(
            "topic must not be empty"@,
        )),
        topic@.len() > 0 ==> (r matches Ok(p) && p.expires_at == cmd_expiry(now, cmd_ttl(expires_in_ms))
            && p.content_type@ == match opt_chars(content_type) {
            Some(c) => c,
            None => "application/json"@,
        }),
{
    if topic.is_empty() {
        return Err(GatewayError::BadRequest("topic must not be empty".to_owned()));
    }
    let asked = match expires_in_ms {
        Some(t) => t,
        None => CMD_DEFAULT_TTL_MS,
    };
    let ttl = if asked < 1 {
        1
    } else {
        asked
    };
    let expires_at = match now.checked_add(ttl) {
        Some(v) => v,
        None => i64::MAX,
    };
    let content_type = match content_type {
        Some(c) => c,
        None => "application/json".to_owned(),
    };
    Ok(SendPlan { expires_at, content_type })
}

/// The row a cancel refers to, or `NotFound` when there is none.
pub fn cancel_target(row: Option<CmdRow>) -> (r: Result<CmdRow, GatewayError>)
    ensures
        match row {
            Some(x) => r == Ok::<CmdRow, GatewayError>(x),
            None => r matches Err(e) && e@ == GatewayErrorView::NotFound,
        },
{
    match row {
        Some(x) => Ok(x),
        None => Err(GatewayError::NotFound),
    }
}

/// The answer to a cancel: done when a pending row was deleted,
/// `NotFound` when the row had already been delivered or acknowledged.
pub fn cancel_outcome(deleted: bool) -> (r: Result<(), GatewayError>)
    ensures
        deleted ==> r is Ok,
        !deleted ==> (r matches Err(e) && e@ == GatewayErrorView::NotFound),
{
    if deleted {
        Ok(())
    } else {
        Err(GatewayError::NotFound)
    }
}

/// A command always outlives its enqueue time unless the clock is at
/// the end of the `i64` range, and never expires before one
/// millisecond has passed.
pub proof fn law_expiry_after_enqueue(now: i64, expires_in_ms: Option<i64>)
    ensures
        cmd_ttl(expires_in_ms) >= 1,
        now < i64::MAX ==> cmd_expiry(now, cmd_ttl(expires_in_ms)) > now,
        cmd_expiry(now, cmd_ttl(expires_in_ms)) >= now,
{
}

} // verus!
