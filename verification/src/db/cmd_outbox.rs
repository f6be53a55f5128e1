//! The command outbox: rows written by `POST /v1/devices/:id/cmd/:topic`,
//! published by the delivery loop, acknowledged by the device. A
//! device holds at most `CMD_MAX_PER_DEVICE` unacknowledged rows while
//! the oldest of them has not expired, and a payload is at most 64 KiB. A row's status is derived from its
//! timestamps: acked, else delivered, else expired, else pending.

use vstd::prelude::*;

use std::time::Duration;

use crate::db::query::{args_view, clamp_limit, clamped_limit, SqlArg, SqlArgView, SqlQuery};
use crate::clock::epoch_ms;
use crate::error::{GatewayError, GatewayErrorView};
use crate::text::{dec_int, dec_nat, push_decimal_i64, push_decimal_u64, push_str};

verus! {

/// Unacknowledged rows a device may hold.
pub const CMD_MAX_PER_DEVICE: i64 = 1000;

/// Time to live of a command whose request gives none: seven days, in
/// milliseconds.
pub const CMD_DEFAULT_TTL_MS: i64 = 604800000;

/// Largest serialised payload, in bytes.
pub const CMD_MAX_PAYLOAD_BYTES: usize = 65536;

/// One row of the outbox. `payload` holds the serialised JSON as
/// stored; `status` is derived from the timestamps.
#[derive(Debug, Clone)]
pub struct CmdRow {
    pub id: i64,
    pub cmd_id: String,
    pub device_id: i64,
    pub topic: String,
    pub content_type: String,
    pub payload: Vec<u8>,
    pub enqueued_at: i64,
    pub expires_at: i64,
    pub delivered_at: Option<i64>,
    pub ack_at: Option<i64>,
    pub ack_result: Option<String>,
    pub ack_detail: Option<String>,
    pub attempts: i64,
    pub last_error: Option<String>,
    pub status: String,
}

/// The status of a row at `now` (milliseconds).
pub open spec fn cmd_status(delivered_at: Option<i64>, ack_at: Option<i64>, expires_at: i64, now: i64) -> Seq<char> {
    if ack_at is Some {
        "acked"@
    } else if delivered_at is Some {
        "delivered"@
    } else if expires_at <= now {
        "expired"@
    } else {
        "pending"@
    }
}

/// The status of a row at `now` (milliseconds).
pub fn derive_status_at(delivered_at: Option<i64>, ack_at: Option<i64>, expires_at: i64, now: i64) -> (r: String)
    ensures
        r@ == cmd_status(delivered_at, ack_at, expires_at, now),
{
    if ack_at.is_some() {
        "acked".to_owned()
    } else if delivered_at.is_some() {
        "delivered".to_owned()
    } else if expires_at <= now {
        "expired".to_owned()
    } else {
        "pending".to_owned()
    }
}

/// The status of a row now: `expires_at` (Unix milliseconds) is
/// compared with the wall clock read in milliseconds. Which reading
/// depends on the time.
pub fn derive_status(delivered_at: Option<i64>, ack_at: Option<i64>, expires_at: i64) -> (r: String)
    ensures
        exists|since: Option<Duration>| r@ == #[trigger] cmd_status(delivered_at, ack_at, expires_at, epoch_ms(since)),
{
    let now = crate::clock::now_ms();
    let r = derive_status_at(delivered_at, ack_at, expires_at, now);
    let ghost since = choose|since: Option<Duration>| now == #[trigger] epoch_ms(since);
    assert(r@ == cmd_status(delivered_at, ack_at, expires_at, epoch_ms(since)));
    r
}

/// An undelivered, unacknowledged row whose expiry is not after the
/// time of the reading is expired; one whose expiry is later is
/// pending; delivery and acknowledgement win over expiry.
pub proof fn law_status_follows_the_clock(delivered_at: Option<i64>, ack_at: Option<i64>, expires_at: i64, now: i64)
    ensures
        delivered_at is None && ack_at is None && expires_at <= now ==> cmd_status(
            delivered_at,
            ack_at,
            expires_at,
            now,
        ) == "expired"@,
        delivered_at is None && ack_at is None && now < expires_at ==> cmd_status(
            delivered_at,
            ack_at,
            expires_at,
            now,
        ) == "pending"@,
        ack_at is Some ==> cmd_status(delivered_at, ack_at, expires_at, now) == "acked"@,
        ack_at is None && delivered_at is Some ==> cmd_status(delivered_at, ack_at, expires_at, now) == "delivered"@,
{
}

/// Refuses a serialised payload over 64 KiB.
pub fn check_payload_size(len: usize) -> (r: Result<(), GatewayError>)
    ensures
        len <= CMD_MAX_PAYLOAD_BYTES ==> r is Ok,
        len > CMD_MAX_PAYLOAD_BYTES ==> (r matches Err(e) && e@ == GatewayErrorView::BadRequest(
            "cmd payload "@ + dec_nat(len as nat) + " bytes exceeds 64 KiB cap"@,
        )),
{
    if len > CMD_MAX_PAYLOAD_BYTES {
        let mut m = "cmd payload ".to_owned();
        push_decimal_u64(&mut m, len as u64);
        push_str(&mut m, " bytes exceeds 64 KiB cap");
        return Err(GatewayError::BadRequest(m));
    }
    Ok(())
}

/// Whether a device's outbox is full at `now`: it holds `pending`
/// unacknowledged rows, the cap or more, and the oldest of them
/// (expiring at `oldest_expires_at`) is not yet past its expiry.
pub open spec fn outbox_full(pending: i64, oldest_expires_at: Option<i64>, now: i64) -> bool {
    &&& pending >= CMD_MAX_PER_DEVICE
    &&& oldest_expires_at matches Some(e) && now < e
}

/// Refuses a new row for a device whose outbox is full at `now`: it
/// already holds `pending` unacknowledged rows, the cap or more, and
/// the oldest of them, expiring at `oldest_expires_at`, has not
/// expired yet. Once that row is past its expiry the device has room
/// again.
pub fn check_outbox_room(device_id: i64, pending: i64, oldest_expires_at: Option<i64>, now: i64) -> (r:
    Result<(), GatewayError>)
    ensures
        !outbox_full(pending, oldest_expires_at, now) ==> r is Ok,
        outbox_full(pending, oldest_expires_at, now) ==> (r matches Err(e) && e@
            == GatewayErrorView::BadRequest(
            "device "@ + dec_int(device_id as int) + " cmd_outbox full ("@ + dec_int(pending as int)
                + " pending)"@,
        )),
{
    let live = match oldest_expires_at {
        Some(e) => now < e,
        None => false,
    };
    if pending >= CMD_MAX_PER_DEVICE && live {
        let mut m = "device ".to_owned();
        push_decimal_i64(&mut m, device_id);
        push_str(&mut m, " cmd_outbox full (");
        push_decimal_i64(&mut m, pending);
        push_str(&mut m, " pending)");
        return Err(GatewayError::BadRequest(m));
    }
    Ok(())
}

/// An outbox whose oldest unacknowledged row has expired takes new
/// rows whatever their number; below the cap it always does.
pub proof fn lemma_expired_oldest_frees_room(pending: i64, oldest_expires_at: i64, now: i64)
    ensures
        oldest_expires_at <= now ==> !outbox_full(pending, Some(oldest_expires_at), now),
        pending < CMD_MAX_PER_DEVICE ==> !outbox_full(pending, Some(oldest_expires_at), now),
{
}

/// The columns read for a row, and the table.
pub open spec fn cmd_select() -> Seq<char> {
    "SELECT id, cmd_id, device_id, topic, content_type, payload,
                enqueued_at, expires_at, delivered_at, ack_at,
                ack_result, ack_detail, attempts, last_error
         FROM cmd_outbox WHERE device_id = ?"@
}

/// The condition a status filter adds, or the message refusing an
/// unknown status.
pub open spec fn status_condition(status: Seq<char>) -> Result<Seq<char>, Seq<char>> {
    if status == "pending"@ {
        Ok(" AND delivered_at IS NULL"@)
    } else if status == "delivered"@ {
        Ok(" AND delivered_at IS NOT NULL AND ack_at IS NULL"@)
    } else if status == "acked"@ {
        Ok(" AND ack_at IS NOT NULL"@)
    } else {
        Err("unknown status `"@ + status + "`"@)
    }
}

/// The query listing a device's rows, newest first: optionally of one
/// status, below `cursor`, at most `limit` (limited to `1..=1000`).
pub open spec fn cmd_list_sql(status: Option<Seq<char>>, cursor: Option<i64>) -> Result<Seq<char>, Seq<char>> {
    let cond = match status {
        None => Ok(Seq::<char>::empty()),
        Some(s) => status_condition(s),
    };
    match cond {
        Err(m) => Err(m),
        Ok(c) => Ok(
            cmd_select() + c + (if cursor is Some {
                " AND id < ?"@
            } else {
                Seq::empty()
            }) + " ORDER BY id DESC LIMIT ?"@,
        ),
    }
}

/// The values bound to `cmd_list_sql`.
pub open spec fn cmd_list_args(device_id: i64, cursor: Option<i64>, limit: i64) -> Seq<SqlArgView> {
    seq![SqlArgView::Int(device_id)] + (match cursor {
        Some(c) => seq![SqlArgView::Int(c)],
        None => Seq::empty(),
    }) + seq![SqlArgView::Int(clamp_limit(limit))]
}

/// The statement listing a device's rows for `GET /v1/devices/:id/cmd`,
/// or the error for an unknown status filter.
pub fn cmd_list_query(device_id: i64, status: Option<&str>, cursor: Option<i64>, limit: i64) -> (r: Result<
    SqlQuery,
    GatewayError,
>)
    ensures
        match cmd_list_sql(crate::text::opt_str_chars(status), cursor) {
            Err(m) => r matches Err(e) && e@ == GatewayErrorView::BadRequest(m),
            Ok(sql) => r matches Ok(q) && q.sql@ == sql && args_view(q.args@) == cmd_list_args(
                device_id,
                cursor,
                limit,
            ),
        },
{
    let limit = clamped_limit(limit);
    let mut sql = "SELECT id, cmd_id, device_id, topic, content_type, payload,
                enqueued_at, expires_at, delivered_at, ack_at,
                ack_result, ack_detail, attempts, last_error
         FROM cmd_outbox WHERE device_id = ?".to_owned();
    let mut args: Vec<SqlArg> = Vec::new();
    args.push(SqlArg::Int(device_id));
    match status {
        None => {},
        Some(s) => {
            if crate::text::str_eq(s, "pending") {
                push_str(&mut sql, " AND delivered_at IS NULL");
            } else if crate::text::str_eq(s, "delivered") {
                push_str(&mut sql, " AND delivered_at IS NOT NULL AND ack_at IS NULL");
            } else if crate::text::str_eq(s, "acked") {
                push_str(&mut sql, " AND ack_at IS NOT NULL");
            } else {
                let mut m = "unknown status `".to_owned();
                push_str(&mut m, s);
                push_str(&mut m, "`");
                return Err(GatewayError::BadRequest(m));
            }
        },
    }
    match cursor {
        Some(c) => {
            push_str(&mut sql, " AND id < ?");
            args.push(SqlArg::Int(c));
        },
        None => {},
    }
    push_str(&mut sql, " ORDER BY id DESC LIMIT ?");
    args.push(SqlArg::Int(limit));
    assert(args_view(args@) =~= cmd_list_args(device_id, cursor, limit));
    Ok(SqlQuery { sql, args })
}

} // verus!
