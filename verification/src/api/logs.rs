//! Log endpoints: `GET /v1/logs` lists stored device logs page by
//! page; `GET /v1/logs/stream` forwards live log lines of the caller's
//! org, optionally narrowed to one device, a topic glob and a level.

use vstd::prelude::*;
use vstd::string::StringSliceAdditionalSpecFns;

use crate::glob::{glob, glob_match_pub};
use crate::text::str_eq;

verus! {

/// Query string of the log listing.
#[derive(Debug)]
pub struct LogsQuery {
    pub device: Option<i64>,
    pub topic: Option<String>,
    pub level: Option<String>,
    pub since: Option<i64>,
    pub cursor: Option<i64>,
    pub limit: i64,
}

/// Rows listed when the query gives no `limit`.
pub fn default_limit() -> (r: i64)
    ensures
        r == 100,
{
    100
}

/// Query string of the live log stream.
#[derive(Debug)]
pub struct StreamQuery {
    pub device: Option<i64>,
    pub topic: Option<String>,
    pub level: Option<String>,
}

/// Whether a live log line of `org_id`, from `device_id` on `topic` at
/// `level`, reaches a subscriber of `caller_org` asking `q`.
pub open spec fn log_visible(
    caller_org: i64,
    q: StreamQuery,
    org_id: i64,
    device_id: i64,
    topic: Seq<u8>,
    level: Seq<char>,
) -> bool {
    &&& org_id == caller_org
    &&& (q.device matches Some(d) ==> device_id == d)
    &&& (q.topic matches Some(g) ==> glob(vstd::utf8::encode_utf8(g@), topic))
    &&& (q.level matches Some(l) ==> level == l@)
}

/// Whether the live log line reaches the subscriber.
pub fn log_matches(caller_org: i64, q: &StreamQuery, org_id: i64, device_id: i64, topic: &str, level: &str) -> (r: bool)
    ensures
        r == log_visible(caller_org, *q, org_id, device_id, topic.spec_bytes(), level@),
{
    if org_id != caller_org {
        return false;
    }
    if let Some(d) = q.device {
        if device_id != d {
            return false;
        }
    }
    if let Some(g) = &q.topic {
        if !glob_match_pub(g.as_str(), topic) {
            return false;
        }
    }
    if let Some(l) = &q.level {
        if !str_eq(level, l.as_str()) {
            return false;
        }
    }
    true
}

} // verus!
