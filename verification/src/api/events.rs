//! Event endpoints: `GET /v1/events` lists stored events page by page;
//! `GET /v1/events/stream` forwards live events of the caller's org,
//! optionally narrowed to one device and a topic glob.

use vstd::prelude::*;
use vstd::string::StringSliceAdditionalSpecFns;

use crate::api::paging::{next_cursor, page_cursor};
use crate::db::events::EventRow;
use crate::glob::{glob, glob_match};

verus! {

/// Query string of the event listing.
#[derive(Debug)]
pub struct EventsQuery {
    pub device: Option<i64>,
    pub topic: Option<String>,
    pub since: Option<i64>,
    pub cursor: Option<i64>,
    pub limit: i64,
}

/// Rows listed when the query gives no `limit`.
pub fn default_limit() -> (r: i64)
    ensures
        r == 100,
{
    100
}

/// A page of events.
pub struct EventsPage {
    pub items: Vec<EventRow>,
    pub next_cursor: Option<i64>,
}

/// The page answered for `items`, listed with `limit`.
pub fn events_page(items: Vec<EventRow>, limit: i64) -> (r: EventsPage)
    ensures
        r.items@ == items@,
        r.next_cursor == page_cursor(
            items@.len(),
            if items@.len() > 0 {
                Some(items@.last().id)
            } else {
                None
            },
            limit,
        ),
{
    let n = items.len();
    let last = if n > 0 {
        Some(items[n - 1].id)
    } else {
        None
    };
    EventsPage { items, next_cursor: next_cursor(n, last, limit) }
}

/// Query string of the live event stream.
#[derive(Debug)]
pub struct StreamQuery {
    pub device: Option<i64>,
    pub topic: Option<String>,
}

/// Whether a live event of `org_id`, from `device_id` on `topic`,
/// reaches a subscriber of `caller_org` asking `q`.
pub open spec fn event_visible(caller_org: i64, q: StreamQuery, org_id: i64, device_id: i64, topic: Seq<u8>) -> bool {
    &&& org_id == caller_org
    &&& (q.device matches Some(d) ==> device_id == d)
    &&& (q.topic matches Some(g) ==> glob(vstd::utf8::encode_utf8(g@), topic))
}

/// Whether the live event reaches the subscriber.
pub fn event_matches(caller_org: i64, q: &StreamQuery, org_id: i64, device_id: i64, topic: &str) -> (r: bool)
    ensures
        r == event_visible(caller_org, *q, org_id, device_id, topic.spec_bytes()),
{
    if org_id != caller_org {
        return false;
    }
    if let Some(d) = q.device {
        if device_id != d {
            return false;
        }
    }
    if let Some(g) = &q.topic {
        if !glob_match(g.as_str(), topic) {
            return false;
        }
    }
    true
}

/// An event of another org never reaches a subscriber.
pub proof fn law_stream_isolates_orgs(caller_org: i64, q: StreamQuery, org_id: i64, device_id: i64, topic: Seq<u8>)
    requires
        org_id != caller_org,
    ensures
        !event_visible(caller_org, q, org_id, device_id, topic),
{
}

} // verus!
