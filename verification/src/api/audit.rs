//! `GET /v1/audit?limit=N`: recent audit entries projected to their
//! public shape. Each entry gets a `subject`, `<resource>:<id>` of the
//! most specific entity the row refers to: the tunnel, then the device,
//! then an id recovered from `detail` (delete rows keep the removed id
//! there), then the acting user; otherwise it is empty. A `detail` that
//! is not JSON is wrapped as `{"raw": ...}`.

use vstd::prelude::*;

use crate::db::audit::AuditEntry;
use crate::json::{get_member_i64, json_shape, member_i64, parse_json_shape, JsonShape, JsonShapeView};
use crate::text::{dec_int, push_decimal_i64};

verus! {

/// Query string of `GET /v1/audit`.
pub struct AuditQuery {
    pub limit: i64,
}

/// Number of entries listed when the query gives no `limit`.
pub fn default_limit() -> (r: i64)
    ensures
        r == 50,
{
    50
}

/// The `detail` of a public audit entry: absent, a JSON document (kept
/// as its text), or free text that is not JSON, published as
/// `{"raw": <text>}`.
#[derive(Debug, Clone, PartialEq, Eq)]
pub enum AuditDetail {
    Null,
    Json(String),
    Raw(String),
}

/// Public projection of an audit row.
pub struct AuditEntryView {
    pub id: i64,
    pub at: i64,
    pub actor_user_id: Option<i64>,
    pub action: String,
    pub subject: String,
    pub detail: AuditDetail,
}

/// A page of audit entries; the listing is not paginated, so
/// `next_cursor` is `None`.
pub struct AuditPage {
    pub items: Vec<AuditEntryView>,
    pub next_cursor: Option<i64>,
}

/// `<resource>:<id>`.
pub open spec fn tagged(resource: Seq<char>, id: i64) -> Seq<char> {
    resource + ":"@ + dec_int(id as int)
}

/// The subject of `row` whose `detail` parsed to `detail`: tunnel FK,
/// device FK, `detail.tunnel_id`, `detail.device_id`, user, in that
/// order of preference; empty when none is there.
pub open spec fn subject_of(row: AuditEntry, detail: JsonShapeView) -> Seq<char> {
    if let Some(t) = row.tunnel_id {
        tagged("tunnel"@, t)
    } else if let Some(d) = row.device_id {
        tagged("device"@, d)
    } else if let Some(t) = member_i64(detail, "tunnel_id"@) {
        tagged("tunnel"@, t)
    } else if let Some(d) = member_i64(detail, "device_id"@) {
        tagged("device"@, d)
    } else if let Some(u) = row.user_id {
        tagged("user"@, u)
    } else {
        Seq::empty()
    }
}

/// How `detail`, parsed to `shape`, is published.
pub open spec fn detail_of(detail: Option<String>, shape: JsonShapeView) -> AuditDetail {
    match detail {
        None => AuditDetail::Null,
        Some(s) => if shape is Invalid {
            AuditDetail::Raw(s)
        } else {
            AuditDetail::Json(s)
        },
    }
}

/// What the row's `detail` parses to: nothing to parse gives `Other`
/// (JSON `null`).
pub open spec fn row_detail_shape(detail: Option<String>) -> JsonShapeView {
    match detail {
        Some(s) => json_shape(s@),
        None => JsonShapeView::Other,
    }
}

/// The integer `detail.<key>`, when the detail is a JSON object holding
/// one.
pub fn detail_id(detail: &JsonShape, key: &str) -> (r: Option<i64>)
    ensures
        r == member_i64(detail@, key@),
{
    get_member_i64(detail, key)
}

fn tag(resource: &str, id: i64) -> (r: String)
    ensures
        r@ == tagged(resource@, id),
{
    let mut s = resource.to_owned();
    crate::text::push_str(&mut s, ":");
    push_decimal_i64(&mut s, id);
    s
}

/// The public projection of `row`, given what its `detail` parsed to.
pub fn project_parsed(row: AuditEntry, shape: &JsonShape) -> (r: AuditEntryView)
    ensures
        r.id == row.id,
        r.at == row.ts,
        r.actor_user_id == row.user_id,
        r.action == row.action,
        r.subject@ == subject_of(row, shape@),
        r.detail == detail_of(row.detail, shape@),
{
    let subject = if let Some(t) = row.tunnel_id {
        tag("tunnel", t)
    } else if let Some(d) = row.device_id {
        tag("device", d)
    } else if let Some(t) = detail_id(shape, "tunnel_id") {
        tag("tunnel", t)
    } else if let Some(d) = detail_id(shape, "device_id") {
        tag("device", d)
    } else if let Some(u) = row.user_id {
        tag("user", u)
    } else {
        String::new()
    };
    let detail = match row.detail {
        None => AuditDetail::Null,
        Some(s) => match shape {
            JsonShape::Invalid(_) => AuditDetail::Raw(s),
            _ => AuditDetail::Json(s),
        },
    };
    AuditEntryView {
        id: row.id,
        at: row.ts,
        actor_user_id: row.user_id,
        action: row.action,
        subject,
        detail,
    }
}

/// The public projection of `row`; its `detail` is parsed as JSON.
pub fn project(row: AuditEntry) -> (r: AuditEntryView)
    ensures
        r.id == row.id,
        r.at == row.ts,
        r.actor_user_id == row.user_id,
        r.action == row.action,
        r.subject@ == subject_of(row, row_detail_shape(row.detail)),
        r.detail == detail_of(row.detail, row_detail_shape(row.detail)),
{
    let shape = match &row.detail {
        Some(s) => parse_json_shape(s.as_str()),
        None => JsonShape::Other,
    };
    project_parsed(row, &shape)
}

/// The page answered for the listed rows, in the order listed.
pub fn audit_page(rows: Vec<AuditEntry>) -> (r: AuditPage)
    ensures
        r.next_cursor is None,
        r.items@.len() == rows@.len(),
        forall|i: int|
            0 <= i < rows@.len() ==> {
                let row = #[trigger] rows@[i];
                let v = r.items@[i];
                &&& v.id == row.id
                &&& v.at == row.ts
                &&& v.actor_user_id == row.user_id
                &&& v.action == row.action
                &&& v.subject@ == subject_of(row, row_detail_shape(row.detail))
                &&& v.detail == detail_of(row.detail, row_detail_shape(row.detail))
            },
{
    let mut items: Vec<AuditEntryView> = Vec::new();
    let mut rest = rows;
    let ghost orig = rest@;
    assert(orig.len() == rest.len());
    let mut i: usize = 0;
    while rest.len() > 0
        invariant
            i + rest@.len() == orig.len(),
            orig.len() <= usize::MAX,
            items@.len() == i,
            rest@ == orig.subrange(i as int, orig.len() as int),
            forall|j: int|
                0 <= j < i ==> {
                    let row = #[trigger] orig[j];
                    let v = items@[j];
                    &&& v.id == row.id
                    &&& v.at == row.ts
                    &&& v.actor_user_id == row.user_id
                    &&& v.action == row.action
                    &&& v.subject@ == subject_of(row, row_detail_shape(row.detail))
                    &&& v.detail == detail_of(row.detail, row_detail_shape(row.detail))
                },
        decreases rest@.len(),
    {
        let row = rest.remove(0);
        assert(row == orig[i as int]);
        items.push(project(row));
        i = i + 1;
    }
    AuditPage { items, next_cursor: None }
}

} // verus!
