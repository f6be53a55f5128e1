//! The part of a parsed JSON document the gateway's logic reads:
//! whether it parsed, and the integer members of a top-level array or
//! object.

use vstd::prelude::*;

verus! {

/// A JSON document as the gateway reads it: unparsable (with the
/// parser's message), an array (each element as an `i64` when it is an
/// integer that fits), an object (each member likewise), or any other
/// value.
pub enum JsonShape {
    Invalid(String),
    Array(Vec<Option<i64>>),
    Object(Vec<(String, Option<i64>)>),
    Other,
}

/// The view of a `JsonShape`.
pub enum JsonShapeView {
    Invalid(Seq<char>),
    Array(Seq<Option<i64>>),
    Object(Seq<(Seq<char>, Option<i64>)>),
    Other,
}

impl View for JsonShape {
    type V = JsonShapeView;

    open spec fn view(&self) -> JsonShapeView {
        match self {
            JsonShape::Invalid(e) => JsonShapeView::Invalid(e@),
            JsonShape::Array(v) => JsonShapeView::Array(v@),
            JsonShape::Object(m) => JsonShapeView::Object(m@.map_values(|e: (String, Option<i64>)| (e.0@, e.1))),
            JsonShape::Other => JsonShapeView::Other,
        }
    }
}

/// The shape of the JSON document `text` as `serde_json` parses it.
pub uninterp spec fn json_shape(text: Seq<char>) -> JsonShapeView;

/// `serde_json::from_str::<serde_json::Value>` on `text`, seen as a
/// `JsonShape`: a parse error gives `Invalid` with the error's display
/// text, an array or object gives its elements through
/// `Value::as_i64`, anything else gives `Other`.
#[verifier::external_body]
pub(crate) fn parse_json_shape(text: &str) -> (r: JsonShape)
    ensures
        r@ == json_shape(text@),
{
    match serde_json::from_str::<serde_json::Value>(text) {
        Err(e) => JsonShape::Invalid(e.to_string()),
        Ok(serde_json::Value::Array(a)) => JsonShape::Array(a.iter().map(|v| v.as_i64()).collect()),
        Ok(serde_json::Value::Object(o)) => JsonShape::Object(o.iter().map(|(k, v)| (k.clone(), v.as_i64())).collect()),
        Ok(_) => JsonShape::Other,
    }
}

/// The value of the first member named `key`.
pub open spec fn first_member(m: Seq<(Seq<char>, Option<i64>)>, key: Seq<char>) -> Option<Option<i64>>
    decreases m.len(),
{
    if m.len() == 0 {
        None
    } else if m[0].0 == key {
        Some(m[0].1)
    } else {
        first_member(m.drop_first(), key)
    }
}

/// The integer member `key` of an object: `None` when the document
/// is not an object, has no such member, or it is not an `i64`.
pub open spec fn member_i64(shape: JsonShapeView, key: Seq<char>) -> Option<i64> {
    match shape {
        JsonShapeView::Object(m) => match first_member(m, key) {
            Some(v) => v,
            None => None,
        },
        _ => None,
    }
}

/// The integer member `key` of a parsed document.
pub fn get_member_i64(shape: &JsonShape, key: &str) -> (r: Option<i64>)
    ensures
        r == member_i64(shape@, key@),
{
    match shape {
        JsonShape::Object(m) => {
            let ghost mv = match shape@ {
                JsonShapeView::Object(x) => x,
                _ => Seq::empty(),
            };
            assert(forall|j: int| 0 <= j < m@.len() ==> #[trigger] mv[j] == (m@[j].0@, m@[j].1));
            let mut i: usize = 0;
            assert(mv.subrange(0, mv.len() as int) =~= mv);
            while i < m.len()
                invariant
                    mv.len() == m@.len(),
                    forall|j: int| 0 <= j < m@.len() ==> #[trigger] mv[j] == (m@[j].0@, m@[j].1),
                    member_i64(shape@, key@) == match first_member(mv, key@) {
                        Some(v) => v,
                        None => None,
                    },
                    i <= m@.len(),
                    first_member(mv.subrange(i as int, mv.len() as int), key@) == first_member(mv, key@),
                decreases m@.len() - i,
            {
                let ghost rest = mv.subrange(i as int, mv.len() as int);
                assert(rest[0] == mv[i as int]);
                if crate::text::str_eq(m[i].0.as_str(), key) {
                    return m[i].1;
                }
                assert(rest.drop_first() =~= mv.subrange(i + 1, mv.len() as int));
                i = i + 1;
            }
            None
        },
        _ => None,
    }
}

} // verus!
