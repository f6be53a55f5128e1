//! Organisations: rows of the `orgs` table, the seeded default org,
//! and the rule an org slug must follow.

use vstd::prelude::*;

use crate::error::{GatewayError, GatewayErrorView};
use crate::text::push_str;
use vstd::string::StringSliceAdditionalSpecFns;

verus! {

/// Id of the org seeded by the first migration.
pub const DEFAULT_ORG_ID: i64 = 1;

/// Slug of the org seeded by the first migration.
pub fn default_org_slug() -> (r: &'static str)
    ensures
        r@ == "default"@,
{
    "default"
}

/// One row of the `orgs` table.
#[derive(Debug, Clone)]
pub struct Org {
    pub id: i64,
    pub slug: String,
    pub name: String,
    pub created_at: i64,
}

/// A byte that may start a slug: `a`-`z` or `0`-`9`.
pub open spec fn slug_lead_byte(b: u8) -> bool {
    (97 <= b <= 122) || (48 <= b <= 57)
}

/// A byte that may follow the first: a lead byte or `-`.
pub open spec fn slug_tail_byte(b: u8) -> bool {
    slug_lead_byte(b) || b == 45
}

/// The verdict on the UTF-8 bytes `s` of a slug: 1 to 63 bytes,
/// `[a-z0-9]` first, then `[a-z0-9-]`, with the message of the first
/// rule broken. A character outside ASCII is made of bytes of 128 and
/// more, which no rule admits, so this is the same verdict taken over
/// the characters.
pub open spec fn slug_verdict(s: Seq<u8>) -> Result<(), Seq<char>> {
    if s.len() == 0 || s.len() > 63 {
        Err("org slug must be 1..=63 chars"@)
    } else if !slug_lead_byte(s[0]) {
        Err("org slug must start with [a-z0-9]"@)
    } else if exists|i: int| 1 <= i < s.len() && !slug_tail_byte(#[trigger] s[i]) {
        Err("org slug must match [a-z0-9][a-z0-9-]*"@)
    } else {
        Ok(())
    }
}

/// Checks `slug` against the slug rule; the error names the first rule
/// broken.
pub fn validate_slug(slug: &str) -> (r: Result<(), GatewayError>)
    ensures
        match slug_verdict(slug.spec_bytes()) {
            Ok(()) => r is Ok,
            Err(m) => r matches Err(e) && e@ == GatewayErrorView::BadRequest(m),
        },
{
    let b = slug.as_bytes();
    if b.len() == 0 || b.len() > 63 {
        return Err(GatewayError::BadRequest("org slug must be 1..=63 chars".to_owned()));
    }
    let first = b[0];
    if !((97 <= first && first <= 122) || (48 <= first && first <= 57)) {
        return Err(GatewayError::BadRequest("org slug must start with [a-z0-9]".to_owned()));
    }
    let mut i: usize = 1;
    while i < b.len()
        invariant
            b@ == slug.spec_bytes(),
            1 <= i <= b@.len(),
            b@.len() <= 63,
            slug_lead_byte(b@[0]),
            forall|j: int| 1 <= j < i ==> slug_tail_byte(#[trigger] b@[j]),
        decreases b@.len() - i,
    {
        let c = b[i];
        if !((97 <= c && c <= 122) || (48 <= c && c <= 57) || c == 45) {
            assert(!slug_tail_byte(b@[i as int]));
            return Err(GatewayError::BadRequest("org slug must match [a-z0-9][a-z0-9-]*".to_owned()));
        }
        i = i + 1;
    }
    Ok(())
}

/// The error answered when the database refuses a new org because its
/// slug is taken or breaks the table's check.
pub fn slug_conflict(slug: &str) -> (r: GatewayError)
    ensures
        r@ == GatewayErrorView::BadRequest("org slug `"@ + slug@ + "` invalid or taken"@),
{
    let mut m = "org slug `".to_owned();
    push_str(&mut m, slug);
    push_str(&mut m, "` invalid or taken");
    GatewayError::BadRequest(m)
}

} // verus!
