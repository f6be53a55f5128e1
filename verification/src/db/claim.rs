//! The one-time claim flow. On first boot, with no user and no pending
//! claim, a claim token is generated and only its hash is kept. The
//! first caller presenting the token becomes the owner, in the default
//! org or in the org it names.

use vstd::prelude::*;

use crate::auth::token::{generate, hashes_match, sha256_hex, token_hash, TokenPair};
use crate::db::orgs::default_org_slug;
use crate::error::{GatewayError, GatewayErrorView};
use crate::text::{opt_chars, opt_str_chars, str_eq};

verus! {

/// A token pair whose hash is that of its raw form.
pub open spec fn consistent_pair(p: TokenPair) -> bool {
    p.hash@ == token_hash(p.raw@)
}

/// A new claim token, when the gateway has neither a user nor a
/// pending claim; `None` otherwise. Only the hash is to be stored.
pub fn ensure_pending_token(user_count: i64, pending_count: i64) -> (r: Option<TokenPair>)
    ensures
        (r is Some) == (user_count <= 0 && pending_count <= 0),
        r matches Some(p) ==> consistent_pair(p),
{
    if user_count > 0 {
        return None;
    }
    if pending_count > 0 {
        return None;
    }
    Some(generate())
}

/// Whether a user exists.
pub fn is_claimed(user_count: i64) -> (r: bool)
    ensures
        r == (user_count > 0),
{
    user_count > 0
}

/// Whether a claim is waiting for its token.
pub fn is_pending(pending_count: i64) -> (r: bool)
    ensures
        r == (pending_count > 0),
{
    pending_count > 0
}

/// The org a claim puts its owner in: `None` for the default org (no
/// slug, or the default slug), else the slug named.
pub open spec fn claim_org_slug(org_slug: Option<Seq<char>>) -> Option<Seq<char>> {
    match org_slug {
        Some(s) => if s == "default"@ {
            None
        } else {
            Some(s)
        },
        None => None,
    }
}

/// What a claim will do once its token is accepted: the owner's new
/// bearer token, and the org slug to find or create (`None` for the
/// default org).
pub struct ClaimPlan {
    pub bearer: TokenPair,
    pub org_slug: Option<String>,
}

/// The verdict on a claim token, given the hash stored with the
/// pending claim (`None` when no claim is pending).
pub open spec fn claim_verdict(claim_token: Seq<char>, stored_hash: Option<Seq<char>>) -> Result<(), GatewayErrorView> {
    match stored_hash {
        None => Err(GatewayErrorView::BadRequest("no pending claim"@)),
        Some(h) => if token_hash(claim_token) == h {
            Ok(())
        } else {
            Err(GatewayErrorView::Unauthorized("invalid claim token"@))
        },
    }
}

/// Checks `claim_token` against the pending claim's hash and, when it
/// matches, plans the claim: a fresh bearer token for the owner and the
/// org it goes to.
pub fn consume_plan(claim_token: &str, stored_hash: Option<String>, org_slug: Option<&str>) -> (r: Result<
    ClaimPlan,
    GatewayError,
>)
    ensures
        match claim_verdict(claim_token@, opt_chars(stored_hash)) {
            Err(e) => r matches Err(f) && f@ == e,
            Ok(()) => r matches Ok(p) && consistent_pair(p.bearer) && opt_chars(p.org_slug)
                == claim_org_slug(opt_str_chars(org_slug)),
        },
{
    let stored = match stored_hash {
        None => return Err(GatewayError::BadRequest("no pending claim".to_owned())),
        Some(h) => h,
    };
    let claim_hash = sha256_hex(claim_token);
    if !hashes_match(claim_hash.as_str(), stored.as_str()) {
        return Err(GatewayError::Unauthorized("invalid claim token".to_owned()));
    }
    let bearer = generate();
    let org = match org_slug {
        Some(s) => if str_eq(s, default_org_slug()) {
            None
        } else {
            Some(s.to_owned())
        },
        None => None,
    };
    Ok(ClaimPlan { bearer, org_slug: org })
}

/// The claim token that was issued is accepted, and any token whose
/// hash differs from the stored one is refused.
pub proof fn law_claim_accepts_issued_token(issued: TokenPair, presented: Seq<char>)
    requires
        consistent_pair(issued),
    ensures
        claim_verdict(issued.raw@, Some(issued.hash@)) is Ok,
        token_hash(presented) != issued.hash@ ==> claim_verdict(presented, Some(issued.hash@)) == Err::<
            (),
            GatewayErrorView,
        >(GatewayErrorView::Unauthorized("invalid claim token"@)),
        claim_verdict(presented, None) == Err::<(), GatewayErrorView>(
            GatewayErrorView::BadRequest("no pending claim"@),
        ),
{
}

} // verus!
