//! Connector-side decisions.
//!
//! The application connector admits a request only after verifying the
//! presented credential against the shared key, the clock and its latest
//! denylist snapshot, and only for the resource target it fronts. The
//! client connector's identity endpoints are derived here from the
//! provider's base URL.

use vstd::prelude::*;

verus! {

use vstd::string::StringExecFns;
use crate::session::DenyEntry;
use crate::token::{SessionToken, TokenError, TokenKey, spec_verify, verify_token};

/// Where the application connector sends an incoming request.
#[derive(Clone, Copy, Debug, PartialEq, Eq, Structural)]
pub enum ConnectorRoute {
    Banner,
    Health,
    Proxy,
}

/// The admission decision for one proxied request.
#[derive(Clone, Copy, Debug, PartialEq, Eq, Structural)]
pub enum AdmitDecision {
    PathOpen,
    Rejected { error: TokenError },
}

/// Routes a request path: the banner and health endpoints are served
/// directly, everything else is proxied.
pub fn route_request(path: &String) -> (r: ConnectorRoute)
    ensures
        path@ == "/"@ ==> r == ConnectorRoute::Banner,
        path@ == "/health"@ ==> r == ConnectorRoute::Health,
        path@ != "/"@ && path@ != "/health"@ ==> r == ConnectorRoute::Proxy,
{
    proof {
        reveal_strlit("/");
        reveal_strlit("/health");
        assert("/"@.len() == 1);
        assert("/health"@.len() == 7);
    }
    let banner = String::from_str("/");
    let health = String::from_str("/health");
    if path.eq(&banner) {
        ConnectorRoute::Banner
    } else if path.eq(&health) {
        ConnectorRoute::Health
    } else {
        ConnectorRoute::Proxy
    }
}

/// What admission owes: the token must verify, and it must have been
/// minted for the very target this connector fronts.
pub open spec fn spec_admit(
    t: SessionToken,
    key: TokenKey,
    entries: Seq<DenyEntry>,
    now: i64,
    target: Seq<char>,
) -> AdmitDecision {
    match spec_verify(t, key, entries, now) {
        Err(e) => AdmitDecision::Rejected { error: e },
        Ok(()) => if t.resource_target@ == target {
            AdmitDecision::PathOpen
        } else {
            AdmitDecision::Rejected { error: TokenError::TokenInvalid }
        },
    }
}

/// Decides whether a request carried by this credential may reach the
/// protected target.
pub fn admit_request(
    t: &SessionToken,
    key: &TokenKey,
    denylist: &Vec<DenyEntry>,
    now: i64,
    target: &String,
) -> (r: AdmitDecision)
    ensures
        r == spec_admit(*t, *key, denylist@, now, target@),
{
    match verify_token(t, key, denylist, now) {
        Err(e) => AdmitDecision::Rejected { error: e },
        Ok(()) => {
            if t.resource_target.eq(target) {
                AdmitDecision::PathOpen
            } else {
                AdmitDecision::Rejected { error: TokenError::TokenInvalid }
            }
        },
    }
}

/// Derives the authorization and token endpoints from the identity
/// provider's base URL.
pub fn oauth_endpoints(base: &String) -> (r: (String, String))
    ensures
        r.0@ == base@ + "/authorize"@,
        r.1@ == base@ + "/token"@,
{
    let authorize = base.clone().concat("/authorize");
    let token = base.clone().concat("/token");
    (authorize, token)
}

} // verus!
