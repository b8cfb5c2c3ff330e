//! The tunnel broker.
//!
//! On an allowed decision it mints a pair of keyed, tagged session tokens —
//! one per connector — that carry the session id, resource target, scope
//! and expiry, so each connector verifies authenticity and freshness
//! locally. Verification also consults the revocation denylist, so a
//! revoked session's token is refused until its natural expiry would have
//! passed, and is expired afterwards: it is never accepted again.

use vstd::prelude::*;

verus! {

use vstd::wrapping::u64_specs;
use crate::policy::{Resource, Scope};
use crate::posture::str_bytes;
use crate::session::{DenyEntry, Session, SessionManager, SessionState};

/// The symmetric key the control plane shares with both connectors.
#[derive(Clone, Copy, Debug)]
pub struct TokenKey {
    pub k0: u64,
    pub k1: u64,
}

/// Which connector a credential was minted for.
#[derive(Clone, Copy, Debug, PartialEq, Eq, Structural)]
pub enum CredentialRole {
    Client,
    Application,
}

/// A signed, short-lived credential bound to one session.
#[derive(Debug)]
pub struct SessionToken {
    pub session_id: u64,
    pub resource_target: String,
    pub scope: Scope,
    pub expires_at: i64,
    pub role: CredentialRole,
    /// The session's renewal generation this token belongs to; a renewal
    /// invalidates the tokens of earlier generations.
    pub generation: u64,
    pub tag: u64,
}

/// The pair of credentials the broker hands out, one per connector.
#[derive(Debug)]
pub struct BrokeredCredentials {
    pub client_credential: SessionToken,
    pub app_credential: SessionToken,
}

/// Why a token was refused.
#[derive(Clone, Copy, Debug, PartialEq, Eq, Structural)]
pub enum TokenError {
    TokenInvalid,
    TokenExpired,
    TokenRevoked,
}

/// The starting value of the tag fold.
pub const TAG_BASIS: u64 = 0xcbf29ce484222325;

/// One mixing step of the token tag.
pub open spec fn mix(acc: u64, x: u64) -> u64 {
    u64_specs::wrapping_mul(acc ^ x, 0x100000001b3)
}

/// The tag fold over a byte string.
pub open spec fn spec_hash_bytes(acc: u64, bytes: Seq<u8>) -> u64
    decreases bytes.len(),
{
    if bytes.len() == 0 {
        acc
    } else {
        spec_hash_bytes(mix(acc, bytes[0] as u64), bytes.skip(1))
    }
}

/// A non-negative expiry folded into the tag.
pub open spec fn expiry_word(e: i64) -> u64 {
    if e >= 0 {
        e as u64
    } else {
        0
    }
}

/// The scope's word in the tag.
pub open spec fn scope_word(s: Scope) -> u64 {
    if s == Scope::ReadOnly {
        1
    } else {
        2
    }
}

/// The role's word in the tag.
pub open spec fn role_word(r: CredentialRole) -> u64 {
    if r == CredentialRole::Client {
        1
    } else {
        2
    }
}

/// The tag a genuine token carries: a keyed fold over every field the
/// connectors rely on.
pub open spec fn spec_token_tag(
    key: TokenKey,
    session_id: u64,
    target: Seq<u8>,
    scope: Scope,
    expires_at: i64,
    role: CredentialRole,
    generation: u64,
) -> u64 {
    spec_hash_bytes(
        mix(
            mix(
                mix(
                    mix(
                        mix(mix(mix(TAG_BASIS, key.k0), key.k1), session_id),
                        expiry_word(expires_at),
                    ),
                    scope_word(scope),
                ),
                role_word(role),
            ),
            generation,
        ),
        target,
    )
}

/// The tag this token's own fields demand under the key.
pub open spec fn spec_tag_of(t: SessionToken, key: TokenKey) -> u64 {
    spec_token_tag(
        key,
        t.session_id,
        str_bytes(t.resource_target@),
        t.scope,
        t.expires_at,
        t.role,
        t.generation,
    )
}

/// Computes one mixing step.
fn mix64(acc: u64, x: u64) -> (r: u64)
    ensures
        r == mix(acc, x),
{
    (acc ^ x).wrapping_mul(0x100000001b3)
}

/// Computes the tag fold over a byte slice.
fn hash_bytes(start: u64, bytes: &[u8]) -> (r: u64)
    ensures
        r == spec_hash_bytes(start, bytes@),
{
    let mut acc = start;
    let mut i: usize = 0;
    proof {
        assert(bytes@.skip(0) =~= bytes@);
    }
    while i < bytes.len()
        invariant
            0 <= i <= bytes@.len(),
            spec_hash_bytes(start, bytes@) == spec_hash_bytes(acc, bytes@.skip(i as int)),
        decreases bytes@.len() - i,
    {
        proof {
            assert(bytes@.skip(i as int)[0] == bytes@[i as int]);
            assert(bytes@.skip(i as int).skip(1) =~= bytes@.skip(i as int + 1));
        }
        acc = mix64(acc, bytes[i] as u64);
        i = i + 1;
    }
    proof {
        assert(bytes@.skip(i as int).len() == 0);
    }
    acc
}

/// Computes the tag of a token's fields.
fn token_tag(
    key: &TokenKey,
    session_id: u64,
    target: &String,
    scope: Scope,
    expires_at: i64,
    role: CredentialRole,
    generation: u64,
) -> (r: u64)
    ensures
        r == spec_token_tag(
            *key,
            session_id,
            str_bytes(target@),
            scope,
            expires_at,
            role,
            generation,
        ),
{
    let expiry = if expires_at >= 0 {
        expires_at as u64
    } else {
        0u64
    };
    let scope_w: u64 = if scope == Scope::ReadOnly {
        1
    } else {
        2
    };
    let role_w: u64 = if role == CredentialRole::Client {
        1
    } else {
        2
    };
    let acc = mix64(
        mix64(
            mix64(
                mix64(mix64(mix64(mix64(TAG_BASIS, key.k0), key.k1), session_id), expiry),
                scope_w,
            ),
            role_w,
        ),
        generation,
    );
    hash_bytes(acc, target.as_str().as_bytes())
}

/// Mints the credential of one connector for an active session. A token is
/// never issued for a session outside `Active`.
pub fn issue_token(s: &Session, target: &String, key: &TokenKey, role: CredentialRole) -> (t:
    SessionToken)
    requires
        s.state == SessionState::Active,
    ensures
        t.session_id == s.id,
        t.resource_target@ == target@,
        t.scope == s.scope,
        t.expires_at == s.expires_at,
        t.role == role,
        t.generation == s.generation,
        t.tag == spec_tag_of(t, *key),
{
    let tag = token_tag(key, s.id, target, s.scope, s.expires_at, role, s.generation);
    SessionToken {
        session_id: s.id,
        resource_target: target.clone(),
        scope: s.scope,
        expires_at: s.expires_at,
        role,
        generation: s.generation,
        tag,
    }
}

/// Brokers an active session: both connectors receive a credential for the
/// resource's network target, and each carries the session's scope and
/// expiry under the shared key.
pub fn broker(s: &Session, resource: &Resource, key: &TokenKey) -> (r: BrokeredCredentials)
    requires
        s.state == SessionState::Active,
        s.resource_id@ == resource.resource_id@,
    ensures
        r.client_credential.session_id == s.id,
        r.client_credential.resource_target@ == resource.network_target@,
        r.client_credential.scope == s.scope,
        r.client_credential.expires_at == s.expires_at,
        r.client_credential.role == CredentialRole::Client,
        r.client_credential.generation == s.generation,
        r.client_credential.tag == spec_tag_of(r.client_credential, *key),
        r.app_credential.session_id == s.id,
        r.app_credential.resource_target@ == resource.network_target@,
        r.app_credential.scope == s.scope,
        r.app_credential.expires_at == s.expires_at,
        r.app_credential.role == CredentialRole::Application,
        r.app_credential.generation == s.generation,
        r.app_credential.tag == spec_tag_of(r.app_credential, *key),
{
    let client_credential = issue_token(s, &resource.network_target, key, CredentialRole::Client);
    let app_credential = issue_token(s, &resource.network_target, key, CredentialRole::Application);
    BrokeredCredentials { client_credential, app_credential }
}

/// Whether the denylist refuses a token of this session and generation at
/// this instant.
pub open spec fn spec_denylist_hit(entries: Seq<DenyEntry>, id: u64, generation: u64, now: i64) -> bool {
    exists|k: int|
        0 <= k < entries.len() && entries[k].session_id == id && entries[k].until >= now
            && generation <= entries[k].max_generation
}

/// What verification owes: a token is accepted exactly when its tag is
/// genuine, its expiry has not passed, and its session is not denylisted;
/// each failure has its fixed error, in that order of precedence.
pub open spec fn spec_verify(
    t: SessionToken,
    key: TokenKey,
    entries: Seq<DenyEntry>,
    now: i64,
) -> Result<(), TokenError> {
    if t.tag != spec_tag_of(t, key) {
        Err(TokenError::TokenInvalid)
    } else if now > t.expires_at {
        Err(TokenError::TokenExpired)
    } else if spec_denylist_hit(entries, t.session_id, t.generation, now) {
        Err(TokenError::TokenRevoked)
    } else {
        Ok(())
    }
}

/// Verifies a token locally: authenticity by the key, freshness by the
/// clock, and revocation by the denylist snapshot the connector last
/// fetched.
pub fn verify_token(t: &SessionToken, key: &TokenKey, denylist: &Vec<DenyEntry>, now: i64) -> (r:
    Result<(), TokenError>)
    ensures
        r == spec_verify(*t, *key, denylist@, now),
{
    let tag = token_tag(
        key,
        t.session_id,
        &t.resource_target,
        t.scope,
        t.expires_at,
        t.role,
        t.generation,
    );
    if t.tag != tag {
        return Err(TokenError::TokenInvalid);
    }
    if now > t.expires_at {
        return Err(TokenError::TokenExpired);
    }
    let mut k: usize = 0;
    while k < denylist.len()
        invariant
            0 <= k <= denylist@.len(),
            t.tag == spec_tag_of(*t, *key),
            now <= t.expires_at,
            forall|j: int|
                0 <= j < k ==> !(denylist@[j].session_id == t.session_id && denylist@[j].until
                    >= now && t.generation <= denylist@[j].max_generation),
        decreases denylist@.len() - k,
    {
        if denylist[k].session_id == t.session_id && denylist[k].until >= now && t.generation
            <= denylist[k].max_generation {
            proof {
                assert(denylist@[k as int].session_id == t.session_id && denylist@[k as int].until
                    >= now && t.generation <= denylist@[k as int].max_generation);
                assert(spec_denylist_hit(denylist@, t.session_id, t.generation, now));
            }
            return Err(TokenError::TokenRevoked);
        }
        k = k + 1;
    }
    Ok(())
}

/// Round trip: a genuine token verified before its expiry, with its
/// session not denylisted, is accepted — and it carries exactly the fields
/// it was minted with, which `issue_token` ties to the session.
pub proof fn lemma_token_round_trip(
    t: SessionToken,
    key: TokenKey,
    entries: Seq<DenyEntry>,
    now: i64,
)
    requires
        t.tag == spec_tag_of(t, key),
        now <= t.expires_at,
        !spec_denylist_hit(entries, t.session_id, t.generation, now),
    ensures
        spec_verify(t, key, entries, now) == Ok::<(), TokenError>(()),
{
}

/// Revocation propagates: once its session is revoked in a valid manager,
/// a token with that session's id and expiry verifies at no instant
/// against the manager's denylist — refused as revoked until the natural
/// expiry would have passed, and as expired afterwards.
pub proof fn lemma_revoked_token_never_verifies(
    m: SessionManager,
    i: int,
    t: SessionToken,
    key: TokenKey,
    now: i64,
)
    requires
        m.wf(),
        0 <= i < m.sessions@.len(),
        m.sessions@[i].state == SessionState::Revoked,
        t.session_id == m.sessions@[i].id,
        t.expires_at == m.sessions@[i].expires_at,
    ensures
        spec_verify(t, key, m.denylist@, now) is Err,
{
    if t.tag == spec_tag_of(t, key) && now <= t.expires_at {
        let k = choose|k: int|
            0 <= k < m.denylist@.len() && m.denylist@[k].session_id == m.sessions@[i].id
                && m.denylist@[k].until >= m.sessions@[i].expires_at && m.denylist@[k].max_generation
                == u64::MAX;
        assert(m.denylist@[k].until >= now);
        assert(spec_denylist_hit(m.denylist@, t.session_id, t.generation, now));
    }
}

/// A superseded token never verifies: once the denylist holds an entry
/// that covers a token's generation and lasts to its expiry — as a
/// successful renewal records for the generations it replaced — the token
/// is refused at every instant, first by the denylist and past its expiry
/// by the clock.
pub proof fn lemma_superseded_token_never_verifies(
    entries: Seq<DenyEntry>,
    k: int,
    t: SessionToken,
    key: TokenKey,
    now: i64,
)
    requires
        0 <= k < entries.len(),
        entries[k].session_id == t.session_id,
        entries[k].until >= t.expires_at,
        t.generation <= entries[k].max_generation,
    ensures
        spec_verify(t, key, entries, now) is Err,
{
    if t.tag == spec_tag_of(t, key) && now <= t.expires_at {
        assert(entries[k].until >= now);
        assert(spec_denylist_hit(entries, t.session_id, t.generation, now));
    }
}

} // verus!
