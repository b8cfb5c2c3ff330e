//! The session manager.
//!
//! It owns the authoritative record of every brokered session and its state
//! machine: `Pending` on an allow decision, `Active` once both connectors
//! acknowledged, `Renewing` while a renewal is re-evaluated, and the two
//! terminal states `Expired` and `Revoked`. At most one non-terminal
//! session exists per (principal, device, resource) triple; creating a new
//! one supersedes and revokes the prior one. A session's expiry never
//! exceeds the principal's credential expiry nor the device's trust window,
//! and revocation is final: a revoked session's token is denylisted until
//! its natural expiry would have passed. A successful renewal extends the
//! session under the same bounds and immediately invalidates the tokens of
//! earlier generations.

use vstd::prelude::*;

verus! {

use crate::{min_i64, min64, sat_add_spec, saturating_add_i64};
use crate::policy::{
    DenyReason, Decision, EngineConfig, Outcome, Principal, Resource, Scope, evaluate,
    expected_issues, opt_value, spec_outcome,
};
use crate::posture::{IssueCode, PostureVerdict};

/// The lifecycle state of a session.
#[derive(Clone, Copy, Debug, PartialEq, Eq, Structural)]
pub enum SessionState {
    Pending,
    Active,
    Renewing,
    Expired,
    Revoked,
}

impl SessionState {
    /// The wire form of the state, stable across releases.
    pub fn code(&self) -> (r: String)
        ensures
            *self == SessionState::Pending ==> r@ == "pending"@,
            *self == SessionState::Active ==> r@ == "active"@,
            *self == SessionState::Renewing ==> r@ == "renewing"@,
            *self == SessionState::Expired ==> r@ == "expired"@,
            *self == SessionState::Revoked ==> r@ == "revoked"@,
    {
        match self {
            SessionState::Pending => "pending".to_owned(),
            SessionState::Active => "active".to_owned(),
            SessionState::Renewing => "renewing".to_owned(),
            SessionState::Expired => "expired".to_owned(),
            SessionState::Revoked => "revoked".to_owned(),
        }
    }
}

/// Why a session was revoked.
#[derive(Clone, Copy, Debug, PartialEq, Eq, Structural)]
pub enum RevocationReason {
    Administrative,
    PolicyChange,
    PostureFailure,
    RenewalDenied,
    Superseded,
}

/// A session is finished once it expired or was revoked; neither state is
/// ever left.
pub open spec fn is_terminal(s: SessionState) -> bool {
    s == SessionState::Expired || s == SessionState::Revoked
}

/// The authoritative record that one principal, on one device, is
/// authorized for one resource, with bounded lifetime.
#[derive(Debug)]
pub struct Session {
    pub id: u64,
    pub principal_id: String,
    pub device_id: String,
    pub resource_id: String,
    pub state: SessionState,
    pub scope: Scope,
    /// Counts the successful renewals; each one invalidates the tokens of
    /// earlier generations.
    pub generation: u64,
    pub issued_at: i64,
    pub expires_at: i64,
    pub last_renewed_at: i64,
    /// The credential expiry of the principal the session was granted to.
    pub principal_expiry: i64,
    /// The end of the device trust window the grant rested on.
    pub trust_window_end: i64,
    pub revocation_reason: Option<RevocationReason>,
}

impl Session {
    /// Validity of one record: the expiry respects both lifetime bounds,
    /// and exactly the revoked sessions carry a revocation reason.
    pub open spec fn wf(&self) -> bool {
        &&& self.expires_at <= self.principal_expiry
        &&& self.expires_at <= self.trust_window_end
        &&& (self.state == SessionState::Revoked <==> self.revocation_reason is Some)
    }

    pub open spec fn non_terminal(&self) -> bool {
        !is_terminal(self.state)
    }

    /// Whether two records speak of the same (principal, device, resource)
    /// triple.
    pub open spec fn same_triple(&self, other: Session) -> bool {
        self.principal_id@ == other.principal_id@ && self.device_id@ == other.device_id@
            && self.resource_id@ == other.resource_id@
    }
}

/// The record `s` after revocation for `reason`.
pub open spec fn revoked_version(s: Session, reason: RevocationReason) -> Session {
    Session { state: SessionState::Revoked, revocation_reason: Some(reason), ..s }
}

/// The record `s` after its lifetime ran out.
pub open spec fn expired_version(s: Session) -> Session {
    Session { state: SessionState::Expired, ..s }
}

/// The record `s` while a renewal is in flight.
pub open spec fn renewing_version(s: Session) -> Session {
    Session { state: SessionState::Renewing, ..s }
}

/// The record `s` after both connectors acknowledged.
pub open spec fn activated_version(s: Session) -> Session {
    Session { state: SessionState::Active, ..s }
}

/// The expiry granted at creation or renewal: bounded by the granted
/// lifetime, the credential expiry and the device trust window.
pub open spec fn spec_expiry(
    now: i64,
    ttl: i64,
    principal_expiry: i64,
    assessed_at: i64,
    trust_window: i64,
) -> i64 {
    min_i64(
        min_i64(sat_add_spec(now, ttl), principal_expiry),
        sat_add_spec(assessed_at, trust_window),
    )
}

/// The generation after one more successful renewal.
pub open spec fn next_generation(g: u64) -> u64 {
    if g < u64::MAX {
        (g + 1) as u64
    } else {
        g
    }
}

/// The record `s` after a successful renewal.
pub open spec fn renewed_version(
    s: Session,
    scope: Scope,
    ttl: i64,
    principal_expiry: i64,
    assessed_at: i64,
    trust_window: i64,
    now: i64,
) -> Session {
    Session {
        state: SessionState::Active,
        scope,
        generation: next_generation(s.generation),
        expires_at: spec_expiry(now, ttl, principal_expiry, assessed_at, trust_window),
        last_renewed_at: now,
        principal_expiry,
        trust_window_end: sat_add_spec(assessed_at, trust_window),
        ..s
    }
}

/// One entry of the token denylist: until the `until` instant the entry
/// refuses every token of the session whose generation is at most
/// `max_generation`. Revocation entries refuse every generation; renewal
/// entries refuse the generations the renewal superseded.
#[derive(Clone, Copy, Debug)]
pub struct DenyEntry {
    pub session_id: u64,
    pub until: i64,
    pub max_generation: u64,
}

/// Whether the denylist refuses every token of session `id`, whatever its
/// generation, at least to the instant `until`.
pub open spec fn denylisted(entries: Seq<DenyEntry>, id: u64, until: i64) -> bool {
    exists|k: int|
        0 <= k < entries.len() && entries[k].session_id == id && entries[k].until >= until
            && entries[k].max_generation == u64::MAX
}

/// How a request to create a session fails.
#[derive(Debug)]
pub enum AccessError {
    /// The presented credential is expired; surfaced to the caller, no
    /// session is created.
    AuthenticationFailure,
    /// The policy denied the request; `issues` carries the device's issue
    /// codes when the reason is `DeviceNoncompliant`.
    PolicyDenied { reason: DenyReason, issues: Vec<IssueCode> },
}

/// How a renewal fails.
#[derive(Debug)]
pub enum RenewError {
    NotFound,
    Revoked,
    Expired,
    NotActive,
    RenewalInProgress,
    Denied { reason: DenyReason, issues: Vec<IssueCode> },
}

/// How an explicit revocation fails.
#[derive(Debug)]
pub enum RevokeError {
    NotFound,
    AlreadyTerminal,
}

/// How an activation fails.
#[derive(Debug)]
pub enum ActivationError {
    NotFound,
    Expired,
    Revoked,
    NotPending,
}

/// The session manager: the only stateful component. Operations on one
/// session id are linearized by taking the manager exclusively.
#[derive(Debug)]
pub struct SessionManager {
    pub sessions: Vec<Session>,
    pub denylist: Vec<DenyEntry>,
    pub next_id: u64,
}

impl SessionManager {
    /// The manager's invariant: every record is valid, ids are unique and
    /// below the creation counter, at most one non-terminal session exists
    /// per triple, and every revoked session is denylisted until its
    /// natural expiry.
    pub open spec fn wf(&self) -> bool {
        &&& forall|i: int| 0 <= i < self.sessions@.len() ==> (#[trigger] self.sessions@[i]).wf()
        &&& forall|i: int|
            0 <= i < self.sessions@.len() ==> (#[trigger] self.sessions@[i]).id < self.next_id
        &&& forall|i: int, j: int|
            0 <= i < self.sessions@.len() && 0 <= j < self.sessions@.len() && i != j
                ==> #[trigger] self.sessions@[i].id != #[trigger] self.sessions@[j].id
        &&& forall|i: int, j: int|
            0 <= i < self.sessions@.len() && 0 <= j < self.sessions@.len() && i != j
                && self.sessions@[i].same_triple(self.sessions@[j]) ==> !(
            #[trigger] self.sessions@[i].non_terminal() && #[trigger] self.sessions@[j].non_terminal())
        &&& forall|i: int|
            0 <= i < self.sessions@.len() && (#[trigger] self.sessions@[i]).state
                == SessionState::Revoked ==> denylisted(
                self.denylist@,
                self.sessions@[i].id,
                self.sessions@[i].expires_at,
            )
    }

    /// An empty manager.
    pub fn new() -> (r: Self)
        ensures
            r.wf(),
            r.sessions@.len() == 0,
            r.denylist@.len() == 0,
            r.next_id == 0,
    {
        SessionManager { sessions: Vec::new(), denylist: Vec::new(), next_id: 0 }
    }

    /// The position of the session with this id, if any.
    fn find_by_id(&self, id: u64) -> (r: Option<usize>)
        ensures
            match r {
                Some(i) => i < self.sessions@.len() && self.sessions@[i as int].id == id,
                None => forall|j: int|
                    0 <= j < self.sessions@.len() ==> self.sessions@[j].id != id,
            },
    {
        let mut i: usize = 0;
        while i < self.sessions.len()
            invariant
                0 <= i <= self.sessions@.len(),
                forall|j: int| 0 <= j < i ==> self.sessions@[j].id != id,
            decreases self.sessions@.len() - i,
        {
            if self.sessions[i].id == id {
                return Some(i);
            }
            i = i + 1;
        }
        None
    }

    /// Reads the session with this id.
    pub fn get_session(&self, id: u64) -> (r: Option<&Session>)
        ensures
            match r {
                Some(s) => s.id == id && exists|i: int|
                    0 <= i < self.sessions@.len() && self.sessions@[i] == *s,
                None => forall|j: int|
                    0 <= j < self.sessions@.len() ==> self.sessions@[j].id != id,
            },
    {
        match self.find_by_id(id) {
            Some(i) => {
                let s = &self.sessions[i];
                proof {
                    assert(self.sessions@[i as int] == *s);
                }
                Some(s)
            },
            None => None,
        }
    }

    /// Moves the session at `i` to `Revoked` and denylists its token until
    /// its natural expiry.
    fn mark_revoked(&mut self, i: usize, reason: RevocationReason)
        requires
            i < old(self).sessions@.len(),
        ensures
            final(self).sessions@ == old(self).sessions@.update(
                i as int,
                revoked_version(old(self).sessions@[i as int], reason),
            ),
            final(self).denylist@ == old(self).denylist@.push(
                (DenyEntry {
                    session_id: old(self).sessions@[i as int].id,
                    until: old(self).sessions@[i as int].expires_at,
                    max_generation: u64::MAX,
                }),
            ),
            final(self).next_id == old(self).next_id,
    {
        let entry = DenyEntry {
            session_id: self.sessions[i].id,
            until: self.sessions[i].expires_at,
            max_generation: u64::MAX,
        };
        self.denylist.push(entry);
        self.sessions[i].state = SessionState::Revoked;
        self.sessions[i].revocation_reason = Some(reason);
        proof {
            assert(final(self).sessions@ =~= old(self).sessions@.update(
                i as int,
                revoked_version(old(self).sessions@[i as int], reason),
            ));
        }
    }

    /// The position of the non-terminal session for the triple, if any.
    fn find_conflict(&self, principal_id: &String, device_id: &String, resource_id: &String) -> (r:
        Option<usize>)
        ensures
            match r {
                Some(i) => i < self.sessions@.len() && self.sessions@[i as int].non_terminal()
                    && self.sessions@[i as int].principal_id@ == principal_id@
                    && self.sessions@[i as int].device_id@ == device_id@
                    && self.sessions@[i as int].resource_id@ == resource_id@,
                None => forall|j: int|
                    0 <= j < self.sessions@.len() ==> !((#[trigger] self.sessions@[j]).non_terminal()
                        && self.sessions@[j].principal_id@ == principal_id@
                        && self.sessions@[j].device_id@ == device_id@
                        && self.sessions@[j].resource_id@ == resource_id@),
            },
    {
        let mut i: usize = 0;
        while i < self.sessions.len()
            invariant
                0 <= i <= self.sessions@.len(),
                forall|j: int|
                    0 <= j < i ==> !((#[trigger] self.sessions@[j]).non_terminal()
                        && self.sessions@[j].principal_id@ == principal_id@
                        && self.sessions@[j].device_id@ == device_id@
                        && self.sessions@[j].resource_id@ == resource_id@),
            decreases self.sessions@.len() - i,
        {
            let s = &self.sessions[i];
            let terminal = s.state == SessionState::Expired || s.state == SessionState::Revoked;
            if !terminal && principal_id.eq(&s.principal_id) && device_id.eq(&s.device_id)
                && resource_id.eq(&s.resource_id) {
                return Some(i);
            }
            i = i + 1;
        }
        None
    }

    /// Decides one access request and, on allow, creates the brokered
    /// session.
    ///
    /// An expired credential is an authentication failure and creates no
    /// session; any policy denial is surfaced with its reason code and
    /// creates no session. On allow, a prior non-terminal session for the
    /// same triple is superseded (revoked and denylisted), and the new
    /// session starts `Pending` with its expiry bounded by the granted
    /// lifetime, the credential expiry and the device trust window.
    pub fn request_access(
        &mut self,
        p: &Principal,
        device_id: &String,
        resource: &Resource,
        posture: Option<&PostureVerdict>,
        cfg: &EngineConfig,
        now: i64,
    ) -> (r: Result<u64, AccessError>)
        requires
            old(self).wf(),
            cfg.wf(),
            old(self).next_id < u64::MAX,
        ensures
            final(self).wf(),
            final(self).denylist@.len() >= old(self).denylist@.len(),
            (forall|k: int|
                0 <= k < old(self).denylist@.len() ==> final(self).denylist@[k] == old(
                    self,
                ).denylist@[k]),
            ({
                let o = spec_outcome(*p, opt_value(posture), *resource, *cfg, now);
                match o {
                    Outcome::Denied { reason } => {
                        &&& *final(self) == *old(self)
                        &&& (reason == DenyReason::CredentialExpired ==> r matches Err(
                            AccessError::AuthenticationFailure,
                        ))
                        &&& (reason != DenyReason::CredentialExpired ==> (r matches Err(
                            AccessError::PolicyDenied { reason: q, issues },
                        ) && q == reason && issues@ == expected_issues(reason, opt_value(posture))))
                    },
                    Outcome::Granted { scope, ttl } => {
                        &&& r == Ok::<u64, AccessError>(old(self).next_id)
                        &&& final(self).next_id == old(self).next_id + 1
                        &&& final(self).sessions@.len() == old(self).sessions@.len() + 1
                        &&& ({
                            let s = final(self).sessions@.last();
                            let v = opt_value(posture)->Some_0;
                            &&& s.id == old(self).next_id
                            &&& s.principal_id@ == p.user_id@
                            &&& s.device_id@ == device_id@
                            &&& s.resource_id@ == resource.resource_id@
                            &&& s.state == SessionState::Pending
                            &&& s.scope == scope
                            &&& s.generation == 0
                            &&& s.issued_at == now
                            &&& s.expires_at == spec_expiry(
                                now,
                                ttl,
                                p.expires_at,
                                v.assessed_at,
                                cfg.trust_window,
                            )
                            &&& s.principal_expiry == p.expires_at
                            &&& s.trust_window_end == sat_add_spec(v.assessed_at, cfg.trust_window)
                            &&& s.revocation_reason is None
                        })
                        &&& (forall|j: int|
                            0 <= j < old(self).sessions@.len() ==> {
                                let olds = #[trigger] old(self).sessions@[j];
                                if olds.non_terminal() && olds.same_triple(
                                    final(self).sessions@.last(),
                                ) {
                                    final(self).sessions@[j] == revoked_version(
                                        olds,
                                        RevocationReason::Superseded,
                                    )
                                } else {
                                    final(self).sessions@[j] == olds
                                }
                            })
                    },
                }
            }),
    {
        let decision = evaluate(p, posture, resource, cfg, now);
        match decision {
            Decision::Deny { reason, issues } => {
                if reason == DenyReason::CredentialExpired {
                    Err(AccessError::AuthenticationFailure)
                } else {
                    Err(AccessError::PolicyDenied { reason, issues })
                }
            },
            Decision::Allow { scope, ttl } => {
                let v = match posture {
                    Some(v) => v,
                    None => {
                        proof {
                            assert(false);
                        }
                        return Err(AccessError::AuthenticationFailure);
                    },
                };
                let conflict = self.find_conflict(&p.user_id, device_id, &resource.resource_id);
                match conflict {
                    Some(j) => self.mark_revoked(j, RevocationReason::Superseded),
                    None => {},
                }
                let lifetime_end = saturating_add_i64(now, ttl);
                let window_end = saturating_add_i64(v.assessed_at, cfg.trust_window);
                let expires_at = min64(min64(lifetime_end, p.expires_at), window_end);
                let id = self.next_id;
                let s = Session {
                    id,
                    principal_id: p.user_id.clone(),
                    device_id: device_id.clone(),
                    resource_id: resource.resource_id.clone(),
                    state: SessionState::Pending,
                    scope,
                    generation: 0,
                    issued_at: now,
                    expires_at,
                    last_renewed_at: now,
                    principal_expiry: p.expires_at,
                    trust_window_end: window_end,
                    revocation_reason: None,
                };
                self.sessions.push(s);
                self.next_id = id + 1;
                proof {
                    let news = final(self).sessions@.last();
                    let olds = old(self).sessions@;
                    let finals = final(self).sessions@;
                    assert(finals.len() == olds.len() + 1);
                    assert forall|i: int|
                        0 <= i < finals.len() implies (#[trigger] finals[i]).wf() by {
                        if i < olds.len() {
                            assert(olds[i].wf());
                        }
                    }
                    assert forall|i: int, j: int|
                        0 <= i < finals.len() && 0 <= j < finals.len() && i != j
                            && finals[i].same_triple(finals[j]) implies !(
                        #[trigger] finals[i].non_terminal()
                            && #[trigger] finals[j].non_terminal()) by {
                        if i < olds.len() && j < olds.len() {
                            assert(!(olds[i].non_terminal() && olds[j].non_terminal()));
                        } else if i < olds.len() && j == olds.len() {
                            if finals[i].non_terminal() {
                                assert(olds[i].non_terminal() && olds[i].same_triple(news));
                                assert(false);
                            }
                        } else if j < olds.len() && i == olds.len() {
                            if finals[j].non_terminal() {
                                assert(olds[j].non_terminal() && olds[j].same_triple(news));
                                assert(false);
                            }
                        }
                    }
                    assert forall|i: int|
                        0 <= i < finals.len() && (#[trigger] finals[i]).state
                            == SessionState::Revoked implies denylisted(
                        final(self).denylist@,
                        finals[i].id,
                        finals[i].expires_at,
                    ) by {
                        if i < olds.len() {
                            if olds[i].state == SessionState::Revoked {
                                let k = choose|k: int|
                                    0 <= k < old(self).denylist@.len() && old(
                                        self,
                                    ).denylist@[k].session_id == olds[i].id && old(
                                        self,
                                    ).denylist@[k].until >= olds[i].expires_at && old(
                                        self,
                                    ).denylist@[k].max_generation == u64::MAX;
                                assert(final(self).denylist@[k].session_id == finals[i].id);
                                assert(final(self).denylist@[k].until >= finals[i].expires_at);
                                assert(final(self).denylist@[k].max_generation == u64::MAX);
                            } else {
                                match conflict {
                                    Some(j) => {
                                        assert(i == j as int);
                                        let k = old(self).denylist@.len() as int;
                                        assert(final(self).denylist@[k].session_id == finals[i].id);
                                        assert(final(self).denylist@[k].until
                                            >= finals[i].expires_at);
                                        assert(final(self).denylist@[k].max_generation
                                            == u64::MAX);
                                    },
                                    None => {
                                        assert(false);
                                    },
                                }
                            }
                        }
                    }
                }
                Ok(id)
            },
        }
    }

    /// Moves the session to `Active` once both connectors acknowledged the
    /// brokered tunnel. Only a `Pending` session that has not yet run out
    /// can be activated; one past its expiry is expired instead.
    pub fn confirm_activation(&mut self, id: u64, now: i64) -> (r: Result<(), ActivationError>)
        requires
            old(self).wf(),
        ensures
            final(self).wf(),
            final(self).next_id == old(self).next_id,
            final(self).denylist@ == old(self).denylist@,
            (forall|j: int|
                0 <= j < old(self).sessions@.len() ==> (#[trigger] old(self).sessions@[j]).id
                    != id) ==> (r matches Err(ActivationError::NotFound) && *final(self) == *old(
                self,
            )),
            forall|i: int|
                0 <= i < old(self).sessions@.len() && (#[trigger] old(self).sessions@[i]).id == id
                    ==> {
                    let s = old(self).sessions@[i];
                    if s.state == SessionState::Revoked {
                        r matches Err(ActivationError::Revoked) && *final(self) == *old(self)
                    } else if s.state == SessionState::Expired {
                        r matches Err(ActivationError::Expired) && *final(self) == *old(self)
                    } else if s.state != SessionState::Pending {
                        r matches Err(ActivationError::NotPending) && *final(self) == *old(self)
                    } else if now > s.expires_at {
                        r matches Err(ActivationError::Expired) && final(self).sessions@ == old(
                            self,
                        ).sessions@.update(i, expired_version(s))
                    } else {
                        r == Ok::<(), ActivationError>(()) && final(self).sessions@ == old(
                            self,
                        ).sessions@.update(i, activated_version(s))
                    }
                },
    {
        let i = match self.find_by_id(id) {
            None => {
                return Err(ActivationError::NotFound);
            },
            Some(i) => i,
        };
        let ghost pre = *self;
        let state = self.sessions[i].state;
        if state == SessionState::Revoked {
            return Err(ActivationError::Revoked);
        }
        if state == SessionState::Expired {
            return Err(ActivationError::Expired);
        }
        if state != SessionState::Pending {
            return Err(ActivationError::NotPending);
        }
        if now > self.sessions[i].expires_at {
            self.sessions[i].state = SessionState::Expired;
            proof {
                assert(self.sessions@ =~= pre.sessions@.update(
                    i as int,
                    expired_version(pre.sessions@[i as int]),
                ));
                lemma_wf_after_update(pre, *self, i as int);
            }
            return Err(ActivationError::Expired);
        }
        self.sessions[i].state = SessionState::Active;
        proof {
            assert(self.sessions@ =~= pre.sessions@.update(
                i as int,
                activated_version(pre.sessions@[i as int]),
            ));
            lemma_wf_after_update(pre, *self, i as int);
        }
        Ok(())
    }

    /// Starts a renewal: an `Active`, unexpired session moves to
    /// `Renewing`. A session past its expiry is expired instead; a revoked
    /// one stays revoked; while one renewal is in flight a second one is
    /// refused.
    pub fn begin_renewal(&mut self, id: u64, now: i64) -> (r: Result<(), RenewError>)
        requires
            old(self).wf(),
        ensures
            final(self).wf(),
            final(self).next_id == old(self).next_id,
            final(self).denylist@ == old(self).denylist@,
            (forall|j: int|
                0 <= j < old(self).sessions@.len() ==> (#[trigger] old(self).sessions@[j]).id
                    != id) ==> (r matches Err(RenewError::NotFound) && *final(self) == *old(self)),
            forall|i: int|
                0 <= i < old(self).sessions@.len() && (#[trigger] old(self).sessions@[i]).id == id
                    ==> {
                    let s = old(self).sessions@[i];
                    if s.state == SessionState::Revoked {
                        r matches Err(RenewError::Revoked) && *final(self) == *old(self)
                    } else if s.state == SessionState::Expired {
                        r matches Err(RenewError::Expired) && *final(self) == *old(self)
                    } else if now > s.expires_at {
                        r matches Err(RenewError::Expired) && final(self).sessions@ == old(
                            self,
                        ).sessions@.update(i, expired_version(s))
                    } else if s.state == SessionState::Renewing {
                        r matches Err(RenewError::RenewalInProgress) && *final(self) == *old(self)
                    } else if s.state == SessionState::Pending {
                        r matches Err(RenewError::NotActive) && *final(self) == *old(self)
                    } else {
                        r == Ok::<(), RenewError>(()) && final(self).sessions@ == old(
                            self,
                        ).sessions@.update(i, renewing_version(s))
                    }
                },
    {
        let i = match self.find_by_id(id) {
            None => {
                return Err(RenewError::NotFound);
            },
            Some(i) => i,
        };
        let ghost pre = *self;
        let state = self.sessions[i].state;
        if state == SessionState::Revoked {
            return Err(RenewError::Revoked);
        }
        if state == SessionState::Expired {
            return Err(RenewError::Expired);
        }
        if now > self.sessions[i].expires_at {
            self.sessions[i].state = SessionState::Expired;
            proof {
                assert(self.sessions@ =~= pre.sessions@.update(
                    i as int,
                    expired_version(pre.sessions@[i as int]),
                ));
                lemma_wf_after_update(pre, *self, i as int);
            }
            return Err(RenewError::Expired);
        }
        if state == SessionState::Renewing {
            return Err(RenewError::RenewalInProgress);
        }
        if state == SessionState::Pending {
            return Err(RenewError::NotActive);
        }
        self.sessions[i].state = SessionState::Renewing;
        proof {
            assert(self.sessions@ =~= pre.sessions@.update(
                i as int,
                renewing_version(pre.sessions@[i as int]),
            ));
            lemma_wf_after_update(pre, *self, i as int);
        }
        Ok(())
    }

    /// Finishes a renewal by re-invoking the policy decision point with a
    /// fresh posture verdict. On continued allow the session returns to
    /// `Active` with its expiry extended under the same bounds as at
    /// creation; on deny it is revoked and its token denylisted. A session
    /// revoked while the renewal was in flight stays revoked: revocation
    /// wins the tie.
    pub fn complete_renewal(
        &mut self,
        id: u64,
        p: &Principal,
        resource: &Resource,
        posture: &PostureVerdict,
        cfg: &EngineConfig,
        now: i64,
    ) -> (r: Result<(), RenewError>)
        requires
            old(self).wf(),
            cfg.wf(),
        ensures
            final(self).wf(),
            final(self).next_id == old(self).next_id,
            (forall|j: int|
                0 <= j < old(self).sessions@.len() ==> (#[trigger] old(self).sessions@[j]).id
                    != id) ==> (r matches Err(RenewError::NotFound) && *final(self) == *old(self)),
            forall|i: int|
                0 <= i < old(self).sessions@.len() && (#[trigger] old(self).sessions@[i]).id == id
                    ==> {
                    let s = old(self).sessions@[i];
                    if s.state == SessionState::Revoked {
                        r matches Err(RenewError::Revoked) && *final(self) == *old(self)
                    } else if s.state == SessionState::Expired {
                        r matches Err(RenewError::Expired) && *final(self) == *old(self)
                    } else if now > s.expires_at {
                        r matches Err(RenewError::Expired) && final(self).sessions@ == old(
                            self,
                        ).sessions@.update(i, expired_version(s)) && final(self).denylist@ == old(
                            self,
                        ).denylist@
                    } else if s.state != SessionState::Renewing {
                        r matches Err(RenewError::NotActive) && *final(self) == *old(self)
                    } else {
                        match spec_outcome(*p, Some(*posture), *resource, *cfg, now) {
                            Outcome::Granted { scope, ttl } => r == Ok::<(), RenewError>(())
                                && final(self).sessions@ == old(self).sessions@.update(
                                i,
                                renewed_version(
                                    s,
                                    scope,
                                    ttl,
                                    p.expires_at,
                                    posture.assessed_at,
                                    cfg.trust_window,
                                    now,
                                ),
                            ) && final(self).denylist@ == old(self).denylist@.push(
                                (DenyEntry {
                                    session_id: s.id,
                                    until: s.expires_at,
                                    max_generation: s.generation,
                                }),
                            ),
                            Outcome::Denied { reason } => (r matches Err(
                                RenewError::Denied { reason: q, issues },
                            ) && q == reason && issues@ == expected_issues(reason, Some(*posture)))
                                && final(self).sessions@ == old(self).sessions@.update(
                                i,
                                revoked_version(s, RevocationReason::RenewalDenied),
                            ) && final(self).denylist@ == old(self).denylist@.push(
                                (DenyEntry { session_id: s.id, until: s.expires_at, max_generation: u64::MAX }),
                            ),
                        }
                    }
                },
    {
        let i = match self.find_by_id(id) {
            None => {
                return Err(RenewError::NotFound);
            },
            Some(i) => i,
        };
        let ghost pre = *self;
        let state = self.sessions[i].state;
        if state == SessionState::Revoked {
            return Err(RenewError::Revoked);
        }
        if state == SessionState::Expired {
            return Err(RenewError::Expired);
        }
        if now > self.sessions[i].expires_at {
            self.sessions[i].state = SessionState::Expired;
            proof {
                assert(self.sessions@ =~= pre.sessions@.update(
                    i as int,
                    expired_version(pre.sessions@[i as int]),
                ));
                lemma_wf_after_update(pre, *self, i as int);
            }
            return Err(RenewError::Expired);
        }
        if state != SessionState::Renewing {
            return Err(RenewError::NotActive);
        }
        let decision = evaluate(p, Some(posture), resource, cfg, now);
        match decision {
            Decision::Allow { scope, ttl } => {
                let lifetime_end = saturating_add_i64(now, ttl);
                let window_end = saturating_add_i64(posture.assessed_at, cfg.trust_window);
                let expires_at = min64(min64(lifetime_end, p.expires_at), window_end);
                // The new token supersedes the old one at once: every
                // earlier generation is refused until the old expiry.
                let invalidated = DenyEntry {
                    session_id: self.sessions[i].id,
                    until: self.sessions[i].expires_at,
                    max_generation: self.sessions[i].generation,
                };
                self.denylist.push(invalidated);
                let g = self.sessions[i].generation;
                self.sessions[i].generation = if g < u64::MAX {
                    g + 1
                } else {
                    g
                };
                self.sessions[i].state = SessionState::Active;
                self.sessions[i].scope = scope;
                self.sessions[i].expires_at = expires_at;
                self.sessions[i].last_renewed_at = now;
                self.sessions[i].principal_expiry = p.expires_at;
                self.sessions[i].trust_window_end = window_end;
                proof {
                    assert(self.sessions@ =~= pre.sessions@.update(
                        i as int,
                        renewed_version(
                            pre.sessions@[i as int],
                            scope,
                            ttl,
                            p.expires_at,
                            posture.assessed_at,
                            cfg.trust_window,
                            now,
                        ),
                    ));
                    lemma_wf_after_update(pre, *self, i as int);
                }
                Ok(())
            },
            Decision::Deny { reason, issues } => {
                self.mark_revoked(i, RevocationReason::RenewalDenied);
                proof {
                    let k = pre.denylist@.len() as int;
                    assert(self.denylist@[k].session_id == self.sessions@[i as int].id);
                    assert(self.denylist@[k].until >= self.sessions@[i as int].expires_at);
                    lemma_wf_after_update(pre, *self, i as int);
                }
                Err(RenewError::Denied { reason, issues })
            },
        }
    }

    /// Revokes a non-terminal session outright (policy change, posture
    /// failure or administrative action) and denylists its token until its
    /// natural expiry would have passed. Terminal sessions are left as they
    /// are.
    pub fn revoke_session(&mut self, id: u64, reason: RevocationReason) -> (r: Result<
        (),
        RevokeError,
    >)
        requires
            old(self).wf(),
        ensures
            final(self).wf(),
            final(self).next_id == old(self).next_id,
            (forall|j: int|
                0 <= j < old(self).sessions@.len() ==> (#[trigger] old(self).sessions@[j]).id
                    != id) ==> (r matches Err(RevokeError::NotFound) && *final(self) == *old(self)),
            forall|i: int|
                0 <= i < old(self).sessions@.len() && (#[trigger] old(self).sessions@[i]).id == id
                    ==> {
                    let s = old(self).sessions@[i];
                    if is_terminal(s.state) {
                        r matches Err(RevokeError::AlreadyTerminal) && *final(self) == *old(self)
                    } else {
                        r == Ok::<(), RevokeError>(()) && final(self).sessions@ == old(
                            self,
                        ).sessions@.update(i, revoked_version(s, reason)) && final(self).denylist@
                            == old(self).denylist@.push(
                            (DenyEntry { session_id: s.id, until: s.expires_at, max_generation: u64::MAX }),
                        )
                    }
                },
    {
        let i = match self.find_by_id(id) {
            None => {
                return Err(RevokeError::NotFound);
            },
            Some(i) => i,
        };
        let ghost pre = *self;
        let state = self.sessions[i].state;
        if state == SessionState::Revoked || state == SessionState::Expired {
            return Err(RevokeError::AlreadyTerminal);
        }
        self.mark_revoked(i, reason);
        proof {
            let k = pre.denylist@.len() as int;
            assert(self.denylist@[k].session_id == self.sessions@[i as int].id);
            assert(self.denylist@[k].until >= self.sessions@[i as int].expires_at);
            lemma_wf_after_update(pre, *self, i as int);
        }
        Ok(())
    }

    /// Expires every non-terminal session whose lifetime has run out.
    pub fn expire_due(&mut self, now: i64)
        requires
            old(self).wf(),
        ensures
            final(self).wf(),
            final(self).next_id == old(self).next_id,
            final(self).denylist@ == old(self).denylist@,
            final(self).sessions@.len() == old(self).sessions@.len(),
            forall|j: int|
                0 <= j < old(self).sessions@.len() ==> final(self).sessions@[j] == (if (
                #[trigger] old(self).sessions@[j]).non_terminal() && now > old(
                    self,
                ).sessions@[j].expires_at {
                    expired_version(old(self).sessions@[j])
                } else {
                    old(self).sessions@[j]
                }),
    {
        let mut i: usize = 0;
        let n = self.sessions.len();
        while i < n
            invariant
                0 <= i <= n,
                n == old(self).sessions@.len(),
                self.sessions@.len() == n,
                self.denylist@ == old(self).denylist@,
                self.next_id == old(self).next_id,
                self.wf(),
                forall|j: int|
                    0 <= j < i ==> self.sessions@[j] == (if (
                    #[trigger] old(self).sessions@[j]).non_terminal() && now > old(
                        self,
                    ).sessions@[j].expires_at {
                        expired_version(old(self).sessions@[j])
                    } else {
                        old(self).sessions@[j]
                    }),
                forall|j: int| i <= j < n ==> self.sessions@[j] == old(self).sessions@[j],
            decreases n - i,
        {
            let ghost pre = *self;
            let s = &self.sessions[i];
            let terminal = s.state == SessionState::Expired || s.state == SessionState::Revoked;
            if !terminal && now > s.expires_at {
                self.sessions[i].state = SessionState::Expired;
                proof {
                    assert(self.sessions@ =~= pre.sessions@.update(
                        i as int,
                        expired_version(pre.sessions@[i as int]),
                    ));
                    lemma_wf_after_update(pre, *self, i as int);
                }
            }
            i = i + 1;
        }
    }
}

/// One update that keeps a session's identity and triple, moves its state
/// no closer to life, stays valid, and is denylisted if it became revoked,
/// keeps the whole manager valid.
proof fn lemma_wf_after_update(pre: SessionManager, post: SessionManager, i: int)
    requires
        pre.wf(),
        0 <= i < pre.sessions@.len(),
        post.sessions@.len() == pre.sessions@.len(),
        post.next_id == pre.next_id,
        forall|j: int|
            0 <= j < pre.sessions@.len() && j != i ==> post.sessions@[j] == pre.sessions@[j],
        post.sessions@[i].id == pre.sessions@[i].id,
        post.sessions@[i].same_triple(pre.sessions@[i]),
        pre.sessions@[i].same_triple(post.sessions@[i]),
        post.sessions@[i].wf(),
        post.sessions@[i].non_terminal() ==> pre.sessions@[i].non_terminal(),
        forall|k: int|
            0 <= k < pre.denylist@.len() ==> k < post.denylist@.len() && post.denylist@[k]
                == pre.denylist@[k],
        post.sessions@[i].state == SessionState::Revoked ==> denylisted(
            post.denylist@,
            post.sessions@[i].id,
            post.sessions@[i].expires_at,
        ),
    ensures
        post.wf(),
{
    assert forall|a: int, b: int|
        0 <= a < post.sessions@.len() && 0 <= b < post.sessions@.len() && a != b
            && post.sessions@[a].same_triple(post.sessions@[b]) implies !(
    #[trigger] post.sessions@[a].non_terminal() && #[trigger] post.sessions@[b].non_terminal()) by {
        if post.sessions@[a].non_terminal() && post.sessions@[b].non_terminal() {
            assert(pre.sessions@[a].non_terminal() && pre.sessions@[b].non_terminal());
            assert(pre.sessions@[a].same_triple(pre.sessions@[b]));
            assert(false);
        }
    }
    assert forall|a: int|
        0 <= a < post.sessions@.len() && (#[trigger] post.sessions@[a]).state
            == SessionState::Revoked implies denylisted(
        post.denylist@,
        post.sessions@[a].id,
        post.sessions@[a].expires_at,
    ) by {
        if a != i {
            assert(pre.sessions@[a].state == SessionState::Revoked);
            let k = choose|k: int|
                0 <= k < pre.denylist@.len() && pre.denylist@[k].session_id == pre.sessions@[a].id
                    && pre.denylist@[k].until >= pre.sessions@[a].expires_at
                    && pre.denylist@[k].max_generation == u64::MAX;
            assert(post.denylist@[k].session_id == post.sessions@[a].id);
            assert(post.denylist@[k].until >= post.sessions@[a].expires_at);
            assert(post.denylist@[k].max_generation == u64::MAX);
        }
    }
}

/// A session's expiry never exceeds the principal's credential expiry nor
/// the end of the device trust window the grant rested on; the bound holds
/// of every session a valid manager records, at creation and after every
/// renewal.
pub proof fn lemma_expiry_bounded(m: SessionManager, i: int)
    requires
        m.wf(),
        0 <= i < m.sessions@.len(),
    ensures
        m.sessions@[i].expires_at <= m.sessions@[i].principal_expiry,
        m.sessions@[i].expires_at <= m.sessions@[i].trust_window_end,
{
}

/// At most one non-terminal session exists per (principal, device,
/// resource) triple at any observed instant.
pub proof fn lemma_single_live_session_per_triple(m: SessionManager, i: int, j: int)
    requires
        m.wf(),
        0 <= i < m.sessions@.len(),
        0 <= j < m.sessions@.len(),
        i != j,
        m.sessions@[i].same_triple(m.sessions@[j]),
    ensures
        !(m.sessions@[i].non_terminal() && m.sessions@[j].non_terminal()),
{
}

} // verus!
