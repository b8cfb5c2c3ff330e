use ztna_core::policy::{
    DenyReason, EngineConfig, PolicyRule, Principal, Resource, RuleEffect, Scope, TrustRequirement,
};
use ztna_core::posture::{IssueCode, PostureVerdict};
use ztna_core::session::{
    AccessError, ActivationError, RenewError, RevocationReason, SessionManager, SessionState,
};

fn principal(expires_at: i64) -> Principal {
    Principal {
        user_id: "alice".to_string(),
        identity_provider: "oidc".to_string(),
        groups: vec!["staff".to_string()],
        expires_at,
    }
}

fn resource(ttl: i64) -> Resource {
    Resource {
        resource_id: "app1".to_string(),
        network_target: "10.0.0.5:443".to_string(),
        required_trust: TrustRequirement::RequireCompliant,
        rules: vec![PolicyRule {
            effect: RuleEffect::Allow,
            required_group: Some("staff".to_string()),
            require_compliant: false,
            scope: Scope::Full,
            ttl,
        }],
    }
}

fn compliant_posture(assessed_at: i64) -> PostureVerdict {
    PostureVerdict { compliant: true, issues: vec![], assessed_at }
}

#[test]
fn expired_credential_creates_no_session() {
    let mut m = SessionManager::new();
    let p = principal(999);
    let r = resource(3600);
    let v = compliant_posture(990);
    let cfg = EngineConfig::default();
    let out = m.request_access(&p, &"dev-1".to_string(), &r, Some(&v), &cfg, 1000);
    assert!(matches!(out, Err(AccessError::AuthenticationFailure)));
    assert!(m.sessions.is_empty());
}

#[test]
fn allowed_request_creates_session_with_clamped_expiry() {
    let mut m = SessionManager::new();
    let p = principal(1_000_000);
    let r = resource(3600);
    let v = compliant_posture(990);
    let cfg = EngineConfig::default();
    let id = m
        .request_access(&p, &"dev-1".to_string(), &r, Some(&v), &cfg, 1000)
        .expect("the rule allows");
    let s = m.get_session(id).expect("the session exists");
    assert_eq!(s.state, SessionState::Pending);
    assert_eq!(s.issued_at, 1000);
    assert_eq!(s.expires_at, 1000 + 3600);
    m.confirm_activation(id, 1001).expect("pending and fresh");
    let s = m.get_session(id).expect("the session exists");
    assert_eq!(s.state, SessionState::Active);
}

#[test]
fn expiry_never_exceeds_credential_expiry() {
    let mut m = SessionManager::new();
    let p = principal(2000);
    let r = resource(3600);
    let v = compliant_posture(990);
    let cfg = EngineConfig::default();
    let id = m
        .request_access(&p, &"dev-1".to_string(), &r, Some(&v), &cfg, 1000)
        .expect("the rule allows");
    let s = m.get_session(id).expect("the session exists");
    assert_eq!(s.expires_at, 2000);
    assert!(s.expires_at <= s.principal_expiry);
    assert!(s.expires_at <= s.trust_window_end);
}

#[test]
fn expiry_never_exceeds_trust_window() {
    let mut m = SessionManager::new();
    let p = principal(1_000_000);
    let r = resource(3600);
    let v = compliant_posture(990);
    let cfg = EngineConfig {
        max_posture_age: 300,
        max_session_ttl: 28_800,
        trust_window: 1500,
        max_scope: Scope::Full,
    };
    let id = m
        .request_access(&p, &"dev-1".to_string(), &r, Some(&v), &cfg, 1000)
        .expect("the rule allows");
    let s = m.get_session(id).expect("the session exists");
    assert_eq!(s.expires_at, 990 + 1500);
}

#[test]
fn noncompliant_device_is_denied_with_issue_list() {
    let mut m = SessionManager::new();
    let p = principal(1_000_000);
    let r = resource(3600);
    let v = PostureVerdict {
        compliant: false,
        issues: vec![IssueCode::DiskEncryptionDisabled],
        assessed_at: 990,
    };
    let cfg = EngineConfig::default();
    let out = m.request_access(&p, &"dev-1".to_string(), &r, Some(&v), &cfg, 1000);
    match out {
        Err(AccessError::PolicyDenied { reason, issues }) => {
            assert_eq!(reason, DenyReason::DeviceNoncompliant);
            assert!(issues.contains(&IssueCode::DiskEncryptionDisabled));
        },
        _ => panic!("a non-compliant device must be denied"),
    }
    assert!(m.sessions.is_empty());
}

#[test]
fn second_session_for_triple_supersedes_first() {
    let mut m = SessionManager::new();
    let p = principal(1_000_000);
    let r = resource(3600);
    let cfg = EngineConfig::default();
    let first = m
        .request_access(&p, &"dev-1".to_string(), &r, Some(&compliant_posture(990)), &cfg, 1000)
        .expect("allowed");
    m.confirm_activation(first, 1001).expect("pending and fresh");
    let second = m
        .request_access(&p, &"dev-1".to_string(), &r, Some(&compliant_posture(1990)), &cfg, 2000)
        .expect("allowed");
    assert_ne!(first, second);
    let s1 = m.get_session(first).expect("kept");
    assert_eq!(s1.state, SessionState::Revoked);
    assert_eq!(s1.revocation_reason, Some(RevocationReason::Superseded));
    let s2 = m.get_session(second).expect("created");
    assert_eq!(s2.state, SessionState::Pending);
    let live = m
        .sessions
        .iter()
        .filter(|s| s.state != SessionState::Revoked && s.state != SessionState::Expired)
        .count();
    assert_eq!(live, 1);
}

#[test]
fn sessions_for_distinct_triples_are_independent() {
    let mut m = SessionManager::new();
    let p = principal(1_000_000);
    let r = resource(3600);
    let cfg = EngineConfig::default();
    let a = m
        .request_access(&p, &"dev-1".to_string(), &r, Some(&compliant_posture(990)), &cfg, 1000)
        .expect("allowed");
    let b = m
        .request_access(&p, &"dev-2".to_string(), &r, Some(&compliant_posture(990)), &cfg, 1000)
        .expect("allowed");
    assert_eq!(m.get_session(a).unwrap().state, SessionState::Pending);
    assert_eq!(m.get_session(b).unwrap().state, SessionState::Pending);
}

#[test]
fn renewal_extends_active_session() {
    let mut m = SessionManager::new();
    let p = principal(1_000_000);
    let r = resource(3600);
    let cfg = EngineConfig::default();
    let id = m
        .request_access(&p, &"dev-1".to_string(), &r, Some(&compliant_posture(990)), &cfg, 1000)
        .expect("allowed");
    m.confirm_activation(id, 1001).expect("pending and fresh");
    m.begin_renewal(id, 3000).expect("active and fresh");
    assert_eq!(m.get_session(id).unwrap().state, SessionState::Renewing);
    m.complete_renewal(id, &p, &r, &compliant_posture(2990), &cfg, 3000)
        .expect("still allowed");
    let s = m.get_session(id).unwrap();
    assert_eq!(s.state, SessionState::Active);
    assert_eq!(s.expires_at, 3000 + 3600);
    assert_eq!(s.last_renewed_at, 3000);
}

#[test]
fn concurrent_renewals_are_refused_while_one_is_in_flight() {
    let mut m = SessionManager::new();
    let p = principal(1_000_000);
    let r = resource(3600);
    let cfg = EngineConfig::default();
    let id = m
        .request_access(&p, &"dev-1".to_string(), &r, Some(&compliant_posture(990)), &cfg, 1000)
        .expect("allowed");
    m.confirm_activation(id, 1001).expect("pending and fresh");
    m.begin_renewal(id, 2000).expect("active and fresh");
    assert!(matches!(m.begin_renewal(id, 2000), Err(RenewError::RenewalInProgress)));
}

#[test]
fn denied_renewal_revokes_the_session() {
    let mut m = SessionManager::new();
    let p = principal(1_000_000);
    let r = resource(3600);
    let cfg = EngineConfig::default();
    let id = m
        .request_access(&p, &"dev-1".to_string(), &r, Some(&compliant_posture(990)), &cfg, 1000)
        .expect("allowed");
    m.confirm_activation(id, 1001).expect("pending and fresh");
    m.begin_renewal(id, 2000).expect("active and fresh");
    // The fresh verdict is non-compliant and the resource demands compliance.
    let bad = PostureVerdict {
        compliant: false,
        issues: vec![IssueCode::SecurityControlMissing],
        assessed_at: 1990,
    };
    match m.complete_renewal(id, &p, &r, &bad, &cfg, 2000) {
        Err(RenewError::Denied { reason, .. }) => {
            assert_eq!(reason, DenyReason::DeviceNoncompliant)
        },
        _ => panic!("the renewal must be denied"),
    }
    let s = m.get_session(id).unwrap();
    assert_eq!(s.state, SessionState::Revoked);
    assert_eq!(s.revocation_reason, Some(RevocationReason::RenewalDenied));
}

#[test]
fn revoked_session_refuses_renewal() {
    let mut m = SessionManager::new();
    let p = principal(1_000_000);
    let r = resource(3600);
    let cfg = EngineConfig::default();
    let id = m
        .request_access(&p, &"dev-1".to_string(), &r, Some(&compliant_posture(990)), &cfg, 1000)
        .expect("allowed");
    m.confirm_activation(id, 1001).expect("pending and fresh");
    m.revoke_session(id, RevocationReason::Administrative).expect("active");
    assert!(matches!(m.begin_renewal(id, 1200), Err(RenewError::Revoked)));
    assert_eq!(m.get_session(id).unwrap().state, SessionState::Revoked);
}

#[test]
fn revocation_wins_a_tie_with_an_in_flight_renewal() {
    let mut m = SessionManager::new();
    let p = principal(1_000_000);
    let r = resource(3600);
    let cfg = EngineConfig::default();
    let id = m
        .request_access(&p, &"dev-1".to_string(), &r, Some(&compliant_posture(990)), &cfg, 1000)
        .expect("allowed");
    m.confirm_activation(id, 1001).expect("pending and fresh");
    m.begin_renewal(id, 2000).expect("active and fresh");
    // The revocation lands while the renewal is still in flight.
    m.revoke_session(id, RevocationReason::Administrative).expect("renewing is non-terminal");
    let out = m.complete_renewal(id, &p, &r, &compliant_posture(1990), &cfg, 2001);
    assert!(matches!(out, Err(RenewError::Revoked)));
    assert_eq!(m.get_session(id).unwrap().state, SessionState::Revoked);
}

#[test]
fn revoking_twice_reports_terminal() {
    let mut m = SessionManager::new();
    let p = principal(1_000_000);
    let r = resource(3600);
    let cfg = EngineConfig::default();
    let id = m
        .request_access(&p, &"dev-1".to_string(), &r, Some(&compliant_posture(990)), &cfg, 1000)
        .expect("allowed");
    m.revoke_session(id, RevocationReason::PolicyChange).expect("pending is non-terminal");
    assert!(matches!(
        m.revoke_session(id, RevocationReason::Administrative),
        Err(ztna_core::session::RevokeError::AlreadyTerminal)
    ));
}

#[test]
fn sessions_expire_once_their_lifetime_runs_out() {
    let mut m = SessionManager::new();
    let p = principal(1_000_000);
    let r = resource(3600);
    let cfg = EngineConfig::default();
    let id = m
        .request_access(&p, &"dev-1".to_string(), &r, Some(&compliant_posture(990)), &cfg, 1000)
        .expect("allowed");
    m.confirm_activation(id, 1001).expect("pending and fresh");
    m.expire_due(1000 + 3600 + 1);
    assert_eq!(m.get_session(id).unwrap().state, SessionState::Expired);
    assert!(matches!(m.begin_renewal(id, 5000), Err(RenewError::Expired)));
}

#[test]
fn activation_after_expiry_expires_the_session() {
    let mut m = SessionManager::new();
    let p = principal(1_000_000);
    let r = resource(60);
    let cfg = EngineConfig::default();
    let id = m
        .request_access(&p, &"dev-1".to_string(), &r, Some(&compliant_posture(990)), &cfg, 1000)
        .expect("allowed");
    assert!(matches!(m.confirm_activation(id, 2000), Err(ActivationError::Expired)));
    assert_eq!(m.get_session(id).unwrap().state, SessionState::Expired);
}

#[test]
fn timestamps_near_the_end_of_the_range_saturate() {
    let mut m = SessionManager::new();
    let now = i64::MAX - 100;
    let p = principal(i64::MAX);
    let r = resource(3600);
    let cfg = EngineConfig::default();
    let id = m
        .request_access(&p, &"dev-1".to_string(), &r, Some(&compliant_posture(now - 10)), &cfg, now)
        .expect("allowed");
    let s = m.get_session(id).unwrap();
    assert_eq!(s.expires_at, i64::MAX);
}

#[test]
fn unknown_session_is_reported() {
    let mut m = SessionManager::new();
    assert!(m.get_session(7).is_none());
    assert!(matches!(m.begin_renewal(7, 0), Err(RenewError::NotFound)));
    assert!(matches!(
        m.revoke_session(7, RevocationReason::Administrative),
        Err(ztna_core::session::RevokeError::NotFound)
    ));
    assert!(matches!(m.confirm_activation(7, 0), Err(ActivationError::NotFound)));
}

#[test]
fn session_state_codes_are_stable() {
    assert_eq!(SessionState::Pending.code(), "pending");
    assert_eq!(SessionState::Active.code(), "active");
    assert_eq!(SessionState::Renewing.code(), "renewing");
    assert_eq!(SessionState::Expired.code(), "expired");
    assert_eq!(SessionState::Revoked.code(), "revoked");
}
