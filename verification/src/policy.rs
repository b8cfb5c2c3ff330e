//! The policy decision point.
//!
//! `evaluate` is a pure function of the principal, the device's posture, the
//! requested resource and the engine configuration: it rejects expired
//! credentials, missing or stale posture, and non-compliant devices where
//! the resource demands compliance, then scans the resource's rules in
//! declared order; the first matching rule decides, and a set with no
//! matching rule denies (fail-closed).

use vstd::prelude::*;

verus! {

use crate::posture::{IssueCode, PostureVerdict, has_string, copy_issues};

/// What an allowed session may do; `ReadOnly` is the narrower scope.
#[derive(Clone, Copy, Debug, PartialEq, Eq, Structural)]
pub enum Scope {
    ReadOnly,
    Full,
}

/// Whether a resource may be reached from a non-compliant device.
#[derive(Clone, Copy, Debug, PartialEq, Eq, Structural)]
pub enum TrustRequirement {
    RequireCompliant,
    AllowAnyDevice,
}

/// What a matching rule decides.
#[derive(Clone, Copy, Debug, PartialEq, Eq, Structural)]
pub enum RuleEffect {
    Allow,
    Deny,
}

/// Stable reason codes for a denied request.
#[derive(Clone, Copy, Debug, PartialEq, Eq, Structural)]
pub enum DenyReason {
    CredentialExpired,
    PostureStale,
    DeviceNoncompliant,
    ExplicitDeny,
    NoMatchingPolicy,
}

impl DenyReason {
    /// The wire form of the reason, stable across releases.
    pub fn code(&self) -> (r: String)
        ensures
            *self == DenyReason::CredentialExpired ==> r@ == "credential_expired"@,
            *self == DenyReason::PostureStale ==> r@ == "posture_stale"@,
            *self == DenyReason::DeviceNoncompliant ==> r@ == "device_noncompliant"@,
            *self == DenyReason::ExplicitDeny ==> r@ == "policy_denied"@,
            *self == DenyReason::NoMatchingPolicy ==> r@ == "no_matching_policy"@,
    {
        match self {
            DenyReason::CredentialExpired => "credential_expired".to_owned(),
            DenyReason::PostureStale => "posture_stale".to_owned(),
            DenyReason::DeviceNoncompliant => "device_noncompliant".to_owned(),
            DenyReason::ExplicitDeny => "policy_denied".to_owned(),
            DenyReason::NoMatchingPolicy => "no_matching_policy".to_owned(),
        }
    }
}

/// An authenticated identity, immutable once issued; valid until its
/// credential expiry.
#[derive(Debug)]
pub struct Principal {
    pub user_id: String,
    pub identity_provider: String,
    pub groups: Vec<String>,
    pub expires_at: i64,
}

/// One ordered rule of a resource's policy set.
#[derive(Debug)]
pub struct PolicyRule {
    pub effect: RuleEffect,
    /// `Some(g)`: the rule matches only principals carrying group claim `g`.
    pub required_group: Option<String>,
    /// The rule matches only devices whose posture is compliant.
    pub require_compliant: bool,
    pub scope: Scope,
    /// Session lifetime granted by the rule, in seconds.
    pub ttl: i64,
}

/// A protected application, with the policy set that governs it.
#[derive(Debug)]
pub struct Resource {
    pub resource_id: String,
    pub network_target: String,
    pub required_trust: TrustRequirement,
    pub rules: Vec<PolicyRule>,
}

/// System-wide limits of the decision engine.
#[derive(Debug)]
pub struct EngineConfig {
    /// A verdict older than this many seconds is stale.
    pub max_posture_age: i64,
    /// No granted session outlives this many seconds.
    pub max_session_ttl: i64,
    /// How long a fresh verdict keeps a device trusted, in seconds.
    pub trust_window: i64,
    /// No granted scope exceeds this one.
    pub max_scope: Scope,
}

impl EngineConfig {
    /// Validity: the bounds are non-negative and a verdict accepted as fresh
    /// keeps the device inside its trust window.
    pub open spec fn wf(&self) -> bool {
        0 <= self.max_posture_age && 0 <= self.max_session_ttl && self.max_posture_age
            <= self.trust_window
    }
}

impl Default for EngineConfig {
    /// The out-of-the-box limits: verdicts stay fresh five minutes, devices
    /// stay trusted a day, sessions are capped at eight hours, full scope.
    fn default() -> (r: Self)
        ensures
            r.max_posture_age == 300,
            r.max_session_ttl == 28800,
            r.trust_window == 86400,
            r.max_scope == Scope::Full,
            r.wf(),
    {
        EngineConfig {
            max_posture_age: 300,
            max_session_ttl: 28800,
            trust_window: 86400,
            max_scope: Scope::Full,
        }
    }
}

/// The decision returned to the caller. `issues` carries the posture issue
/// codes when the reason is `DeviceNoncompliant` and is empty otherwise.
#[derive(Debug)]
pub enum Decision {
    Allow { scope: Scope, ttl: i64 },
    Deny { reason: DenyReason, issues: Vec<IssueCode> },
}

/// The mathematical outcome of an evaluation.
#[derive(Clone, Copy, Debug, PartialEq, Eq, Structural)]
pub enum Outcome {
    Granted { scope: Scope, ttl: i64 },
    Denied { reason: DenyReason },
}

/// The value of an optional reference.
pub open spec fn opt_value<T>(o: Option<&T>) -> Option<T> {
    match o {
        Some(x) => Some(*x),
        None => None,
    }
}

/// A credential is expired once the instant of its expiry has passed.
pub open spec fn credential_expired(p: Principal, now: i64) -> bool {
    now > p.expires_at
}

/// Posture is unusable if it was never assessed or its verdict is older
/// than the configured maximum age.
pub open spec fn posture_stale(posture: Option<PostureVerdict>, cfg: EngineConfig, now: i64) -> bool {
    match posture {
        None => true,
        Some(v) => v.assessed_at + cfg.max_posture_age < now,
    }
}

/// A non-compliant device is blocked from a resource demanding compliance.
pub open spec fn compliance_blocked(v: PostureVerdict, r: Resource) -> bool {
    !v.compliant && r.required_trust == TrustRequirement::RequireCompliant
}

/// Whether a rule's predicate matches the principal and device trust level.
pub open spec fn spec_rule_matches(rule: PolicyRule, p: Principal, compliant: bool) -> bool {
    (match rule.required_group {
        None => true,
        Some(g) => has_string(p.groups@, g@),
    }) && (!rule.require_compliant || compliant)
}

/// The index of the first rule whose predicate matches, if any.
pub open spec fn spec_first_match(rules: Seq<PolicyRule>, p: Principal, compliant: bool) -> Option<
    int,
>
    decreases rules.len(),
{
    if rules.len() == 0 {
        None
    } else if spec_rule_matches(rules[0], p, compliant) {
        Some(0)
    } else {
        match spec_first_match(rules.skip(1), p, compliant) {
            None => None,
            Some(k) => Some(k + 1),
        }
    }
}

/// With no match among the first `i` rules, the first match of the whole
/// set is the first match of the rest, shifted.
proof fn lemma_first_match_skip(rules: Seq<PolicyRule>, p: Principal, compliant: bool, i: int)
    requires
        0 <= i <= rules.len(),
        forall|j: int| 0 <= j < i ==> !spec_rule_matches(rules[j], p, compliant),
    ensures
        spec_first_match(rules, p, compliant) == (match spec_first_match(
            rules.skip(i),
            p,
            compliant,
        ) {
            None => None::<int>,
            Some(k) => Some(k + i),
        }),
    decreases i,
{
    if i > 0 {
        assert(forall|j: int|
            0 <= j < i - 1 ==> !spec_rule_matches(rules.skip(1)[j], p, compliant));
        lemma_first_match_skip(rules.skip(1), p, compliant, i - 1);
        assert(rules.skip(1).skip(i - 1) =~= rules.skip(i));
    } else {
        assert(rules.skip(0) =~= rules);
    }
}

/// Grants no more lifetime than the rule asked for and than the system
/// allows, never a negative one.
pub open spec fn clamp_ttl(ttl: i64, max: i64) -> i64 {
    if ttl < 0 {
        0
    } else if ttl > max {
        max
    } else {
        ttl
    }
}

/// The narrower of two scopes.
pub open spec fn scope_min(a: Scope, b: Scope) -> Scope {
    if a == Scope::ReadOnly || b == Scope::ReadOnly {
        Scope::ReadOnly
    } else {
        Scope::Full
    }
}

/// The outcome the decision point owes for given inputs: the evaluation
/// order of the engine, stated once.
pub open spec fn spec_outcome(
    p: Principal,
    posture: Option<PostureVerdict>,
    r: Resource,
    cfg: EngineConfig,
    now: i64,
) -> Outcome {
    if credential_expired(p, now) {
        Outcome::Denied { reason: DenyReason::CredentialExpired }
    } else if posture_stale(posture, cfg, now) {
        Outcome::Denied { reason: DenyReason::PostureStale }
    } else {
        match posture {
            None => Outcome::Denied { reason: DenyReason::PostureStale },
            Some(v) => if compliance_blocked(v, r) {
                Outcome::Denied { reason: DenyReason::DeviceNoncompliant }
            } else {
                match spec_first_match(r.rules@, p, v.compliant) {
                    None => Outcome::Denied { reason: DenyReason::NoMatchingPolicy },
                    Some(k) => if r.rules@[k].effect == RuleEffect::Allow {
                        Outcome::Granted {
                            scope: scope_min(r.rules@[k].scope, cfg.max_scope),
                            ttl: clamp_ttl(r.rules@[k].ttl, cfg.max_session_ttl),
                        }
                    } else {
                        Outcome::Denied { reason: DenyReason::ExplicitDeny }
                    },
                }
            },
        }
    }
}

/// The issue codes a decision with this reason must carry.
pub open spec fn expected_issues(reason: DenyReason, posture: Option<PostureVerdict>) -> Seq<
    IssueCode,
> {
    if reason == DenyReason::DeviceNoncompliant {
        match posture {
            Some(v) => v.issues@,
            None => seq![],
        }
    } else {
        seq![]
    }
}

/// Whether the returned decision says exactly what the outcome owes,
/// issue codes included.
pub open spec fn decision_matches(
    d: Decision,
    o: Outcome,
    posture: Option<PostureVerdict>,
) -> bool {
    match o {
        Outcome::Granted { scope, ttl } => d matches Decision::Allow {
            scope: s,
            ttl: t,
        } && s == scope && t == ttl,
        Outcome::Denied { reason } => d matches Decision::Deny {
            reason: r,
            issues,
        } && r == reason && issues@ == expected_issues(reason, posture),
    }
}

/// Decides `spec_rule_matches`.
fn rule_matches(rule: &PolicyRule, p: &Principal, compliant: bool) -> (r: bool)
    ensures
        r == spec_rule_matches(*rule, *p, compliant),
{
    let group_ok = match &rule.required_group {
        None => true,
        Some(g) => {
            let mut i: usize = 0;
            let mut found = false;
            while i < p.groups.len()
                invariant
                    0 <= i <= p.groups@.len(),
                    found == (exists|j: int| 0 <= j < i && p.groups@[j]@ == g@),
                decreases p.groups@.len() - i,
            {
                if g.eq(&p.groups[i]) {
                    found = true;
                }
                i = i + 1;
            }
            found
        },
    };
    group_ok && (!rule.require_compliant || compliant)
}

/// Evaluates the policy for one request. Pure in its inputs; the returned
/// decision is exactly the outcome `spec_outcome` owes, with the device's
/// issue codes attached when the reason is `DeviceNoncompliant`.
pub fn evaluate(
    p: &Principal,
    posture: Option<&PostureVerdict>,
    resource: &Resource,
    cfg: &EngineConfig,
    now: i64,
) -> (d: Decision)
    requires
        cfg.wf(),
    ensures
        decision_matches(
            d,
            spec_outcome(*p, opt_value(posture), *resource, *cfg, now),
            opt_value(posture),
        ),
{
    if now > p.expires_at {
        return Decision::Deny { reason: DenyReason::CredentialExpired, issues: Vec::new() };
    }
    let v = match posture {
        None => {
            return Decision::Deny { reason: DenyReason::PostureStale, issues: Vec::new() };
        },
        Some(v) => v,
    };
    if crate::saturating_add_i64(v.assessed_at, cfg.max_posture_age) < now {
        return Decision::Deny { reason: DenyReason::PostureStale, issues: Vec::new() };
    }
    if !v.compliant && resource.required_trust == TrustRequirement::RequireCompliant {
        return Decision::Deny {
            reason: DenyReason::DeviceNoncompliant,
            issues: copy_issues(&v.issues),
        };
    }
    let mut i: usize = 0;
    while i < resource.rules.len()
        invariant
            0 <= i <= resource.rules@.len(),
            forall|j: int| 0 <= j < i ==> !spec_rule_matches(resource.rules@[j], *p, v.compliant),
            cfg.wf(),
            posture == Some(v),
            !credential_expired(*p, now),
            !posture_stale(opt_value(posture), *cfg, now),
            !compliance_blocked(*v, *resource),
        decreases resource.rules@.len() - i,
    {
        if rule_matches(&resource.rules[i], p, v.compliant) {
            proof {
                lemma_first_match_skip(resource.rules@, *p, v.compliant, i as int);
                assert(resource.rules@.skip(i as int)[0] == resource.rules@[i as int]);
                assert(spec_first_match(resource.rules@, *p, v.compliant) == Some(i as int));
            }
            match resource.rules[i].effect {
                RuleEffect::Allow => {
                    let scope = if resource.rules[i].scope == Scope::ReadOnly || cfg.max_scope
                        == Scope::ReadOnly {
                        Scope::ReadOnly
                    } else {
                        Scope::Full
                    };
                    let ttl = if resource.rules[i].ttl < 0 {
                        0
                    } else if resource.rules[i].ttl > cfg.max_session_ttl {
                        cfg.max_session_ttl
                    } else {
                        resource.rules[i].ttl
                    };
                    return Decision::Allow { scope, ttl };
                },
                RuleEffect::Deny => {
                    return Decision::Deny { reason: DenyReason::ExplicitDeny, issues: Vec::new() };
                },
            }
        }
        i = i + 1;
    }
    proof {
        lemma_first_match_skip(resource.rules@, *p, v.compliant, resource.rules@.len() as int);
        assert(resource.rules@.skip(resource.rules@.len() as int).len() == 0);
    }
    Decision::Deny { reason: DenyReason::NoMatchingPolicy, issues: Vec::new() }
}

/// Fail-closed default: with a valid credential, fresh posture and no
/// compliance block, a policy set in which no rule matches denies with
/// `no_matching_policy`.
pub proof fn lemma_no_matching_rule_fail_closed(
    p: Principal,
    v: PostureVerdict,
    r: Resource,
    cfg: EngineConfig,
    now: i64,
)
    requires
        !credential_expired(p, now),
        !posture_stale(Some(v), cfg, now),
        !compliance_blocked(v, r),
        spec_first_match(r.rules@, p, v.compliant) is None,
    ensures
        spec_outcome(p, Some(v), r, cfg, now) == (Outcome::Denied {
            reason: DenyReason::NoMatchingPolicy,
        }),
{
}

} // verus!

