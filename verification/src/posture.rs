//! Device trust assessment.
//!
//! Raw device attributes are held against configured thresholds; every
//! failed check appends a stable issue code to the verdict. An attribute
//! that could not be collected counts as a failed check, never as a skipped
//! one, so assessment is fail-closed. A verdict with no issues is compliant.

use vstd::prelude::*;

verus! {

use vstd::utf8::encode_utf8;

/// Stable issue codes, one per kind of failed posture check, so that policy
/// rules and callers can refer to a specific failure without parsing text.
#[derive(Clone, Copy, Debug, PartialEq, Eq, Structural)]
pub enum IssueCode {
    OsVersionUnavailable,
    OsVersionBelowMinimum,
    SecurityControlMissing,
    DiskEncryptionUnavailable,
    DiskEncryptionDisabled,
}

impl IssueCode {
    /// The wire form of the code, stable across releases.
    pub fn code(&self) -> (r: String)
        ensures
            *self == IssueCode::OsVersionUnavailable ==> r@ == "os_version_unavailable"@,
            *self == IssueCode::OsVersionBelowMinimum ==> r@ == "os_version_below_minimum"@,
            *self == IssueCode::SecurityControlMissing ==> r@ == "security_control_missing"@,
            *self == IssueCode::DiskEncryptionUnavailable ==> r@ == "disk_encryption_unavailable"@,
            *self == IssueCode::DiskEncryptionDisabled ==> r@ == "disk_encryption"@,
    {
        match self {
            IssueCode::OsVersionUnavailable => "os_version_unavailable".to_owned(),
            IssueCode::OsVersionBelowMinimum => "os_version_below_minimum".to_owned(),
            IssueCode::SecurityControlMissing => "security_control_missing".to_owned(),
            IssueCode::DiskEncryptionUnavailable => "disk_encryption_unavailable".to_owned(),
            IssueCode::DiskEncryptionDisabled => "disk_encryption".to_owned(),
        }
    }
}

/// Raw attributes collected from a device. `None` means the collector could
/// not observe the attribute at all.
#[derive(Debug)]
pub struct DeviceAttributes {
    pub os_version: Option<String>,
    pub present_controls: Vec<String>,
    pub disk_encryption: Option<bool>,
}

/// Configured posture thresholds a device is assessed against.
#[derive(Debug)]
pub struct PostureThresholds {
    pub min_os_version: Option<String>,
    pub required_controls: Vec<String>,
    pub require_disk_encryption: bool,
}

impl Default for PostureThresholds {
    /// The out-of-the-box thresholds: no version floor, no required control
    /// list, but disk encryption demanded.
    fn default() -> (r: Self)
        ensures
            r.min_os_version is None,
            r.required_controls@.len() == 0,
            r.require_disk_encryption,
    {
        PostureThresholds {
            min_os_version: None,
            required_controls: Vec::new(),
            require_disk_encryption: true,
        }
    }
}

/// One immutable assessment outcome. A new verdict supersedes the previous
/// one for the device; none is ever edited in place.
#[derive(Debug)]
pub struct PostureVerdict {
    pub compliant: bool,
    pub issues: Vec<IssueCode>,
    pub assessed_at: i64,
}

/// A registered endpoint together with its most recent completed verdict.
#[derive(Debug)]
pub struct Device {
    pub device_id: String,
    pub os_family: String,
    pub last_verdict: Option<PostureVerdict>,
    pub last_assessed_at: i64,
}

/// Strict lexicographic order on byte strings, the order `str` comparison
/// uses; version strings are compared this way.
pub open spec fn lex_lt(a: Seq<u8>, b: Seq<u8>) -> bool
    decreases a.len(),
{
    if b.len() == 0 {
        false
    } else if a.len() == 0 {
        true
    } else if a[0] < b[0] {
        true
    } else if a[0] > b[0] {
        false
    } else {
        lex_lt(a.skip(1), b.skip(1))
    }
}

/// Two byte strings with a common prefix compare the way their tails do.
proof fn lemma_lex_lt_skip(a: Seq<u8>, b: Seq<u8>, i: int)
    requires
        0 <= i <= a.len(),
        i <= b.len(),
        forall|j: int| 0 <= j < i ==> a[j] == b[j],
    ensures
        lex_lt(a, b) == lex_lt(a.skip(i), b.skip(i)),
    decreases i,
{
    if i > 0 {
        assert(a.skip(0) =~= a);
        assert(b.skip(0) =~= b);
        assert(forall|j: int| 0 <= j < i - 1 ==> a.skip(1)[j] == b.skip(1)[j]);
        lemma_lex_lt_skip(a.skip(1), b.skip(1), i - 1);
        assert(a.skip(1).skip(i - 1) =~= a.skip(i));
        assert(b.skip(1).skip(i - 1) =~= b.skip(i));
    } else {
        assert(a.skip(0) =~= a);
        assert(b.skip(0) =~= b);
    }
}

/// Decides `lex_lt` on two byte slices.
pub fn bytes_lt(a: &[u8], b: &[u8]) -> (r: bool)
    ensures
        r == lex_lt(a@, b@),
{
    let a_len: usize = a.len();
    let b_len: usize = b.len();
    let mut i: usize = 0;
    while i < a_len && i < b_len
        invariant
            0 <= i <= a_len,
            i <= b_len,
            a_len == a@.len(),
            b_len == b@.len(),
            forall|j: int| 0 <= j < i ==> a@[j] == b@[j],
        decreases a_len - i,
    {
        if a[i] < b[i] {
            proof {
                lemma_lex_lt_skip(a@, b@, i as int);
            }
            return true;
        }
        if a[i] > b[i] {
            proof {
                lemma_lex_lt_skip(a@, b@, i as int);
            }
            return false;
        }
        i = i + 1;
    }
    proof {
        lemma_lex_lt_skip(a@, b@, i as int);
        assert(a@.skip(i as int).len() == a_len - i);
        assert(b@.skip(i as int).len() == b_len - i);
    }
    a_len < b_len
}

/// The byte string a `String` compares by.
pub open spec fn str_bytes(s: Seq<char>) -> Seq<u8> {
    encode_utf8(s)
}

/// Issue codes produced by the operating-system version check.
pub open spec fn spec_os_issues(attrs: DeviceAttributes, th: PostureThresholds) -> Seq<IssueCode> {
    match th.min_os_version {
        None => seq![],
        Some(m) => match attrs.os_version {
            None => seq![IssueCode::OsVersionUnavailable],
            Some(v) => if lex_lt(str_bytes(v@), str_bytes(m@)) {
                seq![IssueCode::OsVersionBelowMinimum]
            } else {
                seq![]
            },
        },
    }
}

/// Whether some string of `hay` spells `needle`.
pub open spec fn has_string(hay: Seq<String>, needle: Seq<char>) -> bool {
    exists|i: int| 0 <= i < hay.len() && hay[i]@ == needle
}

/// Issue codes produced by the required-controls check, one per required
/// control that is not present, in the declared order.
pub open spec fn spec_control_issues(required: Seq<String>, present: Seq<String>) -> Seq<IssueCode>
    decreases required.len(),
{
    if required.len() == 0 {
        seq![]
    } else {
        spec_control_issues(required.drop_last(), present) + (if has_string(
            present,
            required.last()@,
        ) {
            seq![]
        } else {
            seq![IssueCode::SecurityControlMissing]
        })
    }
}

/// Issue codes produced by the disk-encryption check.
pub open spec fn spec_disk_issues(attrs: DeviceAttributes, th: PostureThresholds) -> Seq<
    IssueCode,
> {
    if !th.require_disk_encryption {
        seq![]
    } else {
        match attrs.disk_encryption {
            None => seq![IssueCode::DiskEncryptionUnavailable],
            Some(true) => seq![],
            Some(false) => seq![IssueCode::DiskEncryptionDisabled],
        }
    }
}

/// Every issue code an assessment of `attrs` against `th` reports, in order:
/// the version check, then each required control, then disk encryption.
pub open spec fn spec_issues(attrs: DeviceAttributes, th: PostureThresholds) -> Seq<IssueCode> {
    spec_os_issues(attrs, th) + spec_control_issues(th.required_controls@, attrs.present_controls@)
        + spec_disk_issues(attrs, th)
}

/// Decides `has_string`.
fn contains_string(hay: &Vec<String>, needle: &String) -> (r: bool)
    ensures
        r == has_string(hay@, needle@),
{
    let mut i: usize = 0;
    while i < hay.len()
        invariant
            0 <= i <= hay@.len(),
            forall|j: int| 0 <= j < i ==> hay@[j]@ != needle@,
        decreases hay@.len() - i,
    {
        if needle.eq(&hay[i]) {
            return true;
        }
        i = i + 1;
    }
    false
}

/// Assesses a device's raw attributes against the thresholds.
///
/// The verdict lists exactly one stable issue code per failed check, in the
/// declared order, and is compliant precisely when no check failed. An
/// attribute that was unavailable fails its check.
pub fn assess(attrs: &DeviceAttributes, th: &PostureThresholds, now: i64) -> (v: PostureVerdict)
    ensures
        v.issues@ == spec_issues(*attrs, *th),
        v.compliant == (spec_issues(*attrs, *th).len() == 0),
        v.assessed_at == now,
{
    let mut issues: Vec<IssueCode> = Vec::new();
    match &th.min_os_version {
        None => {},
        Some(m) => match &attrs.os_version {
            None => {
                issues.push(IssueCode::OsVersionUnavailable);
            },
            Some(v) => {
                if bytes_lt(v.as_str().as_bytes(), m.as_str().as_bytes()) {
                    issues.push(IssueCode::OsVersionBelowMinimum);
                }
            },
        },
    }
    assert(issues@ =~= spec_os_issues(*attrs, *th));
    let ghost base = issues@;
    let mut i: usize = 0;
    while i < th.required_controls.len()
        invariant
            0 <= i <= th.required_controls@.len(),
            issues@ =~= base + spec_control_issues(
                th.required_controls@.take(i as int),
                attrs.present_controls@,
            ),
        decreases th.required_controls@.len() - i,
    {
        let ghost taken = th.required_controls@.take(i as int + 1);
        proof {
            assert(taken.drop_last() =~= th.required_controls@.take(i as int));
            assert(taken.last() == th.required_controls@[i as int]);
        }
        if !contains_string(&attrs.present_controls, &th.required_controls[i]) {
            issues.push(IssueCode::SecurityControlMissing);
        }
        i = i + 1;
    }
    proof {
        assert(th.required_controls@.take(th.required_controls@.len() as int)
            =~= th.required_controls@);
    }
    if th.require_disk_encryption {
        match &attrs.disk_encryption {
            None => {
                issues.push(IssueCode::DiskEncryptionUnavailable);
            },
            Some(enabled) => {
                if !*enabled {
                    issues.push(IssueCode::DiskEncryptionDisabled);
                }
            },
        }
    }
    assert(issues@ =~= spec_issues(*attrs, *th));
    let compliant = issues.len() == 0;
    PostureVerdict { compliant, issues, assessed_at: now }
}

/// Copies a list of issue codes.
pub fn copy_issues(v: &Vec<IssueCode>) -> (r: Vec<IssueCode>)
    ensures
        r@ == v@,
{
    let mut r: Vec<IssueCode> = Vec::new();
    let mut i: usize = 0;
    while i < v.len()
        invariant
            0 <= i <= v@.len(),
            r@ =~= v@.take(i as int),
        decreases v@.len() - i,
    {
        r.push(v[i]);
        proof {
            assert(v@.take(i as int + 1) =~= v@.take(i as int).push(v@[i as int]));
        }
        i = i + 1;
    }
    proof {
        assert(v@.take(v@.len() as int) =~= v@);
    }
    r
}

/// Assesses the device and records the verdict against it, timestamped.
/// Only the assessor mutates a device's recorded posture.
pub fn assess_and_record(
    device: &mut Device,
    attrs: &DeviceAttributes,
    th: &PostureThresholds,
    now: i64,
) -> (v: PostureVerdict)
    ensures
        v.issues@ == spec_issues(*attrs, *th),
        v.compliant == (spec_issues(*attrs, *th).len() == 0),
        v.assessed_at == now,
        final(device).last_verdict matches Some(w) && w.issues@ == v.issues@ && w.compliant
            == v.compliant && w.assessed_at == now,
        final(device).last_assessed_at == now,
        final(device).device_id == old(device).device_id,
        final(device).os_family == old(device).os_family,
{
    let v = assess(attrs, th, now);
    let stored = PostureVerdict {
        compliant: v.compliant,
        issues: copy_issues(&v.issues),
        assessed_at: v.assessed_at,
    };
    device.last_verdict = Some(stored);
    device.last_assessed_at = now;
    v
}

/// An attribute check whose attribute is unavailable always fails: the
/// corresponding issue code is reported and the verdict cannot be compliant.
pub proof fn lemma_unavailable_attribute_fails_closed(
    attrs: DeviceAttributes,
    th: PostureThresholds,
)
    ensures
        th.require_disk_encryption && attrs.disk_encryption is None ==> spec_issues(
            attrs,
            th,
        ).contains(IssueCode::DiskEncryptionUnavailable),
        th.min_os_version is Some && attrs.os_version is None ==> spec_issues(attrs, th).contains(
            IssueCode::OsVersionUnavailable,
        ),
        (th.require_disk_encryption && attrs.disk_encryption is None) || (th.min_os_version is Some
            && attrs.os_version is None) ==> spec_issues(attrs, th).len() > 0,
{
    let os = spec_os_issues(attrs, th);
    let ctl = spec_control_issues(th.required_controls@, attrs.present_controls@);
    let dsk = spec_disk_issues(attrs, th);
    if th.require_disk_encryption && attrs.disk_encryption is None {
        assert(spec_issues(attrs, th)[os.len() + ctl.len() as int]
            == IssueCode::DiskEncryptionUnavailable);
    }
    if th.min_os_version is Some && attrs.os_version is None {
        assert(spec_issues(attrs, th)[0] == IssueCode::OsVersionUnavailable);
    }
}

/// Assesses this machine: reads the running system's version through the
/// platform boundary, stamps the verdict with the current wall clock, and
/// returns the attributes used beside the verdict so the caller sees exactly
/// what was assessed.
pub fn assess_local_device(
    th: &PostureThresholds,
    present_controls: Vec<String>,
    disk_encryption: Option<bool>,
) -> (r: (DeviceAttributes, PostureVerdict))
    ensures
        r.1.issues@ == spec_issues(r.0, *th),
        r.1.compliant == (spec_issues(r.0, *th).len() == 0),
        r.0.os_version is Some,
        r.0.present_controls@ == present_controls@,
        r.0.disk_encryption == disk_encryption,
{
    let os_version = crate::platform::current_os_version();
    let now = crate::platform::now_timestamp();
    let attrs = DeviceAttributes { os_version: Some(os_version), present_controls, disk_encryption };
    let v = assess(&attrs, th, now);
    (attrs, v)
}

} // verus!
