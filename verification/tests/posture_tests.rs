use ztna_core::posture::{assess, assess_and_record, Device, DeviceAttributes, IssueCode, PostureThresholds, PostureVerdict};

fn thresholds(min: Option<&str>, controls: &[&str], disk: bool) -> PostureThresholds {
    PostureThresholds {
        min_os_version: min.map(|s| s.to_string()),
        required_controls: controls.iter().map(|s| s.to_string()).collect(),
        require_disk_encryption: disk,
    }
}

#[test]
fn compliant_device_has_no_issues() {
    let attrs = DeviceAttributes {
        os_version: Some("10.15.7".to_string()),
        present_controls: vec!["edr".to_string(), "firewall".to_string()],
        disk_encryption: Some(true),
    };
    let th = thresholds(Some("10.14"), &["edr"], true);
    let v = assess(&attrs, &th, 1000);
    assert!(v.compliant);
    assert!(v.issues.is_empty());
    assert_eq!(v.assessed_at, 1000);
}

#[test]
fn os_version_below_minimum_is_flagged() {
    let attrs = DeviceAttributes {
        os_version: Some("10.14".to_string()),
        present_controls: vec![],
        disk_encryption: Some(true),
    };
    let th = thresholds(Some("10.15"), &[], true);
    let v = assess(&attrs, &th, 5);
    assert!(!v.compliant);
    assert_eq!(v.issues, vec![IssueCode::OsVersionBelowMinimum]);
}

#[test]
fn unavailable_os_version_fails_closed() {
    let attrs = DeviceAttributes {
        os_version: None,
        present_controls: vec![],
        disk_encryption: Some(true),
    };
    let th = thresholds(Some("10.15"), &[], true);
    let v = assess(&attrs, &th, 5);
    assert!(!v.compliant);
    assert_eq!(v.issues, vec![IssueCode::OsVersionUnavailable]);
}

#[test]
fn unavailable_disk_encryption_fails_closed() {
    let attrs = DeviceAttributes {
        os_version: Some("12.0".to_string()),
        present_controls: vec![],
        disk_encryption: None,
    };
    let th = thresholds(None, &[], true);
    let v = assess(&attrs, &th, 5);
    assert!(!v.compliant);
    assert_eq!(v.issues, vec![IssueCode::DiskEncryptionUnavailable]);
}

#[test]
fn disabled_disk_encryption_is_flagged_with_stable_code() {
    let attrs = DeviceAttributes {
        os_version: Some("12.0".to_string()),
        present_controls: vec![],
        disk_encryption: Some(false),
    };
    let th = thresholds(None, &[], true);
    let v = assess(&attrs, &th, 5);
    assert!(!v.compliant);
    assert_eq!(v.issues, vec![IssueCode::DiskEncryptionDisabled]);
    assert_eq!(v.issues[0].code(), "disk_encryption");
}

#[test]
fn each_missing_control_is_flagged_in_order() {
    let attrs = DeviceAttributes {
        os_version: Some("10.13".to_string()),
        present_controls: vec!["firewall".to_string()],
        disk_encryption: Some(false),
    };
    let th = thresholds(Some("10.15"), &["edr", "firewall", "av"], true);
    let v = assess(&attrs, &th, 5);
    assert!(!v.compliant);
    assert_eq!(
        v.issues,
        vec![
            IssueCode::OsVersionBelowMinimum,
            IssueCode::SecurityControlMissing,
            IssueCode::SecurityControlMissing,
            IssueCode::DiskEncryptionDisabled,
        ]
    );
}

#[test]
fn version_comparison_is_lexicographic() {
    // The comparison is byte order, the order `str` comparison uses.
    let attrs = DeviceAttributes {
        os_version: Some("9.9".to_string()),
        present_controls: vec![],
        disk_encryption: Some(true),
    };
    let th = thresholds(Some("10.0"), &[], false);
    let v = assess(&attrs, &th, 5);
    // "9.9" > "10.0" in byte order, so no issue is raised.
    assert!(v.compliant);
}

#[test]
fn no_thresholds_means_compliant() {
    let attrs = DeviceAttributes {
        os_version: None,
        present_controls: vec![],
        disk_encryption: None,
    };
    let th = thresholds(None, &[], false);
    let v = assess(&attrs, &th, 5);
    assert!(v.compliant);
    assert!(v.issues.is_empty());
}

#[test]
fn assessment_is_recorded_against_the_device() {
    let mut device = Device {
        device_id: "dev-1".to_string(),
        os_family: "linux".to_string(),
        last_verdict: None,
        last_assessed_at: 0,
    };
    let attrs = DeviceAttributes {
        os_version: Some("12.0".to_string()),
        present_controls: vec![],
        disk_encryption: Some(true),
    };
    let th = thresholds(None, &[], true);
    let v = assess_and_record(&mut device, &attrs, &th, 777);
    assert!(v.compliant);
    assert_eq!(device.last_assessed_at, 777);
    let stored: &PostureVerdict = device.last_verdict.as_ref().unwrap();
    assert!(stored.compliant);
    assert_eq!(stored.assessed_at, 777);
}

#[test]
fn issue_codes_are_stable() {
    assert_eq!(IssueCode::OsVersionUnavailable.code(), "os_version_unavailable");
    assert_eq!(IssueCode::OsVersionBelowMinimum.code(), "os_version_below_minimum");
    assert_eq!(IssueCode::SecurityControlMissing.code(), "security_control_missing");
    assert_eq!(IssueCode::DiskEncryptionUnavailable.code(), "disk_encryption_unavailable");
    assert_eq!(IssueCode::DiskEncryptionDisabled.code(), "disk_encryption");
}
