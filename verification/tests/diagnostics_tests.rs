use std::time::Duration;

use rustpods::config::AppConfig;
use rustpods::diagnostics::{
    auto_repair, bluetooth_check_failed, bluetooth_findings, check_configuration,
    create_troubleshooting_guide, diagnostic_plan, error_history_findings, has_critical_issues,
    permission_findings, repair_configuration_issue, BluetoothCheck, DiagnosticIssue,
    DiagnosticLevel, IssueCategory, IssueSeverity, PermissionCheck,
};

fn issue(title: &str, severity: IssueSeverity, category: IssueCategory, repairable: bool) -> DiagnosticIssue {
    DiagnosticIssue {
        title: title.to_string(),
        description: format!("{} happened", title),
        solutions: vec!["do something".to_string()],
        severity,
        category,
        auto_repairable: repairable,
    }
}

#[test]
fn configuration_check_flags_invalid_and_short_scans() {
    let mut config = AppConfig::default();
    let (mut issues, mut recs, mut raw) = (Vec::new(), Vec::new(), Vec::new());
    check_configuration(&config, &mut issues, &mut recs, &mut raw);
    assert!(issues.is_empty() && recs.is_empty() && raw.is_empty());

    config.bluetooth.scan_duration = Duration::from_secs(0);
    check_configuration(&config, &mut issues, &mut recs, &mut raw);
    assert_eq!(issues.len(), 2);
    assert_eq!(issues[0].title, "Configuration validation error");
    assert_eq!(
        issues[0].description,
        "Configuration has invalid values: Validation failed for bluetooth.scan_duration: Scan duration must be greater than zero"
    );
    assert_eq!(issues[1].title, "Scan duration too short");
    assert_eq!(issues[1].severity, IssueSeverity::Minor);
    assert_eq!(recs.len(), 2);
    assert_eq!(raw[0].0, "config_validation_error");

    config.bluetooth.scan_duration = Duration::from_secs(2);
    let (mut issues, mut recs, mut raw) = (Vec::new(), Vec::new(), Vec::new());
    check_configuration(&config, &mut issues, &mut recs, &mut raw);
    assert_eq!(issues.len(), 1);
    assert!(raw.is_empty());
}

#[test]
fn error_history_thresholds() {
    let (mut issues, mut recs, mut raw) = (Vec::new(), Vec::new(), Vec::new());
    error_history_findings(10, 5, 0, 1, &mut issues, &mut recs, &mut raw);
    assert!(issues.is_empty());
    assert_eq!(raw.len(), 4);
    assert_eq!(raw[1], ("bluetooth_errors".to_string(), "5".to_string()));
    error_history_findings(30, 21, 2, 0, &mut issues, &mut recs, &mut raw);
    assert_eq!(issues.len(), 2);
    assert_eq!(issues[0].severity, IssueSeverity::Major);
    assert_eq!(issues[0].description, "Detected 21 Bluetooth errors, which may indicate compatibility issues");
    assert_eq!(issues[1].severity, IssueSeverity::Critical);
    assert_eq!(recs, vec!["Consider updating your Bluetooth drivers".to_string()]);
    let (mut issues, mut recs, mut raw) = (Vec::new(), Vec::new(), Vec::new());
    error_history_findings(6, 6, 0, 0, &mut issues, &mut recs, &mut raw);
    assert_eq!(issues[0].severity, IssueSeverity::Minor);
}

#[test]
fn bluetooth_and_permission_findings() {
    let (mut issues, mut recs, mut raw) = (Vec::new(), Vec::new(), Vec::new());
    bluetooth_findings(
        &BluetoothCheck::Available { status: "Normal".to_string(), supports_scanning: true },
        &mut issues,
        &mut recs,
        &mut raw,
    );
    assert!(issues.is_empty());
    assert_eq!(raw.len(), 5);
    assert_eq!(recs.len(), 1);
    bluetooth_findings(
        &BluetoothCheck::Available { status: "Error".to_string(), supports_scanning: false },
        &mut issues,
        &mut recs,
        &mut raw,
    );
    assert_eq!(issues[0].title, "Bluetooth scanning not supported");
    bluetooth_findings(&BluetoothCheck::Unavailable("off".to_string()), &mut issues, &mut recs, &mut raw);
    assert_eq!(issues[1].description, "Unable to access Bluetooth adapter: off");
    bluetooth_check_failed("boom", &mut issues);
    assert_eq!(issues[2].severity, IssueSeverity::Major);
    assert!(has_critical_issues(&issues, false));
    assert!(has_critical_issues(&[], true));
    assert!(!has_critical_issues(&[], false));

    let (mut issues, mut recs, mut raw) = (Vec::new(), Vec::new(), Vec::new());
    permission_findings(&PermissionCheck::Writable, &mut issues, &mut recs, &mut raw);
    assert!(issues.is_empty());
    permission_findings(&PermissionCheck::WriteFailed("denied".to_string()), &mut issues, &mut recs, &mut raw);
    permission_findings(&PermissionCheck::DirectoryFailed("nope".to_string()), &mut issues, &mut recs, &mut raw);
    assert_eq!(issues.len(), 2);
    assert_eq!(recs.len(), 1);
    assert_eq!(raw.len(), 5);
}

#[test]
fn plan_follows_level() {
    let p = diagnostic_plan(DiagnosticLevel::Basic, true, false);
    assert!(p.system_info && !p.error_history && !p.permissions && !p.hardware);
    let p = diagnostic_plan(DiagnosticLevel::Advanced, false, true);
    assert!(p.permissions && !p.hardware);
    let p = diagnostic_plan(DiagnosticLevel::Complete, false, false);
    assert!(p.permissions && p.hardware);
}

#[test]
fn auto_repair_sorts_issues() {
    assert_eq!(
        auto_repair(None).unwrap_err(),
        "No diagnostic results available. Run diagnostics first."
    );
    let issues = vec![
        issue("Scan duration too short", IssueSeverity::Minor, IssueCategory::Configuration, true),
        issue("Odd setting", IssueSeverity::Minor, IssueCategory::Configuration, true),
        issue("Driver", IssueSeverity::Major, IssueCategory::Bluetooth, true),
        issue("Not repairable", IssueSeverity::Major, IssueCategory::Configuration, false),
    ];
    let result = auto_repair(Some(&issues)).unwrap();
    assert_eq!(result.fixed_issues, vec!["Scan duration too short".to_string()]);
    assert_eq!(result.failed_repairs.len(), 2);
    assert_eq!(result.failed_repairs[0].1, "No repair implementation for issue: Odd setting");
    assert_eq!(result.failed_repairs[1].1, "No repair implementation for category Bluetooth");
    assert_eq!(result.repair_time, Duration::from_secs(0));
    assert!(repair_configuration_issue(&issues[0]).is_ok());
}

#[test]
fn troubleshooting_guide_order() {
    let issues = vec![
        issue("Minor thing", IssueSeverity::Minor, IssueCategory::System, false),
        issue("Big", IssueSeverity::Major, IssueCategory::System, false),
        issue("Worst", IssueSeverity::Critical, IssueCategory::Bluetooth, false),
    ];
    let steps = create_troubleshooting_guide(&issues);
    assert_eq!(steps.len(), 3);
    assert_eq!(steps[0].title, "Fix Critical Issue: Worst");
    assert_eq!(steps[0].instructions, "Worst happened");
    assert_eq!(steps[1].title, "Address Major Issue: Big");
    assert_eq!(steps[1].verification, "Check if the functionality is restored");
    assert_eq!(steps[2].title, "Reset Bluetooth System");
    assert_eq!(steps[2].actions.len(), 3);
    assert!(create_troubleshooting_guide(&issues[..2]).len() == 1);
}
