//! Diagnostics: the issues found by each check, what is done to repair them,
//! and the troubleshooting guide they lead to.

use std::time::Duration;
use vstd::prelude::*;

use crate::bluetooth::filter::name_views;
use crate::config::app_config::{spec_config_violation, AppConfig};
use crate::config::ConfigError;
use crate::text::{concat2, decimal_chars, decimal_string};
use crate::time::{duration_as_secs, duration_nanos, nanos_per_sec};
use vstd::string::StringExecFns;

verus! {

/// Bluetooth errors beyond which they count as frequent
pub const FREQUENT_BLUETOOTH_ERRORS: usize = 5;

/// Bluetooth errors beyond which frequent errors are a major issue
pub const MAJOR_BLUETOOTH_ERRORS: usize = 20;

/// Shortest scan duration in seconds that is not flagged
pub const MIN_SCAN_DURATION_SECS: u64 = 3;

/// Diagnostic level
#[derive(Debug, Clone, Copy, PartialEq, Eq, Structural)]
pub enum DiagnosticLevel {
    /// Basic diagnostics for common issues
    Basic,
    /// Advanced diagnostics with detailed information
    Advanced,
    /// Complete system analysis (highest detail)
    Complete,
}

/// Issue severity level
#[derive(Debug, Clone, Copy, PartialEq, Eq, Structural)]
pub enum IssueSeverity {
    /// Critical issue that prevents core functionality
    Critical,
    /// Major issue that significantly impacts functionality
    Major,
    /// Minor issue with limited impact
    Minor,
    /// Informational only
    Info,
}

/// Issue category
#[derive(Debug, Clone, Copy, PartialEq, Eq, Structural)]
pub enum IssueCategory {
    /// Bluetooth related issues
    Bluetooth,
    /// Operating system related issues
    System,
    /// Configuration related issues
    Configuration,
    /// Device (AirPods) related issues
    Device,
    /// Application specific issues
    Application,
}

impl IssueCategory {
    /// The name of the category, as `{:?}` writes it.
    pub open spec fn spec_name(self) -> Seq<char> {
        match self {
            IssueCategory::Bluetooth => "Bluetooth"@,
            IssueCategory::System => "System"@,
            IssueCategory::Configuration => "Configuration"@,
            IssueCategory::Device => "Device"@,
            IssueCategory::Application => "Application"@,
        }
    }

    /// The name of the category, as `{:?}` writes it.
    pub fn name(&self) -> (s: &'static str)
        ensures
            s@ == self.spec_name(),
    {
        match self {
            IssueCategory::Bluetooth => "Bluetooth",
            IssueCategory::System => "System",
            IssueCategory::Configuration => "Configuration",
            IssueCategory::Device => "Device",
            IssueCategory::Application => "Application",
        }
    }
}

/// Diagnostic issue
#[derive(Debug, Clone)]
pub struct DiagnosticIssue {
    /// Issue title/summary
    pub title: String,
    /// Detailed description
    pub description: String,
    /// Possible solutions
    pub solutions: Vec<String>,
    /// Severity level
    pub severity: IssueSeverity,
    /// Category of the issue
    pub category: IssueCategory,
    /// Whether this issue can be auto-repaired
    pub auto_repairable: bool,
}

/// What the library reads of an issue.
pub struct IssueModel {
    pub title: Seq<char>,
    pub description: Seq<char>,
    pub solutions: Seq<Seq<char>>,
    pub severity: IssueSeverity,
    pub category: IssueCategory,
    pub auto_repairable: bool,
}

impl View for DiagnosticIssue {
    type V = IssueModel;

    open spec fn view(&self) -> IssueModel {
        IssueModel {
            title: self.title@,
            description: self.description@,
            solutions: name_views(self.solutions@),
            severity: self.severity,
            category: self.category,
            auto_repairable: self.auto_repairable,
        }
    }
}

/// The views of a list of issues.
pub open spec fn issue_views(v: Seq<DiagnosticIssue>) -> Seq<IssueModel> {
    v.map_values(|i: DiagnosticIssue| i@)
}

/// The views of a list of key/value entries.
pub open spec fn entry_views(v: Seq<(String, String)>) -> Seq<(Seq<char>, Seq<char>)> {
    v.map_values(|e: (String, String)| (e.0@, e.1@))
}

/// An issue with the given parts.
pub open spec fn issue_model(
    title: Seq<char>,
    description: Seq<char>,
    solutions: Seq<Seq<char>>,
    severity: IssueSeverity,
    category: IssueCategory,
    auto_repairable: bool,
) -> IssueModel {
    IssueModel { title, description, solutions, severity, category, auto_repairable }
}

fn push_issue(
    issues: &mut Vec<DiagnosticIssue>,
    title: String,
    description: String,
    solutions: Vec<String>,
    severity: IssueSeverity,
    category: IssueCategory,
    auto_repairable: bool,
)
    ensures
        issue_views(final(issues)@) == issue_views(old(issues)@).push(
            issue_model(
                title@,
                description@,
                name_views(solutions@),
                severity,
                category,
                auto_repairable,
            ),
        ),
{
    let ghost before = issues@;
    let issue = DiagnosticIssue { title, description, solutions, severity, category, auto_repairable };
    issues.push(issue);
    assert(issue_views(issues@) =~= issue_views(before).push(issue@));
}

fn push_text(list: &mut Vec<String>, text: &str)
    ensures
        name_views(final(list)@) == name_views(old(list)@).push(text@),
{
    let ghost before = list@;
    list.push(String::from_str(text));
    assert(name_views(list@) =~= name_views(before).push(text@));
}

fn push_entry(raw: &mut Vec<(String, String)>, key: &str, value: String)
    ensures
        entry_views(final(raw)@) == entry_views(old(raw)@).push((key@, value@)),
{
    let ghost before = raw@;
    raw.push((String::from_str(key), value));
    assert(entry_views(raw@) =~= entry_views(before).push((key@, value@)));
}

fn texts2(a: &str, b: &str) -> (v: Vec<String>)
    ensures
        name_views(v@) == seq![a@, b@],
{
    let mut v: Vec<String> = Vec::new();
    push_text(&mut v, a);
    push_text(&mut v, b);
    assert(name_views(v@) =~= seq![a@, b@]);
    v
}

fn texts3(a: &str, b: &str, c: &str) -> (v: Vec<String>)
    ensures
        name_views(v@) == seq![a@, b@, c@],
{
    let mut v = texts2(a, b);
    push_text(&mut v, c);
    assert(name_views(v@) =~= seq![a@, b@, c@]);
    v
}

/// The issue for a configuration that does not validate.
pub open spec fn invalid_config_issue(message: Seq<char>) -> IssueModel {
    issue_model(
        "Configuration validation error"@,
        "Configuration has invalid values: "@ + message,
        seq!["Reset to default configuration"@, "Edit the configuration file manually to fix the issues"@],
        IssueSeverity::Major,
        IssueCategory::Configuration,
        true,
    )
}

/// The issue for a scan duration below the minimum.
pub open spec fn short_scan_issue() -> IssueModel {
    issue_model(
        "Scan duration too short"@,
        "Bluetooth scan duration is set very low, which may cause inconsistent device detection"@,
        seq!["Increase scan duration to at least 3 seconds"@],
        IssueSeverity::Minor,
        IssueCategory::Configuration,
        true,
    )
}

/// The scan duration of the configuration is below the minimum.
pub open spec fn spec_scan_too_short(config: AppConfig) -> bool {
    duration_nanos(config.bluetooth.scan_duration) / nanos_per_sec() < MIN_SCAN_DURATION_SECS
}

/// The validation message of a configuration, when it does not validate.
pub open spec fn spec_violation_text(config: AppConfig) -> Option<Seq<char>> {
    match spec_config_violation(config) {
        Some((f, m)) => Some("Validation failed for "@ + f + ": "@ + m),
        None => None,
    }
}

/// Check the configuration: an invalid configuration and a too short scan
/// duration are issues, each with a recommendation; the validation message
/// is kept in the raw data.
pub fn check_configuration(
    config: &AppConfig,
    issues: &mut Vec<DiagnosticIssue>,
    recommendations: &mut Vec<String>,
    raw_data: &mut Vec<(String, String)>,
)
    ensures
        issue_views(final(issues)@) == issue_views(old(issues)@) + (match spec_violation_text(*config) {
            Some(t) => seq![invalid_config_issue(t)],
            None => Seq::empty(),
        }) + (if spec_scan_too_short(*config) {
            seq![short_scan_issue()]
        } else {
            Seq::empty()
        }),
        name_views(final(recommendations)@) == name_views(old(recommendations)@) + (
        match spec_violation_text(*config) {
            Some(_) => seq!["Reset to default configuration to resolve validation errors"@],
            None => Seq::empty(),
        }) + (if spec_scan_too_short(*config) {
            seq!["Increase Bluetooth scan duration to improve device detection"@]
        } else {
            Seq::empty()
        }),
        entry_views(final(raw_data)@) == entry_views(old(raw_data)@) + (match spec_violation_text(
            *config,
        ) {
            Some(t) => seq![("config_validation_error"@, t)],
            None => Seq::empty(),
        }),
{
    let ghost issues0 = issue_views(issues@);
    let ghost recs0 = name_views(recommendations@);
    let ghost raw0 = entry_views(raw_data@);
    match config.validate() {
        Err(e) => {
            let text = e.to_text();
            let description = concat2("Configuration has invalid values: ", text.as_str());
            push_entry(raw_data, "config_validation_error", text);
            push_issue(
                issues,
                String::from_str("Configuration validation error"),
                description,
                texts2(
                    "Reset to default configuration",
                    "Edit the configuration file manually to fix the issues",
                ),
                IssueSeverity::Major,
                IssueCategory::Configuration,
                true,
            );
            push_text(recommendations, "Reset to default configuration to resolve validation errors");
        },
        Ok(()) => {},
    }
    let ghost issues1 = issue_views(issues@);
    let ghost recs1 = name_views(recommendations@);
    assert(entry_views(raw_data@) =~= raw0 + (match spec_violation_text(*config) {
        Some(t) => seq![("config_validation_error"@, t)],
        None => Seq::empty(),
    }));
    if duration_as_secs(&config.bluetooth.scan_duration) < MIN_SCAN_DURATION_SECS {
        let mut solutions: Vec<String> = Vec::new();
        push_text(&mut solutions, "Increase scan duration to at least 3 seconds");
        assert(name_views(solutions@) =~= seq!["Increase scan duration to at least 3 seconds"@]);
        push_issue(
            issues,
            String::from_str("Scan duration too short"),
            String::from_str(
                "Bluetooth scan duration is set very low, which may cause inconsistent device detection",
            ),
            solutions,
            IssueSeverity::Minor,
            IssueCategory::Configuration,
            true,
        );
        push_text(recommendations, "Increase Bluetooth scan duration to improve device detection");
    }
    assert(issue_views(issues@) =~= issues0 + (match spec_violation_text(*config) {
        Some(t) => seq![invalid_config_issue(t)],
        None => Seq::empty(),
    }) + (if spec_scan_too_short(*config) {
        seq![short_scan_issue()]
    } else {
        Seq::empty()
    }));
    assert(name_views(recommendations@) =~= recs0 + (match spec_violation_text(*config) {
        Some(_) => seq!["Reset to default configuration to resolve validation errors"@],
        None => Seq::empty(),
    }) + (if spec_scan_too_short(*config) {
        seq!["Increase Bluetooth scan duration to improve device detection"@]
    } else {
        Seq::empty()
    }));
}

/// The issue for frequent Bluetooth errors.
pub open spec fn frequent_bluetooth_issue(count: usize) -> IssueModel {
    issue_model(
        "Frequent Bluetooth errors"@,
        "Detected "@ + decimal_chars(count as nat)
            + " Bluetooth errors, which may indicate compatibility issues"@,
        seq![
            "Ensure your Bluetooth adapter is compatible (Bluetooth 4.0+ recommended)"@,
            "Update Bluetooth drivers"@,
            "Try disabling other Bluetooth applications"@,
        ],
        if count > MAJOR_BLUETOOTH_ERRORS {
            IssueSeverity::Major
        } else {
            IssueSeverity::Minor
        },
        IssueCategory::Bluetooth,
        false,
    )
}

/// The issue for critical errors in the history.
pub open spec fn critical_errors_issue(count: usize) -> IssueModel {
    issue_model(
        "Critical errors detected"@,
        "Detected "@ + decimal_chars(count as nat)
            + " critical errors that may prevent core functionality"@,
        seq![
            "Check the log files for detailed error information"@,
            "Try running the application with administrator privileges"@,
            "Restart your computer and try again"@,
        ],
        IssueSeverity::Critical,
        IssueCategory::Application,
        false,
    )
}

/// Judge the error history by its counts: more than five Bluetooth errors
/// are an issue (major beyond twenty) with a recommendation; any critical
/// error is a critical issue. The counts are kept in the raw data.
pub fn error_history_findings(
    total_errors: usize,
    bluetooth_errors: usize,
    critical_errors: usize,
    airpods_errors: usize,
    issues: &mut Vec<DiagnosticIssue>,
    recommendations: &mut Vec<String>,
    raw_data: &mut Vec<(String, String)>,
)
    requires
        total_errors <= u64::MAX,
        bluetooth_errors <= u64::MAX,
        critical_errors <= u64::MAX,
        airpods_errors <= u64::MAX,
    ensures
        issue_views(final(issues)@) == issue_views(old(issues)@) + (if bluetooth_errors
            > FREQUENT_BLUETOOTH_ERRORS {
            seq![frequent_bluetooth_issue(bluetooth_errors)]
        } else {
            Seq::empty()
        }) + (if critical_errors > 0 {
            seq![critical_errors_issue(critical_errors)]
        } else {
            Seq::empty()
        }),
        name_views(final(recommendations)@) == name_views(old(recommendations)@) + (
        if bluetooth_errors > FREQUENT_BLUETOOTH_ERRORS {
            seq!["Consider updating your Bluetooth drivers"@]
        } else {
            Seq::empty()
        }),
        entry_views(final(raw_data)@) == entry_views(old(raw_data)@) + seq![
            ("total_errors"@, decimal_chars(total_errors as nat)),
            ("bluetooth_errors"@, decimal_chars(bluetooth_errors as nat)),
            ("critical_errors"@, decimal_chars(critical_errors as nat)),
            ("airpods_errors"@, decimal_chars(airpods_errors as nat)),
        ],
{
    let ghost issues0 = issue_views(issues@);
    let ghost recs0 = name_views(recommendations@);
    let ghost raw0 = entry_views(raw_data@);
    push_entry(raw_data, "total_errors", decimal_string(total_errors as u64));
    push_entry(raw_data, "bluetooth_errors", decimal_string(bluetooth_errors as u64));
    push_entry(raw_data, "critical_errors", decimal_string(critical_errors as u64));
    push_entry(raw_data, "airpods_errors", decimal_string(airpods_errors as u64));
    assert(entry_views(raw_data@) =~= raw0 + seq![
        ("total_errors"@, decimal_chars(total_errors as nat)),
        ("bluetooth_errors"@, decimal_chars(bluetooth_errors as nat)),
        ("critical_errors"@, decimal_chars(critical_errors as nat)),
        ("airpods_errors"@, decimal_chars(airpods_errors as nat)),
    ]);
    if bluetooth_errors > FREQUENT_BLUETOOTH_ERRORS {
        let mut description = concat2("Detected ", decimal_string(bluetooth_errors as u64).as_str());
        description.append(" Bluetooth errors, which may indicate compatibility issues");
        push_issue(
            issues,
            String::from_str("Frequent Bluetooth errors"),
            description,
            texts3(
                "Ensure your Bluetooth adapter is compatible (Bluetooth 4.0+ recommended)",
                "Update Bluetooth drivers",
                "Try disabling other Bluetooth applications",
            ),
            if bluetooth_errors > MAJOR_BLUETOOTH_ERRORS {
                IssueSeverity::Major
            } else {
                IssueSeverity::Minor
            },
            IssueCategory::Bluetooth,
            false,
        );
        push_text(recommendations, "Consider updating your Bluetooth drivers");
    }
    let ghost issues1 = issue_views(issues@);
    if critical_errors > 0 {
        let mut description = concat2("Detected ", decimal_string(critical_errors as u64).as_str());
        description.append(" critical errors that may prevent core functionality");
        push_issue(
            issues,
            String::from_str("Critical errors detected"),
            description,
            texts3(
                "Check the log files for detailed error information",
                "Try running the application with administrator privileges",
                "Restart your computer and try again",
            ),
            IssueSeverity::Critical,
            IssueCategory::Application,
            false,
        );
    }
    assert(issue_views(issues@) =~= issues0 + (if bluetooth_errors > FREQUENT_BLUETOOTH_ERRORS {
        seq![frequent_bluetooth_issue(bluetooth_errors)]
    } else {
        Seq::empty()
    }) + (if critical_errors > 0 {
        seq![critical_errors_issue(critical_errors)]
    } else {
        Seq::empty()
    }));
    assert(name_views(recommendations@) =~= recs0 + (if bluetooth_errors
        > FREQUENT_BLUETOOTH_ERRORS {
        seq!["Consider updating your Bluetooth drivers"@]
    } else {
        Seq::empty()
    }));
}

/// What the Bluetooth check found out about the adapter.
#[derive(Debug, Clone)]
pub enum BluetoothCheck {
    /// An adapter is available, in this status (its `{:?}` name), able to
    /// scan or not.
    Available { status: String, supports_scanning: bool },
    /// No adapter could be used; the error's text.
    Unavailable(String),
}

/// The issue for an adapter that cannot scan.
pub open spec fn no_scanning_issue() -> IssueModel {
    issue_model(
        "Bluetooth scanning not supported"@,
        "Your Bluetooth adapter does not support scanning, which is required for AirPods detection"@,
        seq![
            "Use a different Bluetooth adapter"@,
            "Ensure your adapter supports Bluetooth LE scanning"@,
        ],
        IssueSeverity::Critical,
        IssueCategory::Bluetooth,
        false,
    )
}

/// The issue for Bluetooth that cannot be used.
pub open spec fn no_bluetooth_issue(error: Seq<char>) -> IssueModel {
    issue_model(
        "Bluetooth not available"@,
        "Unable to access Bluetooth adapter: "@ + error,
        seq![
            "Ensure Bluetooth is enabled on your system"@,
            "Verify you have a compatible Bluetooth adapter"@,
            "Make sure you have sufficient permissions"@,
        ],
        IssueSeverity::Critical,
        IssueCategory::Bluetooth,
        false,
    )
}

/// The text of a boolean, as `bool::to_string` writes it.
pub open spec fn bool_text(b: bool) -> Seq<char> {
    if b {
        "true"@
    } else {
        "false"@
    }
}

fn bool_string(b: bool) -> (s: String)
    ensures
        s@ == bool_text(b),
{
    if b {
        String::from_str("true")
    } else {
        String::from_str("false")
    }
}

/// Judge the Bluetooth check: an adapter that cannot scan, or no adapter, is
/// a critical issue; a usable adapter gets a recommendation.
pub fn bluetooth_findings(
    check: &BluetoothCheck,
    issues: &mut Vec<DiagnosticIssue>,
    recommendations: &mut Vec<String>,
    raw_data: &mut Vec<(String, String)>,
)
    ensures
        match check {
            BluetoothCheck::Available { status, supports_scanning } => {
                &&& entry_views(final(raw_data)@) == entry_views(old(raw_data)@) + seq![
                    ("bluetooth_adapter"@, "Bluetooth adapter"@),
                    ("bluetooth_status"@, status@),
                    ("bluetooth_enabled"@, "true"@),
                    ("bluetooth_scanning_supported"@, bool_text(*supports_scanning)),
                ] + (if *supports_scanning {
                    seq![("airpods_detected"@, "unknown"@)]
                } else {
                    Seq::empty()
                })
                &&& issue_views(final(issues)@) == issue_views(old(issues)@) + (
                if *supports_scanning {
                    Seq::empty()
                } else {
                    seq![no_scanning_issue()]
                })
                &&& name_views(final(recommendations)@) == name_views(old(recommendations)@) + (
                if *supports_scanning {
                    seq!["Keep Bluetooth enabled for automatic detection of AirPods"@]
                } else {
                    Seq::empty()
                })
            },
            BluetoothCheck::Unavailable(error) => {
                &&& entry_views(final(raw_data)@) == entry_views(old(raw_data)@) + seq![
                    ("bluetooth_enabled"@, "false"@),
                    ("bluetooth_error"@, error@),
                ]
                &&& issue_views(final(issues)@) == issue_views(old(issues)@).push(
                    no_bluetooth_issue(error@),
                )
                &&& final(recommendations)@ == old(recommendations)@
            },
        },
{
    let ghost raw0 = entry_views(raw_data@);
    let ghost issues0 = issue_views(issues@);
    let ghost recs0 = name_views(recommendations@);
    match check {
        BluetoothCheck::Available { status, supports_scanning } => {
            push_entry(raw_data, "bluetooth_adapter", String::from_str("Bluetooth adapter"));
            push_entry(raw_data, "bluetooth_status", status.clone());
            push_entry(raw_data, "bluetooth_enabled", String::from_str("true"));
            push_entry(raw_data, "bluetooth_scanning_supported", bool_string(*supports_scanning));
            if !*supports_scanning {
                push_issue(
                    issues,
                    String::from_str("Bluetooth scanning not supported"),
                    String::from_str(
                        "Your Bluetooth adapter does not support scanning, which is required for AirPods detection",
                    ),
                    texts2(
                        "Use a different Bluetooth adapter",
                        "Ensure your adapter supports Bluetooth LE scanning",
                    ),
                    IssueSeverity::Critical,
                    IssueCategory::Bluetooth,
                    false,
                );
                assert(entry_views(raw_data@) =~= raw0 + seq![
                    ("bluetooth_adapter"@, "Bluetooth adapter"@),
                    ("bluetooth_status"@, status@),
                    ("bluetooth_enabled"@, "true"@),
                    ("bluetooth_scanning_supported"@, bool_text(*supports_scanning)),
                ]);
                assert(name_views(recommendations@) =~= recs0);
                assert(issue_views(issues@) =~= issues0 + seq![no_scanning_issue()]);
                return ;
            }
            push_entry(raw_data, "airpods_detected", String::from_str("unknown"));
            push_text(recommendations, "Keep Bluetooth enabled for automatic detection of AirPods");
            assert(entry_views(raw_data@) =~= raw0 + seq![
                ("bluetooth_adapter"@, "Bluetooth adapter"@),
                ("bluetooth_status"@, status@),
                ("bluetooth_enabled"@, "true"@),
                ("bluetooth_scanning_supported"@, bool_text(*supports_scanning)),
            ] + seq![("airpods_detected"@, "unknown"@)]);
            assert(issue_views(issues@) =~= issues0);
            assert(name_views(recommendations@) =~= recs0 + seq![
                "Keep Bluetooth enabled for automatic detection of AirPods"@,
            ]);
        },
        BluetoothCheck::Unavailable(error) => {
            push_entry(raw_data, "bluetooth_enabled", String::from_str("false"));
            push_entry(raw_data, "bluetooth_error", error.clone());
            push_issue(
                issues,
                String::from_str("Bluetooth not available"),
                concat2("Unable to access Bluetooth adapter: ", error.as_str()),
                texts3(
                    "Ensure Bluetooth is enabled on your system",
                    "Verify you have a compatible Bluetooth adapter",
                    "Make sure you have sufficient permissions",
                ),
                IssueSeverity::Critical,
                IssueCategory::Bluetooth,
                false,
            );
            assert(entry_views(raw_data@) =~= raw0 + seq![
                ("bluetooth_enabled"@, "false"@),
                ("bluetooth_error"@, error@),
            ]);
        },
    }
}

/// The issue for a Bluetooth check that could not run.
pub open spec fn check_failed_issue(error: Seq<char>) -> IssueModel {
    issue_model(
        "Bluetooth diagnostic check failed"@,
        "Could not check Bluetooth capabilities: "@ + error,
        seq![
            "Ensure Bluetooth is enabled"@,
            "Try running the application with administrator privileges"@,
        ],
        IssueSeverity::Major,
        IssueCategory::Bluetooth,
        false,
    )
}

/// Record that the Bluetooth check could not run; such a failure counts as
/// critical for the run
pub fn bluetooth_check_failed(error: &str, issues: &mut Vec<DiagnosticIssue>)
    ensures
        issue_views(final(issues)@) == issue_views(old(issues)@).push(check_failed_issue(error@)),
{
    push_issue(
        issues,
        String::from_str("Bluetooth diagnostic check failed"),
        concat2("Could not check Bluetooth capabilities: ", error),
        texts2("Ensure Bluetooth is enabled", "Try running the application with administrator privileges"),
        IssueSeverity::Major,
        IssueCategory::Bluetooth,
        false,
    );
}

/// What the permission check found when writing to the configuration
/// directory.
#[derive(Debug, Clone)]
pub enum PermissionCheck {
    /// The test file was written.
    Writable,
    /// The directory exists but the test file could not be written.
    WriteFailed(String),
    /// The directory could not be created.
    DirectoryFailed(String),
    /// There is no configuration directory to check.
    NoDirectory,
}

/// The issue for a configuration directory that cannot be written to.
pub open spec fn write_failed_issue(error: Seq<char>) -> IssueModel {
    issue_model(
        "Cannot write to configuration directory"@,
        "Insufficient permissions to write to config directory: "@ + error,
        seq!["Run the application with administrator privileges"@, "Check folder permissions"@],
        IssueSeverity::Major,
        IssueCategory::System,
        false,
    )
}

/// The issue for a configuration directory that cannot be created.
pub open spec fn directory_failed_issue(error: Seq<char>) -> IssueModel {
    issue_model(
        "Cannot access configuration directory"@,
        "Cannot create configuration directory: "@ + error,
        seq!["Run the application with administrator privileges"@, "Check folder permissions"@],
        IssueSeverity::Major,
        IssueCategory::System,
        false,
    )
}

/// Judge the permission check: a directory that cannot be written to or
/// created is a major issue.
pub fn permission_findings(
    check: &PermissionCheck,
    issues: &mut Vec<DiagnosticIssue>,
    recommendations: &mut Vec<String>,
    raw_data: &mut Vec<(String, String)>,
)
    ensures
        match check {
            PermissionCheck::Writable => {
                &&& entry_views(final(raw_data)@) == entry_views(old(raw_data)@).push(
                    ("config_dir_writable"@, "true"@),
                )
                &&& final(issues)@ == old(issues)@
                &&& final(recommendations)@ == old(recommendations)@
            },
            PermissionCheck::WriteFailed(e) => {
                &&& entry_views(final(raw_data)@) == entry_views(old(raw_data)@) + seq![
                    ("config_dir_writable"@, "false"@),
                    ("config_dir_error"@, e@),
                ]
                &&& issue_views(final(issues)@) == issue_views(old(issues)@).push(
                    write_failed_issue(e@),
                )
                &&& name_views(final(recommendations)@) == name_views(old(recommendations)@).push(
                    "Run the application with administrator privileges to fix permission issues"@,
                )
            },
            PermissionCheck::DirectoryFailed(e) => {
                &&& entry_views(final(raw_data)@) == entry_views(old(raw_data)@) + seq![
                    ("config_dir_writable"@, "false"@),
                    ("config_dir_error"@, e@),
                ]
                &&& issue_views(final(issues)@) == issue_views(old(issues)@).push(
                    directory_failed_issue(e@),
                )
                &&& final(recommendations)@ == old(recommendations)@
            },
            PermissionCheck::NoDirectory => {
                &&& final(raw_data)@ == old(raw_data)@
                &&& final(issues)@ == old(issues)@
                &&& final(recommendations)@ == old(recommendations)@
            },
        },
{
    let ghost raw0 = entry_views(raw_data@);
    match check {
        PermissionCheck::Writable => {
            push_entry(raw_data, "config_dir_writable", String::from_str("true"));
        },
        PermissionCheck::WriteFailed(e) => {
            push_entry(raw_data, "config_dir_writable", String::from_str("false"));
            push_entry(raw_data, "config_dir_error", e.clone());
            push_issue(
                issues,
                String::from_str("Cannot write to configuration directory"),
                concat2("Insufficient permissions to write to config directory: ", e.as_str()),
                texts2("Run the application with administrator privileges", "Check folder permissions"),
                IssueSeverity::Major,
                IssueCategory::System,
                false,
            );
            push_text(
                recommendations,
                "Run the application with administrator privileges to fix permission issues",
            );
            assert(entry_views(raw_data@) =~= raw0 + seq![
                ("config_dir_writable"@, "false"@),
                ("config_dir_error"@, e@),
            ]);
        },
        PermissionCheck::DirectoryFailed(e) => {
            push_entry(raw_data, "config_dir_writable", String::from_str("false"));
            push_entry(raw_data, "config_dir_error", e.clone());
            push_issue(
                issues,
                String::from_str("Cannot access configuration directory"),
                concat2("Cannot create configuration directory: ", e.as_str()),
                texts2("Run the application with administrator privileges", "Check folder permissions"),
                IssueSeverity::Major,
                IssueCategory::System,
                false,
            );
            assert(entry_views(raw_data@) =~= raw0 + seq![
                ("config_dir_writable"@, "false"@),
                ("config_dir_error"@, e@),
            ]);
        },
        PermissionCheck::NoDirectory => {},
    }
}

/// Which checks a diagnostic run makes.
#[derive(Debug, Clone, Copy, PartialEq, Eq, Structural)]
pub struct DiagnosticPlan {
    pub system_info: bool,
    pub error_history: bool,
    pub bluetooth: bool,
    pub configuration: bool,
    pub permissions: bool,
    pub hardware: bool,
}

/// The checks of a run: system information and error history as chosen;
/// Bluetooth and configuration always; permissions beyond the basic level;
/// hardware at the complete level.
pub fn diagnostic_plan(level: DiagnosticLevel, include_system_info: bool, include_error_history: bool) -> (p:
    DiagnosticPlan)
    ensures
        p == (DiagnosticPlan {
            system_info: include_system_info,
            error_history: include_error_history,
            bluetooth: true,
            configuration: true,
            permissions: level != DiagnosticLevel::Basic,
            hardware: level == DiagnosticLevel::Complete,
        }),
{
    DiagnosticPlan {
        system_info: include_system_info,
        error_history: include_error_history,
        bluetooth: true,
        configuration: true,
        permissions: level != DiagnosticLevel::Basic,
        hardware: level == DiagnosticLevel::Complete,
    }
}

/// Whether a run found critical issues: the Bluetooth check could not run, or
/// some issue is critical.
pub fn has_critical_issues(issues: &[DiagnosticIssue], bluetooth_check_failed: bool) -> (r: bool)
    ensures
        r == (bluetooth_check_failed || exists|i: int|
            0 <= i < issues@.len() && (#[trigger] issues@[i]).severity == IssueSeverity::Critical),
{
    if bluetooth_check_failed {
        return true;
    }
    for i in 0..issues.len()
        invariant
            forall|k: int| 0 <= k < i ==> (#[trigger] issues@[k]).severity != IssueSeverity::Critical,
    {
        if issues[i].severity == IssueSeverity::Critical {
            assert(issues@[i as int].severity == IssueSeverity::Critical);
            return true;
        }
    }
    false
}

/// Auto-repair result
#[derive(Debug, Clone)]
pub struct AutoRepairResult {
    /// List of issues that were fixed
    pub fixed_issues: Vec<String>,
    /// List of issues that could not be fixed (with reasons)
    pub failed_repairs: Vec<(String, String)>,
    /// Time taken for repair attempts
    pub repair_time: Duration,
}

/// What repairing an issue gives: nothing for an issue that is not
/// auto-repairable; success for the two configuration issues that have a
/// repair; otherwise the reason it failed.
pub open spec fn spec_repair_outcome(i: IssueModel) -> Option<Result<(), Seq<char>>> {
    if !i.auto_repairable {
        None
    } else if i.category == IssueCategory::Configuration {
        if i.title == "Scan duration too short"@ || i.title == "Configuration validation error"@ {
            Some(Ok(()))
        } else {
            Some(Err("No repair implementation for issue: "@ + i.title))
        }
    } else {
        Some(Err("No repair implementation for category "@ + i.category.spec_name()))
    }
}

/// The titles of the issues that were repaired, in order.
pub open spec fn spec_fixed(issues: Seq<IssueModel>) -> Seq<Seq<char>>
    decreases issues.len(),
{
    if issues.len() == 0 {
        Seq::empty()
    } else {
        let rest = spec_fixed(issues.drop_last());
        match spec_repair_outcome(issues.last()) {
            Some(Ok(())) => rest.push(issues.last().title),
            _ => rest,
        }
    }
}

/// The issues whose repair failed, with the reasons, in order.
pub open spec fn spec_failed(issues: Seq<IssueModel>) -> Seq<(Seq<char>, Seq<char>)>
    decreases issues.len(),
{
    if issues.len() == 0 {
        Seq::empty()
    } else {
        let rest = spec_failed(issues.drop_last());
        match spec_repair_outcome(issues.last()) {
            Some(Err(reason)) => rest.push((issues.last().title, reason)),
            _ => rest,
        }
    }
}

/// Repair a configuration issue
pub fn repair_configuration_issue(issue: &DiagnosticIssue) -> (r: Result<(), String>)
    ensures
        (issue.title@ == "Scan duration too short"@ || issue.title@
            == "Configuration validation error"@) ==> r is Ok,
        !(issue.title@ == "Scan duration too short"@ || issue.title@
            == "Configuration validation error"@) ==> (r matches Err(m) && m@
            == "No repair implementation for issue: "@ + issue.title@),
{
    if crate::text::str_eq(issue.title.as_str(), "Scan duration too short") {
        return Ok(());
    }
    if crate::text::str_eq(issue.title.as_str(), "Configuration validation error") {
        return Ok(());
    }
    Err(concat2("No repair implementation for issue: ", issue.title.as_str()))
}

/// Attempt to auto-repair the issues of the last diagnostic run (there must
/// be one); the time taken is left at zero for the caller to fill in
pub fn auto_repair(last_issues: Option<&[DiagnosticIssue]>) -> (r: Result<AutoRepairResult, String>)
    ensures
        last_issues is None ==> (r matches Err(m) && m@
            == "No diagnostic results available. Run diagnostics first."@),
        last_issues matches Some(issues) ==> (r matches Ok(res) && name_views(
            res.fixed_issues@,
        ) == spec_fixed(issue_views(issues@)) && entry_views(res.failed_repairs@) == spec_failed(
            issue_views(issues@),
        ) && duration_nanos(res.repair_time) == 0),
{
    let issues = match last_issues {
        Some(i) => i,
        None => {
            return Err(String::from_str("No diagnostic results available. Run diagnostics first."));
        },
    };
    let mut fixed: Vec<String> = Vec::new();
    let mut failed: Vec<(String, String)> = Vec::new();
    for i in 0..issues.len()
        invariant
            name_views(fixed@) == spec_fixed(issue_views(issues@).take(i as int)),
            entry_views(failed@) == spec_failed(issue_views(issues@).take(i as int)),
    {
        let ghost before = issue_views(issues@).take(i as int);
        assert(issue_views(issues@).take(i + 1).drop_last() =~= before);
        assert(issue_views(issues@).take(i + 1).last() == issues@[i as int]@);
        let issue = &issues[i];
        if issue.auto_repairable {
            match issue.category {
                IssueCategory::Configuration => {
                    match repair_configuration_issue(issue) {
                        Ok(()) => {
                            let ghost f0 = fixed@;
                            fixed.push(issue.title.clone());
                            assert(name_views(fixed@) =~= name_views(f0).push(issue.title@));
                        },
                        Err(e) => {
                            let ghost f0 = failed@;
                            failed.push((issue.title.clone(), e));
                            assert(entry_views(failed@) =~= entry_views(f0).push(
                                (issue.title@, e@),
                            ));
                        },
                    }
                },
                _ => {
                    let ghost f0 = failed@;
                    let reason = concat2("No repair implementation for category ", issue.category.name());
                    failed.push((issue.title.clone(), reason));
                    assert(entry_views(failed@) =~= entry_views(f0).push((issue.title@, reason@)));
                },
            }
        }
    }
    assert(issue_views(issues@).take(issues.len() as int) =~= issue_views(issues@));
    Ok(
        AutoRepairResult {
            fixed_issues: fixed,
            failed_repairs: failed,
            repair_time: crate::time::duration_from_secs(0),
        },
    )
}

/// Troubleshooting step
#[derive(Debug, Clone)]
pub struct TroubleshootingStep {
    /// Step title
    pub title: String,
    /// Instructions
    pub instructions: String,
    /// Actions to take
    pub actions: Vec<String>,
    /// How to verify the step worked
    pub verification: String,
}

/// What the library reads of a troubleshooting step.
pub struct StepModel {
    pub title: Seq<char>,
    pub instructions: Seq<char>,
    pub actions: Seq<Seq<char>>,
    pub verification: Seq<char>,
}

impl View for TroubleshootingStep {
    type V = StepModel;

    open spec fn view(&self) -> StepModel {
        StepModel {
            title: self.title@,
            instructions: self.instructions@,
            actions: name_views(self.actions@),
            verification: self.verification@,
        }
    }
}

/// The views of a list of steps.
pub open spec fn step_views(v: Seq<TroubleshootingStep>) -> Seq<StepModel> {
    v.map_values(|s: TroubleshootingStep| s@)
}

/// One step for each issue of the given severity, in order: the title is the
/// prefix and the issue's title; the issue's description and solutions are
/// the instructions and actions.
pub open spec fn spec_issue_steps(
    issues: Seq<IssueModel>,
    severity: IssueSeverity,
    prefix: Seq<char>,
    verification: Seq<char>,
) -> Seq<StepModel>
    decreases issues.len(),
{
    if issues.len() == 0 {
        Seq::empty()
    } else {
        let rest = spec_issue_steps(issues.drop_last(), severity, prefix, verification);
        let i = issues.last();
        if i.severity == severity {
            rest.push(
                StepModel {
                    title: prefix + i.title,
                    instructions: i.description,
                    actions: i.solutions,
                    verification,
                },
            )
        } else {
            rest
        }
    }
}

/// The step that resets the system's Bluetooth.
pub open spec fn reset_bluetooth_step() -> StepModel {
    StepModel {
        title: "Reset Bluetooth System"@,
        instructions: "Reset your system's Bluetooth stack to clear any issues"@,
        actions: seq!["Turn off Bluetooth"@, "Restart your computer"@, "Turn Bluetooth back on"@],
        verification: "Check if device detection works after reset"@,
    }
}

/// The troubleshooting guide for a run's issues: a step for each critical
/// issue, then for each major issue, then a Bluetooth reset when some issue
/// concerns Bluetooth.
pub open spec fn spec_guide(issues: Seq<IssueModel>) -> Seq<StepModel> {
    spec_issue_steps(
        issues,
        IssueSeverity::Critical,
        "Fix Critical Issue: "@,
        "Restart the application and check if the issue persists"@,
    ) + spec_issue_steps(
        issues,
        IssueSeverity::Major,
        "Address Major Issue: "@,
        "Check if the functionality is restored"@,
    ) + if exists|k: int|
        0 <= k < issues.len() && (#[trigger] issues[k]).category == IssueCategory::Bluetooth {
        seq![reset_bluetooth_step()]
    } else {
        Seq::empty()
    }
}

fn copy_texts(v: &Vec<String>) -> (c: Vec<String>)
    ensures
        name_views(c@) == name_views(v@),
{
    let mut c: Vec<String> = Vec::new();
    for i in 0..v.len()
        invariant
            name_views(c@) == name_views(v@).take(i as int),
    {
        let ghost c0 = c@;
        c.push(v[i].clone());
        assert(name_views(c@) =~= name_views(c0).push(v@[i as int]@));
        assert(name_views(c@) =~= name_views(v@).take(i + 1));
    }
    assert(name_views(v@).take(v.len() as int) =~= name_views(v@));
    c
}

fn push_issue_steps(
    steps: &mut Vec<TroubleshootingStep>,
    issues: &[DiagnosticIssue],
    severity: IssueSeverity,
    prefix: &str,
    verification: &str,
)
    ensures
        step_views(final(steps)@) == step_views(old(steps)@) + spec_issue_steps(
            issue_views(issues@),
            severity,
            prefix@,
            verification@,
        ),
{
    let ghost s0 = step_views(steps@);
    for i in 0..issues.len()
        invariant
            step_views(steps@) == s0 + spec_issue_steps(
                issue_views(issues@).take(i as int),
                severity,
                prefix@,
                verification@,
            ),
    {
        let ghost before = issue_views(issues@).take(i as int);
        assert(issue_views(issues@).take(i + 1).drop_last() =~= before);
        assert(issue_views(issues@).take(i + 1).last() == issues@[i as int]@);
        let issue = &issues[i];
        if issue.severity == severity {
            let ghost st0 = steps@;
            let step = TroubleshootingStep {
                title: concat2(prefix, issue.title.as_str()),
                instructions: issue.description.clone(),
                actions: copy_texts(&issue.solutions),
                verification: String::from_str(verification),
            };
            steps.push(step);
            assert(step_views(steps@) =~= step_views(st0).push(step@));
        }
        assert(step_views(steps@) =~= s0 + spec_issue_steps(
            issue_views(issues@).take(i + 1),
            severity,
            prefix@,
            verification@,
        ));
    }
    assert(issue_views(issues@).take(issues.len() as int) =~= issue_views(issues@));
}

/// Create a troubleshooting guide for the issues of a diagnostic run
pub fn create_troubleshooting_guide(issues: &[DiagnosticIssue]) -> (steps: Vec<TroubleshootingStep>)
    ensures
        step_views(steps@) == spec_guide(issue_views(issues@)),
{
    let mut steps: Vec<TroubleshootingStep> = Vec::new();
    assert(step_views(steps@) =~= Seq::<StepModel>::empty());
    push_issue_steps(
        &mut steps,
        issues,
        IssueSeverity::Critical,
        "Fix Critical Issue: ",
        "Restart the application and check if the issue persists",
    );
    push_issue_steps(
        &mut steps,
        issues,
        IssueSeverity::Major,
        "Address Major Issue: ",
        "Check if the functionality is restored",
    );
    let mut bluetooth = false;
    for i in 0..issues.len()
        invariant
            bluetooth == exists|k: int|
                0 <= k < i && (#[trigger] issue_views(issues@)[k]).category
                    == IssueCategory::Bluetooth,
    {
        if issues[i].category == IssueCategory::Bluetooth {
            assert(issue_views(issues@)[i as int].category == IssueCategory::Bluetooth);
            bluetooth = true;
        }
    }
    let ghost s1 = step_views(steps@);
    if bluetooth {
        let step = TroubleshootingStep {
            title: String::from_str("Reset Bluetooth System"),
            instructions: String::from_str("Reset your system's Bluetooth stack to clear any issues"),
            actions: texts3("Turn off Bluetooth", "Restart your computer", "Turn Bluetooth back on"),
            verification: String::from_str("Check if device detection works after reset"),
        };
        steps.push(step);
        assert(step_views(steps@) =~= s1.push(step@));
    }
    assert(step_views(steps@) =~= spec_guide(issue_views(issues@)));
    steps
}

/// The issues that may be repaired automatically, in order.
pub open spec fn repairable(issues: Seq<IssueModel>) -> Seq<IssueModel>
    decreases issues.len(),
{
    if issues.len() == 0 {
        Seq::empty()
    } else {
        let rest = repairable(issues.drop_last());
        if issues.last().auto_repairable {
            rest.push(issues.last())
        } else {
            rest
        }
    }
}

/// Auto-repair accounts for every auto-repairable issue once: each is either
/// fixed or failed, and no other issue is touched.
pub proof fn lemma_repairs_partition(issues: Seq<IssueModel>)
    ensures
        spec_fixed(issues).len() + spec_failed(issues).len() == repairable(issues).len(),
    decreases issues.len(),
{
    if issues.len() > 0 {
        lemma_repairs_partition(issues.drop_last());
    }
}

} // verus!
