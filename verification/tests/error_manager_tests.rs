use rustpods::error::{
    AirPodsError, ErrorContext, ErrorManager, ErrorSeverity, RecoveryAction, RustPodsError,
    MAX_ERROR_HISTORY,
};

#[test]
fn test_error_context_creation() {
    let ctx = ErrorContext::new("TestComponent", "test_operation");
    assert_eq!(ctx.component, "TestComponent");
    assert_eq!(ctx.operation, "test_operation");
    let ctx_with_data = ctx.with_metadata("test_key", "test_value");
    assert!(ctx_with_data.get_metadata("test_key").is_some());
    assert_eq!(ctx_with_data.get_metadata("test_key").unwrap(), "test_value");
}

#[test]
fn test_error_manager_integration() {
    let context = ErrorContext::new("AirPodsTest", "parsing")
        .with_metadata("device_address", "00:11:22:33:44:55")
        .with_user_message("Unable to read AirPods battery status");
    assert_eq!(context.component, "AirPodsTest");
    assert_eq!(context.operation, "parsing");
    assert_eq!(context.get_metadata("device_address"), Some(&"00:11:22:33:44:55".to_string()));
    assert_eq!(
        context.user_message,
        Some("Unable to read AirPods battery status".to_string())
    );
}

#[test]
fn context_text_lists_metadata_in_order() {
    let ctx = ErrorContext::new("Scanner", "scan");
    assert_eq!(ctx.to_text(), "[Scanner:scan] ");
    let ctx = ctx.with_metadata("a", "1").with_metadata("b", "2").with_metadata("a", "3");
    assert_eq!(ctx.to_text(), "[Scanner:scan] (a=3, b=2) ");
    assert_eq!(ctx.metadata.len(), 2);
}

#[test]
fn manager_counts_and_keeps_latest() {
    let mut m = ErrorManager::new();
    assert!(m.get_latest_error().is_none());
    let e = RustPodsError::Bluetooth("adapter gone".to_string());
    m.record_error(&e);
    assert_eq!(m.get_latest_error(), Some(e.to_text()));
    m.add_to_history(&RustPodsError::AirPods(AirPodsError::ManufacturerDataMissing));
    m.add_to_history(&RustPodsError::Bluetooth("again".to_string()));
    let stats = m.get_stats();
    assert_eq!(stats.total, 3);
    assert_eq!(stats.type_count("bluetooth"), 2);
    assert_eq!(stats.type_count("airpods"), 1);
    assert_eq!(stats.type_count("ui"), 0);
    assert_eq!(
        stats.severity_count(e.severity()),
        if RustPodsError::AirPods(AirPodsError::ManufacturerDataMissing).severity() == e.severity() {
            3
        } else {
            2
        }
    );
    assert_eq!(m.get_error_history().len(), 3);
    assert_eq!(m.get_error_history()[0].error_type, "bluetooth");
    assert_eq!(m.get_error_history()[0].recovery, Some(e.recovery_action()));

    m.record_error_with_context(
        RustPodsError::Timeout("slow".to_string()),
        ErrorContext::new("Scanner", "scan"),
        RecoveryAction::Retry,
    );
    assert_eq!(m.get_detailed_history().len(), 1);
    let record = m.get_latest_detailed_error().unwrap();
    assert_eq!(record.component, "Scanner");
    assert_eq!(record.error_type, "timeout");
    assert_eq!(record.recovery_action, RecoveryAction::Retry);
    assert_eq!(m.get_error_history().len(), 4);

    m.clear_history();
    assert!(m.get_error_history().is_empty());
    assert_eq!(m.get_stats().total, 4);
    m.reset_stats();
    assert_eq!(m.get_stats().total, 0);
    assert_eq!(m.get_stats().severity_count(ErrorSeverity::Critical), 0);
}

#[test]
fn history_is_bounded() {
    let mut m = ErrorManager::new();
    for i in 0..(MAX_ERROR_HISTORY + 20) {
        m.record_error(&RustPodsError::General(format!("error {}", i)));
    }
    assert_eq!(m.get_error_history().len(), MAX_ERROR_HISTORY);
    assert_eq!(m.get_error_history()[0].error_message, RustPodsError::General("error 20".to_string()).to_text());
    assert_eq!(m.get_stats().total, MAX_ERROR_HISTORY + 20);
}

#[test]
fn ui_and_system_errors_keep_their_severity() {
    let e = RustPodsError::ui("render failed".to_string(), ErrorSeverity::Critical);
    assert_eq!(e.severity(), ErrorSeverity::Critical);
    assert_eq!(e.get_type(), "ui_generic");
    let e = RustPodsError::system("no power".to_string(), ErrorSeverity::Warning);
    assert_eq!(e.severity(), ErrorSeverity::Warning);
    assert_eq!(e.get_type(), "system_generic");
}

#[test]
fn error_type_names_differ_between_kinds() {
    let errors = vec![
        RustPodsError::Bluetooth("a".to_string()),
        RustPodsError::Config("a".to_string()),
        RustPodsError::ui("a".to_string(), ErrorSeverity::Minor),
        RustPodsError::UiError,
        RustPodsError::system("a".to_string(), ErrorSeverity::Critical),
        RustPodsError::State("a".to_string()),
        RustPodsError::StatePersistence("a".to_string()),
        RustPodsError::General("a".to_string()),
        RustPodsError::Parse("a".to_string()),
        RustPodsError::ParseError("a".to_string()),
        RustPodsError::DeviceNotFound,
        RustPodsError::Timeout("a".to_string()),
    ];
    for (i, a) in errors.iter().enumerate() {
        for (j, b) in errors.iter().enumerate() {
            assert_eq!(a.get_type() == b.get_type(), i == j);
        }
    }
    // Categories may merge kinds where type names do not.
    assert_eq!(errors[5].get_category(), errors[6].get_category());
}
