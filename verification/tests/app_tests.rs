use rustpods::config::AppConfig;

// The application shell is not part of the library; creating its default
// configuration is the part of start-up that the library does.
#[test]
fn test_app_creation() {
    let _config = AppConfig::default();
}
