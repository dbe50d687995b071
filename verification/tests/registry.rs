use rustserve_platform::errors::PlatformError;
use rustserve_platform::registry::ServiceProfile;
use rustserve_platform::registry::ServiceRegistry;

#[test]
fn lookup_returns_registered_profile() {
    let mut reg = ServiceRegistry::new();
    reg.register(
        "users".to_string(),
        ServiceProfile::new("127.0.0.1:9001".to_string()),
    );
    reg.register(
        "orders".to_string(),
        ServiceProfile::new("10.0.0.5:8443".to_string()),
    );

    let users = reg.lookup("users").unwrap();
    assert_eq!(users.address, "127.0.0.1:9001");
    let orders = reg.lookup("orders").unwrap();
    assert_eq!(orders.address, "10.0.0.5:8443");
}

#[test]
fn lookup_unknown_name_is_typed_error() {
    let mut reg = ServiceRegistry::new();
    reg.register(
        "users".to_string(),
        ServiceProfile::new("127.0.0.1:9001".to_string()),
    );

    let missing = reg.lookup("billing");
    assert!(matches!(missing, Err(PlatformError::ConfigurationError(_))));
}

#[test]
fn lookup_on_empty_registry_fails() {
    let reg = ServiceRegistry::new();
    assert!(reg.lookup("anything").is_err());
    assert!(!reg.contains("anything"));
}

#[test]
fn contains_tracks_registration() {
    let mut reg = ServiceRegistry::new();
    assert!(!reg.contains("users"));
    reg.register(
        "users".to_string(),
        ServiceProfile::new("127.0.0.1:9001".to_string()),
    );
    assert!(reg.contains("users"));
    assert!(!reg.contains("user"));
    assert!(!reg.contains("users2"));
}
