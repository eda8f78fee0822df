use holiday_lookup::{is_local, ENVIRONMENT_VARIABLE, KEY_VARIABLE};

#[test]
fn local_environment_is_local() {
    assert!(is_local(Some("local")));
}

#[test]
fn other_environments_are_not_local() {
    assert!(!is_local(Some("production")));
    assert!(!is_local(Some("Local")));
    assert!(!is_local(Some("local ")));
    assert!(!is_local(Some("")));
}

#[test]
fn unset_environment_is_not_local() {
    assert!(!is_local(None));
}

#[test]
fn variable_names() {
    assert_eq!(KEY_VARIABLE, "ABSTRACT_API");
    assert_eq!(ENVIRONMENT_VARIABLE, "ENVIRONMENT");
}
