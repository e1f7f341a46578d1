use whatrust::biometric::{authenticate, availability, label, Availability};

#[test]
fn biometric_is_unsupported() {
    assert_eq!(availability(), Availability::Unsupported);
}

#[test]
fn authenticate_always_fails_with_message() {
    assert_eq!(
        authenticate("unlock whatRust"),
        Err("biometric authentication is not available on this platform".to_string())
    );
    assert_eq!(
        authenticate(""),
        Err("biometric authentication is not available on this platform".to_string())
    );
}

#[test]
fn biometric_label() {
    assert_eq!(label(), "biometric");
}
