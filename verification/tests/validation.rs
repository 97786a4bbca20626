use validator_rs::ValidationError;

#[test]
fn test_validation_error() {
    let error = ValidationError::new("email", "Invalid email format");
    assert_eq!(error.field, "email");
    assert_eq!(error.message, "Invalid email format");
}
