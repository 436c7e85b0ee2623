use lane_detection::Error;

#[test]
fn error_new_invalid_input() {
    let e = Error::new(Some("InvalidInput".to_string()), "bad value".to_string());
    assert!(matches!(e, Error::InvalidInput(m) if m == "bad value"));
}

#[test]
fn error_new_matrix_error() {
    let e = Error::new(Some("MATRIXERROR".to_string()), "det is 0".to_string());
    assert!(matches!(e, Error::MatrixError(m) if m == "det is 0"));
}

#[test]
fn error_new_unknown_type() {
    let e = Error::new(Some("NoSuchError".to_string()), "ignored".to_string());
    assert!(matches!(e, Error::InvalidInput(m) if m == "Invalid error type"));
}

#[test]
fn error_new_missing_type() {
    let e = Error::new(None, "ignored".to_string());
    assert!(matches!(e, Error::InvalidInput(m) if m == "Invalid error type"));
}

#[test]
fn error_message_rendering() {
    let e = Error::new(Some("invalidinput".to_string()), "x".to_string());
    assert_eq!(e.message(), "Invalid input: x");
    let e = Error::new(Some("matrixerror".to_string()), "y".to_string());
    assert_eq!(e.message(), "Matrix error: y");
}
