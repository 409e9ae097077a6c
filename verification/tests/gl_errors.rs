use rabbit_hole::gl_errors::{check_gl_errors, gl_error_pending, GL_NO_ERROR};

#[test]
fn no_pending_error_goes_on() {
    assert!(!gl_error_pending(GL_NO_ERROR));
    check_gl_errors(GL_NO_ERROR);
}

#[test]
fn pending_error_is_detected() {
    // GL_INVALID_OPERATION
    assert!(gl_error_pending(0x0502));
    assert!(gl_error_pending(1));
    assert!(gl_error_pending(u32::MAX));
}
