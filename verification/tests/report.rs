use sevcheck::report::get_align_level;
use sevcheck::report::DiagnosticError;

#[test]
fn align_levels_by_tier() {
    assert_eq!(get_align_level(1), " ");
    assert_eq!(get_align_level(2), " - ");
    assert_eq!(get_align_level(3), "   - ");
    assert_eq!(get_align_level(4), "     - ");
    assert_eq!(get_align_level(5), "       - ");
    assert_eq!(get_align_level(0), "       - ");
    assert_eq!(get_align_level(99), "       - ");
}

#[test]
fn diagnostic_error_message() {
    let err = DiagnosticError;
    assert_eq!(err.message(), "One or more diagnostic checks reported a failure".to_string());
}
