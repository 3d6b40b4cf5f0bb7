use eyre::Report;

#[test]
fn test_backtrace_test_backtrace() {
    let error: Report = Report::msg("oh no!");
    let _ = error.backtrace();
}
