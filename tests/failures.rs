use ollama_session::{failure_message, is_html_error, plan_failure, FailurePlan};

#[test]
fn doctype_marker_in_either_case_is_html() {
    assert!(is_html_error("error: <!DOCTYPE html><html></html>"));
    assert!(is_html_error("<!doctype html>"));
    assert!(is_html_error("x <!DocType HTML> y"));
}

#[test]
fn text_without_marker_is_not_html() {
    assert!(!is_html_error(""));
    assert!(!is_html_error("connection refused"));
    assert!(!is_html_error("<!doctype htm>"));
    assert!(!is_html_error("<html><body>no doctype</body></html>"));
    assert!(!is_html_error("\u{e9}<!doctype\u{a0}html>"));
}

#[test]
fn html_failure_goes_to_diagnostic_file() {
    let text = "<!DOCTYPE html><html>502</html>".to_string();
    match plan_failure(text.clone()) {
        FailurePlan::WriteDiagnostic { contents } => assert_eq!(contents, text),
        FailurePlan::Report { .. } => panic!("expected a diagnostic file"),
    }
}

#[test]
fn plain_failure_is_reported_verbatim() {
    match plan_failure("model not found".to_string()) {
        FailurePlan::Report { message } => assert_eq!(message, "model not found"),
        FailurePlan::WriteDiagnostic { .. } => panic!("expected no diagnostic file"),
    }
}

#[test]
fn diagnostic_message_names_the_path() {
    let m = failure_message("<!doctype html>", Some("/home/u/error.html"));
    assert_eq!(m, "Faced an error encoded in html. View it here: file:////home/u/error.html");
}

#[test]
fn extended_length_prefix_is_taken_off() {
    let m = failure_message("<!doctype html>", Some("\\\\?\\C:\\work\\error.html"));
    assert_eq!(m, "Faced an error encoded in html. View it here: file:///C:\\work\\error.html");
}

#[test]
fn unwritten_diagnostic_reports_the_error() {
    assert_eq!(failure_message("<!doctype html>", None), "<!doctype html>");
}
