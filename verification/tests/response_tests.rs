use script_analyzer::finding::ParseError;
use script_analyzer::json::ReportError;
use script_analyzer::pipeline::{InvocationFailure, Outcome};
use script_analyzer::response::{
    respond, ApiError, Error404Template, HTTPResponse, HtmlTemplate, STATUS_INTERNAL_SERVER_ERROR,
    STATUS_OK,
};

#[test]
fn success_is_answered_with_the_findings() {
    match respond(Outcome::Succeeded("[]".to_string()), "app".to_string()) {
        HTTPResponse::OK200(page) => {
            assert_eq!(page.app_name, "app");
            assert_eq!(page.script, "[]");
        }
        _ => panic!("success was not answered with the findings"),
    }
}

fn is_failure_page(outcome: Outcome) -> bool {
    match respond(outcome, "app".to_string()) {
        HTTPResponse::NOTFOUND404(page) => page.app_name == "app",
        _ => false,
    }
}

#[test]
fn every_failure_is_answered_alike() {
    assert!(is_failure_page(Outcome::RejectedExtension));
    assert!(is_failure_page(Outcome::StorageFailed));
    assert!(is_failure_page(Outcome::InvocationFailed(InvocationFailure::Spawn)));
    assert!(is_failure_page(Outcome::InvocationFailed(InvocationFailure::NonZeroExit)));
    assert!(is_failure_page(Outcome::InvocationFailed(InvocationFailure::Timeout)));
    assert!(is_failure_page(Outcome::ParseFailed(ReportError::Unencodable)));
    assert!(is_failure_page(Outcome::ParseFailed(ReportError::Malformed(ParseError {
        line_index: 3,
        line: "secret detail".to_string(),
    }))));
    assert!(is_failure_page(Outcome::NoFileProvided));
}

#[test]
fn rendered_template_is_the_page() {
    let page = HtmlTemplate::<Error404Template>::page(Ok("<html></html>".to_string()));
    assert_eq!(page.status, 200);
    assert_eq!(page.status, STATUS_OK);
    assert_eq!(page.body, "<html></html>");
}

#[test]
fn failed_rendering_is_a_server_error() {
    let page = HtmlTemplate::<Error404Template>::page(Err("missing field".to_string()));
    assert_eq!(page.status, 500);
    assert_eq!(page.status, STATUS_INTERNAL_SERVER_ERROR);
    assert_eq!(page.body, "Failed to render template. Error: missing field");
}

#[test]
fn api_error_is_an_internal_server_error() {
    assert_eq!(ApiError::InternalServerError.status(), 500);
    assert_eq!(ApiError::InternalServerError.message(), "Internal Server Error");
}
