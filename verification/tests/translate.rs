use adventures::error::{AppError, ErrorBody, RequestPart};
use adventures::extract::ValidatedJson;
use adventures::journey::JourneyForm;
use adventures::messages::MessageTable;
use adventures::search::SearchError;

fn table() -> MessageTable {
    let mut table = MessageTable::new();
    table.insert("auth-missing".to_string(), "Please sign in".to_string());
    table.insert("invalid-param".to_string(), "Some fields are wrong".to_string());
    table.insert(
        "adventure-journey-valid-title".to_string(),
        "The title must have 5 to 40 characters".to_string(),
    );
    table
}

fn said(body: &ErrorBody) -> (String, String, usize) {
    (body.code.clone(), body.message.clone(), body.fields.len())
}

#[test]
fn every_failure_has_its_code() {
    assert_eq!(AppError::AuthMissing.code(), "auth-missing");
    assert_eq!(AppError::AuthInvalid.code(), "auth-invalid");
    assert_eq!(
        AppError::MalformedPayload(RequestPart::Body, "eof".to_string()).code(),
        "malformed-payload"
    );
    assert_eq!(AppError::InvalidParam(validator::ValidationErrors::new()).code(), "invalid-param");
    assert_eq!(AppError::UserNotFound.code(), "user-not-found");
    assert_eq!(AppError::InvalidSource.code(), "invalid-source");
    assert_eq!(AppError::DomainFailure("x".to_string()).code(), "domain-failure");
    assert_eq!(
        AppError::SearchError(SearchError { report: "x".to_string() }).code(),
        "search-error"
    );
}

#[test]
fn a_failure_of_the_index_is_a_search_error() {
    match AppError::from_search(SearchError { report: "connection refused".to_string() }) {
        AppError::SearchError(e) => assert_eq!(e.report, "connection refused"),
        _ => panic!("expected a search error"),
    }
}

#[test]
fn the_message_is_looked_up_by_the_code() {
    let body = AppError::AuthMissing.translate(&table());
    assert_eq!(said(&body), ("auth-missing".to_string(), "Please sign in".to_string(), 0));
}

#[test]
fn a_code_without_translation_is_the_message() {
    let body = AppError::UserNotFound.translate(&table());
    assert_eq!(said(&body), ("user-not-found".to_string(), "user-not-found".to_string(), 0));
}

#[test]
fn reports_from_inside_are_not_passed_on() {
    let body = AppError::DomainFailure("password at db:5432".to_string()).translate(&table());
    assert_eq!(said(&body), ("domain-failure".to_string(), "domain-failure".to_string(), 0));
    let body = AppError::MalformedPayload(RequestPart::Query, "stack trace".to_string())
        .translate(&table());
    assert_eq!(said(&body), ("malformed-payload".to_string(), "malformed-payload".to_string(), 0));
    let body =
        AppError::SearchError(SearchError { report: "key=abc".to_string() }).translate(&table());
    assert_eq!(said(&body), ("search-error".to_string(), "search-error".to_string(), 0));
}

#[test]
fn violations_are_shown_field_by_field() {
    let form = JourneyForm {
        title: "Rome".to_string(),
        image_url: "https://x.com/a.jpg".to_string(),
        link: "nowhere".to_string(),
        source: 1,
        journey_destiny: "rome".to_string(),
    };
    let error = ValidatedJson::from_request(Ok(form), &table()).err().unwrap();
    let body = error.translate(&table());
    assert_eq!(body.code, "invalid-param");
    assert_eq!(body.message, "Some fields are wrong");
    assert_eq!(body.fields.len(), 2);
    let title = body.fields.iter().find(|f| f.field == "title").unwrap();
    assert_eq!(title.violations.len(), 1);
    assert_eq!(title.violations[0].code, "adventure-journey-valid-title");
    assert_eq!(title.violations[0].message, "The title must have 5 to 40 characters");
    let link = body.fields.iter().find(|f| f.field == "link").unwrap();
    assert_eq!(link.violations.len(), 1);
    assert_eq!(link.violations[0].code, "adventure-journey-valid-link");
    assert_eq!(link.violations[0].message, "adventure-journey-valid-link");
}

#[test]
fn a_violation_without_a_message_is_shown_by_its_code() {
    let mut errors = validator::ValidationErrors::new();
    errors.add("title", validator::ValidationError::new("raw-code"));
    let body = AppError::InvalidParam(errors).translate(&table());
    assert_eq!(body.fields.len(), 1);
    assert_eq!(body.fields[0].field, "title");
    assert_eq!(body.fields[0].violations[0].code, "raw-code");
    assert_eq!(body.fields[0].violations[0].message, "raw-code");
}
