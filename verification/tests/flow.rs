use adventures::auth::{Claims, JwtAuth};
use adventures::error::{AppError, DomainError};
use adventures::extract::ValidatedJson;
use adventures::journey::{journey, JourneyForm, JourneyResponse, JourneySource, UserLookup};
use adventures::messages::MessageTable;

fn rome() -> JourneyForm {
    JourneyForm {
        title: "Trip to Rome".to_string(),
        image_url: "https://x.com/a.jpg".to_string(),
        link: "https://x.com/trip".to_string(),
        source: 1,
        journey_destiny: "rome".to_string(),
    }
}

fn start() -> UserLookup {
    let table = MessageTable::new();
    let form = ValidatedJson::from_request(Ok(rome()), &table).unwrap();
    let credential = JwtAuth::from_request(Some(b"Bearer good")).ok().unwrap();
    let claims = Claims { sub: "marco".to_string(), iat: 10, exp: 20 };
    let auth = credential.decoded(Some(claims)).unwrap();
    journey(form, auth)
}

#[test]
fn a_valid_form_of_a_known_user_is_answered_with_the_new_identifier() {
    let lookup = start();
    assert_eq!(lookup.name(), "marco");
    let insert = lookup.resolved(Ok(7u32)).unwrap();
    {
        let (user, command) = insert.command();
        assert_eq!(*user, 7);
        assert_eq!(command.title, "Trip to Rome");
        assert_eq!(command.image_url, "https://x.com/a.jpg");
        assert_eq!(command.link, "https://x.com/trip");
        assert_eq!(command.source, JourneySource::Article);
        assert_eq!(command.journey_destiny, "rome");
    }
    let response = insert.stored(Ok(42)).unwrap();
    assert_eq!(response, JourneyResponse { id: 42 });
}

#[test]
fn without_a_token_there_is_no_claim_to_start_from() {
    // The flow starts from claims, and a request without the header gives
    // none: it ends as `AuthMissing` before any lookup.
    assert!(matches!(JwtAuth::from_request(None), Err(AppError::AuthMissing)));
}

#[test]
fn an_unknown_user_ends_the_request() {
    let outcome = start().resolved::<u32>(Err(DomainError::UserNotFound));
    assert!(matches!(outcome, Err(AppError::UserNotFound)));
}

#[test]
fn a_failed_lookup_is_a_domain_failure() {
    let failure = DomainError::Failure("connection reset".to_string());
    let outcome = start().resolved::<u32>(Err(failure));
    match outcome {
        Err(AppError::DomainFailure(report)) => assert_eq!(report, "connection reset"),
        _ => panic!("expected a domain failure"),
    }
}

#[test]
fn a_failed_insert_is_a_domain_failure() {
    let insert = start().resolved(Ok(7u32)).unwrap();
    match insert.stored(Err(DomainError::Failure("disk full".to_string()))) {
        Err(AppError::DomainFailure(report)) => assert_eq!(report, "disk full"),
        _ => panic!("expected a domain failure"),
    }
}

#[test]
fn a_user_who_vanished_before_the_insert_is_reported_as_missing() {
    let insert = start().resolved(Ok(7u32)).unwrap();
    assert!(matches!(insert.stored(Err(DomainError::UserNotFound)), Err(AppError::UserNotFound)));
}

#[test]
fn recording_the_same_form_twice_gives_two_commands_and_two_identifiers() {
    let first = start().resolved(Ok(7u32)).unwrap();
    let second = start().resolved(Ok(7u32)).unwrap();
    assert_eq!(first.command().1.title, second.command().1.title);
    assert_eq!(first.command().1.link, second.command().1.link);
    let first = first.stored(Ok(1)).unwrap();
    let second = second.stored(Ok(2)).unwrap();
    assert_eq!(first.id, 1);
    assert_eq!(second.id, 2);
    assert_ne!(first, second);
}

#[test]
fn domain_failures_as_a_request_reports_them() {
    assert!(matches!(AppError::from_domain(DomainError::UserNotFound), AppError::UserNotFound));
    match AppError::from_domain(DomainError::Failure("timeout".to_string())) {
        AppError::DomainFailure(report) => assert_eq!(report, "timeout"),
        _ => panic!("expected a domain failure"),
    }
}
