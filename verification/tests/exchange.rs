use openai_client::error::ApiError;
use openai_client::error::TransportError;
use openai_client::exchange::after_send;
use openai_client::exchange::Next;
use openai_client::exchange::Status;

fn status(code: u16) -> Status {
    Status::new(code).expect("a code of three digits")
}

fn refused() -> TransportError {
    TransportError { message: String::from("error sending request: connection refused") }
}

#[test]
fn a_status_has_three_digits() {
    assert!(Status::new(0).is_none());
    assert!(Status::new(99).is_none());
    assert!(Status::new(1000).is_none());
    assert!(Status::new(u16::MAX).is_none());
    assert_eq!(status(100).code(), 100);
    assert_eq!(status(999).code(), 999);
}

#[test]
fn success_runs_from_200_to_299() {
    assert!(!status(100).is_success());
    assert!(!status(199).is_success());
    assert!(status(200).is_success());
    assert!(status(204).is_success());
    assert!(status(299).is_success());
    assert!(!status(300).is_success());
    assert!(!status(404).is_success());
    assert!(!status(999).is_success());
}

#[test]
fn a_status_reads_as_code_and_reason() {
    assert_eq!(status(200).to_string(), "200 OK");
    assert_eq!(status(401).to_string(), "401 Unauthorized");
    assert_eq!(status(500).to_string(), "500 Internal Server Error");
    assert_eq!(status(999).to_string(), "999 <unknown status code>");
}

#[test]
fn unauthorized_ends_in_an_error_that_names_the_code() {
    match after_send(Ok(status(401))) {
        Next::Stop(ApiError::Error(message)) => {
            assert!(message.contains("401"));
            assert_eq!(message, "401 Unauthorized");
        }
        other => panic!("unexpected: {:?}", other),
    }
}

#[test]
fn every_status_outside_success_ends_in_an_error_that_starts_with_the_code() {
    for code in (100u16..200).chain(300..1000) {
        match after_send(Ok(status(code))) {
            Next::Stop(ApiError::Error(message)) => {
                assert!(message.starts_with(&format!("{} ", code)), "{}", message)
            }
            other => panic!("unexpected for {}: {:?}", code, other),
        }
    }
}

#[test]
fn success_asks_for_the_body() {
    for code in 200u16..300 {
        assert!(matches!(after_send(Ok(status(code))), Next::ReadBody));
    }
}

#[test]
fn a_connection_failure_ends_in_a_request_error() {
    match after_send(Err(refused())) {
        Next::Stop(ApiError::RequestError(cause)) => {
            assert_eq!(cause.message, "error sending request: connection refused")
        }
        other => panic!("unexpected: {:?}", other),
    }
}

#[test]
fn a_request_error_shows_its_cause() {
    let error = ApiError::RequestError(refused());
    assert!(error.message().contains("connection refused"));
    assert_eq!(error.message(), "error sending request: connection refused");
}

#[test]
fn a_transport_failure_folds_into_an_error_with_the_same_text() {
    match ApiError::from(refused()) {
        ApiError::Error(message) => {
            assert_eq!(message, "error sending request: connection refused")
        }
        other => panic!("unexpected: {:?}", other),
    }
    let folded: ApiError = refused().into();
    assert_eq!(folded.message(), "error sending request: connection refused");
}

#[test]
fn an_error_shows_its_own_text() {
    assert_eq!(ApiError::Error(String::from("Unknown Error")).message(), "Unknown Error");
}
