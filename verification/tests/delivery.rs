use discord_logger::delivery::{is_success, Completion, DeliveryError, LogAction, PostOutcome, PostRequest};
use discord_logger::logger::{DiscordLogger, LogOptions};

fn pending(title: &str) -> PostRequest {
    let logger = DiscordLogger::new("https://example.invalid/webhook".to_string(), "X".to_string(), true);
    let options = LogOptions {
        title: title.to_string(),
        description: "B".to_string(),
        fields: None,
        color: None,
    };
    match logger.log_with(options, String::new(), String::new()) {
        LogAction::Post(request) => request,
        LogAction::Finished(completion) => panic!("a request was expected, not {:?}", completion),
    }
}

fn status_of(completion: &Completion) -> Option<u16> {
    match &completion.result {
        Err(DeliveryError::HttpStatus { status }) => Some(*status),
        _ => None,
    }
}

#[test]
fn empty_webhook_sends_nothing_and_succeeds() {
    let logger = DiscordLogger::new(String::new(), "X".to_string(), true);
    let options = LogOptions {
        title: "A".to_string(),
        description: "B".to_string(),
        fields: None,
        color: Some(1),
    };
    match logger.log(options) {
        Some(LogAction::Finished(completion)) => {
            assert!(matches!(completion.result, Ok(())));
            assert_eq!(completion.warning, Some("Discord webhook URL is not set".to_string()));
            assert_eq!(completion.confirmation, None);
        }
        other => panic!("the end of the call was expected, not {:?}", other),
    }
}

#[test]
fn empty_webhook_sends_nothing_in_any_color() {
    let logger = DiscordLogger::new(String::new(), String::new(), false);
    assert!(matches!(logger.info("A".to_string(), "B".to_string(), None), Some(LogAction::Finished(_))));
    assert!(matches!(logger.success("A".to_string(), "B".to_string(), None), Some(LogAction::Finished(_))));
    assert!(matches!(logger.error("A".to_string(), "B".to_string(), None), Some(LogAction::Finished(_))));
    assert!(matches!(
        logger.log_with(
            LogOptions { title: String::new(), description: String::new(), fields: None, color: None },
            "stamp".to_string(),
            "clock".to_string(),
        ),
        LogAction::Finished(_)
    ));
}

#[test]
fn one_character_of_webhook_is_enough_to_send() {
    let logger = DiscordLogger::new("x".to_string(), String::new(), false);
    match logger.info("A".to_string(), "B".to_string(), None) {
        Some(LogAction::Post(request)) => assert_eq!(request.url, "x"),
        other => panic!("a request was expected, not {:?}", other),
    }
}

#[test]
fn accepted_status_confirms_under_the_title() {
    let completion = pending("Test Dek").complete(PostOutcome::Status(200));
    assert!(matches!(completion.result, Ok(())));
    assert_eq!(completion.confirmation, Some("Message sent to Discord: Test Dek".to_string()));
    assert_eq!(completion.warning, None);
}

#[test]
fn no_content_is_accepted_too() {
    let completion = pending("A").complete(PostOutcome::Status(204));
    assert!(matches!(completion.result, Ok(())));
    assert_eq!(completion.confirmation, Some("Message sent to Discord: A".to_string()));
}

#[test]
fn bad_request_is_an_error_with_its_status() {
    let completion = pending("A").complete(PostOutcome::Status(400));
    assert_eq!(status_of(&completion), Some(400));
    assert_eq!(completion.confirmation, None);
    assert_eq!(completion.warning, None);
}

#[test]
fn statuses_around_the_accepted_range() {
    assert_eq!(status_of(&pending("A").complete(PostOutcome::Status(199))), Some(199));
    assert!(matches!(pending("A").complete(PostOutcome::Status(200)).result, Ok(())));
    assert!(matches!(pending("A").complete(PostOutcome::Status(299)).result, Ok(())));
    assert_eq!(status_of(&pending("A").complete(PostOutcome::Status(300))), Some(300));
    assert_eq!(status_of(&pending("A").complete(PostOutcome::Status(429))), Some(429));
    assert_eq!(status_of(&pending("A").complete(PostOutcome::Status(500))), Some(500));
    assert_eq!(status_of(&pending("A").complete(PostOutcome::Status(0))), Some(0));
    assert_eq!(status_of(&pending("A").complete(PostOutcome::Status(u16::MAX))), Some(u16::MAX));
}

#[test]
fn is_success_is_two_hundred_to_two_ninety_nine() {
    assert!(!is_success(0));
    assert!(!is_success(199));
    assert!(is_success(200));
    assert!(is_success(250));
    assert!(is_success(299));
    assert!(!is_success(300));
    assert!(!is_success(u16::MAX));
}

#[test]
fn transport_failure_is_an_error_with_its_account() {
    let completion = pending("A").complete(PostOutcome::TransportFailure("connection refused".to_string()));
    match &completion.result {
        Err(DeliveryError::Transport { reason }) => assert_eq!(reason, "connection refused"),
        other => panic!("a transport error was expected, not {:?}", other),
    }
    assert_eq!(completion.confirmation, None);
    assert_eq!(completion.warning, None);
}

#[test]
fn status_error_reads_as_number_and_reason() {
    assert_eq!(
        DeliveryError::HttpStatus { status: 400 }.message(),
        "HTTP error! status: 400 Bad Request"
    );
    assert_eq!(
        DeliveryError::HttpStatus { status: 404 }.message(),
        "HTTP error! status: 404 Not Found"
    );
    assert_eq!(
        DeliveryError::HttpStatus { status: 429 }.message(),
        "HTTP error! status: 429 Too Many Requests"
    );
    assert_eq!(
        DeliveryError::HttpStatus { status: 500 }.message(),
        "HTTP error! status: 500 Internal Server Error"
    );
}

#[test]
fn status_without_a_reason_reads_as_unknown() {
    assert_eq!(
        DeliveryError::HttpStatus { status: 299 }.message(),
        "HTTP error! status: 299 <unknown status code>"
    );
}

#[test]
fn number_that_is_no_status_reads_as_refused() {
    assert_eq!(
        DeliveryError::HttpStatus { status: 42 }.message(),
        "HTTP error! status: invalid status code"
    );
    assert_eq!(
        DeliveryError::HttpStatus { status: 1000 }.message(),
        "HTTP error! status: invalid status code"
    );
}

#[test]
fn transport_error_reads_as_its_account() {
    let error = DeliveryError::Transport { reason: "dns error: no such host".to_string() };
    assert_eq!(error.message(), "dns error: no such host");
}

#[test]
fn error_of_a_refused_status_tells_the_status() {
    let completion = pending("A").complete(PostOutcome::Status(400));
    match completion.result {
        Err(error) => assert!(error.message().contains("400")),
        Ok(()) => panic!("an error was expected"),
    }
}
