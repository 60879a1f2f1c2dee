use bottle::download::DownloadError;
use bottle::error::Error;
use bottle::server::{
    get_page_and_size, next_retry_delay, timeout_error, ErrorCause, FeedIdentifier, PandaClientError,
    PixivClientError, ServerError, TwitterClientError, YandereClientError, BAD_GATEWAY, BAD_REQUEST, CONFLICT,
    DEFAULT_PAGE_SIZE, GATEWAY_TIMEOUT, INTERNAL_SERVER_ERROR, NOT_FOUND, TOO_MANY_REQUESTS, UNAUTHORIZED,
};

fn chain(causes: Vec<ErrorCause>) -> ServerError {
    ServerError { message: "m".to_string(), causes }
}

#[test]
fn feed_identifiers() {
    let id = FeedIdentifier::new("twitter", 12);
    assert_eq!(id.describe(), "12@twitter");
    assert_eq!(id.clone().feed_id, 12);
}

#[test]
fn paging_parameters() {
    assert_eq!(get_page_and_size(None, None), (0, DEFAULT_PAGE_SIZE));
    assert_eq!(get_page_and_size(Some("3"), Some("50")), (3, 50));
    assert_eq!(get_page_and_size(Some("x"), Some("")), (0, 30));
    assert_eq!(get_page_and_size(Some("-1"), Some("+7")), (-1, 7));
}

#[test]
fn library_error_statuses() {
    let cases = [
        (Error::ObjectNotFound("a".to_string()), NOT_FOUND),
        (Error::ObjectAlreadyExists("a".to_string()), CONFLICT),
        (Error::ObjectNotComplete("a".to_string()), BAD_REQUEST),
        (Error::InvalidEndpoint("a".to_string()), BAD_REQUEST),
        (Error::NotLoggedIn("a".to_string()), UNAUTHORIZED),
        (Error::RateLimit("a".to_string()), TOO_MANY_REQUESTS),
        (Error::Timeout("a".to_string()), GATEWAY_TIMEOUT),
        (Error::DatabaseError("a".to_string()), INTERNAL_SERVER_ERROR),
    ];
    for (e, status) in cases {
        assert_eq!(ServerError::from_library(e).status_code(), status);
    }
}

#[test]
fn client_error_statuses() {
    assert_eq!(chain(vec![ErrorCause::Twitter(TwitterClientError::InvalidGraphqlResponse)]).status_code(), BAD_GATEWAY);
    assert_eq!(chain(vec![ErrorCause::Twitter(TwitterClientError::InvalidCookie)]).status_code(), BAD_REQUEST);
    assert_eq!(chain(vec![ErrorCause::Twitter(TwitterClientError::InvalidEndpoint)]).status_code(), BAD_REQUEST);
    assert_eq!(chain(vec![ErrorCause::Twitter(TwitterClientError::Other)]).status_code(), INTERNAL_SERVER_ERROR);
    assert_eq!(chain(vec![ErrorCause::Pixiv(PixivClientError::InvalidField)]).status_code(), BAD_REQUEST);
    assert_eq!(chain(vec![ErrorCause::Pixiv(PixivClientError::NetworkError)]).status_code(), BAD_GATEWAY);
    assert_eq!(chain(vec![ErrorCause::Yandere(YandereClientError::NetworkError)]).status_code(), BAD_GATEWAY);
    assert_eq!(chain(vec![ErrorCause::Yandere(YandereClientError::Other)]).status_code(), INTERNAL_SERVER_ERROR);
    assert_eq!(chain(vec![ErrorCause::Panda(PandaClientError::RateLimit)]).status_code(), TOO_MANY_REQUESTS);
    assert_eq!(chain(vec![ErrorCause::Panda(PandaClientError::NetworkError)]).status_code(), BAD_GATEWAY);
    assert_eq!(ServerError::from_download(DownloadError::InvalidUrl("u".to_string())).status_code(), BAD_REQUEST);
    assert_eq!(ServerError::from_download(DownloadError::IncompleteDownload("u".to_string())).status_code(), BAD_GATEWAY);
    assert_eq!(ServerError::from_download(DownloadError::IOError("u".to_string())).status_code(), INTERNAL_SERVER_ERROR);
}

#[test]
fn first_recognized_cause_decides() {
    let e = chain(vec![
        ErrorCause::Unrecognized,
        ErrorCause::Library(Error::ObjectNotFound("x".to_string())),
        ErrorCause::Twitter(TwitterClientError::NetworkError),
    ]);
    assert_eq!(e.status_code(), NOT_FOUND);
    assert!(!e.retryable());
    assert_eq!(chain(vec![ErrorCause::Unrecognized, ErrorCause::Unrecognized]).status_code(), INTERNAL_SERVER_ERROR);
    assert_eq!(chain(vec![]).status_code(), INTERNAL_SERVER_ERROR);
}

#[test]
fn retryable_errors() {
    assert!(chain(vec![ErrorCause::Twitter(TwitterClientError::NetworkError)]).retryable());
    assert!(ServerError::from_library(timeout_error()).retryable());
    assert!(!ServerError::from_library(Error::RateLimit("r".to_string())).retryable());
    assert_eq!(next_retry_delay(0, true), Some(1000));
    assert_eq!(next_retry_delay(4, true), Some(1000));
    assert_eq!(next_retry_delay(5, true), None);
    assert_eq!(next_retry_delay(0, false), None);
}

#[test]
fn error_messages() {
    let cases = [
        (Error::InvalidEndpoint("e".to_string()), "Invalid endpoint: e"),
        (Error::NotLoggedIn("e".to_string()), "Not logged in: e"),
        (Error::RateLimit("e".to_string()), "Rate Limit: e"),
        (Error::Timeout("e".to_string()), "Timeout: e"),
        (Error::ObjectNotFound("e".to_string()), "Object `e` not found"),
        (Error::ObjectNotComplete("e".to_string()), "Object `e` is not complete"),
        (Error::ObjectAlreadyExists("e".to_string()), "Object `e` already exists"),
        (Error::UnknownField("e".to_string()), "Unknown field: e"),
        (Error::IOError("e".to_string()), "IO Error: e"),
        (Error::DatabaseError("e".to_string()), "Database error: e"),
        (Error::JSONError("e".to_string()), "Cannot encode/decode JSON: e"),
        (Error::UrlError("e".to_string()), "Cannot parse URL: e"),
        (Error::PathError("e".to_string()), "Cannot parse path: e"),
        (Error::DateError("e".to_string()), "Cannot parse date: e"),
        (Error::IntegerError("e".to_string()), "Cannot parse integer: e"),
        (Error::Other("e".to_string()), "e"),
    ];
    for (e, m) in cases {
        assert_eq!(e.message(), m);
    }
    match timeout_error() {
        Error::Timeout(m) => assert_eq!(m, "after 30000 ms"),
        other => panic!("unexpected {:?}", other),
    }
    let e = ServerError::from_library(Error::ObjectNotFound("Work 3".to_string()));
    assert_eq!(e.message, "Object `Work 3` not found");
}

#[test]
fn retries_stop_after_the_allowed_count() {
    let mut tries = 1;
    let mut retries_done = 0;
    while let Some(delay) = next_retry_delay(retries_done, true) {
        assert_eq!(delay, 1000);
        retries_done += 1;
        tries += 1;
    }
    assert_eq!(tries, 6);
}
