use std::time::Duration;
use veebot_telegram::error::{
    bad_status_message, invalid_duration_message, DbError, Error, ErrorKind, ForeignError, FtAiError, HttpError, HttpStatus, UserError,
    ERROR_ID_LEN,
};

fn foreign(message: &str, cause: Option<&str>) -> ForeignError {
    ForeignError { message: message.to_string(), cause: cause.map(|c| c.to_string()) }
}

fn is_id_char(c: char) -> bool {
    c == '_' || c == '-' || c.is_ascii_digit() || c.is_ascii_lowercase() || c.is_ascii_uppercase()
}

#[test]
fn new_error_has_a_short_random_id_and_no_backtrace() {
    let err = Error::from(ErrorKind::from(UserError::FtaiInvalidFormat));
    assert_eq!(err.id.chars().count(), ERROR_ID_LEN);
    assert_eq!(err.id.chars().count(), 6);
    assert!(err.id.chars().all(is_id_char));
    assert_eq!(err.backtrace, None);
    assert_eq!(err.kind, ErrorKind::User { source: UserError::FtaiInvalidFormat });
}

#[test]
fn only_user_errors_are_user_errors() {
    assert!(ErrorKind::from(UserError::ChatNotFound { chat_id: 1 }).is_user_error());
    assert!(!ErrorKind::from(HttpError::SendRequest { source: foreign("x", None) }).is_user_error());
    assert!(!ErrorKind::from(foreign("tg", None)).is_user_error());
    assert!(!ErrorKind::from(DbError::Query { source: foreign("q", None) }).is_user_error());
    assert!(!ErrorKind::from(FtAiError::MissingWavFile).is_user_error());
}

#[test]
fn conversions_pick_the_matching_kind() {
    assert!(matches!(ErrorKind::from(DbError::Connect { source: foreign("c", None) }), ErrorKind::Db { .. }));
    assert!(matches!(ErrorKind::from(foreign("t", None)), ErrorKind::Tg { .. }));
    assert!(matches!(ErrorKind::from(FtAiError::MissingWavFile), ErrorKind::FtAi { .. }));
    assert!(matches!(
        ErrorKind::from(HttpError::ReadResponse { source: foreign("r", None) }),
        ErrorKind::Http { .. }
    ));
}

#[test]
fn user_error_messages() {
    assert_eq!(
        UserError::CommaInImageTag { input: "a,b".to_string() }.message(),
        "The specified image tags contain a comma (which is prohibited): a,b"
    );
    assert_eq!(
        UserError::BannedPatternAlreadyExists { pattern: "^spam.*$".to_string() }.message(),
        "Requested pattern already exists in the database: ^spam.*$"
    );
    assert_eq!(
        UserError::BannedPatternNotFound { pattern: "x+".to_string() }.message(),
        "Requested pattern was not found in the database: x+"
    );
    assert_eq!(
        UserError::ChatAlreadyExists { chat_id: -1001234567890 }.message(),
        "Requested chat already exists in the database (chat_id: -1001234567890)"
    );
    assert_eq!(
        UserError::ChatNotFound { chat_id: 0 }.message(),
        "Requested chat was not found in the database (chat_id: 0)"
    );
    assert_eq!(
        UserError::FtaiTextTooLong { actual_len: 321 }.message(),
        "?????????? ?????? 15.ai ???????????? ???????? ???? ?????????? 200 ????????????????. ?????????? ???????????????? ????????????: 321"
    );
    assert_eq!(
        UserError::FtaiTextContainsNumber.message(),
        "?????????? ?????? 15.ai ???? ???????????? ?????????????????? ???????? ?????? ARPAbet ??????????????"
    );
}

#[test]
fn http_status_codes_outside_the_valid_range_are_refused() {
    assert!(HttpStatus::from_u16(99).is_none());
    assert!(HttpStatus::from_u16(1000).is_none());
    assert_eq!(HttpStatus::from_u16(100).map(|s| s.code()), Some(100));
    assert_eq!(HttpStatus::from_u16(999).map(|s| s.code()), Some(999));
}

#[test]
fn http_error_messages() {
    let status = HttpStatus::from_u16(404).unwrap();
    let err = HttpError::BadResponseStatusCode { status, body: "nope".to_string() };
    assert_eq!(err.message(), "HTTP request has failed (http status code: 404 Not Found):\nnope");
    let odd = HttpError::BadResponseStatusCode { status: HttpStatus::from_u16(599).unwrap(), body: String::new() };
    assert_eq!(odd.message(), "HTTP request has failed (http status code: 599 <unknown status code>):\n");
    assert_eq!(HttpError::SendRequest { source: foreign("dns", None) }.message(), "Failed to send an http request");
    assert_eq!(HttpError::ReadResponse { source: foreign("eof", None) }.message(), "Failed to read http response");
    assert_eq!(
        HttpError::UnexpectedResponseJsonShape { source: foreign("json", None) }.message(),
        "Received an unexpected response JSON object"
    );
}

#[test]
fn ftai_and_db_error_messages() {
    assert_eq!(FtAiError::MissingWavFile.message(), "15.ai returned zero WAV files in the response");
    assert_eq!(
        FtAiError::ReadWavHeader { message: "bad riff".to_string() }.message(),
        "Failed to read WAV header returned by 15.ai: bad riff"
    );
    assert_eq!(
        FtAiError::CreateWavReader { message: "m".to_string() }.message(),
        "Failed to create a WAV reader, that is probably a bug, it must be infallible: m"
    );
    assert_eq!(
        FtAiError::ReadWavSamples { message: "short".to_string() }.message(),
        "Failed to read WAV samples returned by 15.ai: short"
    );
    assert_eq!(
        FtAiError::EncodeWavToOpus { source: foreign("opus", None) }.message(),
        "Failed to encode the resampled WAV to OGG"
    );
    assert_eq!(DbError::Connect { source: foreign("c", None) }.message(), "Failed to connect to the database");
    assert_eq!(DbError::Migrate { source: foreign("m", None) }.message(), "Failed to migrate the database");
    assert_eq!(DbError::Query { source: foreign("q", None) }.message(), "Database query failed");
    assert_eq!(
        DbError::InvalidDuration { duration: Duration::from_millis(1500), source: foreign("d", None) }.message(),
        "Duration can't be converted to database representation: 1.5s"
    );
}

#[test]
fn display_text_has_id_message_and_backtrace() {
    let mut err = Error::from(ErrorKind::from(foreign("Network error", Some("timed out"))));
    err.id = "abc_-1".to_string();
    assert_eq!(err.to_display_string(), "Error (id: abc_-1): Network error");
    err.backtrace = Some("frame 0\nframe 1".to_string());
    assert_eq!(err.to_display_string(), "Error (id: abc_-1): Network error\nframe 0\nframe 1");
}

#[test]
fn sources_follow_the_wrapped_error() {
    let tg = Error::from(ErrorKind::from(foreign("Network error", Some("timed out"))));
    assert_eq!(tg.source(), Some("timed out".to_string()));
    let user = Error::from(ErrorKind::from(UserError::FtaiInvalidFormat));
    assert_eq!(user.source(), None);
    let http = Error::from(ErrorKind::from(HttpError::SendRequest { source: foreign("dns failed", None) }));
    assert_eq!(http.source(), Some("dns failed".to_string()));
    let status = HttpStatus::from_u16(500).unwrap();
    let bad = Error::from(ErrorKind::from(HttpError::BadResponseStatusCode { status, body: String::new() }));
    assert_eq!(bad.source(), None);
    let db = Error::from(ErrorKind::from(DbError::InvalidDuration {
        duration: Duration::from_secs(1),
        source: foreign("too long", None),
    }));
    assert_eq!(db.source(), Some("too long".to_string()));
}

#[test]
fn service_error_has_the_inner_error_as_source() {
    let mut inner = Error::from(ErrorKind::from(FtAiError::MissingWavFile));
    inner.id = "XYZ123".to_string();
    let outer = Error::from(ErrorKind::from(FtAiError::Service { source: Box::new(inner) }));
    assert_eq!(
        outer.source(),
        Some("Error (id: XYZ123): 15.ai returned zero WAV files in the response".to_string())
    );
    assert!(outer.to_display_string().ends_with(
        "???? ???????????????????? ????????. ?????????????????? ?????? ?????????????????? ???? ?????????? 15.ai, ?????? ???????????????????????? ?????????????????? ????????????"
    ));
}

#[test]
fn messages_built_from_outside_text() {
    assert_eq!(
        bad_status_message("502 Bad Gateway", "upstream down"),
        "HTTP request has failed (http status code: 502 Bad Gateway):\nupstream down"
    );
    assert_eq!(
        invalid_duration_message("3.25s"),
        "Duration can't be converted to database representation: 3.25s"
    );
}
