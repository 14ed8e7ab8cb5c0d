//! The bot's errors: what went wrong, the text shown for it, its cause, and
//! the short random id that is reported in the chat so that the matching log
//! lines can be found.
use vstd::prelude::*;
use std::time::Duration;
use crate::text::{decimal, decimal_string};

verus! {

/// Number of characters of an error id.
pub const ERROR_ID_LEN: usize = 6;

/// Longest text, in characters, that the 15.ai voice service accepts.
pub const FTAI_MAX_TEXT_LENGTH: usize = 200;

/// A character of nanoid's URL-safe alphabet: `_`, `-`, a digit or an ASCII
/// letter.
pub open spec fn is_id_char(c: char) -> bool {
    c == '_' || c == '-' || ('0' <= c && c <= '9') || ('a' <= c && c <= 'z') || ('A' <= c
        && c <= 'Z')
}

/// A well-formed error id: exactly `ERROR_ID_LEN` characters of the URL-safe
/// alphabet.
pub open spec fn is_error_id(id: Seq<char>) -> bool {
    &&& id.len() == ERROR_ID_LEN
    &&& forall|i: int| 0 <= i < id.len() ==> is_id_char(#[trigger] id[i])
}

/// `nanoid::format` with the operating system's random generator and the
/// URL-safe alphabet `nanoid::alphabet::SAFE`: it draws random bytes, keeps
/// those that index the 64-character alphabet and stops once `size`
/// characters are collected. Which characters come out is left open; that
/// there are `size` of them, all from the alphabet, is what the source shows.
/// It never returns for `size == 0`, hence the precondition. It panics if the
/// operating system cannot provide a random seed, which no precondition can
/// rule out.
#[verifier::external_body]
fn random_id(size: usize) -> (id: String)
    requires
        size >= 1,
    ensures
        id@.len() == size,
        forall|i: int| 0 <= i < id@.len() ==> is_id_char(#[trigger] id@[i]),
{
    nanoid::format(nanoid::rngs::default, &nanoid::alphabet::SAFE, size)
}

/// What `Debug` prints for a `Duration` (such as `1.5s` or `250ms`).
pub uninterp spec fn duration_debug_text(d: Duration) -> Seq<char>;

/// `format!("{:?}", d)` for a `std::time::Duration`. The text is named, not
/// spelled out: it depends on the duration alone.
#[verifier::external_body]
fn duration_debug(d: &Duration) -> (res: String)
    ensures
        res@ == duration_debug_text(*d),
{
    format!("{:?}", d)
}

/// The reason phrase that `http` prints after a status code: the canonical
/// reason (such as `Not Found`), or `<unknown status code>`.
pub uninterp spec fn status_reason_text(code: u16) -> Seq<char>;

/// The `Display` of `http::StatusCode` (as re-exported by `reqwest`): the
/// code in decimal, a space, and the reason phrase. `StatusCode::from_u16`
/// accepts exactly the codes from 100 to 999.
#[verifier::external_body]
fn status_line(code: u16) -> (res: String)
    requires
        100 <= code < 1000,
    ensures
        res@ == decimal(code as int) + " "@ + status_reason_text(code),
{
    match reqwest::StatusCode::from_u16(code) {
        Ok(status) => status.to_string(),
        Err(_) => String::new(),
    }
}

/// An HTTP status code, between 100 and 999.
#[derive(Clone, Copy, Debug, PartialEq, Eq)]
pub struct HttpStatus {
    code: u16,
}

impl HttpStatus {
    #[verifier::type_invariant]
    spec fn in_range(self) -> bool {
        100 <= self.code < 1000
    }

    /// The numeric code.
    pub closed spec fn spec_code(self) -> u16 {
        self.code
    }

    /// The status with the given code, if it is one (100 to 999).
    pub fn from_u16(code: u16) -> (res: Option<HttpStatus>)
        ensures
            res is Some <==> 100 <= code < 1000,
            res matches Some(s) ==> s.spec_code() == code,
    {
        if 100 <= code && code < 1000 {
            Some(HttpStatus { code })
        } else {
            None
        }
    }

    /// The numeric code.
    pub fn code(&self) -> (c: u16)
        ensures
            c == self.spec_code(),
            100 <= c < 1000,
    {
        proof {
            use_type_invariant(self);
        }
        self.code
    }

    /// The status as `http` prints it: code, space, reason phrase.
    pub open spec fn text(self) -> Seq<char> {
        decimal(self.spec_code() as int) + " "@ + status_reason_text(self.spec_code())
    }
}

/// An error raised by a library the bot calls, kept as the text it prints
/// and the text of its own cause, if it has one.
#[derive(Clone, Debug, PartialEq, Eq)]
pub struct ForeignError {
    pub message: String,
    pub cause: Option<String>,
}

/// Errors caused by interaction with the user: most likely wrong input.
#[derive(Clone, Debug, PartialEq, Eq)]
pub enum UserError {
    CommaInImageTag { input: String },
    BannedPatternAlreadyExists { pattern: String },
    BannedPatternNotFound { pattern: String },
    ChatAlreadyExists { chat_id: i64 },
    ChatNotFound { chat_id: i64 },
    FtaiTextContainsNumber,
    FtaiTextTooLong { actual_len: usize },
    FtaiInvalidFormat,
}

/// Errors at the layer of the HTTP API.
#[derive(Clone, Debug, PartialEq, Eq)]
pub enum HttpError {
    SendRequest { source: ForeignError },
    ReadResponse { source: ForeignError },
    BadResponseStatusCode { status: HttpStatus, body: String },
    UnexpectedResponseJsonShape { source: ForeignError },
}

/// Errors of the 15.ai voice synthesis.
#[derive(Debug, PartialEq, Eq)]
pub enum FtAiError {
    MissingWavFile,
    CreateWavReader { message: String },
    ReadWavHeader { message: String },
    ReadWavSamples { message: String },
    EncodeWavToOpus { source: ForeignError },
    Service { source: Box<Error> },
}

/// Most likely unrecoverable errors of the database layer.
#[derive(Debug, PartialEq, Eq)]
pub enum DbError {
    Connect { source: ForeignError },
    Migrate { source: ForeignError },
    Query { source: ForeignError },
    InvalidDuration { duration: Duration, source: ForeignError },
}

/// What went wrong.
#[derive(Debug, PartialEq, Eq)]
pub enum ErrorKind {
    User { source: UserError },
    Http { source: HttpError },
    FtAi { source: FtAiError },
    Tg { source: ForeignError },
    Db { source: DbError },
}

/// Any error that may happen while the bot runs.
#[derive(Debug, PartialEq, Eq)]
pub struct Error {
    /// Short identifier mentioned in the chat when the error happens, so
    /// that the logs can be searched for it.
    pub id: String,
    /// Rendered backtrace, shown after the message when present.
    pub backtrace: Option<String>,
    pub kind: ErrorKind,
}

/// The text of an optional string.
pub open spec fn text_of(s: Option<String>) -> Option<Seq<char>> {
    match s {
        Some(t) => Some(t@),
        None => None,
    }
}

/// `prefix` followed by `rest`, as a new string.
fn joined(prefix: &str, rest: &str) -> (res: String)
    ensures
        res@ == prefix@ + rest@,
{
    let mut s = String::from_str(prefix);
    s.append(rest);
    s
}

/// `prefix`, the decimal text of `n`, then `suffix`.
fn with_number(prefix: &str, n: i128, suffix: &str) -> (res: String)
    ensures
        res@ == prefix@ + decimal(n as int) + suffix@,
{
    let digits = decimal_string(n);
    let mut s = String::from_str(prefix);
    s.append(digits.as_str());
    s.append(suffix);
    s
}

/// The message for a failed HTTP request, given the status as `http` prints
/// it and the response body.
pub fn bad_status_message(status_line: &str, body: &str) -> (res: String)
    ensures
        res@ == "HTTP request has failed (http status code: "@ + status_line@ + "):\n"@ + body@,
{
    let mut s = joined("HTTP request has failed (http status code: ", status_line);
    s.append("):\n");
    s.append(body);
    s
}

/// The message for a duration the database cannot store, given the
/// duration as `Debug` prints it.
pub fn invalid_duration_message(duration_text: &str) -> (res: String)
    ensures
        res@ == "Duration can't be converted to database representation: "@ + duration_text@,
{
    joined("Duration can't be converted to database representation: ", duration_text)
}

impl UserError {
    /// The message shown for the error.
    pub open spec fn text(&self) -> Seq<char> {
        match self {
            UserError::CommaInImageTag { input } =>
                "The specified image tags contain a comma (which is prohibited): "@ + input@,
            UserError::BannedPatternAlreadyExists { pattern } =>
                "Requested pattern already exists in the database: "@ + pattern@,
            UserError::BannedPatternNotFound { pattern } =>
                "Requested pattern was not found in the database: "@ + pattern@,
            UserError::ChatAlreadyExists { chat_id } =>
                "Requested chat already exists in the database (chat_id: "@ + decimal(*chat_id as int) + ")"@,
            UserError::ChatNotFound { chat_id } =>
                "Requested chat was not found in the database (chat_id: "@ + decimal(*chat_id as int) + ")"@,
            UserError::FtaiTextContainsNumber => "?????????? ?????? 15.ai ???? ???????????? ?????????????????? ???????? ?????? ARPAbet ??????????????"@,
            UserError::FtaiTextTooLong { actual_len } =>
                "?????????? ?????? 15.ai ???????????? ???????? ???? ?????????? "@ + decimal(FTAI_MAX_TEXT_LENGTH as int) + " ????????????????. ?????????? ???????????????? ????????????: "@ + decimal(*actual_len as int),
            UserError::FtaiInvalidFormat => "?????????????? ?????? 15.ai ???????????? ?????????? ???????????????? ?????????????????? ?? ?????????? ?????????? ??????????????: <????????????????>,<??????????>"@,
        }
    }

    /// The message shown for the error.
    pub fn message(&self) -> (res: String)
        ensures
            res@ == self.text(),
    {
        match self {
            UserError::CommaInImageTag { input } =>
                joined("The specified image tags contain a comma (which is prohibited): ", input.as_str()),
            UserError::BannedPatternAlreadyExists { pattern } =>
                joined("Requested pattern already exists in the database: ", pattern.as_str()),
            UserError::BannedPatternNotFound { pattern } =>
                joined("Requested pattern was not found in the database: ", pattern.as_str()),
            UserError::ChatAlreadyExists { chat_id } =>
                with_number("Requested chat already exists in the database (chat_id: ", *chat_id as i128, ")"),
            UserError::ChatNotFound { chat_id } =>
                with_number("Requested chat was not found in the database (chat_id: ", *chat_id as i128, ")"),
            UserError::FtaiTextContainsNumber => String::from_str("?????????? ?????? 15.ai ???? ???????????? ?????????????????? ???????? ?????? ARPAbet ??????????????"),
            UserError::FtaiTextTooLong { actual_len } => {
                let head = with_number("?????????? ?????? 15.ai ???????????? ???????? ???? ?????????? ", FTAI_MAX_TEXT_LENGTH as i128, " ????????????????. ?????????? ???????????????? ????????????: ");
                let count = decimal_string(*actual_len as i128);
                joined(head.as_str(), count.as_str())
            },
            UserError::FtaiInvalidFormat => String::from_str("?????????????? ?????? 15.ai ???????????? ?????????? ???????????????? ?????????????????? ?? ?????????? ?????????? ??????????????: <????????????????>,<??????????>"),
        }
    }

    /// The error that caused this one: user errors have none.
    pub open spec fn cause_text(&self) -> Option<Seq<char>> {
        None
    }
}

impl HttpError {
    /// The message shown for the error.
    pub open spec fn text(&self) -> Seq<char> {
        match self {
            HttpError::SendRequest { .. } => "Failed to send an http request"@,
            HttpError::ReadResponse { .. } => "Failed to read http response"@,
            HttpError::BadResponseStatusCode { status, body } =>
                "HTTP request has failed (http status code: "@ + status.text() + "):\n"@ + body@,
            HttpError::UnexpectedResponseJsonShape { .. } => "Received an unexpected response JSON object"@,
        }
    }

    /// The message shown for the error.
    pub fn message(&self) -> (res: String)
        ensures
            res@ == self.text(),
    {
        match self {
            HttpError::SendRequest { .. } => String::from_str("Failed to send an http request"),
            HttpError::ReadResponse { .. } => String::from_str("Failed to read http response"),
            HttpError::BadResponseStatusCode { status, body } => {
                let line = status_line(status.code());
                bad_status_message(line.as_str(), body.as_str())
            },
            HttpError::UnexpectedResponseJsonShape { .. } =>
                String::from_str("Received an unexpected response JSON object"),
        }
    }

    /// The text of the error that caused this one.
    pub open spec fn cause_text(&self) -> Option<Seq<char>> {
        match self {
            HttpError::SendRequest { source } => Some(source.message@),
            HttpError::ReadResponse { source } => Some(source.message@),
            HttpError::BadResponseStatusCode { .. } => None,
            HttpError::UnexpectedResponseJsonShape { source } => Some(source.message@),
        }
    }

    /// The text of the error that caused this one.
    pub fn cause(&self) -> (res: Option<String>)
        ensures
            text_of(res) == self.cause_text(),
    {
        match self {
            HttpError::SendRequest { source } => Some(source.message.clone()),
            HttpError::ReadResponse { source } => Some(source.message.clone()),
            HttpError::BadResponseStatusCode { .. } => None,
            HttpError::UnexpectedResponseJsonShape { source } => Some(source.message.clone()),
        }
    }
}

impl FtAiError {
    /// The message shown for the error.
    pub open spec fn text(&self) -> Seq<char> {
        match self {
            FtAiError::MissingWavFile => "15.ai returned zero WAV files in the response"@,
            FtAiError::CreateWavReader { message } =>
                "Failed to create a WAV reader, that is probably a bug, it must be infallible: "@ + message@,
            FtAiError::ReadWavHeader { message } =>
                "Failed to read WAV header returned by 15.ai: "@ + message@,
            FtAiError::ReadWavSamples { message } =>
                "Failed to read WAV samples returned by 15.ai: "@ + message@,
            FtAiError::EncodeWavToOpus { .. } => "Failed to encode the resampled WAV to OGG"@,
            FtAiError::Service { .. } => "???? ???????????????????? ????????. ?????????????????? ?????? ?????????????????? ???? ?????????? 15.ai, ?????? ???????????????????????? ?????????????????? ????????????"@,
        }
    }

    /// The message shown for the error.
    pub fn message(&self) -> (res: String)
        ensures
            res@ == self.text(),
    {
        match self {
            FtAiError::MissingWavFile => String::from_str("15.ai returned zero WAV files in the response"),
            FtAiError::CreateWavReader { message } =>
                joined("Failed to create a WAV reader, that is probably a bug, it must be infallible: ", message.as_str()),
            FtAiError::ReadWavHeader { message } =>
                joined("Failed to read WAV header returned by 15.ai: ", message.as_str()),
            FtAiError::ReadWavSamples { message } =>
                joined("Failed to read WAV samples returned by 15.ai: ", message.as_str()),
            FtAiError::EncodeWavToOpus { .. } => String::from_str("Failed to encode the resampled WAV to OGG"),
            FtAiError::Service { .. } => String::from_str("???? ???????????????????? ????????. ?????????????????? ?????? ?????????????????? ???? ?????????? 15.ai, ?????? ???????????????????????? ?????????????????? ????????????"),
        }
    }

    /// The text of the error that caused this one.
    pub open spec fn cause_text(&self) -> Option<Seq<char>> {
        match self {
            FtAiError::EncodeWavToOpus { source } => Some(source.message@),
            FtAiError::Service { source } => Some(source.text()),
            _ => None,
        }
    }

    /// The text of the error that caused this one.
    pub fn cause(&self) -> (res: Option<String>)
        ensures
            text_of(res) == self.cause_text(),
    {
        match self {
            FtAiError::EncodeWavToOpus { source } => Some(source.message.clone()),
            FtAiError::Service { source } => Some(source.to_display_string()),
            _ => None,
        }
    }
}

impl DbError {
    /// The message shown for the error.
    pub open spec fn text(&self) -> Seq<char> {
        match self {
            DbError::Connect { .. } => "Failed to connect to the database"@,
            DbError::Migrate { .. } => "Failed to migrate the database"@,
            DbError::Query { .. } => "Database query failed"@,
            DbError::InvalidDuration { duration, .. } =>
                "Duration can't be converted to database representation: "@ + duration_debug_text(*duration),
        }
    }

    /// The message shown for the error.
    pub fn message(&self) -> (res: String)
        ensures
            res@ == self.text(),
    {
        match self {
            DbError::Connect { .. } => String::from_str("Failed to connect to the database"),
            DbError::Migrate { .. } => String::from_str("Failed to migrate the database"),
            DbError::Query { .. } => String::from_str("Database query failed"),
            DbError::InvalidDuration { duration, .. } => {
                let shown = duration_debug(duration);
                invalid_duration_message(shown.as_str())
            },
        }
    }

    /// The text of the error that caused this one: every database error has one.
    pub open spec fn cause_text(&self) -> Option<Seq<char>> {
        match self {
            DbError::Connect { source } => Some(source.message@),
            DbError::Migrate { source } => Some(source.message@),
            DbError::Query { source } => Some(source.message@),
            DbError::InvalidDuration { source, .. } => Some(source.message@),
        }
    }

    /// The text of the error that caused this one.
    pub fn cause(&self) -> (res: Option<String>)
        ensures
            text_of(res) == self.cause_text(),
    {
        match self {
            DbError::Connect { source } => Some(source.message.clone()),
            DbError::Migrate { source } => Some(source.message.clone()),
            DbError::Query { source } => Some(source.message.clone()),
            DbError::InvalidDuration { source, .. } => Some(source.message.clone()),
        }
    }
}

impl ErrorKind {
    /// Whether the error was caused by the user's input.
    pub open spec fn spec_is_user_error(&self) -> bool {
        self is User
    }

    /// Whether the error was caused by the user's input.
    pub fn is_user_error(&self) -> (res: bool)
        ensures
            res == self.spec_is_user_error(),
    {
        matches!(self, ErrorKind::User { .. })
    }

    /// The message shown for the error: every kind shows the message of the
    /// error it wraps, adding nothing.
    pub open spec fn text(&self) -> Seq<char> {
        match self {
            ErrorKind::User { source } => source.text(),
            ErrorKind::Http { source } => source.text(),
            ErrorKind::FtAi { source } => source.text(),
            ErrorKind::Tg { source } => source.message@,
            ErrorKind::Db { source } => source.text(),
        }
    }

    /// The message shown for the error.
    pub fn message(&self) -> (res: String)
        ensures
            res@ == self.text(),
    {
        match self {
            ErrorKind::User { source } => source.message(),
            ErrorKind::Http { source } => source.message(),
            ErrorKind::FtAi { source } => source.message(),
            ErrorKind::Tg { source } => source.message.clone(),
            ErrorKind::Db { source } => source.message(),
        }
    }

    /// The text of the underlying cause: every kind passes on the cause of
    /// the error it wraps.
    pub open spec fn cause_text(&self) -> Option<Seq<char>> {
        match self {
            ErrorKind::User { source } => source.cause_text(),
            ErrorKind::Http { source } => source.cause_text(),
            ErrorKind::FtAi { source } => source.cause_text(),
            ErrorKind::Tg { source } => text_of(source.cause),
            ErrorKind::Db { source } => source.cause_text(),
        }
    }

    /// The text of the underlying cause.
    pub fn cause(&self) -> (res: Option<String>)
        ensures
            text_of(res) == self.cause_text(),
    {
        match self {
            ErrorKind::User { .. } => None,
            ErrorKind::Http { source } => source.cause(),
            ErrorKind::FtAi { source } => source.cause(),
            ErrorKind::Tg { source } => match &source.cause {
                Some(c) => Some(c.clone()),
                None => None,
            },
            ErrorKind::Db { source } => source.cause(),
        }
    }
}

impl Error {
    /// A new error of the given kind, with a fresh random id and no
    /// backtrace (capturing one is switched off for every kind).
    pub fn from(kind: ErrorKind) -> (err: Error)
        ensures
            err.kind == kind,
            err.backtrace is None,
            is_error_id(err.id@),
    {
        let id = random_id(ERROR_ID_LEN);
        Error { kind, id, backtrace: None }
    }

    /// The text the error is displayed with: its id, its message and, when
    /// there is one, the backtrace on the following lines.
    pub open spec fn text(&self) -> Seq<char> {
        let head = "Error (id: "@ + self.id@ + "): "@ + self.kind.text();
        match self.backtrace {
            Some(trace) => head + "\n"@ + trace@,
            None => head,
        }
    }

    /// The text the error is displayed with.
    pub fn to_display_string(&self) -> (res: String)
        ensures
            res@ == self.text(),
    {
        let message = self.kind.message();
        let mut s = joined("Error (id: ", self.id.as_str());
        s.append("): ");
        s.append(message.as_str());
        match &self.backtrace {
            Some(trace) => {
                s.append("\n");
                s.append(trace.as_str());
            },
            None => {},
        }
        s
    }

    /// The text of the error's underlying cause, if it has one.
    pub fn source(&self) -> (res: Option<String>)
        ensures
            text_of(res) == self.kind.cause_text(),
    {
        self.kind.cause()
    }
}

impl From<UserError> for ErrorKind {
    fn from(source: UserError) -> (kind: ErrorKind) {
        ErrorKind::User { source }
    }
}

impl vstd::std_specs::convert::FromSpecImpl<UserError> for ErrorKind {
    open spec fn obeys_from_spec() -> bool {
        true
    }

    open spec fn from_spec(source: UserError) -> ErrorKind {
        ErrorKind::User { source }
    }
}

impl From<HttpError> for ErrorKind {
    fn from(source: HttpError) -> (kind: ErrorKind) {
        ErrorKind::Http { source }
    }
}

impl vstd::std_specs::convert::FromSpecImpl<HttpError> for ErrorKind {
    open spec fn obeys_from_spec() -> bool {
        true
    }

    open spec fn from_spec(source: HttpError) -> ErrorKind {
        ErrorKind::Http { source }
    }
}

impl From<FtAiError> for ErrorKind {
    fn from(source: FtAiError) -> (kind: ErrorKind) {
        ErrorKind::FtAi { source }
    }
}

impl vstd::std_specs::convert::FromSpecImpl<FtAiError> for ErrorKind {
    open spec fn obeys_from_spec() -> bool {
        true
    }

    open spec fn from_spec(source: FtAiError) -> ErrorKind {
        ErrorKind::FtAi { source }
    }
}

/// Telegram request errors become the `Tg` kind.
impl From<ForeignError> for ErrorKind {
    fn from(source: ForeignError) -> (kind: ErrorKind) {
        ErrorKind::Tg { source }
    }
}

impl vstd::std_specs::convert::FromSpecImpl<ForeignError> for ErrorKind {
    open spec fn obeys_from_spec() -> bool {
        true
    }

    open spec fn from_spec(source: ForeignError) -> ErrorKind {
        ErrorKind::Tg { source }
    }
}

/// Database errors become the `Db` kind.
impl From<DbError> for ErrorKind {
    fn from(source: DbError) -> (kind: ErrorKind) {
        ErrorKind::Db { source }
    }
}

impl vstd::std_specs::convert::FromSpecImpl<DbError> for ErrorKind {
    open spec fn obeys_from_spec() -> bool {
        true
    }

    open spec fn from_spec(source: DbError) -> ErrorKind {
        ErrorKind::Db { source }
    }
}

/// Every error of the `User` kind is a user error, whichever user error it
/// wraps, and no error of another kind is.
pub proof fn law_user_errors_are_user_errors(kind: ErrorKind)
    ensures
        kind matches ErrorKind::User { .. } ==> kind.spec_is_user_error(),
        !(kind matches ErrorKind::User { .. }) ==> !kind.spec_is_user_error(),
{
}

/// Every database error has a cause: the text of the library error it
/// wraps. An error of the `Db` kind passes that cause on.
pub proof fn law_db_errors_have_their_cause(db: DbError)
    ensures
        db matches DbError::Connect { source } ==> db.cause_text() == Some(source.message@),
        db matches DbError::Migrate { source } ==> db.cause_text() == Some(source.message@),
        db matches DbError::Query { source } ==> db.cause_text() == Some(source.message@),
        db matches DbError::InvalidDuration { source, .. } ==> db.cause_text() == Some(source.message@),
        db.cause_text() is Some,
        (ErrorKind::Db { source: db }).cause_text() == db.cause_text(),
{
}

/// An error is shown as `Error (id: <id>): ` followed by the message of its
/// kind, then, only when it has one, a line break and the backtrace.
pub proof fn law_display_shows_id_then_message(err: Error)
    ensures
        ({
            let head = "Error (id: "@ + err.id@ + "): "@;
            let text = err.text();
            &&& text.subrange(0, head.len() as int) == head
            &&& err.backtrace is None ==> text == head + err.kind.text()
            &&& err.backtrace matches Some(trace) ==> text == head + err.kind.text() + "\n"@ + trace@
        }),
{
    let head = "Error (id: "@ + err.id@ + "): "@;
    assert((head + err.kind.text()).subrange(0, head.len() as int) =~= head);
    match err.backtrace {
        Some(trace) => {
            assert((head + err.kind.text() + "\n"@ + trace@).subrange(0, head.len() as int) =~= head);
        },
        None => {},
    }
}

/// Every kind is shown exactly as the error it wraps, and passes on that
/// error's cause.
pub proof fn law_kinds_are_transparent(kind: ErrorKind)
    ensures
        kind matches ErrorKind::User { source } ==> kind.text() == source.text() && kind.cause_text() is None,
        kind matches ErrorKind::Http { source } ==> kind.text() == source.text() && kind.cause_text() == source.cause_text(),
        kind matches ErrorKind::FtAi { source } ==> kind.text() == source.text() && kind.cause_text() == source.cause_text(),
        kind matches ErrorKind::Tg { source } ==> kind.text() == source.message@ && kind.cause_text() == text_of(source.cause),
        kind matches ErrorKind::Db { source } ==> kind.text() == source.text() && kind.cause_text() == source.cause_text(),
{
}

/// The causes of HTTP and 15.ai errors: the wrapped library error, or, for a
/// failing service, the whole inner error as displayed; a bad status code and
/// the 15.ai errors found by the bot itself have none.
pub proof fn law_http_and_ftai_causes(http: HttpError, ftai: FtAiError)
    ensures
        http matches HttpError::SendRequest { source } ==> http.cause_text() == Some(source.message@),
        http matches HttpError::ReadResponse { source } ==> http.cause_text() == Some(source.message@),
        http matches HttpError::UnexpectedResponseJsonShape { source } ==> http.cause_text() == Some(source.message@),
        http is BadResponseStatusCode ==> http.cause_text() is None,
        ftai matches FtAiError::EncodeWavToOpus { source } ==> ftai.cause_text() == Some(source.message@),
        ftai matches FtAiError::Service { source } ==> ftai.cause_text() == Some(source.text()),
        ftai is MissingWavFile || ftai is CreateWavReader || ftai is ReadWavHeader || ftai is ReadWavSamples
            ==> ftai.cause_text() is None,
{
}

/// The messages that carry a value show it: the offending input, the
/// pattern, the chat id in decimal, or the text given with the error.
pub proof fn law_messages_show_their_values(user: UserError, ftai: FtAiError)
    ensures
        user matches UserError::CommaInImageTag { input } ==> user.text().subrange(
            user.text().len() - input@.len(),
            user.text().len() as int,
        ) == input@,
        user matches UserError::BannedPatternAlreadyExists { pattern } ==> user.text().subrange(
            user.text().len() - pattern@.len(),
            user.text().len() as int,
        ) == pattern@,
        user matches UserError::BannedPatternNotFound { pattern } ==> user.text().subrange(
            user.text().len() - pattern@.len(),
            user.text().len() as int,
        ) == pattern@,
        user matches UserError::ChatAlreadyExists { chat_id } ==> user.text().subrange(
            user.text().len() - decimal(chat_id as int).len() - 1,
            user.text().len() as int,
        ) == decimal(chat_id as int) + ")"@,
        user matches UserError::ChatNotFound { chat_id } ==> user.text().subrange(
            user.text().len() - decimal(chat_id as int).len() - 1,
            user.text().len() as int,
        ) == decimal(chat_id as int) + ")"@,
        user matches UserError::FtaiTextTooLong { actual_len } ==> user.text().subrange(
            user.text().len() - decimal(actual_len as int).len(),
            user.text().len() as int,
        ) == decimal(actual_len as int),
        ftai matches FtAiError::CreateWavReader { message } ==> ftai.text().subrange(
            ftai.text().len() - message@.len(),
            ftai.text().len() as int,
        ) == message@,
        ftai matches FtAiError::ReadWavHeader { message } ==> ftai.text().subrange(
            ftai.text().len() - message@.len(),
            ftai.text().len() as int,
        ) == message@,
        ftai matches FtAiError::ReadWavSamples { message } ==> ftai.text().subrange(
            ftai.text().len() - message@.len(),
            ftai.text().len() as int,
        ) == message@,
{
    match user {
        UserError::CommaInImageTag { input } => lemma_ends_with(
            "The specified image tags contain a comma (which is prohibited): "@,
            input@,
        ),
        UserError::BannedPatternAlreadyExists { pattern } => lemma_ends_with(
            "Requested pattern already exists in the database: "@,
            pattern@,
        ),
        UserError::BannedPatternNotFound { pattern } => lemma_ends_with(
            "Requested pattern was not found in the database: "@,
            pattern@,
        ),
        UserError::ChatAlreadyExists { chat_id } => {
            let head = "Requested chat already exists in the database (chat_id: "@;
            reveal_strlit(")");
            assert(user.text() =~= head + (decimal(chat_id as int) + ")"@));
            lemma_ends_with(head, decimal(chat_id as int) + ")"@);
        },
        UserError::ChatNotFound { chat_id } => {
            let head = "Requested chat was not found in the database (chat_id: "@;
            reveal_strlit(")");
            assert(user.text() =~= head + (decimal(chat_id as int) + ")"@));
            lemma_ends_with(head, decimal(chat_id as int) + ")"@);
        },
        UserError::FtaiTextTooLong { actual_len } => {
            let t = user.text();
            let d = decimal(actual_len as int);
            lemma_ends_with(t.subrange(0, t.len() - d.len()), d);
            assert(t =~= t.subrange(0, t.len() - d.len()) + d);
        },
        _ => {},
    }
    match ftai {
        FtAiError::CreateWavReader { message } => lemma_ends_with(
            "Failed to create a WAV reader, that is probably a bug, it must be infallible: "@,
            message@,
        ),
        FtAiError::ReadWavHeader { message } => lemma_ends_with(
            "Failed to read WAV header returned by 15.ai: "@,
            message@,
        ),
        FtAiError::ReadWavSamples { message } => lemma_ends_with(
            "Failed to read WAV samples returned by 15.ai: "@,
            message@,
        ),
        _ => {},
    }
}

/// The end of `a + b` is `b`.
proof fn lemma_ends_with(a: Seq<char>, b: Seq<char>)
    ensures
        (a + b).subrange((a + b).len() - b.len(), (a + b).len() as int) == b,
{
    assert((a + b).subrange((a + b).len() - b.len(), (a + b).len() as int) =~= b);
}

} // verus!
