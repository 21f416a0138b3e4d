//! The errors of the service: what can go wrong with an encoder, what the HTTP
//! layer answers, and how the first kind is turned into the second.

use crate::identify::IdentifyError;
use crate::model::view_of;
use vstd::prelude::*;
use vstd::string::*;

verus! {

/// The error of a file read, as the standard library reports it; opaque to the proofs.
#[verifier::external_type_specification]
#[verifier::external_body]
pub struct ExIoError(std::io::Error);

/// What can go wrong with a transcode.
#[derive(Debug)]
pub enum TranscodeError {
    /// A playlist or segment that should be on disk could not be read.
    ReadError(std::io::Error),
    /// The encoder failed; the text is what it wrote to its error stream.
    FFmpegError(String),
    /// The encoder refused what the user asked for; the text says what.
    ArgumentError(String),
}

/// The model of a [`TranscodeError`].
pub enum TranscodeErrorView {
    ReadError(std::io::Error),
    FFmpegError(Seq<char>),
    ArgumentError(Seq<char>),
}

impl View for TranscodeError {
    type V = TranscodeErrorView;

    open spec fn view(&self) -> TranscodeErrorView {
        match self {
            TranscodeError::ReadError(e) => TranscodeErrorView::ReadError(*e),
            TranscodeError::FFmpegError(m) => TranscodeErrorView::FFmpegError(m@),
            TranscodeError::ArgumentError(m) => TranscodeErrorView::ArgumentError(m@),
        }
    }
}

/// The error of a segment lookup: the client has no session.
#[derive(PartialEq, Eq, Structural, Clone, Copy, Debug)]
pub enum SegmentError {
    NoTranscode,
}

/// What the HTTP layer answers when a request fails.
#[derive(Debug, PartialEq, Eq)]
pub enum ApiError {
    BadRequest { error: String },
    NotFound,
    InternalError,
}

/// The model of an [`ApiError`].
pub enum ApiErrorView {
    BadRequest { error: Seq<char> },
    NotFound,
    InternalError,
}

impl View for ApiError {
    type V = ApiErrorView;

    open spec fn view(&self) -> ApiErrorView {
        match self {
            ApiError::BadRequest { error } => ApiErrorView::BadRequest { error: error@ },
            ApiError::NotFound => ApiErrorView::NotFound,
            ApiError::InternalError => ApiErrorView::InternalError,
        }
    }
}

/// The answer to a failed request: the status code and the JSON body.
#[derive(Debug, PartialEq, Eq)]
pub struct ErrorResponse {
    pub status: u16,
    pub body: String,
}

/// The model of an [`ErrorResponse`].
pub struct ErrorResponseView {
    pub status: u16,
    pub body: Seq<char>,
}

impl View for ErrorResponse {
    type V = ErrorResponseView;

    open spec fn view(&self) -> ErrorResponseView {
        ErrorResponseView { status: self.status, body: self.body@ }
    }
}

/// The status code of an error.
pub open spec fn status_of(error: ApiErrorView) -> u16 {
    match error {
        ApiErrorView::BadRequest { .. } => 400,
        ApiErrorView::NotFound => 404,
        ApiErrorView::InternalError => 500,
    }
}

/// The message of an error.
pub open spec fn message_of(error: ApiErrorView) -> Seq<char> {
    match error {
        ApiErrorView::BadRequest { error } => error,
        ApiErrorView::NotFound => "Resource not found."@,
        ApiErrorView::InternalError => "An internal error occurred. Please try again later."@,
    }
}

/// The status line of one of the three status codes in use: the code and its
/// standard reason phrase.
pub open spec fn status_line(code: u16) -> Seq<char> {
    if code == 400 {
        "400 Bad Request"@
    } else if code == 404 {
        "404 Not Found"@
    } else {
        "500 Internal Server Error"@
    }
}

/// The JSON body of an error answer. The message is put in as it is.
pub open spec fn error_body(error: ApiErrorView) -> Seq<char> {
    "{ \"status\": \""@ + status_line(status_of(error)) + "\", \"errors\": [\""@ + message_of(
        error,
    ) + "\"] }"@
}

/// What the HTTP layer answers to a failed transcode: a refused argument is
/// the client's fault and is passed on; anything else is internal.
pub open spec fn transcode_answer(error: TranscodeErrorView) -> ApiErrorView {
    match error {
        TranscodeErrorView::ArgumentError(message) => ApiErrorView::BadRequest { error: message },
        TranscodeErrorView::FFmpegError(_) => ApiErrorView::InternalError,
        TranscodeErrorView::ReadError(_) => ApiErrorView::InternalError,
    }
}

/// A failed identification as an error of the transcoder: a failure of the
/// media tools, with what the identification says of it.
pub open spec fn identify_failure(error: IdentifyError) -> TranscodeErrorView {
    TranscodeErrorView::FFmpegError(error.message())
}

/// The message for a request without client id.
pub open spec fn missing_client_id() -> Seq<char> {
    "Missing client id. Please specify the X-CLIENT-ID header to a guid constant for the lifetime of the player (but unique per instance)."@
}

/// The `Display` of `actix_web::http::StatusCode` (the type of the `http`
/// crate), for the status that `StatusCode::from_u16` makes of one of the
/// three codes: the code, a space and the canonical reason phrase of the code.
#[verifier::external_body]
fn status_text(code: u16) -> (line: String)
    requires
        code == 400 || code == 404 || code == 500,
    ensures
        line@ == status_line(code),
{
    actix_web::http::StatusCode::from_u16(code).unwrap().to_string()
}

impl TranscodeError {
    /// A failed identification as an error of the transcoder: the inspector
    /// and the extraction are runs of the media tools, and their failure is
    /// reported as a failure of those.
    pub fn from_identify(error: IdentifyError) -> (r: TranscodeError)
        ensures
            r@ == identify_failure(error),
    {
        TranscodeError::FFmpegError(error.to_string())
    }

    /// The outcome of reading a playlist: what was read, or a read error.
    pub fn from_read(read: Result<String, std::io::Error>) -> (r: Result<String, TranscodeError>)
        ensures
            match read {
                Ok(text) => r matches Ok(t) && t@ == text@,
                Err(e) => r matches Err(error) && error@ == TranscodeErrorView::ReadError(e),
            },
    {
        match read {
            Ok(text) => Ok(text),
            Err(e) => Err(TranscodeError::ReadError(e)),
        }
    }
}

impl ApiError {
    /// An error that blames the request.
    pub fn bad_request(message: &str) -> (error: ApiError)
        ensures
            error@ == (ApiErrorView::BadRequest { error: message@ }),
    {
        ApiError::BadRequest { error: message.to_owned() }
    }

    /// The HTTP status code of the error.
    pub fn status_code(&self) -> (code: u16)
        ensures
            code == status_of(self@),
    {
        match self {
            ApiError::BadRequest { .. } => 400,
            ApiError::NotFound => 404,
            ApiError::InternalError => 500,
        }
    }

    /// The message of the error.
    pub fn to_string(&self) -> (message: String)
        ensures
            message@ == message_of(self@),
    {
        match self {
            ApiError::BadRequest { error } => error.clone(),
            ApiError::NotFound => "Resource not found.".to_owned(),
            ApiError::InternalError => "An internal error occurred. Please try again later.".to_owned(),
        }
    }

    /// The answer that reports the error: its status code, and a JSON body
    /// that holds the status line and the message.
    pub fn error_response(&self) -> (response: ErrorResponse)
        ensures
            response@ == (ErrorResponseView { status: status_of(self@), body: error_body(self@) }),
    {
        let status = self.status_code();
        let mut body = "{ \"status\": \"".to_owned();
        body.append(status_text(status).as_str());
        body.append("\", \"errors\": [\"");
        body.append(self.to_string().as_str());
        body.append("\"] }");
        ErrorResponse { status, body }
    }

    /// What the HTTP layer answers to a failed transcode.
    pub fn from_transcode(error: TranscodeError) -> (answer: ApiError)
        ensures
            answer@ == transcode_answer(error@),
    {
        match error {
            TranscodeError::ArgumentError(message) => ApiError::BadRequest { error: message },
            TranscodeError::FFmpegError(_) => ApiError::InternalError,
            TranscodeError::ReadError(_) => ApiError::InternalError,
        }
    }

    /// What the HTTP layer answers for a file that could not be identified:
    /// the answer to the tool failure that the error stands for, which is
    /// internal whatever the cause.
    pub fn from_identify(error: IdentifyError) -> (answer: ApiError)
        ensures
            answer@ == transcode_answer(identify_failure(error)),
            answer@ == ApiErrorView::InternalError,
    {
        ApiError::from_transcode(TranscodeError::from_identify(error))
    }

    /// What the HTTP layer answers to a segment request of a client without session.
    pub fn from_segment(error: SegmentError) -> (answer: ApiError)
        ensures
            answer@ == (ApiErrorView::BadRequest {
                error: "No transcode started for the selected show/quality."@,
            }),
    {
        ApiError::bad_request("No transcode started for the selected show/quality.")
    }

    /// What the HTTP layer answers when the segment of a known session is not on disk.
    pub fn invalid_segment() -> (answer: ApiError)
        ensures
            answer@ == (ApiErrorView::BadRequest { error: "Invalid segment number."@ }),
    {
        ApiError::bad_request("Invalid segment number.")
    }

    /// What the HTTP layer answers to a quality that has no name.
    pub fn invalid_quality() -> (answer: ApiError)
        ensures
            answer@ == (ApiErrorView::BadRequest { error: "Invalid quality"@ }),
    {
        ApiError::bad_request("Invalid quality")
    }
}

/// The client id of a request: the value of its `X-CLIENT-ID` header. A
/// request without the header is refused.
pub fn get_client_id(header: Option<&str>) -> (r: Result<String, ApiError>)
    ensures
        match r {
            Ok(id) => view_of(header) == Some(id@),
            Err(e) => header is None && e@ == (ApiErrorView::BadRequest {
                error: missing_client_id(),
            }),
        },
{
    match header {
        Some(value) => Ok(value.to_owned()),
        None => Err(
            ApiError::bad_request(
                "Missing client id. Please specify the X-CLIENT-ID header to a guid constant for the lifetime of the player (but unique per instance).",
            ),
        ),
    }
}

} // verus!
