//! Responses: one status, one content type and one body for every outcome.

use vstd::prelude::*;
use vstd::string::StrSliceExecFns;
use vstd::utf8::encode_utf8;

verus! {

pub const STATUS_OK: u16 = 200;

pub const STATUS_BAD_REQUEST: u16 = 400;

pub const STATUS_NOT_FOUND: u16 = 404;

pub const STATUS_PAYLOAD_TOO_LARGE: u16 = 413;

pub const STATUS_UNPROCESSABLE: u16 = 422;

pub const STATUS_INTERNAL_ERROR: u16 = 500;

/// The media types that the service answers in.
#[derive(Clone, Copy, Debug, PartialEq, Eq, Structural)]
pub enum ContentType {
    TextPlain,
    SvgXml,
    Png,
}

/// The ways in which a request fails.
#[derive(Clone, Copy, Debug, PartialEq, Eq, Structural)]
pub enum ErrorKind {
    /// The body is, or is declared, larger than the ceiling.
    PayloadTooLarge,
    /// The body is not UTF-8.
    InvalidText,
    /// The text cannot be held by a QR symbol.
    Encoding,
    /// The symbol could not be drawn in the representation asked for.
    Format,
    /// No route matches.
    RouteNotFound,
}

/// What rendering came to: the bytes of a representation, or a failure.
#[derive(Clone, Debug, PartialEq, Eq)]
pub enum RenderOutcome {
    Success { content_type: ContentType, bytes: Vec<u8> },
    Failure { kind: ErrorKind, message: String },
}

/// A render outcome as mathematical values.
pub enum RenderOutcomeView {
    Success { content_type: ContentType, bytes: Seq<u8> },
    Failure { kind: ErrorKind, message: Seq<char> },
}

/// A response: the status code, the content type if there is a body to
/// describe, and the body.
#[derive(Clone, Debug, PartialEq, Eq)]
pub struct Response {
    pub status: u16,
    pub content_type: Option<ContentType>,
    pub body: Vec<u8>,
}

/// A response as mathematical values.
pub struct ResponseView {
    pub status: u16,
    pub content_type: Option<ContentType>,
    pub body: Seq<u8>,
}

impl View for RenderOutcome {
    type V = RenderOutcomeView;

    open spec fn view(&self) -> RenderOutcomeView {
        match *self {
            RenderOutcome::Success { content_type, bytes } => RenderOutcomeView::Success {
                content_type,
                bytes: bytes@,
            },
            RenderOutcome::Failure { kind, message } => RenderOutcomeView::Failure {
                kind,
                message: message@,
            },
        }
    }
}

impl View for Response {
    type V = ResponseView;

    open spec fn view(&self) -> ResponseView {
        ResponseView { status: self.status, content_type: self.content_type, body: self.body@ }
    }
}

impl ContentType {
    /// The media type's name as it stands in a `Content-Type` header.
    pub open spec fn name(self) -> Seq<char> {
        match self {
            ContentType::TextPlain => "text/plain"@,
            ContentType::SvgXml => "image/svg+xml"@,
            ContentType::Png => "image/png"@,
        }
    }

    /// The media type's name as it stands in a `Content-Type` header.
    pub fn as_str(&self) -> (name: &'static str)
        ensures
            name@ == self.name(),
    {
        match self {
            ContentType::TextPlain => "text/plain",
            ContentType::SvgXml => "image/svg+xml",
            ContentType::Png => "image/png",
        }
    }
}

impl ErrorKind {
    /// The short text that tells a client what failed; none for a route that
    /// was not found, which is answered without a body.
    pub open spec fn message_text(self) -> Seq<char> {
        match self {
            ErrorKind::PayloadTooLarge => "Body too big"@,
            ErrorKind::InvalidText => "Body is not valid UTF-8"@,
            ErrorKind::Encoding => "Text does not fit in a QR code"@,
            ErrorKind::Format => "QR code could not be rendered"@,
            ErrorKind::RouteNotFound => ""@,
        }
    }

    /// The short text that tells a client what failed.
    pub fn message(&self) -> (text: &'static str)
        ensures
            text@ == self.message_text(),
    {
        match self {
            ErrorKind::PayloadTooLarge => "Body too big",
            ErrorKind::InvalidText => "Body is not valid UTF-8",
            ErrorKind::Encoding => "Text does not fit in a QR code",
            ErrorKind::Format => "QR code could not be rendered",
            ErrorKind::RouteNotFound => "",
        }
    }

    /// The status code that a failure of this kind is answered with.
    pub open spec fn status_code(self) -> u16 {
        match self {
            ErrorKind::PayloadTooLarge => STATUS_PAYLOAD_TOO_LARGE,
            ErrorKind::InvalidText => STATUS_BAD_REQUEST,
            ErrorKind::Encoding => STATUS_UNPROCESSABLE,
            ErrorKind::Format => STATUS_INTERNAL_ERROR,
            ErrorKind::RouteNotFound => STATUS_NOT_FOUND,
        }
    }

    /// The status code that a failure of this kind is answered with.
    pub fn status(&self) -> (code: u16)
        ensures
            code == self.status_code(),
            code != STATUS_OK,
    {
        match self {
            ErrorKind::PayloadTooLarge => STATUS_PAYLOAD_TOO_LARGE,
            ErrorKind::InvalidText => STATUS_BAD_REQUEST,
            ErrorKind::Encoding => STATUS_UNPROCESSABLE,
            ErrorKind::Format => STATUS_INTERNAL_ERROR,
            ErrorKind::RouteNotFound => STATUS_NOT_FOUND,
        }
    }
}

/// The usage text served at the root.
pub open spec fn instructions_text() -> Seq<char> {
    "Try POSTing data to /build such as: `curl localhost:3000/build -XPOST -d \"Hello World!\"`"@
}

/// The outcome of a rendering that failed in the given way.
pub open spec fn failure_outcome(kind: ErrorKind) -> RenderOutcomeView {
    RenderOutcomeView::Failure { kind, message: kind.message_text() }
}

/// The outcome of a rendering that gave a representation.
pub open spec fn success_outcome(content_type: ContentType, bytes: Seq<u8>) -> RenderOutcomeView {
    RenderOutcomeView::Success { content_type, bytes }
}

/// A response with a body.
pub open spec fn full_response(status: u16, content_type: ContentType, body: Seq<u8>)
    -> ResponseView {
    ResponseView { status, content_type: Some(content_type), body }
}

/// A response without a body.
pub open spec fn empty_response(status: u16) -> ResponseView {
    ResponseView { status, content_type: None, body: Seq::empty() }
}

/// A plain-text response that holds a message.
pub open spec fn text_response(status: u16, message: Seq<char>) -> ResponseView {
    full_response(status, ContentType::TextPlain, encode_utf8(message))
}

/// The response to the instructions route.
pub open spec fn instructions_response() -> ResponseView {
    text_response(STATUS_OK, instructions_text())
}

/// The response to a payload over the ceiling.
pub open spec fn too_large_response() -> ResponseView {
    text_response(STATUS_PAYLOAD_TOO_LARGE, ErrorKind::PayloadTooLarge.message_text())
}

/// The response to a request that no route matches.
pub open spec fn not_found_response() -> ResponseView {
    empty_response(STATUS_NOT_FOUND)
}

/// The response that a render outcome is answered with: the representation
/// under status 200, or the failure's message under its kind's status.
pub open spec fn outcome_response(outcome: RenderOutcomeView) -> ResponseView {
    match outcome {
        RenderOutcomeView::Success { content_type, bytes } => full_response(
            STATUS_OK,
            content_type,
            bytes,
        ),
        RenderOutcomeView::Failure { kind, message } => text_response(kind.status_code(), message),
    }
}

impl RenderOutcome {
    /// The outcome of a rendering that failed in the given way.
    pub fn failure(kind: ErrorKind) -> (outcome: RenderOutcome)
        ensures
            outcome@ == failure_outcome(kind),
    {
        RenderOutcome::Failure { kind, message: kind.message().to_string() }
    }

    /// The outcome of a rendering that gave a representation.
    pub fn success(content_type: ContentType, bytes: Vec<u8>) -> (outcome: RenderOutcome)
        ensures
            outcome@ == success_outcome(content_type, bytes@),
    {
        RenderOutcome::Success { content_type, bytes }
    }
}

/// Builds a response with a body.
pub fn full(status: u16, content_type: ContentType, body: Vec<u8>) -> (resp: Response)
    ensures
        resp@ == full_response(status, content_type, body@),
{
    Response { status, content_type: Some(content_type), body }
}

/// Builds a response without a body.
pub fn empty(status: u16) -> (resp: Response)
    ensures
        resp@ == empty_response(status),
{
    Response { status, content_type: None, body: Vec::new() }
}

/// Builds a plain-text response that holds a message.
pub fn text(status: u16, message: &str) -> (resp: Response)
    ensures
        resp@ == text_response(status, message@),
{
    full(status, ContentType::TextPlain, message.as_bytes_vec())
}

/// Builds the response to the instructions route.
pub fn instructions() -> (resp: Response)
    ensures
        resp@ == instructions_response(),
{
    text(
        STATUS_OK,
        "Try POSTing data to /build such as: `curl localhost:3000/build -XPOST -d \"Hello World!\"`",
    )
}

/// Builds the response to a payload over the ceiling.
pub fn too_large() -> (resp: Response)
    ensures
        resp@ == too_large_response(),
{
    text(ErrorKind::PayloadTooLarge.status(), ErrorKind::PayloadTooLarge.message())
}

/// Builds the response to a request that no route matches.
pub fn not_found() -> (resp: Response)
    ensures
        resp@ == not_found_response(),
{
    empty(STATUS_NOT_FOUND)
}

/// Builds the response that a render outcome is answered with.
pub fn respond(outcome: RenderOutcome) -> (resp: Response)
    ensures
        resp@ == outcome_response(outcome@),
{
    match outcome {
        RenderOutcome::Success { content_type, bytes } => full(STATUS_OK, content_type, bytes),
        RenderOutcome::Failure { kind, message } => text(kind.status(), message.as_str()),
    }
}

} // verus!
