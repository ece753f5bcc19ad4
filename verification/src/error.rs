//! The failures a request can end in, and the error document sent for each.

use vstd::prelude::*;
use vstd::string::StringExecFns;

verus! {

/// The three classes of failure that clients can tell apart by status.
#[derive(Clone, Copy, Debug, PartialEq, Eq, Structural)]
pub enum ErrorKind {
    /// The request itself is at fault; the client must change it.
    InvalidRequest,
    /// The embedding engine rejected the input or failed internally.
    EngineFailure,
    /// A fault of the service that has nothing to do with the payload.
    InternalError,
}

/// A failure of one operation of the service.
#[derive(Debug)]
pub enum ApiError {
    /// The body could not be decoded as a request; the field says why.
    Malformed(String),
    /// The request names an encoding format that does not exist; the field
    /// is the name.
    UnknownEncoding(String),
    /// The normalized input batch holds no text.
    EmptyInput,
    /// The engine failed; the field is the engine's own message.
    Engine(String),
    /// The metric families could not be encoded.
    MetricsEncoding,
    /// The encoded metrics were not valid UTF-8.
    MetricsConversion,
}

/// A failure as contracts speak of it: the engine's message as a sequence
/// of characters.
pub enum ApiErrorView {
    Malformed(Seq<char>),
    UnknownEncoding(Seq<char>),
    EmptyInput,
    Engine(Seq<char>),
    MetricsEncoding,
    MetricsConversion,
}

impl View for ApiError {
    type V = ApiErrorView;

    open spec fn view(&self) -> ApiErrorView {
        match self {
            ApiError::Malformed(reason) => ApiErrorView::Malformed(reason@),
            ApiError::UnknownEncoding(name) => ApiErrorView::UnknownEncoding(name@),
            ApiError::EmptyInput => ApiErrorView::EmptyInput,
            ApiError::Engine(reason) => ApiErrorView::Engine(reason@),
            ApiError::MetricsEncoding => ApiErrorView::MetricsEncoding,
            ApiError::MetricsConversion => ApiErrorView::MetricsConversion,
        }
    }
}

/// The `error` member of an error document.
#[derive(Debug)]
pub struct ErrorDetail {
    pub message: String,
    pub error_type: String,
}

/// The body sent with every failure.
#[derive(Debug)]
pub struct ErrorResponse {
    pub error: ErrorDetail,
}

/// What an error document says.
pub struct ErrorResponseView {
    pub message: Seq<char>,
    pub error_type: Seq<char>,
}

impl View for ErrorResponse {
    type V = ErrorResponseView;

    open spec fn view(&self) -> ErrorResponseView {
        ErrorResponseView { message: self.error.message@, error_type: self.error.error_type@ }
    }
}

/// The HTTP status sent for each class of failure.
pub open spec fn status_of(kind: ErrorKind) -> u16 {
    match kind {
        ErrorKind::InvalidRequest => 400,
        ErrorKind::EngineFailure => 500,
        ErrorKind::InternalError => 500,
    }
}

/// The machine-readable `type` sent for each class of failure.
pub open spec fn type_name_of(kind: ErrorKind) -> Seq<char> {
    match kind {
        ErrorKind::InvalidRequest => "invalid_request_error"@,
        ErrorKind::EngineFailure => "internal_error"@,
        ErrorKind::InternalError => "internal_error"@,
    }
}

impl ApiError {
    /// The class of this failure.
    pub open spec fn spec_kind(&self) -> ErrorKind {
        match self {
            ApiError::Malformed(_) => ErrorKind::InvalidRequest,
            ApiError::UnknownEncoding(_) => ErrorKind::InvalidRequest,
            ApiError::EmptyInput => ErrorKind::InvalidRequest,
            ApiError::Engine(_) => ErrorKind::EngineFailure,
            ApiError::MetricsEncoding => ErrorKind::InternalError,
            ApiError::MetricsConversion => ErrorKind::InternalError,
        }
    }

    /// The human-readable message of this failure.
    pub open spec fn spec_message(&self) -> Seq<char> {
        match self {
            ApiError::Malformed(reason) => reason@,
            ApiError::UnknownEncoding(name) => "Unknown encoding format: "@ + name@,
            ApiError::EmptyInput => "Input cannot be empty"@,
            ApiError::Engine(reason) => "Failed to generate embeddings: "@ + reason@,
            ApiError::MetricsEncoding => "Failed to encode metrics"@,
            ApiError::MetricsConversion => "Failed to convert metrics"@,
        }
    }

    /// The error document of this failure.
    pub open spec fn spec_document(&self) -> ErrorResponseView {
        ErrorResponseView {
            message: self.spec_message(),
            error_type: type_name_of(self.spec_kind()),
        }
    }

    #[verifier::when_used_as_spec(spec_kind)]
    pub fn kind(&self) -> (kind: ErrorKind)
        ensures
            kind == self.spec_kind(),
    {
        match self {
            ApiError::Malformed(_) => ErrorKind::InvalidRequest,
            ApiError::UnknownEncoding(_) => ErrorKind::InvalidRequest,
            ApiError::EmptyInput => ErrorKind::InvalidRequest,
            ApiError::Engine(_) => ErrorKind::EngineFailure,
            ApiError::MetricsEncoding => ErrorKind::InternalError,
            ApiError::MetricsConversion => ErrorKind::InternalError,
        }
    }

    /// The HTTP status to answer with: 400 for an invalid request, else 500.
    pub fn status(&self) -> (code: u16)
        ensures
            code == status_of(self.spec_kind()),
    {
        match self.kind() {
            ErrorKind::InvalidRequest => 400,
            ErrorKind::EngineFailure => 500,
            ErrorKind::InternalError => 500,
        }
    }

    /// The machine-readable `type` of the error document.
    pub fn error_type(&self) -> (name: String)
        ensures
            name@ == type_name_of(self.spec_kind()),
    {
        match self.kind() {
            ErrorKind::InvalidRequest => "invalid_request_error".to_owned(),
            ErrorKind::EngineFailure => "internal_error".to_owned(),
            ErrorKind::InternalError => "internal_error".to_owned(),
        }
    }

    /// The human-readable message of the error document.
    pub fn message(&self) -> (text: String)
        ensures
            text@ == self.spec_message(),
    {
        match self {
            ApiError::Malformed(reason) => reason.clone(),
            ApiError::UnknownEncoding(name) => {
                "Unknown encoding format: ".to_owned().concat(name.as_str())
            },
            ApiError::EmptyInput => "Input cannot be empty".to_owned(),
            ApiError::Engine(reason) => {
                "Failed to generate embeddings: ".to_owned().concat(reason.as_str())
            },
            ApiError::MetricsEncoding => "Failed to encode metrics".to_owned(),
            ApiError::MetricsConversion => "Failed to convert metrics".to_owned(),
        }
    }

    /// The error document to send for this failure.
    pub fn document(&self) -> (doc: ErrorResponse)
        ensures
            doc@ == self.spec_document(),
    {
        ErrorResponse {
            error: ErrorDetail { message: self.message(), error_type: self.error_type() },
        }
    }
}

} // verus!
