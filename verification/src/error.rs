//! The failures of the paste service and the form in which they leave it.
//!
//! Inside the crate every failure is a [`PasteError`]. At the boundary each
//! kind becomes an [`ApiError`]: an HTTP status code and a message.

use vstd::prelude::*;

verus! {

/// Status of a rejected request.
pub const BAD_REQUEST: u16 = 400;

/// Status of a request for a paste that does not exist.
pub const NOT_FOUND: u16 = 404;

/// Status of a request that failed in storage.
pub const INTERNAL_SERVER_ERROR: u16 = 500;

/// Which of the two keys of a paste an operation is guarded by.
#[derive(Debug, Clone, Copy, PartialEq, Eq, Structural)]
pub enum KeyKind {
    /// The key that guards reading.
    View,
    /// The key that guards modification.
    Edit,
}

/// Why a request was not served.
#[derive(Debug, Clone, Copy, PartialEq, Eq, Structural)]
pub enum PasteError {
    /// The request is malformed: the slug it asks for is too short.
    Validation,
    /// The slug is already taken by another paste.
    Conflict,
    /// No paste has the given slug or id.
    NotFound,
    /// The paste is protected and no secret was presented.
    SecretRequired(KeyKind),
    /// The paste is protected and the presented secret is wrong.
    InvalidSecret(KeyKind),
    /// Storage failed, or ran out of attempts or of ids.
    Storage,
}

impl PasteError {
    /// The HTTP status code that each kind of failure is reported with.
    pub open spec fn spec_status(self) -> u16 {
        match self {
            PasteError::NotFound => NOT_FOUND,
            PasteError::Storage => INTERNAL_SERVER_ERROR,
            PasteError::Validation
            | PasteError::Conflict
            | PasteError::SecretRequired(_)
            | PasteError::InvalidSecret(_) => BAD_REQUEST,
        }
    }

    /// The message that each kind of failure is reported with.
    pub open spec fn spec_message(self) -> Seq<char> {
        match self {
            PasteError::Validation => "Slug must at least be 8 characters long."@,
            PasteError::Conflict => "Pasta with the same slug already exist."@,
            PasteError::NotFound => "Pasta not found."@,
            PasteError::SecretRequired(KeyKind::View) => "View key is required."@,
            PasteError::SecretRequired(KeyKind::Edit) => "Edit key is required."@,
            PasteError::InvalidSecret(KeyKind::View) => "View key is invalid."@,
            PasteError::InvalidSecret(KeyKind::Edit) => "Edit key is invalid."@,
            PasteError::Storage => "Storage failure."@,
        }
    }

    /// The HTTP status code of this failure.
    #[verifier::when_used_as_spec(spec_status)]
    pub fn status(self) -> (code: u16)
        ensures
            code == self.spec_status(),
    {
        match self {
            PasteError::NotFound => NOT_FOUND,
            PasteError::Storage => INTERNAL_SERVER_ERROR,
            PasteError::Validation => BAD_REQUEST,
            PasteError::Conflict => BAD_REQUEST,
            PasteError::SecretRequired(_) => BAD_REQUEST,
            PasteError::InvalidSecret(_) => BAD_REQUEST,
        }
    }

    /// The human-readable message of this failure.
    pub fn message(self) -> (text: &'static str)
        ensures
            text@ == self.spec_message(),
    {
        match self {
            PasteError::Validation => "Slug must at least be 8 characters long.",
            PasteError::Conflict => "Pasta with the same slug already exist.",
            PasteError::NotFound => "Pasta not found.",
            PasteError::SecretRequired(KeyKind::View) => "View key is required.",
            PasteError::SecretRequired(KeyKind::Edit) => "Edit key is required.",
            PasteError::InvalidSecret(KeyKind::View) => "View key is invalid.",
            PasteError::InvalidSecret(KeyKind::Edit) => "Edit key is invalid.",
            PasteError::Storage => "Storage failure.",
        }
    }
}

/// What an [`ApiError`] holds, as plain values.
pub struct ApiErrorView {
    pub message: Seq<char>,
    pub status: u16,
}

/// A failure as it is reported to the client: a status code and a message.
#[derive(Debug)]
pub struct ApiError {
    message: String,
    status: u16,
}

impl View for ApiError {
    type V = ApiErrorView;

    closed spec fn view(&self) -> ApiErrorView {
        ApiErrorView { message: self.message@, status: self.status }
    }
}

impl ApiError {
    /// An error with the given status code and message.
    pub fn new(status: u16, message: &str) -> (error: Self)
        ensures
            error@ == (ApiErrorView { message: message@, status }),
    {
        Self { message: message.to_owned(), status }
    }

    /// The status code.
    pub fn status(&self) -> (code: u16)
        ensures
            code == self@.status,
    {
        self.status
    }

    /// The message.
    pub fn message(&self) -> (text: &String)
        ensures
            text@ == self@.message,
    {
        &self.message
    }

    /// Reports a failure of the service: each kind with its status code and
    /// its message.
    pub fn from_error(error: PasteError) -> (reported: Self)
        ensures
            reported@ == (ApiErrorView {
                message: error.spec_message(),
                status: error.spec_status(),
            }),
    {
        ApiError::new(error.status(), error.message())
    }
}


} // verus!
