use crate::document::{document_fault_text, DocumentFault, DocumentFaultView};
use crate::text::{joined, joined3};
use vstd::prelude::*;
use vstd::string::*;

verus! {

/// The kinds of failure of the file system that the library tells apart.
#[derive(Clone, Copy, Debug, PartialEq, Eq, Structural)]
pub enum IoKind {
    NotFound,
    PermissionDenied,
    Other,
}

/// A failure of the file system or of a launch, as the caller met it: its kind and the
/// system's message.
#[derive(Debug)]
pub struct IoFailure {
    pub kind: IoKind,
    pub message: String,
}

/// What can be wrong with a configuration.
#[derive(Debug)]
pub enum ConfigError {
    /// The server address is no absolute URL; the reason in words.
    InvalidUrl(String),
    /// The token is empty.
    InvalidToken,
    /// There is no configuration file.
    NonExistentConfigFile,
    /// A file could not be read; the system's message.
    ReadError(String),
    /// The configuration file does not hold a configuration.
    JsonError(DocumentFault),
    /// The custom certificate authority's file holds no PEM certificate; the reason in
    /// words.
    CertificateDecodeError(String),
}

/// What can go wrong in an exchange with the remote API.
#[derive(Debug)]
pub enum ApiError {
    /// The server answered with a status of the 5xx class.
    ServerError,
    /// The server refused the token.
    PermissionDenied,
    /// The server knows no role of that name.
    UnknownRole,
    /// The server could not read the public key.
    InvalidPublicKey,
    /// The request could not be sent or no answer came; the reason in words.
    SendFailure(String),
    /// The server reported an error in words that the library does not know.
    UnknownError,
    /// The answer's body is not the document that was expected.
    DecodeFailure(DocumentFault),
}

/// The mathematical value of a failure of the file system.
pub ghost struct IoFailureView {
    pub kind: IoKind,
    pub message: Seq<char>,
}

impl View for IoFailure {
    type V = IoFailureView;

    open spec fn view(&self) -> IoFailureView {
        IoFailureView { kind: self.kind, message: self.message@ }
    }
}

/// The mathematical value of a configuration error.
pub ghost enum ConfigErrorView {
    InvalidUrl(Seq<char>),
    InvalidToken,
    NonExistentConfigFile,
    ReadError(Seq<char>),
    JsonError(DocumentFaultView),
    CertificateDecodeError(Seq<char>),
}

impl View for ConfigError {
    type V = ConfigErrorView;

    open spec fn view(&self) -> ConfigErrorView {
        match self {
            ConfigError::InvalidUrl(reason) => ConfigErrorView::InvalidUrl(reason@),
            ConfigError::InvalidToken => ConfigErrorView::InvalidToken,
            ConfigError::NonExistentConfigFile => ConfigErrorView::NonExistentConfigFile,
            ConfigError::ReadError(reason) => ConfigErrorView::ReadError(reason@),
            ConfigError::JsonError(fault) => ConfigErrorView::JsonError(fault@),
            ConfigError::CertificateDecodeError(reason) => ConfigErrorView::CertificateDecodeError(
                reason@,
            ),
        }
    }
}

/// The mathematical value of an API error.
pub ghost enum ApiErrorView {
    ServerError,
    PermissionDenied,
    UnknownRole,
    InvalidPublicKey,
    SendFailure(Seq<char>),
    UnknownError,
    DecodeFailure(DocumentFaultView),
}

impl View for ApiError {
    type V = ApiErrorView;

    open spec fn view(&self) -> ApiErrorView {
        match self {
            ApiError::ServerError => ApiErrorView::ServerError,
            ApiError::PermissionDenied => ApiErrorView::PermissionDenied,
            ApiError::UnknownRole => ApiErrorView::UnknownRole,
            ApiError::InvalidPublicKey => ApiErrorView::InvalidPublicKey,
            ApiError::SendFailure(reason) => ApiErrorView::SendFailure(reason@),
            ApiError::UnknownError => ApiErrorView::UnknownError,
            ApiError::DecodeFailure(fault) => ApiErrorView::DecodeFailure(fault@),
        }
    }
}

/// What can be wrong with the name of a profile.
#[derive(Debug)]
pub enum ProfileError {
    /// A profile of that name is there already.
    AlreadyExists(String),
    /// No profile of that name is there.
    NotFound(String),
}

/// The mathematical value of a `ProfileError`.
pub ghost enum ProfileErrorView {
    AlreadyExists(Seq<char>),
    NotFound(Seq<char>),
}

impl View for ProfileError {
    type V = ProfileErrorView;

    open spec fn view(&self) -> ProfileErrorView {
        match self {
            ProfileError::AlreadyExists(name) => ProfileErrorView::AlreadyExists(name@),
            ProfileError::NotFound(name) => ProfileErrorView::NotFound(name@),
        }
    }
}

/// What a `ProfileError` reads like.
pub open spec fn profile_error_text(error: ProfileErrorView) -> Seq<char> {
    match error {
        ProfileErrorView::AlreadyExists(name) => "Profile '"@ + name + "' already exists"@,
        ProfileErrorView::NotFound(name) => "Profile '"@ + name + "' does not exist"@,
    }
}

impl ProfileError {
    /// The error in words, for the operator.
    pub fn message(&self) -> (r: String)
        ensures
            r@ == profile_error_text(self@),
    {
        match self {
            ProfileError::AlreadyExists(name) => joined3(
                "Profile '",
                name.as_str(),
                "' already exists",
            ),
            ProfileError::NotFound(name) => joined3("Profile '", name.as_str(), "' does not exist"),
        }
    }
}

/// What a configuration error reads like.
pub open spec fn config_error_text(error: ConfigErrorView) -> Seq<char> {
    match error {
        ConfigErrorView::InvalidUrl(reason) => "Invalid URL: "@ + reason,
        ConfigErrorView::InvalidToken => "Invalid authentication token"@,
        ConfigErrorView::NonExistentConfigFile => "Configuration file does not exist"@,
        ConfigErrorView::ReadError(reason) => "Failed to read from file: "@ + reason,
        ConfigErrorView::JsonError(fault) => "Failed to decode JSON: "@ + document_fault_text(
            fault,
        ),
        ConfigErrorView::CertificateDecodeError(reason) => "Failed to decode certificate: "@
            + reason,
    }
}

/// What an API error reads like.
pub open spec fn api_error_text(error: ApiErrorView) -> Seq<char> {
    match error {
        ApiErrorView::ServerError => "Server error"@,
        ApiErrorView::PermissionDenied => "Permission denied"@,
        ApiErrorView::UnknownRole => "Unknown role"@,
        ApiErrorView::InvalidPublicKey => "Invalid public key format"@,
        ApiErrorView::SendFailure(reason) => "Failed to send request: "@ + reason,
        ApiErrorView::UnknownError => "An unknown error occurred"@,
        ApiErrorView::DecodeFailure(fault) => "Failed to decode response: "@
            + document_fault_text(fault),
    }
}

impl ConfigError {
    /// The error in words, for the operator.
    pub fn message(&self) -> (r: String)
        ensures
            r@ == config_error_text(self@),
    {
        match self {
            ConfigError::InvalidUrl(reason) => joined("Invalid URL: ", reason.as_str()),
            ConfigError::InvalidToken => String::from_str("Invalid authentication token"),
            ConfigError::NonExistentConfigFile => String::from_str(
                "Configuration file does not exist",
            ),
            ConfigError::ReadError(reason) => joined("Failed to read from file: ", reason.as_str()),
            ConfigError::JsonError(fault) => {
                let detail = fault.message();
                joined("Failed to decode JSON: ", detail.as_str())
            },
            ConfigError::CertificateDecodeError(reason) => joined(
                "Failed to decode certificate: ",
                reason.as_str(),
            ),
        }
    }
}

impl ApiError {
    /// The error in words, for the operator.
    pub fn message(&self) -> (r: String)
        ensures
            r@ == api_error_text(self@),
    {
        match self {
            ApiError::ServerError => String::from_str("Server error"),
            ApiError::PermissionDenied => String::from_str("Permission denied"),
            ApiError::UnknownRole => String::from_str("Unknown role"),
            ApiError::InvalidPublicKey => String::from_str("Invalid public key format"),
            ApiError::SendFailure(reason) => joined("Failed to send request: ", reason.as_str()),
            ApiError::UnknownError => String::from_str("An unknown error occurred"),
            ApiError::DecodeFailure(fault) => {
                let detail = fault.message();
                joined("Failed to decode response: ", detail.as_str())
            },
        }
    }
}

} // verus!
