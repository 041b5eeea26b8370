//! The failures that the library reports.

use vstd::prelude::*;
use vstd::string::*;

verus! {

/// Why a string is not an image reference.
#[derive(Debug, Clone, Copy, PartialEq, Eq, Structural)]
pub enum InvalidReference {
    /// The reference is the empty string.
    EmptyInput,
    /// The reference, once qualified, does not parse as a URL.
    NotAUrl,
    /// The URL's path leaves no image name.
    EmptyName,
    /// The image name would begin with a slash.
    RootedName,
}

/// Why a registry login token yields no credential.
#[derive(Debug, Clone, Copy, PartialEq, Eq, Structural)]
pub enum CredentialDecodeError {
    /// The token is not base64.
    NotBase64,
    /// The decoded token is not UTF-8.
    NotUtf8,
    /// The decoded token holds no `:` between user and password.
    NoSeparator,
}

/// Why a registry login file yields no credentials.
#[derive(Debug, Clone, Copy, PartialEq, Eq, Structural)]
pub enum LoginFileError {
    /// The file is not JSON, or holds no object under `auths`.
    NoAuths,
    /// An entry under `auths` holds no string under `auth`.
    NoToken,
    /// The token of an entry does not decode.
    Token(CredentialDecodeError),
}

/// The operations of the container engine.
#[derive(Debug, Clone, Copy, PartialEq, Eq, Structural)]
pub enum EngineOp {
    Pull,
    Create,
    Start,
    Stdin,
    Wait,
    Logs,
    Delete,
}

/// A failure of one engine operation or of what prepares it.
#[derive(Debug, Clone, PartialEq, Eq)]
pub enum Failure {
    /// The image reference is malformed.
    InvalidReference(InvalidReference),
    /// The engine answered, but not as the operation expects. `status` is
    /// the HTTP status, where the answer had one.
    Engine { op: EngineOp, status: Option<u16>, body: String },
    /// The request could not be sent or its answer not received.
    Transport { op: EngineOp, message: String },
    /// The engine's answer had the expected status but not the expected
    /// content.
    MalformedResponse { op: EngineOp, body: String },
    /// A reference with a digest cannot be turned into a pull request.
    UnsupportedConversion,
}

/// A [`Failure`] with its texts as sequences of characters.
pub enum FailureView {
    InvalidReference(InvalidReference),
    Engine { op: EngineOp, status: Option<u16>, body: Seq<char> },
    Transport { op: EngineOp, message: Seq<char> },
    MalformedResponse { op: EngineOp, body: Seq<char> },
    UnsupportedConversion,
}

impl View for Failure {
    type V = FailureView;

    open spec fn view(&self) -> FailureView {
        match self {
            Failure::InvalidReference(e) => FailureView::InvalidReference(*e),
            Failure::Engine { op, status, body } => FailureView::Engine {
                op: *op,
                status: *status,
                body: body@,
            },
            Failure::Transport { op, message } => FailureView::Transport { op: *op, message: message@ },
            Failure::MalformedResponse { op, body } => FailureView::MalformedResponse {
                op: *op,
                body: body@,
            },
            Failure::UnsupportedConversion => FailureView::UnsupportedConversion,
        }
    }
}

/// How one invocation failed: the first failure, and the failure of the
/// clean-up that followed it, where that failed too.
#[derive(Debug, Clone, PartialEq, Eq)]
pub struct InvocationError {
    pub cause: Failure,
    pub cleanup: Option<Failure>,
}

/// An [`InvocationError`] with its texts as sequences of characters.
pub struct InvocationErrorView {
    pub cause: FailureView,
    pub cleanup: Option<FailureView>,
}

impl View for InvocationError {
    type V = InvocationErrorView;

    open spec fn view(&self) -> InvocationErrorView {
        InvocationErrorView {
            cause: self.cause@,
            cleanup: match self.cleanup {
                Some(e) => Some(e@),
                None => None,
            },
        }
    }
}

/// Why the images of the functions could not all be pulled: the function
/// whose pull failed, and how.
#[derive(Debug, Clone, PartialEq, Eq)]
pub struct StartupError {
    pub function: String,
    pub cause: Failure,
}

/// A [`StartupError`] with its texts as sequences of characters.
pub struct StartupErrorView {
    pub function: Seq<char>,
    pub cause: FailureView,
}

impl View for StartupError {
    type V = StartupErrorView;

    open spec fn view(&self) -> StartupErrorView {
        StartupErrorView { function: self.function@, cause: self.cause@ }
    }
}

/// One decimal digit as text.
pub open spec fn digit(d: nat) -> Seq<char> {
    if d == 0 {
        "0"@
    } else if d == 1 {
        "1"@
    } else if d == 2 {
        "2"@
    } else if d == 3 {
        "3"@
    } else if d == 4 {
        "4"@
    } else if d == 5 {
        "5"@
    } else if d == 6 {
        "6"@
    } else if d == 7 {
        "7"@
    } else if d == 8 {
        "8"@
    } else {
        "9"@
    }
}

/// A number in decimal, without leading zeros.
pub open spec fn decimal(n: nat) -> Seq<char>
    decreases n,
{
    if n < 10 {
        digit(n)
    } else {
        decimal(n / 10) + digit(n % 10)
    }
}

/// What an operation does, in words.
pub open spec fn op_phrase(op: EngineOp) -> Seq<char> {
    match op {
        EngineOp::Pull => "create image"@,
        EngineOp::Create => "create container"@,
        EngineOp::Start => "start container"@,
        EngineOp::Stdin => "write to container"@,
        EngineOp::Wait => "wait for container"@,
        EngineOp::Logs => "get container logs"@,
        EngineOp::Delete => "delete container"@,
    }
}

/// Why a string is not an image reference, in words.
pub open spec fn reference_text(e: InvalidReference) -> Seq<char> {
    match e {
        InvalidReference::EmptyInput => "Docker image tag cannot be empty"@,
        InvalidReference::NotAUrl => "Docker image tag cannot be read as a URL"@,
        InvalidReference::EmptyName => "Image name cannot be empty"@,
        InvalidReference::RootedName => "Image name cannot begin with a slash"@,
    }
}

/// Why a login token yields no credential, in words.
pub open spec fn credential_text(e: CredentialDecodeError) -> Seq<char> {
    match e {
        CredentialDecodeError::NotBase64 => "Registry auth token is not base64"@,
        CredentialDecodeError::NotUtf8 => "Registry auth token is not UTF-8"@,
        CredentialDecodeError::NoSeparator =>
            "No : delimiter in username/password registry auth token"@,
    }
}

/// Why a login file yields no credentials, in words.
pub open spec fn login_file_text(e: LoginFileError) -> Seq<char> {
    match e {
        LoginFileError::NoAuths => "Registry login file holds no auths"@,
        LoginFileError::NoToken => "Registry login entry holds no auth token"@,
        LoginFileError::Token(e) => credential_text(e),
    }
}

/// A failure in words. An engine failure names the operation, then gives
/// the body of the reply and, in brackets, its status.
pub open spec fn failure_text(failure: FailureView) -> Seq<char> {
    match failure {
        FailureView::InvalidReference(e) => reference_text(e),
        FailureView::Engine { op, status, body } => match status {
            Some(code) => "Failed to "@ + op_phrase(op) + ": "@ + body + " ("@ + decimal(
                code as nat,
            ) + ")"@,
            None => "Failed to "@ + op_phrase(op) + ": "@ + body,
        },
        FailureView::Transport { op, message } => "No answer to "@ + op_phrase(op) + ": "@
            + message,
        FailureView::MalformedResponse { op, body } => "Unexpected answer to "@ + op_phrase(op)
            + ": "@ + body,
        FailureView::UnsupportedConversion =>
            "Image digest conversion to image create args is not implemented!"@,
    }
}

/// The failure of an invocation in words: its cause, and the failed
/// clean-up after it where there is one.
pub open spec fn invocation_error_text(error: InvocationErrorView) -> Seq<char> {
    match error.cleanup {
        Some(d) => failure_text(error.cause) + "; then: "@ + failure_text(d),
        None => failure_text(error.cause),
    }
}

/// The failure of a start-up in words.
pub open spec fn startup_error_text(error: StartupErrorView) -> Seq<char> {
    "Failed to pull the image of "@ + error.function + ": "@ + failure_text(error.cause)
}

/// One decimal digit as text.
fn digit_text(d: u16) -> (text: &'static str)
    requires
        d < 10,
    ensures
        text@ == digit(d as nat),
{
    if d == 0 {
        "0"
    } else if d == 1 {
        "1"
    } else if d == 2 {
        "2"
    } else if d == 3 {
        "3"
    } else if d == 4 {
        "4"
    } else if d == 5 {
        "5"
    } else if d == 6 {
        "6"
    } else if d == 7 {
        "7"
    } else if d == 8 {
        "8"
    } else {
        "9"
    }
}

/// Writes a number in decimal.
pub fn decimal_text(n: u16) -> (text: String)
    ensures
        text@ == decimal(n as nat),
    decreases n,
{
    if n < 10 {
        String::from_str(digit_text(n))
    } else {
        decimal_text(n / 10).concat(digit_text(n % 10))
    }
}

impl EngineOp {
    /// What the operation does, in words.
    pub fn phrase(self) -> (text: &'static str)
        ensures
            text@ == op_phrase(self),
    {
        match self {
            EngineOp::Pull => "create image",
            EngineOp::Create => "create container",
            EngineOp::Start => "start container",
            EngineOp::Stdin => "write to container",
            EngineOp::Wait => "wait for container",
            EngineOp::Logs => "get container logs",
            EngineOp::Delete => "delete container",
        }
    }
}

impl InvalidReference {
    /// The failure in words.
    pub fn describe(self) -> (text: &'static str)
        ensures
            text@ == reference_text(self),
    {
        match self {
            InvalidReference::EmptyInput => "Docker image tag cannot be empty",
            InvalidReference::NotAUrl => "Docker image tag cannot be read as a URL",
            InvalidReference::EmptyName => "Image name cannot be empty",
            InvalidReference::RootedName => "Image name cannot begin with a slash",
        }
    }
}

impl CredentialDecodeError {
    /// The failure in words.
    pub fn describe(self) -> (text: &'static str)
        ensures
            text@ == credential_text(self),
    {
        match self {
            CredentialDecodeError::NotBase64 => "Registry auth token is not base64",
            CredentialDecodeError::NotUtf8 => "Registry auth token is not UTF-8",
            CredentialDecodeError::NoSeparator =>
                "No : delimiter in username/password registry auth token",
        }
    }
}

impl LoginFileError {
    /// The failure in words.
    pub fn describe(self) -> (text: &'static str)
        ensures
            text@ == login_file_text(self),
    {
        match self {
            LoginFileError::NoAuths => "Registry login file holds no auths",
            LoginFileError::NoToken => "Registry login entry holds no auth token",
            LoginFileError::Token(e) => e.describe(),
        }
    }
}

impl Failure {
    /// The failure in words.
    pub fn describe(&self) -> (text: String)
        ensures
            text@ == failure_text(self@),
    {
        match self {
            Failure::InvalidReference(e) => String::from_str(e.describe()),
            Failure::Engine { op, status, body } => {
                let text = String::from_str("Failed to ").concat(op.phrase()).concat(": ").concat(
                    body.as_str(),
                );
                match status {
                    Some(code) => text.concat(" (").concat(decimal_text(*code).as_str()).concat(
                        ")",
                    ),
                    None => text,
                }
            },
            Failure::Transport { op, message } => String::from_str("No answer to ").concat(
                op.phrase(),
            ).concat(": ").concat(message.as_str()),
            Failure::MalformedResponse { op, body } => String::from_str(
                "Unexpected answer to ",
            ).concat(op.phrase()).concat(": ").concat(body.as_str()),
            Failure::UnsupportedConversion => String::from_str(
                "Image digest conversion to image create args is not implemented!",
            ),
        }
    }
}

impl InvocationError {
    /// The failure in words.
    pub fn describe(&self) -> (text: String)
        ensures
            text@ == invocation_error_text(self@),
    {
        match &self.cleanup {
            Some(d) => self.cause.describe().concat("; then: ").concat(d.describe().as_str()),
            None => self.cause.describe(),
        }
    }
}

impl StartupError {
    /// The failure in words.
    pub fn describe(&self) -> (text: String)
        ensures
            text@ == startup_error_text(self@),
    {
        String::from_str("Failed to pull the image of ").concat(self.function.as_str()).concat(
            ": ",
        ).concat(self.cause.describe().as_str())
    }
}

} // verus!
