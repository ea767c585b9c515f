use crate::errors::{api_error_text, ApiError, ApiErrorView, IoFailure, IoFailureView, IoKind};
use crate::subcommands::connect::{done_or_failure, text_or_failure};
use crate::text::{joined, joined3};
use vstd::prelude::*;
use vstd::string::*;

verus! {

/// Why a public key was not signed, or the certificate not delivered.
#[derive(Debug)]
pub enum SignError {
    /// The key file is not there; the path as it was given.
    KeyMissing(String),
    /// The key's path could not be made absolute; the system's message.
    PathUnresolved(String),
    /// The key could not be read; the system's message.
    KeyUnreadable(String),
    /// The signing client failed.
    SignFailed(ApiError),
    /// The output file may not be written.
    OutputDenied,
    /// The output file could not be opened; the system's message.
    OutputNotOpened(String),
    /// The output file could not be written; the system's message.
    OutputNotWritten(String),
    /// An event came that answers no pending action.
    OutOfTurn,
}

/// The mathematical value of a `SignError`.
pub ghost enum SignErrorView {
    KeyMissing(Seq<char>),
    PathUnresolved(Seq<char>),
    KeyUnreadable(Seq<char>),
    SignFailed(ApiErrorView),
    OutputDenied,
    OutputNotOpened(Seq<char>),
    OutputNotWritten(Seq<char>),
    OutOfTurn,
}

impl View for SignError {
    type V = SignErrorView;

    open spec fn view(&self) -> SignErrorView {
        match self {
            SignError::KeyMissing(path) => SignErrorView::KeyMissing(path@),
            SignError::PathUnresolved(reason) => SignErrorView::PathUnresolved(reason@),
            SignError::KeyUnreadable(reason) => SignErrorView::KeyUnreadable(reason@),
            SignError::SignFailed(error) => SignErrorView::SignFailed(error@),
            SignError::OutputDenied => SignErrorView::OutputDenied,
            SignError::OutputNotOpened(reason) => SignErrorView::OutputNotOpened(reason@),
            SignError::OutputNotWritten(reason) => SignErrorView::OutputNotWritten(reason@),
            SignError::OutOfTurn => SignErrorView::OutOfTurn,
        }
    }
}

/// What a `SignError` reads like.
pub open spec fn sign_error_text(error: SignErrorView) -> Seq<char> {
    match error {
        SignErrorView::KeyMissing(path) => "Key '"@ + path + "' does not exist"@,
        SignErrorView::PathUnresolved(reason) => "Failed to convert relative to absolute path: "@
            + reason,
        SignErrorView::KeyUnreadable(reason) => "Failed to read public key: "@ + reason,
        SignErrorView::SignFailed(error) => "Failed to sign public key: "@ + api_error_text(error),
        SignErrorView::OutputDenied => "Cannot write signed public key: permission denied"@,
        SignErrorView::OutputNotOpened(reason) => "Failed to open output file: "@ + reason,
        SignErrorView::OutputNotWritten(reason) => "Failed to write to output file: "@ + reason,
        SignErrorView::OutOfTurn => "An event came that answers no pending action"@,
    }
}

impl SignError {
    /// The error in words, for the operator.
    pub fn message(&self) -> (r: String)
        ensures
            r@ == sign_error_text(self@),
    {
        match self {
            SignError::KeyMissing(path) => joined3("Key '", path.as_str(), "' does not exist"),
            SignError::PathUnresolved(reason) => joined(
                "Failed to convert relative to absolute path: ",
                reason.as_str(),
            ),
            SignError::KeyUnreadable(reason) => joined(
                "Failed to read public key: ",
                reason.as_str(),
            ),
            SignError::SignFailed(error) => {
                let detail = error.message();
                joined("Failed to sign public key: ", detail.as_str())
            },
            SignError::OutputDenied => String::from_str(
                "Cannot write signed public key: permission denied",
            ),
            SignError::OutputNotOpened(reason) => joined(
                "Failed to open output file: ",
                reason.as_str(),
            ),
            SignError::OutputNotWritten(reason) => joined(
                "Failed to write to output file: ",
                reason.as_str(),
            ),
            SignError::OutOfTurn => String::from_str(
                "An event came that answers no pending action",
            ),
        }
    }
}

/// How the certificate was delivered.
#[derive(Debug)]
pub enum Delivery {
    /// No output file was named: the certificate is to be shown.
    Print(String),
    /// The certificate stands in the file of this path.
    Stored(String),
}

/// The mathematical value of a `Delivery`.
pub ghost enum DeliveryView {
    Print(Seq<char>),
    Stored(Seq<char>),
}

impl View for Delivery {
    type V = DeliveryView;

    open spec fn view(&self) -> DeliveryView {
        match self {
            Delivery::Print(certificate) => DeliveryView::Print(certificate@),
            Delivery::Stored(path) => DeliveryView::Stored(path@),
        }
    }
}

/// What the signing waits for.
#[derive(Clone, Copy, Debug, PartialEq, Eq, Structural)]
pub enum SignStage {
    Resolving,
    Reading,
    Signing,
    Opening,
    Writing,
    Over,
}

/// What the caller is to do next. Every action but the last is answered by one event.
#[derive(Debug)]
pub enum SignAction {
    /// Make a path absolute; the file must be there.
    Resolve(String),
    /// Read a file as text.
    ReadFile(String),
    /// Have the signing client sign a public key (the second text) under a role (the
    /// first).
    Sign(String, String),
    /// Open a file for writing, and make it where it is not there.
    OpenFile(String),
    /// Write a text to the file that was opened.
    Write(String),
    /// Nothing more: the signing is over, with this outcome.
    Finish(Result<Delivery, SignError>),
}

/// The mathematical value of a `SignAction`.
pub ghost enum SignActionView {
    Resolve(Seq<char>),
    ReadFile(Seq<char>),
    Sign(Seq<char>, Seq<char>),
    OpenFile(Seq<char>),
    Write(Seq<char>),
    Finish(Result<DeliveryView, SignErrorView>),
}

impl View for SignAction {
    type V = SignActionView;

    open spec fn view(&self) -> SignActionView {
        match self {
            SignAction::Resolve(path) => SignActionView::Resolve(path@),
            SignAction::ReadFile(path) => SignActionView::ReadFile(path@),
            SignAction::Sign(role, key) => SignActionView::Sign(role@, key@),
            SignAction::OpenFile(path) => SignActionView::OpenFile(path@),
            SignAction::Write(text) => SignActionView::Write(text@),
            SignAction::Finish(outcome) => SignActionView::Finish(
                match outcome {
                    Ok(delivery) => Ok(delivery@),
                    Err(error) => Err(error@),
                },
            ),
        }
    }
}

/// What came of an action.
#[derive(Debug)]
pub enum SignEvent {
    /// The absolute path, or why there is none.
    Resolved(Result<String, IoFailure>),
    /// The file's text, or why it could not be read.
    FileRead(Result<String, IoFailure>),
    /// The signed certificate, or the signing client's error.
    Signed(Result<String, ApiError>),
    /// Whether the output file was opened.
    Opened(Result<(), IoFailure>),
    /// Whether the certificate was written.
    Written(Result<(), IoFailure>),
}

/// The mathematical value of a `SignEvent`.
pub ghost enum SignEventView {
    Resolved(Result<Seq<char>, IoFailureView>),
    FileRead(Result<Seq<char>, IoFailureView>),
    Signed(Result<Seq<char>, ApiErrorView>),
    Opened(Result<(), IoFailureView>),
    Written(Result<(), IoFailureView>),
}

impl View for SignEvent {
    type V = SignEventView;

    open spec fn view(&self) -> SignEventView {
        match self {
            SignEvent::Resolved(outcome) => SignEventView::Resolved(text_or_failure(*outcome)),
            SignEvent::FileRead(outcome) => SignEventView::FileRead(text_or_failure(*outcome)),
            SignEvent::Signed(outcome) => SignEventView::Signed(
                match outcome {
                    Ok(certificate) => Ok(certificate@),
                    Err(error) => Err(error@),
                },
            ),
            SignEvent::Opened(outcome) => SignEventView::Opened(done_or_failure(*outcome)),
            SignEvent::Written(outcome) => SignEventView::Written(done_or_failure(*outcome)),
        }
    }
}

/// The signing of one public key: from the key's file to the certificate's delivery.
#[derive(Debug)]
pub struct SignFlow {
    stage: SignStage,
    role: String,
    key: String,
    output: String,
    certificate: String,
}

/// The mathematical value of a `SignFlow`.
pub ghost struct SignFlowView {
    /// What is waited for.
    pub stage: SignStage,
    pub role: Seq<char>,
    /// The key's path as it was given.
    pub key: Seq<char>,
    /// The output file's path; empty where the certificate is to be shown.
    pub output: Seq<char>,
    /// The signed certificate, once it is there.
    pub certificate: Seq<char>,
}

/// The state in which a signing starts.
pub open spec fn sign_start(role: Seq<char>, key: Seq<char>, output: Seq<char>) -> SignFlowView {
    SignFlowView {
        stage: SignStage::Resolving,
        role,
        key,
        output,
        certificate: Seq::empty(),
    }
}

/// The signing is over, with an outcome.
pub open spec fn sign_over(flow: SignFlowView, outcome: Result<DeliveryView, SignErrorView>) -> (
    SignFlowView,
    SignActionView,
) {
    (SignFlowView { stage: SignStage::Over, ..flow }, SignActionView::Finish(outcome))
}

/// The step of a signing: the state after an event, and what the caller is to do next.
pub open spec fn sign_next(flow: SignFlowView, event: SignEventView) -> (
    SignFlowView,
    SignActionView,
) {
    match (flow.stage, event) {
        (SignStage::Resolving, SignEventView::Resolved(Ok(path))) => (
            SignFlowView { stage: SignStage::Reading, ..flow },
            SignActionView::ReadFile(path),
        ),
        (SignStage::Resolving, SignEventView::Resolved(Err(failure))) => sign_over(
            flow,
            Err(
                if failure.kind == IoKind::NotFound {
                    SignErrorView::KeyMissing(flow.key)
                } else {
                    SignErrorView::PathUnresolved(failure.message)
                },
            ),
        ),
        (SignStage::Reading, SignEventView::FileRead(Ok(key))) => (
            SignFlowView { stage: SignStage::Signing, ..flow },
            SignActionView::Sign(flow.role, key),
        ),
        (SignStage::Reading, SignEventView::FileRead(Err(failure))) => sign_over(
            flow,
            Err(SignErrorView::KeyUnreadable(failure.message)),
        ),
        (SignStage::Signing, SignEventView::Signed(Ok(certificate))) => if flow.output.len() == 0 {
            sign_over(flow, Ok(DeliveryView::Print(certificate)))
        } else {
            (
                SignFlowView { stage: SignStage::Opening, certificate, ..flow },
                SignActionView::OpenFile(flow.output),
            )
        },
        (SignStage::Signing, SignEventView::Signed(Err(error))) => sign_over(
            flow,
            Err(SignErrorView::SignFailed(error)),
        ),
        (SignStage::Opening, SignEventView::Opened(Ok(_))) => (
            SignFlowView { stage: SignStage::Writing, ..flow },
            SignActionView::Write(flow.certificate),
        ),
        (SignStage::Opening, SignEventView::Opened(Err(failure))) => sign_over(
            flow,
            Err(
                if failure.kind == IoKind::PermissionDenied {
                    SignErrorView::OutputDenied
                } else {
                    SignErrorView::OutputNotOpened(failure.message)
                },
            ),
        ),
        (SignStage::Writing, SignEventView::Written(Ok(_))) => sign_over(
            flow,
            Ok(DeliveryView::Stored(flow.output)),
        ),
        (SignStage::Writing, SignEventView::Written(Err(failure))) => sign_over(
            flow,
            Err(SignErrorView::OutputNotWritten(failure.message)),
        ),
        _ => sign_over(flow, Err(SignErrorView::OutOfTurn)),
    }
}

/// The caller is told that nothing more is to be done exactly when the signing is
/// over.
pub proof fn lemma_finish_means_over(flow: SignFlowView, event: SignEventView)
    ensures
        sign_next(flow, event).1 is Finish <==> sign_next(flow, event).0.stage == SignStage::Over,
{
}

/// A certificate is delivered in one of two ways: it is shown, as the signing client
/// gave it, where no output file is named; or it stands in the named file, once the
/// file was written.
pub proof fn lemma_delivery(flow: SignFlowView, event: SignEventView)
    requires
        sign_next(flow, event).1 matches SignActionView::Finish(Ok(_)),
    ensures
        match sign_next(flow, event).1->Finish_0->Ok_0 {
            DeliveryView::Print(certificate) => flow.output.len() == 0 && event
                == SignEventView::Signed(Ok(certificate)),
            DeliveryView::Stored(path) => path == flow.output && flow.stage
                == SignStage::Writing && event matches SignEventView::Written(Ok(_)),
        },
{
}

impl View for SignFlow {
    type V = SignFlowView;

    closed spec fn view(&self) -> SignFlowView {
        SignFlowView {
            stage: self.stage,
            role: self.role@,
            key: self.key@,
            output: self.output@,
            certificate: self.certificate@,
        }
    }
}

impl SignFlow {
    /// What the signing waits for.
    pub fn stage(&self) -> (r: SignStage)
        ensures
            r == self@.stage,
    {
        self.stage
    }

    /// Ends the signing, with an outcome.
    fn over(&mut self, outcome: Result<Delivery, SignError>) -> (action: SignAction)
        ensures
            (final(self)@, action@) == sign_over(
                old(self)@,
                match outcome {
                    Ok(delivery) => Ok(delivery@),
                    Err(error) => Err(error@),
                },
            ),
    {
        self.stage = SignStage::Over;
        SignAction::Finish(outcome)
    }

    /// Takes the event that came of the last action and says what is to be done next.
    pub fn step(&mut self, event: SignEvent) -> (action: SignAction)
        ensures
            (final(self)@, action@) == sign_next(old(self)@, event@),
    {
        match (self.stage, event) {
            (SignStage::Resolving, SignEvent::Resolved(Ok(path))) => {
                self.stage = SignStage::Reading;
                SignAction::ReadFile(path)
            },
            (SignStage::Resolving, SignEvent::Resolved(Err(failure))) => {
                let error = match failure.kind {
                    IoKind::NotFound => SignError::KeyMissing(self.key.clone()),
                    _ => SignError::PathUnresolved(failure.message),
                };
                self.over(Err(error))
            },
            (SignStage::Reading, SignEvent::FileRead(Ok(key))) => {
                self.stage = SignStage::Signing;
                SignAction::Sign(self.role.clone(), key)
            },
            (SignStage::Reading, SignEvent::FileRead(Err(failure))) => {
                self.over(Err(SignError::KeyUnreadable(failure.message)))
            },
            (SignStage::Signing, SignEvent::Signed(Ok(certificate))) => {
                if self.output.as_str().is_empty() {
                    self.over(Ok(Delivery::Print(certificate)))
                } else {
                    self.stage = SignStage::Opening;
                    self.certificate = certificate;
                    SignAction::OpenFile(self.output.clone())
                }
            },
            (SignStage::Signing, SignEvent::Signed(Err(error))) => {
                self.over(Err(SignError::SignFailed(error)))
            },
            (SignStage::Opening, SignEvent::Opened(Ok(_))) => {
                self.stage = SignStage::Writing;
                SignAction::Write(self.certificate.clone())
            },
            (SignStage::Opening, SignEvent::Opened(Err(failure))) => {
                let error = match failure.kind {
                    IoKind::PermissionDenied => SignError::OutputDenied,
                    _ => SignError::OutputNotOpened(failure.message),
                };
                self.over(Err(error))
            },
            (SignStage::Writing, SignEvent::Written(Ok(_))) => {
                let delivery = Delivery::Stored(self.output.clone());
                self.over(Ok(delivery))
            },
            (SignStage::Writing, SignEvent::Written(Err(failure))) => {
                self.over(Err(SignError::OutputNotWritten(failure.message)))
            },
            _ => self.over(Err(SignError::OutOfTurn)),
        }
    }
}

/// Begins the signing of the public key in the file `key` under `role`. The certificate
/// goes to the file `output`, or is shown where `output` is empty. The caller does what
/// each action says and hands its outcome to `step`, until the action is `Finish`.
pub fn sign(role: String, key: String, output: String) -> (r: (SignFlow, SignAction))
    ensures
        r.0@ == sign_start(role@, key@, output@),
        r.1@ == SignActionView::Resolve(key@),
{
    let action = SignAction::Resolve(key.clone());
    (SignFlow { stage: SignStage::Resolving, role, key, output, certificate: String::new() }, action)
}

} // verus!
