use crate::document::text_view;
use crate::errors::{api_error_text, ApiError, ApiErrorView, IoFailure, IoFailureView, IoKind};
use crate::text::{
    is_whitespace, joined, joined3, lemma_blank_has_no_words, lemma_words_are_clean,
    split_whitespace, words,
};
use vstd::prelude::*;
use vstd::string::*;

verus! {

/// Why a session did not come about, or did not end cleanly.
#[derive(Debug)]
pub enum ConnectError {
    /// A key file is not there; the path as it was given.
    FileMissing(String),
    /// A key's path could not be made absolute; the system's message.
    PathUnresolved(String),
    /// The public key could not be read; its path and the system's message.
    KeyUnreadable(String, String),
    /// The signing client failed.
    SignFailed(ApiError),
    /// The temporary file for the certificate may not be made.
    ArtifactDenied,
    /// The temporary file for the certificate could not be made; the system's message.
    ArtifactNotCreated(String),
    /// The certificate could not be written; the system's message.
    ArtifactNotWritten(String),
    /// The session program could not be started; the system's message.
    LaunchFailed(String),
    /// The certificate's file may not be removed.
    RemovalDenied,
    /// The certificate's file could not be removed; the system's message.
    RemovalFailed(String),
    /// An event came that answers no pending action.
    OutOfTurn,
}

/// The mathematical value of a `ConnectError`.
pub ghost enum ConnectErrorView {
    FileMissing(Seq<char>),
    PathUnresolved(Seq<char>),
    KeyUnreadable(Seq<char>, Seq<char>),
    SignFailed(ApiErrorView),
    ArtifactDenied,
    ArtifactNotCreated(Seq<char>),
    ArtifactNotWritten(Seq<char>),
    LaunchFailed(Seq<char>),
    RemovalDenied,
    RemovalFailed(Seq<char>),
    OutOfTurn,
}

impl View for ConnectError {
    type V = ConnectErrorView;

    open spec fn view(&self) -> ConnectErrorView {
        match self {
            ConnectError::FileMissing(path) => ConnectErrorView::FileMissing(path@),
            ConnectError::PathUnresolved(reason) => ConnectErrorView::PathUnresolved(reason@),
            ConnectError::KeyUnreadable(path, reason) => ConnectErrorView::KeyUnreadable(
                path@,
                reason@,
            ),
            ConnectError::SignFailed(error) => ConnectErrorView::SignFailed(error@),
            ConnectError::ArtifactDenied => ConnectErrorView::ArtifactDenied,
            ConnectError::ArtifactNotCreated(reason) => ConnectErrorView::ArtifactNotCreated(
                reason@,
            ),
            ConnectError::ArtifactNotWritten(reason) => ConnectErrorView::ArtifactNotWritten(
                reason@,
            ),
            ConnectError::LaunchFailed(reason) => ConnectErrorView::LaunchFailed(reason@),
            ConnectError::RemovalDenied => ConnectErrorView::RemovalDenied,
            ConnectError::RemovalFailed(reason) => ConnectErrorView::RemovalFailed(reason@),
            ConnectError::OutOfTurn => ConnectErrorView::OutOfTurn,
        }
    }
}

/// What a `ConnectError` reads like.
pub open spec fn connect_error_text(error: ConnectErrorView) -> Seq<char> {
    match error {
        ConnectErrorView::FileMissing(path) => "File '"@ + path + "' does not exist"@,
        ConnectErrorView::PathUnresolved(reason) =>
            "Failed to convert relative to absolute path: "@ + reason,
        ConnectErrorView::KeyUnreadable(path, reason) => "Failed to read public key '"@ + path
            + "': "@ + reason,
        ConnectErrorView::SignFailed(error) => "Failed to sign public key: "@ + api_error_text(
            error,
        ),
        ConnectErrorView::ArtifactDenied => "Cannot write signed public key: permission denied"@,
        ConnectErrorView::ArtifactNotCreated(reason) => "Failed to open output file: "@ + reason,
        ConnectErrorView::ArtifactNotWritten(reason) => "Failed to write to output file: "@
            + reason,
        ConnectErrorView::LaunchFailed(reason) => "Failed to start ssh command: "@ + reason,
        ConnectErrorView::RemovalDenied => "Cannot remove signed certificate: permission denied"@,
        ConnectErrorView::RemovalFailed(reason) => "Failed to remove signed certificate: "@
            + reason,
        ConnectErrorView::OutOfTurn => "An event came that answers no pending action"@,
    }
}

impl ConnectError {
    /// The error in words, for the operator.
    pub fn message(&self) -> (r: String)
        ensures
            r@ == connect_error_text(self@),
    {
        match self {
            ConnectError::FileMissing(path) => joined3("File '", path.as_str(), "' does not exist"),
            ConnectError::PathUnresolved(reason) => joined(
                "Failed to convert relative to absolute path: ",
                reason.as_str(),
            ),
            ConnectError::KeyUnreadable(path, reason) => {
                let mut r = joined3("Failed to read public key '", path.as_str(), "': ");
                r.append(reason.as_str());
                r
            },
            ConnectError::SignFailed(error) => {
                let detail = error.message();
                joined("Failed to sign public key: ", detail.as_str())
            },
            ConnectError::ArtifactDenied => String::from_str(
                "Cannot write signed public key: permission denied",
            ),
            ConnectError::ArtifactNotCreated(reason) => joined(
                "Failed to open output file: ",
                reason.as_str(),
            ),
            ConnectError::ArtifactNotWritten(reason) => joined(
                "Failed to write to output file: ",
                reason.as_str(),
            ),
            ConnectError::LaunchFailed(reason) => joined(
                "Failed to start ssh command: ",
                reason.as_str(),
            ),
            ConnectError::RemovalDenied => String::from_str(
                "Cannot remove signed certificate: permission denied",
            ),
            ConnectError::RemovalFailed(reason) => joined(
                "Failed to remove signed certificate: ",
                reason.as_str(),
            ),
            ConnectError::OutOfTurn => String::from_str(
                "An event came that answers no pending action",
            ),
        }
    }
}

/// What the lifecycle waits for.
#[derive(Clone, Copy, Debug, PartialEq, Eq, Structural)]
pub enum Stage {
    ResolvingPrivateKey,
    ResolvingPublicKey,
    ReadingPublicKey,
    Signing,
    CreatingArtifact,
    WritingArtifact,
    Running,
    RemovingArtifact,
    /// Over, with no certificate file left.
    Finished,
    /// Over, with a certificate file that could not be removed.
    LeftBehind,
}

/// What the caller is to do next. Every action but the last is answered by one event.
#[derive(Debug)]
pub enum Action {
    /// Make a path absolute; the file must be there.
    Resolve(String),
    /// Read a file as text.
    ReadFile(String),
    /// Have the signing client sign a public key (the second text) under a role (the
    /// first).
    Sign(String, String),
    /// Make a temporary file with a name of its own that nobody else can read.
    CreateArtifact,
    /// Write the certificate (the second text) to the temporary file (the first).
    WriteArtifact(String, String),
    /// Start a program with arguments and wait until it ends.
    Run(String, Vec<String>),
    /// Remove the temporary file.
    RemoveArtifact(String),
    /// Nothing more: the lifecycle is over, with this outcome.
    Finish(Result<(), ConnectError>),
}

/// The mathematical value of an `Action`.
pub ghost enum ActionView {
    Resolve(Seq<char>),
    ReadFile(Seq<char>),
    Sign(Seq<char>, Seq<char>),
    CreateArtifact,
    WriteArtifact(Seq<char>, Seq<char>),
    Run(Seq<char>, Seq<Seq<char>>),
    RemoveArtifact(Seq<char>),
    Finish(Result<(), ConnectErrorView>),
}

impl View for Action {
    type V = ActionView;

    open spec fn view(&self) -> ActionView {
        match self {
            Action::Resolve(path) => ActionView::Resolve(path@),
            Action::ReadFile(path) => ActionView::ReadFile(path@),
            Action::Sign(role, key) => ActionView::Sign(role@, key@),
            Action::CreateArtifact => ActionView::CreateArtifact,
            Action::WriteArtifact(path, certificate) => ActionView::WriteArtifact(
                path@,
                certificate@,
            ),
            Action::Run(program, arguments) => ActionView::Run(program@, arguments.deep_view()),
            Action::RemoveArtifact(path) => ActionView::RemoveArtifact(path@),
            Action::Finish(outcome) => ActionView::Finish(
                match outcome {
                    Ok(_) => Ok(()),
                    Err(error) => Err(error@),
                },
            ),
        }
    }
}

/// What came of an action.
#[derive(Debug)]
pub enum Event {
    /// The absolute path, or why there is none.
    Resolved(Result<String, IoFailure>),
    /// The file's text, or why it could not be read.
    FileRead(Result<String, IoFailure>),
    /// The signed certificate, or the signing client's error.
    Signed(Result<String, ApiError>),
    /// The path of the temporary file, or why there is none.
    ArtifactCreated(Result<String, IoFailure>),
    /// Whether the certificate was written.
    ArtifactWritten(Result<(), IoFailure>),
    /// The program ran and ended, whatever its exit status; or it could not be started.
    Ran(Result<(), IoFailure>),
    /// Whether the temporary file was removed.
    ArtifactRemoved(Result<(), IoFailure>),
}

/// The mathematical value of an `Event`.
pub ghost enum EventView {
    Resolved(Result<Seq<char>, IoFailureView>),
    FileRead(Result<Seq<char>, IoFailureView>),
    Signed(Result<Seq<char>, ApiErrorView>),
    ArtifactCreated(Result<Seq<char>, IoFailureView>),
    ArtifactWritten(Result<(), IoFailureView>),
    Ran(Result<(), IoFailureView>),
    ArtifactRemoved(Result<(), IoFailureView>),
}

/// The mathematical value of what came of an action that gives a text.
pub open spec fn text_or_failure(outcome: Result<String, IoFailure>) -> Result<
    Seq<char>,
    IoFailureView,
> {
    match outcome {
        Ok(text) => Ok(text@),
        Err(failure) => Err(failure@),
    }
}

/// The mathematical value of what came of an action that gives nothing.
pub open spec fn done_or_failure(outcome: Result<(), IoFailure>) -> Result<(), IoFailureView> {
    match outcome {
        Ok(_) => Ok(()),
        Err(failure) => Err(failure@),
    }
}

impl View for Event {
    type V = EventView;

    open spec fn view(&self) -> EventView {
        match self {
            Event::Resolved(outcome) => EventView::Resolved(text_or_failure(*outcome)),
            Event::FileRead(outcome) => EventView::FileRead(text_or_failure(*outcome)),
            Event::Signed(outcome) => EventView::Signed(
                match outcome {
                    Ok(certificate) => Ok(certificate@),
                    Err(error) => Err(error@),
                },
            ),
            Event::ArtifactCreated(outcome) => EventView::ArtifactCreated(
                text_or_failure(*outcome),
            ),
            Event::ArtifactWritten(outcome) => EventView::ArtifactWritten(
                done_or_failure(*outcome),
            ),
            Event::Ran(outcome) => EventView::Ran(done_or_failure(*outcome)),
            Event::ArtifactRemoved(outcome) => EventView::ArtifactRemoved(
                done_or_failure(*outcome),
            ),
        }
    }
}

/// The lifecycle of an ephemeral credential: from the keys to a signed certificate in a
/// temporary file, to the session that uses it, to the file's removal.
#[derive(Debug)]
pub struct Lifecycle {
    stage: Stage,
    role: String,
    server: String,
    sftp: bool,
    options: String,
    private_key: String,
    public_key: String,
    private_path: String,
    public_path: String,
    certificate: String,
    artifact: String,
    live: bool,
    failure: Option<ConnectError>,
}

/// The mathematical value of a `Lifecycle`.
pub ghost struct LifecycleView {
    /// What is waited for.
    pub stage: Stage,
    pub role: Seq<char>,
    pub server: Seq<char>,
    pub sftp: bool,
    pub options: Seq<char>,
    /// The private key's path as it was chosen.
    pub private_key: Seq<char>,
    /// The public key's path as it was chosen.
    pub public_key: Seq<char>,
    /// The private key's absolute path, once it is known.
    pub private_path: Seq<char>,
    /// The public key's absolute path, once it is known.
    pub public_path: Seq<char>,
    /// The signed certificate, once it is there.
    pub certificate: Seq<char>,
    /// The temporary file's path, once it is made.
    pub artifact: Seq<char>,
    /// Whether the temporary file is there: made, and not known to be removed.
    pub live: bool,
    /// What went wrong while the temporary file was there, to be told once it is
    /// removed.
    pub failure: Option<ConnectErrorView>,
}

/// The private key that is used where none is chosen.
pub open spec fn default_private_key() -> Seq<char> {
    "~/.ssh/id_rsa"@
}

/// The private key's path as chosen: the given one, or the conventional one.
pub open spec fn chosen_private_key(given: Option<Seq<char>>) -> Seq<char> {
    match given {
        Some(path) => path,
        None => default_private_key(),
    }
}

/// The public key's path as chosen: the given one, or the private key's with `.pub`
/// behind it.
pub open spec fn chosen_public_key(given: Option<Seq<char>>, private_key: Seq<char>) -> Seq<
    char,
> {
    match given {
        Some(path) => path,
        None => private_key + ".pub"@,
    }
}

/// The program that holds the session: the file-transfer program where files are to be
/// transferred, the shell program where not.
pub open spec fn program_name(sftp: bool) -> Seq<char> {
    if sftp {
        "sftp"@
    } else {
        "ssh"@
    }
}

/// The arguments of the session program: the private key and the certificate as
/// identity files, the target, and the words of the options, each an argument of its
/// own. Options without a word add no argument.
pub open spec fn session_arguments(
    private_path: Seq<char>,
    artifact: Seq<char>,
    server: Seq<char>,
    options: Seq<char>,
) -> Seq<Seq<char>> {
    seq!["-i"@, private_path, "-i"@, artifact, server] + words(options)
}

/// Options that hold nothing but white space add no argument: the session program gets
/// the two identity files and the target, and nothing else.
pub proof fn lemma_blank_options_add_nothing(
    private_path: Seq<char>,
    artifact: Seq<char>,
    server: Seq<char>,
    options: Seq<char>,
)
    requires
        forall|i: int| 0 <= i < options.len() ==> is_whitespace(options[i]),
    ensures
        session_arguments(private_path, artifact, server, options) == seq![
            "-i"@,
            private_path,
            "-i"@,
            artifact,
            server,
        ],
{
    lemma_blank_has_no_words(options);
    assert(session_arguments(private_path, artifact, server, options) =~= seq![
        "-i"@,
        private_path,
        "-i"@,
        artifact,
        server,
    ]);
}

/// No argument that comes from the options is empty or holds white space.
pub proof fn lemma_options_give_clean_arguments(
    private_path: Seq<char>,
    artifact: Seq<char>,
    server: Seq<char>,
    options: Seq<char>,
    k: int,
)
    requires
        5 <= k < session_arguments(private_path, artifact, server, options).len(),
    ensures
        session_arguments(private_path, artifact, server, options)[k].len() > 0,
        forall|j: int|
            0 <= j < session_arguments(private_path, artifact, server, options)[k].len()
                ==> !is_whitespace(
                #[trigger] session_arguments(private_path, artifact, server, options)[k][j],
            ),
{
    lemma_words_are_clean(options, 0);
    let arguments = session_arguments(private_path, artifact, server, options);
    assert(arguments[k] == words(options)[k - 5]);
}

/// The error for a key whose path could not be made absolute: the file is missing, or
/// something else is in the way.
pub open spec fn resolve_error(path: Seq<char>, failure: IoFailureView) -> ConnectErrorView {
    if failure.kind == IoKind::NotFound {
        ConnectErrorView::FileMissing(path)
    } else {
        ConnectErrorView::PathUnresolved(failure.message)
    }
}

/// The error for a temporary file that could not be made.
pub open spec fn create_error(failure: IoFailureView) -> ConnectErrorView {
    if failure.kind == IoKind::PermissionDenied {
        ConnectErrorView::ArtifactDenied
    } else {
        ConnectErrorView::ArtifactNotCreated(failure.message)
    }
}

/// The error for a temporary file that could not be removed.
pub open spec fn remove_error(failure: IoFailureView) -> ConnectErrorView {
    if failure.kind == IoKind::PermissionDenied {
        ConnectErrorView::RemovalDenied
    } else {
        ConnectErrorView::RemovalFailed(failure.message)
    }
}

/// The state in which a lifecycle starts.
pub open spec fn start_state(
    role: Seq<char>,
    private_key: Option<Seq<char>>,
    public_key: Option<Seq<char>>,
    server: Seq<char>,
    sftp: bool,
    options: Seq<char>,
) -> LifecycleView {
    LifecycleView {
        stage: Stage::ResolvingPrivateKey,
        role,
        server,
        sftp,
        options,
        private_key: chosen_private_key(private_key),
        public_key: chosen_public_key(public_key, chosen_private_key(private_key)),
        private_path: Seq::empty(),
        public_path: Seq::empty(),
        certificate: Seq::empty(),
        artifact: Seq::empty(),
        live: false,
        failure: None,
    }
}

/// The lifecycle is over at once, with an error; nothing was made that would have to be
/// removed.
pub open spec fn stop(l: LifecycleView, error: ConnectErrorView) -> (LifecycleView, ActionView) {
    (LifecycleView { stage: Stage::Finished, ..l }, ActionView::Finish(Err(error)))
}

/// The temporary file is removed next; an error is kept to be told afterwards.
pub open spec fn clean_up(l: LifecycleView, failure: Option<ConnectErrorView>) -> (
    LifecycleView,
    ActionView,
) {
    (
        LifecycleView { stage: Stage::RemovingArtifact, failure, ..l },
        ActionView::RemoveArtifact(l.artifact),
    )
}

/// What follows an event that answers no pending action: a lifecycle that is over stays
/// so; one with a temporary file goes on to remove it, and keeps the first error; every
/// other one is over.
pub open spec fn out_of_turn(l: LifecycleView) -> (LifecycleView, ActionView) {
    if l.stage == Stage::Finished || l.stage == Stage::LeftBehind {
        (l, ActionView::Finish(Err(ConnectErrorView::OutOfTurn)))
    } else if l.live {
        clean_up(
            l,
            if l.failure is Some {
                l.failure
            } else {
                Some(ConnectErrorView::OutOfTurn)
            },
        )
    } else {
        stop(l, ConnectErrorView::OutOfTurn)
    }
}

/// The step of the lifecycle: the state after an event, and what the caller is to do
/// next.
pub open spec fn next(l: LifecycleView, event: EventView) -> (LifecycleView, ActionView) {
    match (l.stage, event) {
        (Stage::ResolvingPrivateKey, EventView::Resolved(Ok(path))) => (
            LifecycleView { stage: Stage::ResolvingPublicKey, private_path: path, ..l },
            ActionView::Resolve(l.public_key),
        ),
        (Stage::ResolvingPrivateKey, EventView::Resolved(Err(failure))) => stop(
            l,
            resolve_error(l.private_key, failure),
        ),
        (Stage::ResolvingPublicKey, EventView::Resolved(Ok(path))) => (
            LifecycleView { stage: Stage::ReadingPublicKey, public_path: path, ..l },
            ActionView::ReadFile(path),
        ),
        (Stage::ResolvingPublicKey, EventView::Resolved(Err(failure))) => stop(
            l,
            resolve_error(l.public_key, failure),
        ),
        (Stage::ReadingPublicKey, EventView::FileRead(Ok(key))) => (
            LifecycleView { stage: Stage::Signing, ..l },
            ActionView::Sign(l.role, key),
        ),
        (Stage::ReadingPublicKey, EventView::FileRead(Err(failure))) => stop(
            l,
            ConnectErrorView::KeyUnreadable(l.public_path, failure.message),
        ),
        (Stage::Signing, EventView::Signed(Ok(certificate))) => (
            LifecycleView { stage: Stage::CreatingArtifact, certificate, ..l },
            ActionView::CreateArtifact,
        ),
        (Stage::Signing, EventView::Signed(Err(error))) => stop(
            l,
            ConnectErrorView::SignFailed(error),
        ),
        (Stage::CreatingArtifact, EventView::ArtifactCreated(Ok(path))) => (
            LifecycleView { stage: Stage::WritingArtifact, artifact: path, live: true, ..l },
            ActionView::WriteArtifact(path, l.certificate),
        ),
        (Stage::CreatingArtifact, EventView::ArtifactCreated(Err(failure))) => stop(
            l,
            create_error(failure),
        ),
        (Stage::WritingArtifact, EventView::ArtifactWritten(Ok(_))) => (
            LifecycleView { stage: Stage::Running, ..l },
            ActionView::Run(
                program_name(l.sftp),
                session_arguments(l.private_path, l.artifact, l.server, l.options),
            ),
        ),
        (Stage::WritingArtifact, EventView::ArtifactWritten(Err(failure))) => clean_up(
            l,
            Some(ConnectErrorView::ArtifactNotWritten(failure.message)),
        ),
        (Stage::Running, EventView::Ran(Ok(_))) => clean_up(l, None),
        (Stage::Running, EventView::Ran(Err(failure))) => clean_up(
            l,
            Some(ConnectErrorView::LaunchFailed(failure.message)),
        ),
        (Stage::RemovingArtifact, EventView::ArtifactRemoved(Ok(_))) => (
            LifecycleView { stage: Stage::Finished, live: false, failure: None, ..l },
            ActionView::Finish(
                match l.failure {
                    Some(error) => Err(error),
                    None => Ok(()),
                },
            ),
        ),
        (Stage::RemovingArtifact, EventView::ArtifactRemoved(Err(failure))) => (
            LifecycleView { stage: Stage::LeftBehind, failure: None, ..l },
            ActionView::Finish(Err(remove_error(failure))),
        ),
        _ => out_of_turn(l),
    }
}

/// Before a temporary file is made, and once the lifecycle is over without one left,
/// there is none.
pub open spec fn tidy(l: LifecycleView) -> bool {
    (l.stage == Stage::ResolvingPrivateKey || l.stage == Stage::ResolvingPublicKey || l.stage
        == Stage::ReadingPublicKey || l.stage == Stage::Signing || l.stage
        == Stage::CreatingArtifact || l.stage == Stage::Finished) ==> !l.live
}

/// The state after a run of events.
pub open spec fn run(l: LifecycleView, events: Seq<EventView>) -> LifecycleView
    decreases events.len(),
{
    if events.len() == 0 {
        l
    } else {
        next(run(l, events.drop_last()), events.last()).0
    }
}

/// A step keeps a lifecycle tidy.
pub proof fn lemma_step_keeps_tidy(l: LifecycleView, event: EventView)
    requires
        tidy(l),
    ensures
        tidy(next(l, event).0),
{
}

/// Cleanup: whatever events come, in whatever order, a lifecycle that is over has left
/// no temporary file, unless the removal itself failed; and then it is over in the
/// stage that says so.
pub proof fn lemma_cleanup(
    role: Seq<char>,
    private_key: Option<Seq<char>>,
    public_key: Option<Seq<char>>,
    server: Seq<char>,
    sftp: bool,
    options: Seq<char>,
    events: Seq<EventView>,
)
    ensures
        tidy(run(start_state(role, private_key, public_key, server, sftp, options), events)),
        run(start_state(role, private_key, public_key, server, sftp, options), events).stage
            == Stage::Finished ==> !run(
            start_state(role, private_key, public_key, server, sftp, options),
            events,
        ).live,
    decreases events.len(),
{
    let start = start_state(role, private_key, public_key, server, sftp, options);
    if events.len() > 0 {
        lemma_cleanup(role, private_key, public_key, server, sftp, options, events.drop_last());
        lemma_step_keeps_tidy(run(start, events.drop_last()), events.last());
    }
}

/// The caller is told that nothing more is to be done exactly when the lifecycle is
/// over.
pub proof fn lemma_finish_means_over(l: LifecycleView, event: EventView)
    ensures
        next(l, event).1 is Finish <==> (next(l, event).0.stage == Stage::Finished || next(
            l,
            event,
        ).0.stage == Stage::LeftBehind),
{
}

/// While the temporary file is there, a tidy lifecycle ends only by the answer to its
/// removal: every other event leads to the removal, or leaves it pending.
pub proof fn lemma_live_ends_by_removal(l: LifecycleView, event: EventView)
    requires
        tidy(l),
        l.live,
        l.stage != Stage::Finished,
        l.stage != Stage::LeftBehind,
        next(l, event).1 is Finish,
    ensures
        l.stage == Stage::RemovingArtifact,
        event is ArtifactRemoved,
{
}

/// A removal that failed is told: the lifecycle ends with a file left behind only by
/// the error of the removal.
pub proof fn lemma_left_behind_is_told(l: LifecycleView, event: EventView)
    requires
        l.stage != Stage::LeftBehind,
        next(l, event).0.stage == Stage::LeftBehind,
    ensures
        event matches EventView::ArtifactRemoved(Err(failure)) && next(l, event).1
            == ActionView::Finish(Err(remove_error(failure))),
{
}

/// Success is told only once the temporary file is removed and nothing went wrong
/// before.
pub proof fn lemma_success_means_removed(l: LifecycleView, event: EventView)
    requires
        next(l, event).1 == ActionView::Finish(Ok(())),
    ensures
        l.stage == Stage::RemovingArtifact,
        event matches EventView::ArtifactRemoved(Ok(_)),
        l.failure is None,
        next(l, event).0.stage == Stage::Finished,
        !next(l, event).0.live,
{
}

/// An error that may be absent, seen as a mathematical value.
pub open spec fn failure_view(failure: Option<ConnectError>) -> Option<ConnectErrorView> {
    match failure {
        Some(error) => Some(error@),
        None => None,
    }
}

impl View for Lifecycle {
    type V = LifecycleView;

    closed spec fn view(&self) -> LifecycleView {
        LifecycleView {
            stage: self.stage,
            role: self.role@,
            server: self.server@,
            sftp: self.sftp,
            options: self.options@,
            private_key: self.private_key@,
            public_key: self.public_key@,
            private_path: self.private_path@,
            public_path: self.public_path@,
            certificate: self.certificate@,
            artifact: self.artifact@,
            live: self.live,
            failure: failure_view(self.failure),
        }
    }
}

/// The error for a key whose path could not be made absolute.
fn resolve_failure(path: &String, failure: IoFailure) -> (r: ConnectError)
    ensures
        r@ == resolve_error(path@, failure@),
{
    match failure.kind {
        IoKind::NotFound => ConnectError::FileMissing(path.clone()),
        _ => ConnectError::PathUnresolved(failure.message),
    }
}

/// The error for a temporary file that could not be made.
fn create_failure(failure: IoFailure) -> (r: ConnectError)
    ensures
        r@ == create_error(failure@),
{
    match failure.kind {
        IoKind::PermissionDenied => ConnectError::ArtifactDenied,
        _ => ConnectError::ArtifactNotCreated(failure.message),
    }
}

/// The error for a temporary file that could not be removed.
fn remove_failure(failure: IoFailure) -> (r: ConnectError)
    ensures
        r@ == remove_error(failure@),
{
    match failure.kind {
        IoKind::PermissionDenied => ConnectError::RemovalDenied,
        _ => ConnectError::RemovalFailed(failure.message),
    }
}

/// The session program and its arguments.
pub fn session_command(
    sftp: bool,
    private_path: &str,
    artifact: &str,
    server: &str,
    options: &str,
) -> (r: (String, Vec<String>))
    ensures
        r.0@ == program_name(sftp),
        r.1.deep_view() == session_arguments(private_path@, artifact@, server@, options@),
{
    let program = if sftp {
        String::from_str("sftp")
    } else {
        String::from_str("ssh")
    };
    let mut arguments: Vec<String> = Vec::new();
    arguments.push(String::from_str("-i"));
    arguments.push(String::from_str(private_path));
    arguments.push(String::from_str("-i"));
    arguments.push(String::from_str(artifact));
    arguments.push(String::from_str(server));
    assert(arguments.deep_view() =~= seq!["-i"@, private_path@, "-i"@, artifact@, server@]);
    let mut extra = split_whitespace(options);
    let ghost head = arguments.deep_view();
    let ghost tail = extra.deep_view();
    arguments.append(&mut extra);
    assert(arguments.deep_view() =~= head + tail);
    (program, arguments)
}

impl Lifecycle {
    /// What the lifecycle waits for.
    pub fn stage(&self) -> (r: Stage)
        ensures
            r == self@.stage,
    {
        self.stage
    }

    /// Whether the lifecycle is over.
    pub fn is_over(&self) -> (r: bool)
        ensures
            r == (self@.stage == Stage::Finished || self@.stage == Stage::LeftBehind),
    {
        match self.stage {
            Stage::Finished => true,
            Stage::LeftBehind => true,
            _ => false,
        }
    }

    /// Ends the lifecycle at once, with an error.
    fn stop(&mut self, error: ConnectError) -> (action: Action)
        ensures
            (final(self)@, action@) == stop(old(self)@, error@),
    {
        self.stage = Stage::Finished;
        Action::Finish(Err(error))
    }

    /// Goes on to remove the temporary file, keeping an error to be told afterwards.
    fn clean_up(&mut self, failure: Option<ConnectError>) -> (action: Action)
        ensures
            (final(self)@, action@) == clean_up(old(self)@, failure_view(failure)),
    {
        self.stage = Stage::RemovingArtifact;
        self.failure = failure;
        Action::RemoveArtifact(self.artifact.clone())
    }

    /// Takes an event that answers no pending action.
    fn out_of_turn(&mut self) -> (action: Action)
        ensures
            (final(self)@, action@) == out_of_turn(old(self)@),
    {
        if self.is_over() {
            Action::Finish(Err(ConnectError::OutOfTurn))
        } else if self.live {
            let failure = match self.failure.take() {
                Some(error) => Some(error),
                None => Some(ConnectError::OutOfTurn),
            };
            self.clean_up(failure)
        } else {
            self.stop(ConnectError::OutOfTurn)
        }
    }

    /// Takes the event that came of the last action and says what is to be done next.
    pub fn step(&mut self, event: Event) -> (action: Action)
        ensures
            (final(self)@, action@) == next(old(self)@, event@),
    {
        match (self.stage, event) {
            (Stage::ResolvingPrivateKey, Event::Resolved(Ok(path))) => {
                self.stage = Stage::ResolvingPublicKey;
                self.private_path = path;
                Action::Resolve(self.public_key.clone())
            },
            (Stage::ResolvingPrivateKey, Event::Resolved(Err(failure))) => {
                let error = resolve_failure(&self.private_key, failure);
                self.stop(error)
            },
            (Stage::ResolvingPublicKey, Event::Resolved(Ok(path))) => {
                self.stage = Stage::ReadingPublicKey;
                self.public_path = path.clone();
                Action::ReadFile(path)
            },
            (Stage::ResolvingPublicKey, Event::Resolved(Err(failure))) => {
                let error = resolve_failure(&self.public_key, failure);
                self.stop(error)
            },
            (Stage::ReadingPublicKey, Event::FileRead(Ok(key))) => {
                self.stage = Stage::Signing;
                Action::Sign(self.role.clone(), key)
            },
            (Stage::ReadingPublicKey, Event::FileRead(Err(failure))) => {
                let error = ConnectError::KeyUnreadable(self.public_path.clone(), failure.message);
                self.stop(error)
            },
            (Stage::Signing, Event::Signed(Ok(certificate))) => {
                self.stage = Stage::CreatingArtifact;
                self.certificate = certificate;
                Action::CreateArtifact
            },
            (Stage::Signing, Event::Signed(Err(error))) => {
                self.stop(ConnectError::SignFailed(error))
            },
            (Stage::CreatingArtifact, Event::ArtifactCreated(Ok(path))) => {
                self.stage = Stage::WritingArtifact;
                self.artifact = path.clone();
                self.live = true;
                Action::WriteArtifact(path, self.certificate.clone())
            },
            (Stage::CreatingArtifact, Event::ArtifactCreated(Err(failure))) => {
                let error = create_failure(failure);
                self.stop(error)
            },
            (Stage::WritingArtifact, Event::ArtifactWritten(Ok(_))) => {
                self.stage = Stage::Running;
                let (program, arguments) = session_command(
                    self.sftp,
                    self.private_path.as_str(),
                    self.artifact.as_str(),
                    self.server.as_str(),
                    self.options.as_str(),
                );
                Action::Run(program, arguments)
            },
            (Stage::WritingArtifact, Event::ArtifactWritten(Err(failure))) => {
                self.clean_up(Some(ConnectError::ArtifactNotWritten(failure.message)))
            },
            (Stage::Running, Event::Ran(Ok(_))) => { self.clean_up(None) },
            (Stage::Running, Event::Ran(Err(failure))) => {
                self.clean_up(Some(ConnectError::LaunchFailed(failure.message)))
            },
            (Stage::RemovingArtifact, Event::ArtifactRemoved(Ok(_))) => {
                self.stage = Stage::Finished;
                self.live = false;
                match self.failure.take() {
                    Some(error) => Action::Finish(Err(error)),
                    None => Action::Finish(Ok(())),
                }
            },
            (Stage::RemovingArtifact, Event::ArtifactRemoved(Err(failure))) => {
                self.stage = Stage::LeftBehind;
                self.failure = None;
                Action::Finish(Err(remove_failure(failure)))
            },
            _ => self.out_of_turn(),
        }
    }
}

/// Begins the lifecycle of an ephemeral credential for a session: the keys are chosen,
/// and the first thing to do is to make the private key's path absolute. The caller
/// does what each action says and hands its outcome to `step`, until the action is
/// `Finish`.
pub fn connect(
    role: String,
    private_key: Option<String>,
    public_key: Option<String>,
    server: String,
    sftp: bool,
    options: String,
) -> (r: (Lifecycle, Action))
    ensures
        r.0@ == start_state(
            role@,
            text_view(private_key),
            text_view(public_key),
            server@,
            sftp,
            options@,
        ),
        r.1@ == ActionView::Resolve(chosen_private_key(text_view(private_key))),
{
    let private_key = match private_key {
        Some(path) => path,
        None => String::from_str("~/.ssh/id_rsa"),
    };
    let public_key = match public_key {
        Some(path) => path,
        None => joined(private_key.as_str(), ".pub"),
    };
    let action = Action::Resolve(private_key.clone());
    let lifecycle = Lifecycle {
        stage: Stage::ResolvingPrivateKey,
        role,
        server,
        sftp,
        options,
        private_key,
        public_key,
        private_path: String::new(),
        public_path: String::new(),
        certificate: String::new(),
        artifact: String::new(),
        live: false,
        failure: None,
    };
    (lifecycle, action)
}

} // verus!
