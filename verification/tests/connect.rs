use vssh::errors::{ApiError, IoFailure, IoKind};
use vssh::subcommands::connect::{
    connect, session_command, Action, ConnectError, Event, Lifecycle, Stage,
};

fn failure(kind: IoKind, message: &str) -> IoFailure {
    IoFailure { kind, message: String::from(message) }
}

fn begin(options: &str, sftp: bool) -> (Lifecycle, Action) {
    connect(
        String::from("admin"),
        Some(String::from("keys/id")),
        None,
        String::from("deploy@10.0.0.1"),
        sftp,
        String::from(options),
    )
}

/// Runs a lifecycle up to the point where the certificate is written and the session is
/// to be started.
fn up_to_run(options: &str, sftp: bool) -> (Lifecycle, Action) {
    let (mut lifecycle, _) = begin(options, sftp);
    lifecycle.step(Event::Resolved(Ok(String::from("/abs/keys/id"))));
    lifecycle.step(Event::Resolved(Ok(String::from("/abs/keys/id.pub"))));
    lifecycle.step(Event::FileRead(Ok(String::from("ssh-ed25519 AAAA"))));
    lifecycle.step(Event::Signed(Ok(String::from("CERT"))));
    lifecycle.step(Event::ArtifactCreated(Ok(String::from("/tmp/.tmpAbC"))));
    let action = lifecycle.step(Event::ArtifactWritten(Ok(())));
    (lifecycle, action)
}

#[test]
fn the_keys_default_to_the_conventional_ones() {
    let (_, action) = connect(
        String::from("admin"),
        None,
        None,
        String::from("host"),
        false,
        String::new(),
    );
    assert!(matches!(action, Action::Resolve(path) if path == "~/.ssh/id_rsa"));
}

#[test]
fn the_public_key_defaults_to_the_private_key_with_pub() {
    let (mut lifecycle, action) = begin("", false);
    assert!(matches!(action, Action::Resolve(path) if path == "keys/id"));
    let action = lifecycle.step(Event::Resolved(Ok(String::from("/abs/keys/id"))));
    assert!(matches!(action, Action::Resolve(path) if path == "keys/id.pub"));
}

#[test]
fn a_public_key_that_is_given_is_used() {
    let (mut lifecycle, _) = connect(
        String::from("admin"),
        None,
        Some(String::from("other.pub")),
        String::from("host"),
        false,
        String::new(),
    );
    let action = lifecycle.step(Event::Resolved(Ok(String::from("/home/me/.ssh/id_rsa"))));
    assert!(matches!(action, Action::Resolve(path) if path == "other.pub"));
}

#[test]
fn the_whole_lifecycle_in_order() {
    let (mut lifecycle, action) = begin("-p 2222", false);
    assert_eq!(lifecycle.stage(), Stage::ResolvingPrivateKey);
    assert!(matches!(action, Action::Resolve(path) if path == "keys/id"));
    let action = lifecycle.step(Event::Resolved(Ok(String::from("/abs/keys/id"))));
    assert!(matches!(action, Action::Resolve(path) if path == "keys/id.pub"));
    let action = lifecycle.step(Event::Resolved(Ok(String::from("/abs/keys/id.pub"))));
    assert!(matches!(action, Action::ReadFile(path) if path == "/abs/keys/id.pub"));
    let action = lifecycle.step(Event::FileRead(Ok(String::from("ssh-ed25519 AAAA"))));
    assert!(matches!(action, Action::Sign(role, key) if role == "admin" && key == "ssh-ed25519 AAAA"));
    let action = lifecycle.step(Event::Signed(Ok(String::from("CERT"))));
    assert!(matches!(action, Action::CreateArtifact));
    let action = lifecycle.step(Event::ArtifactCreated(Ok(String::from("/tmp/.tmpAbC"))));
    assert!(
        matches!(action, Action::WriteArtifact(path, text) if path == "/tmp/.tmpAbC" && text == "CERT")
    );
    let action = lifecycle.step(Event::ArtifactWritten(Ok(())));
    match action {
        Action::Run(program, arguments) => {
            assert_eq!(program, "ssh");
            assert_eq!(
                arguments,
                vec!["-i", "/abs/keys/id", "-i", "/tmp/.tmpAbC", "deploy@10.0.0.1", "-p", "2222"]
            );
        },
        other => panic!("expected the session to be started, got {:?}", other),
    }
    assert!(!lifecycle.is_over());
    let action = lifecycle.step(Event::Ran(Ok(())));
    assert!(matches!(action, Action::RemoveArtifact(path) if path == "/tmp/.tmpAbC"));
    assert!(!lifecycle.is_over());
    let action = lifecycle.step(Event::ArtifactRemoved(Ok(())));
    assert!(matches!(action, Action::Finish(Ok(()))));
    assert_eq!(lifecycle.stage(), Stage::Finished);
    assert!(lifecycle.is_over());
}

#[test]
fn empty_options_add_no_argument() {
    let (_, action) = up_to_run("", false);
    match action {
        Action::Run(_, arguments) => {
            assert_eq!(arguments, vec!["-i", "/abs/keys/id", "-i", "/tmp/.tmpAbC", "deploy@10.0.0.1"]);
        },
        other => panic!("expected the session to be started, got {:?}", other),
    }
    let (_, action) = up_to_run("   \t ", false);
    match action {
        Action::Run(_, arguments) => assert_eq!(arguments.len(), 5),
        other => panic!("expected the session to be started, got {:?}", other),
    }
}

#[test]
fn the_mode_selects_the_program_and_nothing_else() {
    let (_, ssh) = up_to_run("-v  -A", false);
    let (_, sftp) = up_to_run("-v  -A", true);
    match (ssh, sftp) {
        (Action::Run(ssh_program, ssh_arguments), Action::Run(sftp_program, sftp_arguments)) => {
            assert_eq!(ssh_program, "ssh");
            assert_eq!(sftp_program, "sftp");
            assert_eq!(ssh_arguments, sftp_arguments);
        },
        other => panic!("expected both sessions to be started, got {:?}", other),
    }
}

#[test]
fn session_command_appends_the_options_word_by_word() {
    let (program, arguments) = session_command(true, "/k", "/c", "u@h", " -o  A=b\t-P 22 ");
    assert_eq!(program, "sftp");
    assert_eq!(arguments, vec!["-i", "/k", "-i", "/c", "u@h", "-o", "A=b", "-P", "22"]);
}

#[test]
fn a_missing_private_key_ends_the_lifecycle() {
    let (mut lifecycle, _) = begin("", false);
    let action = lifecycle.step(Event::Resolved(Err(failure(IoKind::NotFound, "No such file"))));
    assert!(matches!(action, Action::Finish(Err(ConnectError::FileMissing(path))) if path == "keys/id"));
    assert_eq!(lifecycle.stage(), Stage::Finished);
}

#[test]
fn a_missing_public_key_ends_the_lifecycle() {
    let (mut lifecycle, _) = begin("", false);
    lifecycle.step(Event::Resolved(Ok(String::from("/abs/keys/id"))));
    let action = lifecycle.step(Event::Resolved(Err(failure(IoKind::NotFound, "No such file"))));
    assert!(
        matches!(action, Action::Finish(Err(ConnectError::FileMissing(path))) if path == "keys/id.pub")
    );
}

#[test]
fn a_path_that_cannot_be_resolved_ends_the_lifecycle() {
    let (mut lifecycle, _) = begin("", false);
    let action = lifecycle.step(Event::Resolved(Err(failure(IoKind::PermissionDenied, "denied"))));
    assert!(
        matches!(action, Action::Finish(Err(ConnectError::PathUnresolved(reason))) if reason == "denied")
    );
}

#[test]
fn a_public_key_that_cannot_be_read_ends_the_lifecycle() {
    let (mut lifecycle, _) = begin("", false);
    lifecycle.step(Event::Resolved(Ok(String::from("/abs/keys/id"))));
    lifecycle.step(Event::Resolved(Ok(String::from("/abs/keys/id.pub"))));
    let action = lifecycle.step(Event::FileRead(Err(failure(IoKind::Other, "invalid UTF-8"))));
    match action {
        Action::Finish(Err(error)) => {
            assert_eq!(
                error.message(),
                "Failed to read public key '/abs/keys/id.pub': invalid UTF-8"
            );
        },
        other => panic!("expected an error, got {:?}", other),
    }
}

#[test]
fn a_failed_signature_ends_the_lifecycle_before_any_file_is_made() {
    let (mut lifecycle, _) = begin("", false);
    lifecycle.step(Event::Resolved(Ok(String::from("/abs/keys/id"))));
    lifecycle.step(Event::Resolved(Ok(String::from("/abs/keys/id.pub"))));
    lifecycle.step(Event::FileRead(Ok(String::from("key"))));
    let action = lifecycle.step(Event::Signed(Err(ApiError::PermissionDenied)));
    assert!(matches!(
        action,
        Action::Finish(Err(ConnectError::SignFailed(ApiError::PermissionDenied)))
    ));
    assert_eq!(lifecycle.stage(), Stage::Finished);
}

#[test]
fn a_temporary_file_that_may_not_be_made_is_told_apart() {
    let (mut lifecycle, _) = begin("", false);
    lifecycle.step(Event::Resolved(Ok(String::from("/abs/keys/id"))));
    lifecycle.step(Event::Resolved(Ok(String::from("/abs/keys/id.pub"))));
    lifecycle.step(Event::FileRead(Ok(String::from("key"))));
    lifecycle.step(Event::Signed(Ok(String::from("CERT"))));
    let action =
        lifecycle.step(Event::ArtifactCreated(Err(failure(IoKind::PermissionDenied, "denied"))));
    assert!(matches!(action, Action::Finish(Err(ConnectError::ArtifactDenied))));
    assert_eq!(lifecycle.stage(), Stage::Finished);
}

#[test]
fn a_temporary_file_that_cannot_be_made_ends_the_lifecycle() {
    let (mut lifecycle, _) = begin("", false);
    lifecycle.step(Event::Resolved(Ok(String::from("/abs/keys/id"))));
    lifecycle.step(Event::Resolved(Ok(String::from("/abs/keys/id.pub"))));
    lifecycle.step(Event::FileRead(Ok(String::from("key"))));
    lifecycle.step(Event::Signed(Ok(String::from("CERT"))));
    let action = lifecycle.step(Event::ArtifactCreated(Err(failure(IoKind::Other, "disk full"))));
    assert!(
        matches!(action, Action::Finish(Err(ConnectError::ArtifactNotCreated(reason))) if reason == "disk full")
    );
}

#[test]
fn a_failed_write_leads_to_the_removal_and_is_told_afterwards() {
    let (mut lifecycle, _) = begin("", false);
    lifecycle.step(Event::Resolved(Ok(String::from("/abs/keys/id"))));
    lifecycle.step(Event::Resolved(Ok(String::from("/abs/keys/id.pub"))));
    lifecycle.step(Event::FileRead(Ok(String::from("key"))));
    lifecycle.step(Event::Signed(Ok(String::from("CERT"))));
    lifecycle.step(Event::ArtifactCreated(Ok(String::from("/tmp/.tmpAbC"))));
    let action = lifecycle.step(Event::ArtifactWritten(Err(failure(IoKind::Other, "disk full"))));
    assert!(matches!(action, Action::RemoveArtifact(path) if path == "/tmp/.tmpAbC"));
    assert!(!lifecycle.is_over());
    let action = lifecycle.step(Event::ArtifactRemoved(Ok(())));
    assert!(
        matches!(action, Action::Finish(Err(ConnectError::ArtifactNotWritten(reason))) if reason == "disk full")
    );
    assert_eq!(lifecycle.stage(), Stage::Finished);
}

#[test]
fn a_failed_launch_leads_to_the_removal_and_is_told_afterwards() {
    let (mut lifecycle, _) = up_to_run("", false);
    let action = lifecycle.step(Event::Ran(Err(failure(IoKind::NotFound, "ssh: not found"))));
    assert!(matches!(action, Action::RemoveArtifact(path) if path == "/tmp/.tmpAbC"));
    let action = lifecycle.step(Event::ArtifactRemoved(Ok(())));
    assert!(
        matches!(action, Action::Finish(Err(ConnectError::LaunchFailed(reason))) if reason == "ssh: not found")
    );
    assert_eq!(lifecycle.stage(), Stage::Finished);
}

#[test]
fn a_removal_that_is_denied_is_told_and_not_passed_over() {
    let (mut lifecycle, _) = up_to_run("", false);
    lifecycle.step(Event::Ran(Ok(())));
    let action =
        lifecycle.step(Event::ArtifactRemoved(Err(failure(IoKind::PermissionDenied, "denied"))));
    assert!(matches!(action, Action::Finish(Err(ConnectError::RemovalDenied))));
    assert_eq!(lifecycle.stage(), Stage::LeftBehind);
    assert!(lifecycle.is_over());
}

#[test]
fn a_removal_that_fails_is_told_and_not_passed_over() {
    let (mut lifecycle, _) = up_to_run("", false);
    lifecycle.step(Event::Ran(Err(failure(IoKind::Other, "no ssh"))));
    let action = lifecycle.step(Event::ArtifactRemoved(Err(failure(IoKind::Other, "busy"))));
    assert!(
        matches!(action, Action::Finish(Err(ConnectError::RemovalFailed(reason))) if reason == "busy")
    );
    assert_eq!(lifecycle.stage(), Stage::LeftBehind);
}

#[test]
fn an_event_out_of_turn_before_the_file_is_made_ends_the_lifecycle() {
    let (mut lifecycle, _) = begin("", false);
    let action = lifecycle.step(Event::Ran(Ok(())));
    assert!(matches!(action, Action::Finish(Err(ConnectError::OutOfTurn))));
    assert_eq!(lifecycle.stage(), Stage::Finished);
}

#[test]
fn an_event_out_of_turn_while_the_file_is_there_leads_to_the_removal() {
    let (mut lifecycle, _) = up_to_run("", false);
    let action = lifecycle.step(Event::Signed(Ok(String::from("again"))));
    assert!(matches!(action, Action::RemoveArtifact(path) if path == "/tmp/.tmpAbC"));
    let action = lifecycle.step(Event::FileRead(Ok(String::from("again"))));
    assert!(matches!(action, Action::RemoveArtifact(path) if path == "/tmp/.tmpAbC"));
    assert!(!lifecycle.is_over());
    let action = lifecycle.step(Event::ArtifactRemoved(Ok(())));
    assert!(matches!(action, Action::Finish(Err(ConnectError::OutOfTurn))));
    assert_eq!(lifecycle.stage(), Stage::Finished);
}

#[test]
fn a_lifecycle_that_is_over_stays_over() {
    let (mut lifecycle, _) = up_to_run("", false);
    lifecycle.step(Event::Ran(Ok(())));
    lifecycle.step(Event::ArtifactRemoved(Ok(())));
    let action = lifecycle.step(Event::ArtifactCreated(Ok(String::from("/tmp/other"))));
    assert!(matches!(action, Action::Finish(Err(ConnectError::OutOfTurn))));
    assert_eq!(lifecycle.stage(), Stage::Finished);
}

#[test]
fn every_failure_after_the_file_is_made_passes_through_its_removal() {
    let failures = [
        Event::ArtifactWritten(Err(failure(IoKind::Other, "w"))),
        Event::Resolved(Ok(String::from("x"))),
        Event::Ran(Ok(())),
    ];
    for event in failures {
        let (mut lifecycle, _) = begin("", false);
        lifecycle.step(Event::Resolved(Ok(String::from("/abs/keys/id"))));
        lifecycle.step(Event::Resolved(Ok(String::from("/abs/keys/id.pub"))));
        lifecycle.step(Event::FileRead(Ok(String::from("key"))));
        lifecycle.step(Event::Signed(Ok(String::from("CERT"))));
        lifecycle.step(Event::ArtifactCreated(Ok(String::from("/tmp/.tmpAbC"))));
        let action = lifecycle.step(event);
        assert!(matches!(action, Action::RemoveArtifact(path) if path == "/tmp/.tmpAbC"));
        assert!(!lifecycle.is_over());
    }
}

#[test]
fn connect_error_messages() {
    assert_eq!(
        ConnectError::FileMissing(String::from("id")).message(),
        "File 'id' does not exist"
    );
    assert_eq!(
        ConnectError::PathUnresolved(String::from("loop")).message(),
        "Failed to convert relative to absolute path: loop"
    );
    assert_eq!(
        ConnectError::KeyUnreadable(String::from("/k.pub"), String::from("denied")).message(),
        "Failed to read public key '/k.pub': denied"
    );
    assert_eq!(
        ConnectError::SignFailed(ApiError::UnknownRole).message(),
        "Failed to sign public key: Unknown role"
    );
    assert_eq!(
        ConnectError::ArtifactDenied.message(),
        "Cannot write signed public key: permission denied"
    );
    assert_eq!(
        ConnectError::ArtifactNotCreated(String::from("x")).message(),
        "Failed to open output file: x"
    );
    assert_eq!(
        ConnectError::ArtifactNotWritten(String::from("x")).message(),
        "Failed to write to output file: x"
    );
    assert_eq!(
        ConnectError::LaunchFailed(String::from("x")).message(),
        "Failed to start ssh command: x"
    );
    assert_eq!(
        ConnectError::RemovalDenied.message(),
        "Cannot remove signed certificate: permission denied"
    );
    assert_eq!(
        ConnectError::RemovalFailed(String::from("x")).message(),
        "Failed to remove signed certificate: x"
    );
    assert_eq!(
        ConnectError::OutOfTurn.message(),
        "An event came that answers no pending action"
    );
}

#[test]
fn a_lifecycle_that_left_its_file_behind_stays_over() {
    let (mut lifecycle, _) = up_to_run("", false);
    lifecycle.step(Event::Ran(Ok(())));
    lifecycle.step(Event::ArtifactRemoved(Err(failure(IoKind::Other, "busy"))));
    let action = lifecycle.step(Event::ArtifactRemoved(Ok(())));
    assert!(matches!(action, Action::Finish(Err(ConnectError::OutOfTurn))));
    assert_eq!(lifecycle.stage(), Stage::LeftBehind);
}
