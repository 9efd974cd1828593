use sscp::command::{
    classify, copy_command_line, shell_document_name, CommandStatus, Outcome,
    POLL_INTERVAL_SECONDS,
};
use sscp::error::{ErrorKind, TransferError};
use sscp::request::CommandInvocation;

fn invocation(status: &str, out: Option<&str>, err: Option<&str>) -> CommandInvocation {
    CommandInvocation {
        status: status.to_string(),
        standard_output: out.map(|text| text.to_string()),
        standard_error: err.map(|text| text.to_string()),
    }
}

#[test]
fn each_known_status_is_recognised() {
    assert_eq!(classify("Pending"), CommandStatus::Pending);
    assert_eq!(classify("InProgress"), CommandStatus::InProgress);
    assert_eq!(classify("Success"), CommandStatus::Success);
    assert_eq!(classify("Failed"), CommandStatus::Failed);
    assert_eq!(classify("TimedOut"), CommandStatus::TimedOut);
    assert_eq!(classify("Cancelled"), CommandStatus::Cancelled);
    assert_eq!(classify("Cancelling"), CommandStatus::Cancelling);
}

#[test]
fn any_other_status_is_unknown() {
    assert_eq!(classify("Weird"), CommandStatus::Unknown);
    assert_eq!(classify(""), CommandStatus::Unknown);
    assert_eq!(classify("success"), CommandStatus::Unknown);
    assert_eq!(classify("Success "), CommandStatus::Unknown);
}

#[test]
fn only_pending_and_in_progress_wait() {
    assert_eq!(CommandStatus::Pending.decide(), Outcome::Wait);
    assert_eq!(CommandStatus::InProgress.decide(), Outcome::Wait);
    assert_eq!(CommandStatus::Success.decide(), Outcome::Succeeded);
    assert_eq!(CommandStatus::Failed.decide(), Outcome::Failed);
    assert_eq!(CommandStatus::TimedOut.decide(), Outcome::Failed);
    assert_eq!(CommandStatus::Cancelled.decide(), Outcome::Failed);
    assert_eq!(CommandStatus::Cancelling.decide(), Outcome::Failed);
    assert_eq!(CommandStatus::Unknown.decide(), Outcome::Unrecognized);
}

#[test]
fn the_wait_between_looks_is_two_seconds() {
    assert_eq!(POLL_INTERVAL_SECONDS, 2);
}

#[test]
fn commands_run_as_shell_scripts() {
    assert_eq!(shell_document_name(), "AWS-RunShellScript");
}

#[test]
fn copy_command_names_source_then_target() {
    assert_eq!(
        copy_command_line("/tmp/a.txt", "s3://b//tmp/a.txt"),
        "aws s3 cp /tmp/a.txt s3://b//tmp/a.txt"
    );
    assert_eq!(copy_command_line("", ""), "aws s3 cp  ");
}

#[test]
fn messages_carry_the_captured_text() {
    let ended = invocation("Failed", Some("out"), Some("disk full"));
    assert_eq!(ended.success_line(), "Command executed successfully: out");
    assert_eq!(ended.failure_message(), "Command execution failed: disk full");
    assert_eq!(ended.unknown_status_message(), "Unknown command status: Failed");
}

#[test]
fn captured_text_that_is_missing_counts_as_empty() {
    let bare = invocation("Success", None, None);
    assert_eq!(bare.success_line(), "Command executed successfully: ");
    assert_eq!(bare.failure_message(), "Command execution failed: ");
}

#[test]
fn an_error_keeps_its_kind_and_message() {
    let kinds = [
        ErrorKind::Parse,
        ErrorKind::Config,
        ErrorKind::Io,
        ErrorKind::Relay,
        ErrorKind::RemoteCommand,
    ];
    for kind in kinds {
        let error = TransferError::new(kind, "no credentials".to_string());
        assert_eq!(error.kind(), kind);
        assert_eq!(error.message(), "no credentials");
    }
}
