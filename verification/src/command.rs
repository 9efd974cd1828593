use crate::request::{CommandInvocation, CommandInvocationView};
use crate::text::str_eq;
use vstd::prelude::*;
use vstd::string::*;

verus! {

/// Seconds to wait between two looks at a command that has not finished.
pub const POLL_INTERVAL_SECONDS: u64 = 2;

/// The document under which a shell command line is submitted.
pub open spec fn shell_document() -> Seq<char> {
    "AWS-RunShellScript"@
}

pub fn shell_document_name() -> (name: String)
    ensures
        name@ == shell_document(),
{
    String::from_str("AWS-RunShellScript")
}

/// How an invocation stands. `Unknown` is every status text that is none of
/// the others.
#[derive(Clone, Copy, Debug, PartialEq, Eq, Structural)]
pub enum CommandStatus {
    Pending,
    InProgress,
    Success,
    Failed,
    TimedOut,
    Cancelled,
    Cancelling,
    Unknown,
}

/// What a polling caller does on a status.
#[derive(Clone, Copy, Debug, PartialEq, Eq, Structural)]
pub enum Outcome {
    /// Not finished: wait and look again.
    Wait,
    /// Finished well.
    Succeeded,
    /// Finished, and not well.
    Failed,
    /// A status nobody knows: given up on.
    Unrecognized,
}

impl CommandStatus {
    pub open spec fn outcome(self) -> Outcome {
        match self {
            CommandStatus::Pending | CommandStatus::InProgress => Outcome::Wait,
            CommandStatus::Success => Outcome::Succeeded,
            CommandStatus::Failed
            | CommandStatus::TimedOut
            | CommandStatus::Cancelled
            | CommandStatus::Cancelling => Outcome::Failed,
            CommandStatus::Unknown => Outcome::Unrecognized,
        }
    }

    /// A terminal status is one after which nobody looks again.
    pub open spec fn is_terminal(self) -> bool {
        self.outcome() != Outcome::Wait
    }

    /// What a polling caller does on this status.
    pub fn decide(self) -> (outcome: Outcome)
        ensures
            outcome == self.outcome(),
    {
        match self {
            CommandStatus::Pending | CommandStatus::InProgress => Outcome::Wait,
            CommandStatus::Success => Outcome::Succeeded,
            CommandStatus::Failed
            | CommandStatus::TimedOut
            | CommandStatus::Cancelled
            | CommandStatus::Cancelling => Outcome::Failed,
            CommandStatus::Unknown => Outcome::Unrecognized,
        }
    }
}

/// The status that a status text names.
pub open spec fn status_of(text: Seq<char>) -> CommandStatus {
    if text == "Pending"@ {
        CommandStatus::Pending
    } else if text == "InProgress"@ {
        CommandStatus::InProgress
    } else if text == "Success"@ {
        CommandStatus::Success
    } else if text == "Failed"@ {
        CommandStatus::Failed
    } else if text == "TimedOut"@ {
        CommandStatus::TimedOut
    } else if text == "Cancelled"@ {
        CommandStatus::Cancelled
    } else if text == "Cancelling"@ {
        CommandStatus::Cancelling
    } else {
        CommandStatus::Unknown
    }
}

pub fn classify(text: &str) -> (status: CommandStatus)
    ensures
        status == status_of(text@),
{
    if str_eq(text, "Pending") {
        CommandStatus::Pending
    } else if str_eq(text, "InProgress") {
        CommandStatus::InProgress
    } else if str_eq(text, "Success") {
        CommandStatus::Success
    } else if str_eq(text, "Failed") {
        CommandStatus::Failed
    } else if str_eq(text, "TimedOut") {
        CommandStatus::TimedOut
    } else if str_eq(text, "Cancelled") {
        CommandStatus::Cancelled
    } else if str_eq(text, "Cancelling") {
        CommandStatus::Cancelling
    } else {
        CommandStatus::Unknown
    }
}

/// The command line that copies `source` to `target` with the relay's tool.
pub open spec fn copy_command(source: Seq<char>, target: Seq<char>) -> Seq<char> {
    "aws s3 cp "@ + source + " "@ + target
}

pub fn copy_command_line(source: &str, target: &str) -> (line: String)
    ensures
        line@ == copy_command(source@, target@),
{
    let mut line = String::from_str("aws s3 cp ");
    line.append(source);
    line.append(" ");
    line.append(target);
    line
}

/// Captured output, empty where the channel gave none.
pub open spec fn captured(text: Option<Seq<char>>) -> Seq<char> {
    match text {
        Some(text) => text,
        None => Seq::empty(),
    }
}

/// The line shown when a command has succeeded.
pub open spec fn success_line(invocation: CommandInvocationView) -> Seq<char> {
    "Command executed successfully: "@ + captured(invocation.standard_output)
}

/// The message of the error for a command that ended without success.
pub open spec fn failure_message(invocation: CommandInvocationView) -> Seq<char> {
    "Command execution failed: "@ + captured(invocation.standard_error)
}

/// The message of the error for a status that is not known.
pub open spec fn unknown_status_message(invocation: CommandInvocationView) -> Seq<char> {
    "Unknown command status: "@ + invocation.status
}

fn with_captured(prefix: &str, text: &Option<String>) -> (line: String)
    ensures
        line@ == prefix@ + captured(
            match *text {
                Some(text) => Some(text@),
                None => None,
            },
        ),
{
    let mut line = String::from_str(prefix);
    match text {
        Some(text) => {
            line.append(text.as_str());
        },
        None => {
            assert(line@ + Seq::<char>::empty() =~= line@);
        },
    }
    line
}

impl CommandInvocation {
    pub fn success_line(&self) -> (line: String)
        ensures
            line@ == success_line(self@),
    {
        with_captured("Command executed successfully: ", &self.standard_output)
    }

    pub fn failure_message(&self) -> (message: String)
        ensures
            message@ == failure_message(self@),
    {
        with_captured("Command execution failed: ", &self.standard_error)
    }

    pub fn unknown_status_message(&self) -> (message: String)
        ensures
            message@ == unknown_status_message(self@),
    {
        let mut message = String::from_str("Unknown command status: ");
        message.append(self.status.as_str());
        message
    }
}

} // verus!
