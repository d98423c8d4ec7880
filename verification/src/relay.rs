//! What an SMTP interception does when a line does not arrive or is not
//! accepted: what it tells the client, and how the task ends.
//!
//! Reading and writing belong to whoever drives the interception. After each
//! of them it asks here how to go on.

use vstd::prelude::*;

verus! {

/// How receiving a line failed, with an I/O error of type `E`.
#[derive(Debug)]
pub enum RecvLineError<E> {
    /// Reading failed.
    IoError(E),
    /// The peer closed the stream.
    IoClosed,
    /// The line is longer than the buffer.
    LineTooLong,
}

/// What is wrong with what a peer sent.
#[derive(Clone, Copy, Debug, PartialEq, Eq)]
pub enum AppFault {
    /// A response line of the server is too long.
    ResponseLineTooLong,
    /// A response line of the server is not one.
    InvalidResponseLine,
    /// A command line of the client is not one.
    InvalidCommandLine,
    /// A command line of the client is too long.
    CommandLineTooLong,
}

impl AppFault {
    /// The text of a fault.
    pub open spec fn text(self) -> Seq<char> {
        match self {
            AppFault::ResponseLineTooLong => "SMTP response line too long"@,
            AppFault::InvalidResponseLine => "invalid SMTP QUIT response line"@,
            AppFault::InvalidCommandLine => "invalid SMTP command line"@,
            AppFault::CommandLineTooLong => "SMTP command line too long"@,
        }
    }

    /// The text of the fault, for whoever reports it.
    pub fn message(&self) -> (text: &'static str)
        ensures
            text@ == self.text(),
    {
        match self {
            AppFault::ResponseLineTooLong => "SMTP response line too long",
            AppFault::InvalidResponseLine => "invalid SMTP QUIT response line",
            AppFault::InvalidCommandLine => "invalid SMTP command line",
            AppFault::CommandLineTooLong => "SMTP command line too long",
        }
    }
}

/// How a task ends where it does not end well.
#[derive(Debug)]
pub enum ServerTaskError<E> {
    /// Reading from the client failed.
    ClientTcpReadFailed(E),
    /// Writing to the client failed.
    ClientTcpWriteFailed(E),
    /// The client closed the stream.
    ClosedByClient,
    /// The client sent what it should not.
    ClientAppError(AppFault),
    /// Talking to the server failed.
    UpstreamReadFailed(E),
    /// The server closed the stream.
    ClosedByUpstream,
    /// The server sent what it should not.
    UpstreamAppError(AppFault),
}

/// What the client is told.
#[derive(Clone, Copy, Debug, PartialEq, Eq)]
pub enum Feedback {
    /// Talking to the server failed.
    UpstreamIoError,
    /// The server closed the stream.
    UpstreamIoClosed,
    /// The server sent a line that is too long.
    UpstreamLineTooLong,
    /// The server sent a line that is no response.
    UpstreamResponseError,
    /// The command does not come at its place.
    BadSequenceOfCommands,
    /// The command line is too long.
    CommandLineTooLong,
    /// The command line is no command.
    CommandRejected,
}

/// What the command line of a client turned out to be.
#[derive(Clone, Copy, Debug, PartialEq, Eq)]
pub enum CommandVerdict {
    /// No command.
    Invalid,
    /// A command that does not come at its place.
    BadSequence,
    /// A command to hand on.
    Accepted,
}

/// How relaying one command of the client goes on.
#[derive(Debug)]
pub enum RelayStep<E> {
    /// Take the line apart, and say what it is.
    Parse,
    /// Tell the client that the command does not come at its place.
    Reject,
    /// Send the line to the server.
    Forward,
    /// The end: the line went to the server, or it was turned down and the
    /// client knows.
    Done { relayed: bool },
    /// The end of the task: tell the client `feedback`, if any and if it can
    /// still be told, and fail with `error`.
    Fail { feedback: Option<Feedback>, error: ServerTaskError<E> },
}

/// How it ends where no response line arrived from the server: the client is
/// told what happened to the server.
pub open spec fn response_line_failure<E>(failure: RecvLineError<E>) -> (
    Feedback,
    ServerTaskError<E>,
) {
    match failure {
        RecvLineError::IoError(e) => (
            Feedback::UpstreamIoError,
            ServerTaskError::UpstreamReadFailed(e),
        ),
        RecvLineError::IoClosed => (Feedback::UpstreamIoClosed, ServerTaskError::ClosedByUpstream),
        RecvLineError::LineTooLong => (
            Feedback::UpstreamLineTooLong,
            ServerTaskError::UpstreamAppError(AppFault::ResponseLineTooLong),
        ),
    }
}

/// How relaying goes on once the command line of the client was read, or was
/// not. A client that is gone, or cannot be read, is told nothing.
pub open spec fn after_command_read<E>(read: Result<(), RecvLineError<E>>) -> RelayStep<E> {
    match read {
        Ok(_) => RelayStep::Parse,
        Err(RecvLineError::IoError(e)) => RelayStep::Fail {
            feedback: None,
            error: ServerTaskError::ClientTcpReadFailed(e),
        },
        Err(RecvLineError::IoClosed) => RelayStep::Fail {
            feedback: None,
            error: ServerTaskError::ClosedByClient,
        },
        Err(RecvLineError::LineTooLong) => RelayStep::Fail {
            feedback: Some(Feedback::CommandLineTooLong),
            error: ServerTaskError::ClientAppError(AppFault::CommandLineTooLong),
        },
    }
}

/// How relaying goes on once it is known what the line is.
pub open spec fn after_command_parsed<E>(verdict: CommandVerdict) -> RelayStep<E> {
    match verdict {
        CommandVerdict::Invalid => RelayStep::Fail {
            feedback: Some(Feedback::CommandRejected),
            error: ServerTaskError::ClientAppError(AppFault::InvalidCommandLine),
        },
        CommandVerdict::BadSequence => RelayStep::Reject,
        CommandVerdict::Accepted => RelayStep::Forward,
    }
}

/// How relaying goes on once the client was told that the command does not
/// come at its place, or could not be told.
pub open spec fn after_rejection<E>(written: Result<(), E>) -> RelayStep<E> {
    match written {
        Ok(_) => RelayStep::Done { relayed: false },
        Err(e) => RelayStep::Fail {
            feedback: None,
            error: ServerTaskError::ClientTcpWriteFailed(e),
        },
    }
}

/// How relaying goes on once the line was sent to the server, or could not be.
pub open spec fn after_forward<E>(sent: Result<(), E>) -> RelayStep<E> {
    match sent {
        Ok(_) => RelayStep::Done { relayed: true },
        Err(e) => RelayStep::Fail {
            feedback: Some(Feedback::UpstreamIoError),
            error: ServerTaskError::UpstreamReadFailed(e),
        },
    }
}

/// Says what the client is told and how the task ends where no response line
/// arrived from the server.
pub fn response_line_failed<E>(failure: RecvLineError<E>) -> (end: (
    Feedback,
    ServerTaskError<E>,
))
    ensures
        end == response_line_failure(failure),
{
    match failure {
        RecvLineError::IoError(e) => (
            Feedback::UpstreamIoError,
            ServerTaskError::UpstreamReadFailed(e),
        ),
        RecvLineError::IoClosed => (Feedback::UpstreamIoClosed, ServerTaskError::ClosedByUpstream),
        RecvLineError::LineTooLong => (
            Feedback::UpstreamLineTooLong,
            ServerTaskError::UpstreamAppError(AppFault::ResponseLineTooLong),
        ),
    }
}

/// How it ends where the server sent a line that is no response: the client is
/// told so.
pub open spec fn response_line_rejection<E>() -> (Feedback, ServerTaskError<E>) {
    (
        Feedback::UpstreamResponseError,
        ServerTaskError::UpstreamAppError(AppFault::InvalidResponseLine),
    )
}

/// Says what the client is told and how the task ends where the server sent a
/// line that is no response.
pub fn response_line_rejected<E>() -> (end: (Feedback, ServerTaskError<E>))
    ensures
        end == response_line_rejection::<E>(),
{
    (
        Feedback::UpstreamResponseError,
        ServerTaskError::UpstreamAppError(AppFault::InvalidResponseLine),
    )
}

/// Says how relaying goes on once the command line of the client was read, or
/// was not.
pub fn command_read<E>(read: Result<(), RecvLineError<E>>) -> (step: RelayStep<E>)
    ensures
        step == after_command_read(read),
{
    match read {
        Ok(_) => RelayStep::Parse,
        Err(RecvLineError::IoError(e)) => RelayStep::Fail {
            feedback: None,
            error: ServerTaskError::ClientTcpReadFailed(e),
        },
        Err(RecvLineError::IoClosed) => RelayStep::Fail {
            feedback: None,
            error: ServerTaskError::ClosedByClient,
        },
        Err(RecvLineError::LineTooLong) => RelayStep::Fail {
            feedback: Some(Feedback::CommandLineTooLong),
            error: ServerTaskError::ClientAppError(AppFault::CommandLineTooLong),
        },
    }
}

/// Says how relaying goes on once it is known what the line is.
pub fn command_parsed<E>(verdict: CommandVerdict) -> (step: RelayStep<E>)
    ensures
        step == after_command_parsed::<E>(verdict),
{
    match verdict {
        CommandVerdict::Invalid => RelayStep::Fail {
            feedback: Some(Feedback::CommandRejected),
            error: ServerTaskError::ClientAppError(AppFault::InvalidCommandLine),
        },
        CommandVerdict::BadSequence => RelayStep::Reject,
        CommandVerdict::Accepted => RelayStep::Forward,
    }
}

/// Says how relaying goes on once the client was told that the command does
/// not come at its place, or could not be told.
pub fn rejection_written<E>(written: Result<(), E>) -> (step: RelayStep<E>)
    ensures
        step == after_rejection(written),
{
    match written {
        Ok(_) => RelayStep::Done { relayed: false },
        Err(e) => RelayStep::Fail {
            feedback: None,
            error: ServerTaskError::ClientTcpWriteFailed(e),
        },
    }
}

/// Says how relaying goes on once the line was sent to the server, or could
/// not be.
pub fn command_forwarded<E>(sent: Result<(), E>) -> (step: RelayStep<E>)
    ensures
        step == after_forward(sent),
{
    match sent {
        Ok(_) => RelayStep::Done { relayed: true },
        Err(e) => RelayStep::Fail {
            feedback: Some(Feedback::UpstreamIoError),
            error: ServerTaskError::UpstreamReadFailed(e),
        },
    }
}

} // verus!
