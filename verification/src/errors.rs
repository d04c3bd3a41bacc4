//! The errors of the library, with the messages that the command line prints.
//!
//! An error that an outside library or the system reported is held as the text
//! that this error displays.

use vstd::prelude::*;
use vstd::string::*;

use crate::docker_compose::{service_name, Service};
use crate::text::{concat2, concat3, owned, signed_decimal, to_signed_decimal};

verus! {

/// A command that ended with a failure status.
#[derive(Debug)]
pub struct CommandError {
    /// The command as it is written for debugging.
    pub command: String,
    /// The exit code, where the command ended by itself.
    pub code: Option<i32>,
    pub stdout: String,
    pub stderr: String,
}

/// The message of a failed command.
pub open spec fn command_error_message(e: CommandError) -> Seq<char> {
    "Command exec exited with code "@ + signed_decimal(e.code.unwrap() as int) + ":\n\tcmd: "@
        + e.command@ + "\n\tstdout: "@ + e.stdout@ + "\n\tstderr: "@ + e.stderr@
}

impl CommandError {
    /// The message of the failed command; a command stopped by a signal has no
    /// exit code to show.
    pub fn message(&self) -> (r: String)
        requires
            self.code is Some,
        ensures
            r@ == command_error_message(*self),
    {
        let code = to_signed_decimal(self.code.unwrap());
        let mut r = concat3("Command exec exited with code ", code.as_str(), ":\n\tcmd: ");
        r.append(self.command.as_str());
        r.append("\n\tstdout: ");
        r.append(self.stdout.as_str());
        r.append("\n\tstderr: ");
        r.append(self.stderr.as_str());
        r
    }
}

/// An error of the command line.
#[derive(Debug)]
pub enum Error {
    /// A file could not be opened: the reason, then the path.
    OpenFile(String, String),
    Stdio(String),
    Deserialize(String),
    DeserializeJson(String),
    Dofigen(String),
    ReadLine(String),
    ParseCommand(String),
    Request(String),
    Join(String),
    Command(CommandError),
    FromUtf8(String),
    ServiceNotExposed(Service),
    NotStartedServices,
    NeverBuiltApp,
    ProjectPathNotEmpty,
    Check,
    InvalidGitHubTopic(String),
    NoTemplateFound,
    Custom(String),
}

/// The message that an error displays.
pub open spec fn error_message(e: Error) -> Seq<char> {
    match e {
        Error::OpenFile(err, path) => "Could not open file "@ + path@ + ": "@ + err@,
        Error::Stdio(err) => "StdIO error "@ + err@,
        Error::Deserialize(err) => "Error while deserializing the document: "@ + err@,
        Error::DeserializeJson(err) => "Error while deserializing the document: "@ + err@,
        Error::Dofigen(err) => err@,
        Error::ReadLine(err) => "Could not read command: "@ + err@,
        Error::ParseCommand(err) => "Could not parse command: "@ + err@,
        Error::Request(err) => "Error while requesting: "@ + err@,
        Error::Join(err) => "Error while joining an async task: "@ + err@,
        Error::Command(err) => "The command execution failed: "@ + command_error_message(err),
        Error::FromUtf8(err) => err@,
        Error::ServiceNotExposed(s) => "The "@ + service_name(s) + " service is not exposed"@,
        Error::NotStartedServices => "Some services are not started"@,
        Error::NeverBuiltApp => "The app must be built before running it"@,
        Error::ProjectPathNotEmpty => "The new project directory is not empty"@,
        Error::Check => "Check error"@,
        Error::InvalidGitHubTopic(topic) => "The next GitHub topic is not correct: "@ + topic@,
        Error::NoTemplateFound => "No template found"@,
        Error::Custom(msg) => msg@,
    }
}

impl Error {
    /// The message of the error.
    pub fn message(&self) -> (r: String)
        requires
            self is Command ==> self->Command_0.code is Some,
        ensures
            r@ == error_message(*self),
    {
        match self {
            Error::OpenFile(err, path) => concat3("Could not open file ", path.as_str(), ": ").concat(
                err.as_str(),
            ),
            Error::Stdio(err) => concat2("StdIO error ", err.as_str()),
            Error::Deserialize(err) => concat2(
                "Error while deserializing the document: ",
                err.as_str(),
            ),
            Error::DeserializeJson(err) => concat2(
                "Error while deserializing the document: ",
                err.as_str(),
            ),
            Error::Dofigen(err) => err.clone(),
            Error::ReadLine(err) => concat2("Could not read command: ", err.as_str()),
            Error::ParseCommand(err) => concat2("Could not parse command: ", err.as_str()),
            Error::Request(err) => concat2("Error while requesting: ", err.as_str()),
            Error::Join(err) => concat2("Error while joining an async task: ", err.as_str()),
            Error::Command(err) => {
                let m = err.message();
                concat2("The command execution failed: ", m.as_str())
            },
            Error::FromUtf8(err) => err.clone(),
            Error::ServiceNotExposed(s) => concat3("The ", s.to_str(), " service is not exposed"),
            Error::NotStartedServices => owned("Some services are not started"),
            Error::NeverBuiltApp => owned("The app must be built before running it"),
            Error::ProjectPathNotEmpty => owned("The new project directory is not empty"),
            Error::Check => owned("Check error"),
            Error::InvalidGitHubTopic(topic) => concat2(
                "The next GitHub topic is not correct: ",
                topic.as_str(),
            ),
            Error::NoTemplateFound => owned("No template found"),
            Error::Custom(msg) => msg.clone(),
        }
    }
}

} // verus!
