//! Error values surfaced to the person who asked for a move.

use vstd::prelude::*;
use vstd::string::StringExecFns;

verus! {

/// Failures of command dispatch.
#[derive(Clone, Debug, PartialEq, Eq)]
pub enum Error {
    /// The interaction names a command that the engine does not serve.
    UnknownCommand(String),
    /// The interaction is neither a command nor a press on a message.
    NotACommand,
}

/// The user-facing failures of a move, each with a fixed explanation.
#[derive(Clone, Copy, Debug, PartialEq, Eq)]
pub enum CustomError {
    /// The engine itself lacks a permission it needs.
    EnginePermissionsMissing,
    ManageMessagesPermissionsMissing,
    SendMessagesPermissionMissing,
    MessageTooLong,
    MessageAttachment,
    MessageUnrepresentable,
    TooManyMessages,
    MessageTooOld,
}

/// The classes into which the pipeline sorts its validation failures.
#[derive(Clone, Copy, Debug, PartialEq, Eq)]
pub enum ErrorKind {
    PermissionDenied,
    UnrepresentableMessage,
    LimitExceeded,
}

/// Anything that can go wrong while a command is served.
#[derive(Clone, Debug, PartialEq, Eq)]
pub enum Failure {
    /// A validation failure with its own explanation.
    Custom(CustomError),
    /// A failure of command dispatch.
    Command(Error),
    /// A request to the platform failed.
    Upstream,
}

/// The apology shown where no specific explanation applies.
pub open spec fn fallback_text() -> Seq<char> {
    "something went terribly wrong there... i spammed lara (the dev) with the error, im sure they'll look at it asap"@
}

/// What the user is told about a failure.
pub open spec fn reply_text_of(failure: Failure) -> Seq<char> {
    match failure {
        Failure::Custom(error) => error.message_text(),
        _ => fallback_text(),
    }
}

/// Composes what the user is told about a failure: the explanation of a
/// validation failure, and one apology for everything else.
pub fn err_reply(failure: &Failure) -> (text: String)
    ensures
        text@ == reply_text_of(*failure),
{
    match failure {
        Failure::Custom(error) => error.message(),
        _ => String::from_str(
            "something went terribly wrong there... i spammed lara (the dev) with the error, im sure they'll look at it asap",
        ),
    }
}

impl Error {
    /// The text shown for this error.
    pub open spec fn message_text(self) -> Seq<char> {
        match self {
            Error::UnknownCommand(name) => "unknown command: "@ + name@,
            Error::NotACommand => "interaction is not an application command"@,
        }
    }

    /// Renders the error as text.
    pub fn message(&self) -> (text: String)
        ensures
            text@ == self.message_text(),
    {
        match self {
            Error::UnknownCommand(name) => {
                String::from_str("unknown command: ").concat(name.as_str())
            },
            Error::NotACommand => String::from_str("interaction is not an application command"),
        }
    }
}

impl CustomError {
    /// The class of this failure.
    pub open spec fn kind_spec(self) -> ErrorKind {
        match self {
            CustomError::EnginePermissionsMissing => ErrorKind::PermissionDenied,
            CustomError::ManageMessagesPermissionsMissing => ErrorKind::PermissionDenied,
            CustomError::SendMessagesPermissionMissing => ErrorKind::PermissionDenied,
            CustomError::MessageTooLong => ErrorKind::UnrepresentableMessage,
            CustomError::MessageAttachment => ErrorKind::UnrepresentableMessage,
            CustomError::MessageUnrepresentable => ErrorKind::UnrepresentableMessage,
            CustomError::TooManyMessages => ErrorKind::LimitExceeded,
            CustomError::MessageTooOld => ErrorKind::LimitExceeded,
        }
    }

    /// Sorts the failure into its class.
    pub fn kind(&self) -> (kind: ErrorKind)
        ensures
            kind == self.kind_spec(),
    {
        match self {
            CustomError::EnginePermissionsMissing => ErrorKind::PermissionDenied,
            CustomError::ManageMessagesPermissionsMissing => ErrorKind::PermissionDenied,
            CustomError::SendMessagesPermissionMissing => ErrorKind::PermissionDenied,
            CustomError::MessageTooLong => ErrorKind::UnrepresentableMessage,
            CustomError::MessageAttachment => ErrorKind::UnrepresentableMessage,
            CustomError::MessageUnrepresentable => ErrorKind::UnrepresentableMessage,
            CustomError::TooManyMessages => ErrorKind::LimitExceeded,
            CustomError::MessageTooOld => ErrorKind::LimitExceeded,
        }
    }

    /// The explanation shown to the user for this failure.
    pub open spec fn message_text(self) -> Seq<char> {
        match self {
            CustomError::EnginePermissionsMissing =>
                "**please make sure i have these permissions:**\n\nview channels\nmanage webhooks\nmanage messages\nread message history"@,
            CustomError::ManageMessagesPermissionsMissing =>
                "you need **Manage Messages** permissions to move messages that are not your own"@,
            CustomError::SendMessagesPermissionMissing =>
                "you need **Send Messages** permissions in the channel you want to move the messages to"@,
            CustomError::MessageTooLong =>
                "one of the messages is too long, you're probably using your super nitro powers"@,
            CustomError::MessageAttachment =>
                "one of the messages has an image/file, this will be handled better in the future, sorry for the inconvenience and stay tuned!"@,
            CustomError::MessageUnrepresentable =>
                "one of the messages is weird, it has something i can't recreate like a button.. sorry"@,
            CustomError::TooManyMessages =>
                "i can work with up to 50 messages, if you need a higher limit, please join the support server and tell lara"@,
            CustomError::MessageTooOld =>
                "i can't work with messages older than 2 weeks, if you need me to, please join the support server and tell lara"@,
        }
    }

    /// Renders the explanation as text.
    pub fn message(&self) -> (text: String)
        ensures
            text@ == self.message_text(),
    {
        match self {
            CustomError::EnginePermissionsMissing => String::from_str(
                "**please make sure i have these permissions:**\n\nview channels\nmanage webhooks\nmanage messages\nread message history",
            ),
            CustomError::ManageMessagesPermissionsMissing => String::from_str(
                "you need **Manage Messages** permissions to move messages that are not your own",
            ),
            CustomError::SendMessagesPermissionMissing => String::from_str(
                "you need **Send Messages** permissions in the channel you want to move the messages to",
            ),
            CustomError::MessageTooLong => String::from_str(
                "one of the messages is too long, you're probably using your super nitro powers",
            ),
            CustomError::MessageAttachment => String::from_str(
                "one of the messages has an image/file, this will be handled better in the future, sorry for the inconvenience and stay tuned!",
            ),
            CustomError::MessageUnrepresentable => String::from_str(
                "one of the messages is weird, it has something i can't recreate like a button.. sorry",
            ),
            CustomError::TooManyMessages => String::from_str(
                "i can work with up to 50 messages, if you need a higher limit, please join the support server and tell lara",
            ),
            CustomError::MessageTooOld => String::from_str(
                "i can't work with messages older than 2 weeks, if you need me to, please join the support server and tell lara",
            ),
        }
    }
}

} // verus!
