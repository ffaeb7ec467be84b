//! The commands the engine serves, by the names the platform knows them
//! under.

use vstd::prelude::*;
use vstd::string::StringExecFns;
use crate::errors::Error;

verus! {

/// What an interaction asks for.
#[derive(Clone, Copy, Debug, PartialEq, Eq, Structural)]
pub enum Command {
    /// Move the message the command was used on.
    MoveMessage,
    /// Move the message the command was used on and everything after it.
    MoveMessageAndBelow,
    /// Move the newest messages of the channel.
    MoveLastMessages,
}

/// The kinds of interaction the platform delivers.
#[derive(Clone, Copy, Debug, PartialEq, Eq, Structural)]
pub enum InteractionKind {
    /// Someone used a command.
    ApplicationCommand,
    /// Someone pressed a button or chose from a menu on a message.
    MessageComponent,
    /// Anything else.
    Other,
}

/// What the dispatcher does with an interaction.
#[derive(Clone, Copy, Debug, PartialEq, Eq, Structural)]
pub enum Dispatch {
    /// Serve the command.
    Run(Command),
    /// Nothing. A press on a message belongs to whoever waits on that
    /// message, a consent session or a destination menu; the dispatcher
    /// neither answers nor consumes it.
    LeaveAlone,
}

/// The largest number of newest messages one command may ask for.
pub const MAX_MESSAGE_COUNT: i64 = 20;

/// The options of the command that moves the newest messages of a channel.
#[derive(Clone, Copy, Debug, PartialEq, Eq, Structural)]
pub struct MoveLastMessages {
    /// How many of the newest messages to move: from 1 to 20.
    pub message_count: usize,
    /// The channel to move them to.
    pub channel: u64,
}

impl MoveLastMessages {
    /// The options from the values that the platform hands over. `None`
    /// where the count is not between 1 and 20.
    pub fn new(message_count: i64, channel: u64) -> (options: Option<MoveLastMessages>)
        ensures
            options == if 1 <= message_count <= MAX_MESSAGE_COUNT {
                Some(MoveLastMessages { message_count: message_count as usize, channel })
            } else {
                None
            },
    {
        if 1 <= message_count && message_count <= MAX_MESSAGE_COUNT {
            Some(MoveLastMessages { message_count: message_count as usize, channel })
        } else {
            None
        }
    }
}

/// The command that a name stands for.
pub open spec fn command_named(name: Seq<char>) -> Option<Command> {
    if name == "move message"@ || name == "move"@ {
        Some(Command::MoveMessage)
    } else if name == "move this message and below"@ {
        Some(Command::MoveMessageAndBelow)
    } else if name == "move_last_messages"@ {
        Some(Command::MoveLastMessages)
    } else {
        None
    }
}

/// Decides what to do with an interaction. For a command, `name` is the
/// command's name; for a press on a message it is the id of what was
/// pressed, which plays no part.
///
/// Every press on a message is left alone, whatever it is called. A command
/// is served if its name is known; an unknown name is handed back in the
/// error. Any other kind of interaction is no command.
pub fn handle(kind: InteractionKind, name: &String) -> (found: Result<Dispatch, Error>)
    ensures
        match found {
            Ok(Dispatch::LeaveAlone) => kind == InteractionKind::MessageComponent,
            Ok(Dispatch::Run(command)) => kind == InteractionKind::ApplicationCommand
                && command_named(name@) == Some(command),
            Err(Error::UnknownCommand(unknown)) => kind == InteractionKind::ApplicationCommand
                && command_named(name@).is_none() && unknown@ == name@,
            Err(Error::NotACommand) => kind == InteractionKind::Other,
        },
{
    match kind {
        InteractionKind::MessageComponent => Ok(Dispatch::LeaveAlone),
        InteractionKind::Other => Err(Error::NotACommand),
        InteractionKind::ApplicationCommand => {
            if *name == String::from_str("move message") || *name == String::from_str("move") {
                Ok(Dispatch::Run(Command::MoveMessage))
            } else if *name == String::from_str("move this message and below") {
                Ok(Dispatch::Run(Command::MoveMessageAndBelow))
            } else if *name == String::from_str("move_last_messages") {
                Ok(Dispatch::Run(Command::MoveLastMessages))
            } else {
                Err(Error::UnknownCommand(name.clone()))
            }
        },
    }
}

} // verus!
