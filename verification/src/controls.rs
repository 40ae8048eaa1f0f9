//! Transport commands, and what the caller is told of their outcome.

use crate::error::Error;
use vstd::prelude::*;
use vstd::string::*;

verus! {

/// A control action sent to the current player.
#[derive(Clone, Copy, Debug, PartialEq, Eq, Structural)]
pub enum TransportCommand {
    Play,
    Pause,
    TogglePause,
    Stop,
    Next,
    Previous,
}

impl TransportCommand {
    /// The name of the bus method that carries out the command.
    pub open spec fn bus_method_spec(self) -> Seq<char> {
        match self {
            TransportCommand::Play => "Play"@,
            TransportCommand::Pause => "Pause"@,
            TransportCommand::TogglePause => "PlayPause"@,
            TransportCommand::Stop => "Stop"@,
            TransportCommand::Next => "Next"@,
            TransportCommand::Previous => "Previous"@,
        }
    }

    /// The name of the bus method that carries out the command.
    pub fn bus_method(&self) -> (name: &'static str)
        ensures
            name@ == self.bus_method_spec(),
    {
        match self {
            TransportCommand::Play => "Play",
            TransportCommand::Pause => "Pause",
            TransportCommand::TogglePause => "PlayPause",
            TransportCommand::Stop => "Stop",
            TransportCommand::Next => "Next",
            TransportCommand::Previous => "Previous",
        }
    }
}

/// What became of a command.
pub enum CommandOutcome {
    /// There was no player to send it to, and nothing was sent.
    NotIssued,
    /// The player took it.
    Done,
    /// The native facility reported a failure, with this message if any.
    Failed(Option<String>),
}

/// The message with which a command fails, where it does.
pub open spec fn failure_message(outcome: CommandOutcome) -> Option<Seq<char>> {
    match outcome {
        CommandOutcome::NotIssued => None,
        CommandOutcome::Done => None,
        CommandOutcome::Failed(Some(message)) => Some(message@),
        CommandOutcome::Failed(None) => Some(Error::unknown_message()),
    }
}

/// What the caller of a transport method is told: success where the command
/// was taken or there was nobody to take it, and an error with the native
/// facility's message where the facility reported one.
pub fn command_result(outcome: CommandOutcome) -> (result: Result<(), Error>)
    ensures
        match result {
            Ok(_) => failure_message(outcome) is None,
            Err(error) => failure_message(outcome) == Some(error@),
        },
{
    match outcome {
        CommandOutcome::NotIssued => Ok(()),
        CommandOutcome::Done => Ok(()),
        CommandOutcome::Failed(Some(message)) => Err(Error::from_native(Some(message.as_str()))),
        CommandOutcome::Failed(None) => Err(Error::from_native(None)),
    }
}

} // verus!
