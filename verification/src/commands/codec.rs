//! Whole frames: a command of any module to its frame, and a received frame
//! back to the command, with the codec chosen by the module identifier.

use crate::commands::serde::{
    addressed_module, check_command_structure, decoding, encoding, lemma_round_trip, payload_of,
    payload_region, well_formed, DecodeError, Serde, StructuralError, COMMAND_BUFFER_SIZE,
};
use crate::commands::{BallastCommand, Command, LightCommand, Module, PropulsionCommand};
use vstd::prelude::*;

verus! {

/// Why a received frame yields no command.
#[derive(Debug, Clone, Copy, PartialEq, Eq, Structural)]
pub enum FrameError {
    /// The frame fails the structural check.
    Structure(StructuralError),
    /// The frame is well formed, but its payload stands for no command of the
    /// module that the frame addresses.
    Payload(DecodeError),
}

impl Command {
    /// The module that the command is meant for.
    pub open spec fn module(self) -> Module {
        match self {
            Command::Ballast(_) => Module::Ballast,
            Command::Propulsion(_) => Module::Propulsion,
            Command::Light(_) => Module::Light,
        }
    }

    /// The frame that encodes the command.
    pub open spec fn frame(self) -> Seq<u8> {
        match self {
            Command::Ballast(command) => encoding(command),
            Command::Propulsion(command) => encoding(command),
            Command::Light(command) => encoding(command),
        }
    }

    /// The command that `payload` stands for when it is addressed to
    /// `module`.
    pub open spec fn of_payload(module: Module, payload: Seq<u8>) -> Result<Command, DecodeError> {
        match module {
            Module::Ballast => match decoding::<BallastCommand>(payload) {
                Ok(command) => Ok(Command::Ballast(command)),
                Err(error) => Err(error),
            },
            Module::Propulsion => match decoding::<PropulsionCommand>(payload) {
                Ok(command) => Ok(Command::Propulsion(command)),
                Err(error) => Err(error),
            },
            Module::Light => match decoding::<LightCommand>(payload) {
                Ok(command) => Ok(Command::Light(command)),
                Err(error) => Err(error),
            },
        }
    }

    /// The outcome of decoding a frame: the structural check comes first, then
    /// the payload is decoded by the codec of the module that the frame
    /// addresses.
    pub open spec fn of_frame(frame: Seq<u8>) -> Result<Command, FrameError>
        recommends
            frame.len() == COMMAND_BUFFER_SIZE,
    {
        match addressed_module(frame) {
            Err(error) => Err(FrameError::Structure(error)),
            Ok(module) => match Command::of_payload(module, payload_of(frame)) {
                Ok(command) => Ok(command),
                Err(error) => Err(FrameError::Payload(error)),
            },
        }
    }

    /// Encodes the command with the codec of its module.
    pub fn encode(&self) -> (frame: [u8; COMMAND_BUFFER_SIZE])
        ensures
            frame@ == self.frame(),
            well_formed(frame@),
    {
        match self {
            Command::Ballast(command) => command.serialize(),
            Command::Propulsion(command) => command.serialize(),
            Command::Light(command) => command.serialize(),
        }
    }

    /// Decodes a received frame: checks its structure, then hands the payload
    /// region to the codec of the module that the frame addresses.
    pub fn decode(
        command_buffer: &[u8; COMMAND_BUFFER_SIZE],
    ) -> (decoded: Result<Command, FrameError>)
        ensures
            decoded == Command::of_frame(command_buffer@),
    {
        let module = match check_command_structure(command_buffer) {
            Ok(module) => module,
            Err(error) => {
                return Err(FrameError::Structure(error));
            },
        };
        let payload = payload_region(command_buffer);
        match module {
            Module::Ballast => match BallastCommand::deserialize(payload) {
                Ok(command) => Ok(Command::Ballast(command)),
                Err(error) => Err(FrameError::Payload(error)),
            },
            Module::Propulsion => match PropulsionCommand::deserialize(payload) {
                Ok(command) => Ok(Command::Propulsion(command)),
                Err(error) => Err(FrameError::Payload(error)),
            },
            Module::Light => match LightCommand::deserialize(payload) {
                Ok(command) => Ok(Command::Light(command)),
                Err(error) => Err(FrameError::Payload(error)),
            },
        }
    }
}

/// The frame that encodes a command addresses the command's module, and
/// decoding it yields the command.
pub proof fn lemma_command_round_trip(command: Command)
    ensures
        addressed_module(command.frame()) == Ok::<Module, StructuralError>(command.module()),
        Command::of_frame(command.frame()) == Ok::<Command, FrameError>(command),
{
    match command {
        Command::Ballast(inner) => lemma_round_trip(inner),
        Command::Propulsion(inner) => lemma_round_trip(inner),
        Command::Light(inner) => lemma_round_trip(inner),
    }
}

} // verus!
