//! The command codec: the sixteen-byte frame, its structural check and the
//! payload encoding of each module's commands.
//!
//! ```text
//! [ start | module id | payload (12 bytes) | checksum | end ]
//!     0         1          2 ..= 13             14       15
//! ```
//!
//! The checksum byte is reserved. It is written as zero and never checked.

use crate::commands::registry::{lookup, module_of, BALLAST_ID, LIGHT_ID, PROP_ID};
use crate::commands::word::{
    from_le_bytes, le_bytes, le_word, lemma_le_word_of_bytes, to_le_bytes,
};
use crate::commands::{BallastCommand, DirectionVector, LightCommand, Module, PropulsionCommand};
use vstd::prelude::*;
use vstd::slice::slice_subrange;

verus! {

pub const COMMAND_BUFFER_SIZE: usize = 16;

pub const COMMAND_PAYLOAD_SIZE: usize = 12;

pub const COMMAND_BUFFER_START_BYTE: u8 = 0xA;

pub const COMMAND_BUFFER_END_BYTE: u8 = 0xF;

/// Why a frame fails the structural check.
#[derive(Debug, Clone, Copy, PartialEq, Eq, Structural)]
pub enum StructuralError {
    /// The first or the last byte is not the marker that belongs there. Both
    /// bytes are reported as they were found.
    Markers { start: u8, end: u8 },
    /// The module identifier is not in the registry.
    UnknownModule { module_id: u8 },
}

/// The discriminant byte of a payload stands for no variant of the command
/// family it was decoded as.
#[derive(Debug, Clone, Copy, PartialEq, Eq, Structural)]
pub struct DecodeError {
    /// The discriminant byte as it was found.
    pub discriminant: u8,
}

/// `count` zero bytes.
pub open spec fn zeros(count: nat) -> Seq<u8> {
    Seq::new(count, |i: int| 0u8)
}

/// The blank frame: both markers in place and every other byte zero.
pub open spec fn template() -> Seq<u8> {
    seq![COMMAND_BUFFER_START_BYTE] + zeros(14) + seq![COMMAND_BUFFER_END_BYTE]
}

/// The frame that carries `payload` to the module named by `module_id`.
pub open spec fn frame_of(module_id: u8, payload: Seq<u8>) -> Seq<u8>
    recommends
        payload.len() == COMMAND_PAYLOAD_SIZE,
{
    seq![COMMAND_BUFFER_START_BYTE, module_id] + payload + seq![0u8, COMMAND_BUFFER_END_BYTE]
}

/// The payload region of a frame.
pub open spec fn payload_of(frame: Seq<u8>) -> Seq<u8>
    recommends
        frame.len() == COMMAND_BUFFER_SIZE,
{
    frame.subrange(2, 14)
}

/// The outcome of the structural check: the module a frame addresses, or the
/// first check that the frame fails. The markers are checked before the
/// module identifier; the checksum byte is not looked at.
pub open spec fn addressed_module(frame: Seq<u8>) -> Result<Module, StructuralError>
    recommends
        frame.len() == COMMAND_BUFFER_SIZE,
{
    if frame[0] != COMMAND_BUFFER_START_BYTE || frame[15] != COMMAND_BUFFER_END_BYTE {
        Err(StructuralError::Markers { start: frame[0], end: frame[15] })
    } else {
        match module_of(frame[1]) {
            Some(module) => Ok(module),
            None => Err(StructuralError::UnknownModule { module_id: frame[1] }),
        }
    }
}

/// Whether a frame passes the structural check.
pub open spec fn well_formed(frame: Seq<u8>) -> bool
    recommends
        frame.len() == COMMAND_BUFFER_SIZE,
{
    &&& frame[0] == COMMAND_BUFFER_START_BYTE
    &&& frame[15] == COMMAND_BUFFER_END_BYTE
    &&& module_of(frame[1]) is Some
}

/// Returns the blank frame that every encoder starts from: the two markers
/// are set, the module identifier and the payload are still to be written.
pub fn create_command_buffer_template() -> (buf: [u8; COMMAND_BUFFER_SIZE])
    ensures
        buf@ == template(),
{
    let mut buf: [u8; COMMAND_BUFFER_SIZE] = [0, 0, 0, 0, 0, 0, 0, 0, 0, 0, 0, 0, 0, 0, 0, 0];
    buf[0] = COMMAND_BUFFER_START_BYTE;
    buf[COMMAND_BUFFER_SIZE - 1] = COMMAND_BUFFER_END_BYTE;
    assert(buf@ =~= template());
    buf
}

/// Runs the structural check on a received frame and says which module it
/// addresses, or which check it fails.
pub fn check_command_structure(
    command_buffer: &[u8; COMMAND_BUFFER_SIZE],
) -> (checked: Result<Module, StructuralError>)
    ensures
        checked == addressed_module(command_buffer@),
{
    let start: u8 = command_buffer[0];
    let end: u8 = command_buffer[COMMAND_BUFFER_SIZE - 1];
    let module_id: u8 = command_buffer[1];
    if start != COMMAND_BUFFER_START_BYTE || end != COMMAND_BUFFER_END_BYTE {
        return Err(StructuralError::Markers { start, end });
    }
    match lookup(module_id) {
        Some(module) => Ok(module),
        None => Err(StructuralError::UnknownModule { module_id }),
    }
}

/// Whether a received frame passes the structural check.
pub fn validate_command_structure(command_buffer: &[u8; COMMAND_BUFFER_SIZE]) -> (valid: bool)
    ensures
        valid == well_formed(command_buffer@),
        valid == addressed_module(command_buffer@) is Ok,
        command_buffer@[0] != COMMAND_BUFFER_START_BYTE ==> !valid,
        command_buffer@[15] != COMMAND_BUFFER_END_BYTE ==> !valid,
        command_buffer@[1] > 2 ==> !valid,
{
    check_command_structure(command_buffer).is_ok()
}

/// Borrows the payload region of a frame.
pub fn payload_region(command_buffer: &[u8; COMMAND_BUFFER_SIZE]) -> (payload: &[u8])
    ensures
        payload@ == payload_of(command_buffer@),
{
    slice_subrange(command_buffer.as_slice(), 2, 14)
}

/// What decoding returns for a payload: the command it stands for, or else an
/// error that reports the discriminant byte.
pub open spec fn decoded_as<C>(command: Option<C>, discriminant: u8) -> Result<C, DecodeError> {
    match command {
        Some(command) => Ok(command),
        None => Err(DecodeError { discriminant }),
    }
}

/// The payload codec of one module's family of commands.
///
/// An implementation says, in its spec functions, which module the family
/// belongs to, which payload stands for a command and which command a payload
/// stands for. It owes the proof that the two agree.
pub trait Serde: Sized {
    /// The identifier of the module that the family is meant for.
    spec fn module_id() -> u8;

    /// The payload that stands for the command.
    spec fn payload(&self) -> Seq<u8>;

    /// The command that a payload stands for, if it stands for one.
    spec fn command(payload: Seq<u8>) -> Option<Self>;

    /// How many bytes decoding reads from the front of a payload.
    spec fn payload_read() -> nat;

    /// The module is registered and decoding stays inside the payload region;
    /// a command's payload fills the region and stands for that command.
    proof fn lemma_payload_stands_for_command(&self)
        ensures
            module_of(Self::module_id()) is Some,
            1 <= Self::payload_read() <= COMMAND_PAYLOAD_SIZE,
            self.payload().len() == COMMAND_PAYLOAD_SIZE,
            Self::command(self.payload()) == Some(*self),
    ;

    /// Decoding looks at the first [`Serde::payload_read`] bytes only: payloads
    /// that agree on them stand for the same command.
    proof fn lemma_unused_bytes_are_ignored(payload: Seq<u8>, other: Seq<u8>)
        requires
            payload.len() >= Self::payload_read(),
            other.len() >= Self::payload_read(),
            forall|i: int| 0 <= i < Self::payload_read() ==> payload[i] == other[i],
        ensures
            Self::command(payload) == Self::command(other),
    ;

    /// Decodes a payload into a command of this family.
    fn deserialize(command_payload: &[u8]) -> (decoded: Result<Self, DecodeError>)
        requires
            command_payload@.len() >= Self::payload_read(),
        ensures
            decoded == decoded_as(Self::command(command_payload@), command_payload@[0]),
    ;

    /// Encodes the command into a complete frame.
    fn serialize(&self) -> (frame: [u8; COMMAND_BUFFER_SIZE])
        ensures
            frame@ == frame_of(Self::module_id(), self.payload()),
            frame@.len() == COMMAND_BUFFER_SIZE,
            frame@[0] == COMMAND_BUFFER_START_BYTE,
            frame@[15] == COMMAND_BUFFER_END_BYTE,
            well_formed(frame@),
    ;
}

/// The frame that encodes a command.
pub open spec fn encoding<C: Serde>(command: C) -> Seq<u8> {
    frame_of(C::module_id(), command.payload())
}

/// The outcome of decoding a payload as a command of family `C`.
pub open spec fn decoding<C: Serde>(payload: Seq<u8>) -> Result<C, DecodeError> {
    decoded_as(C::command(payload), payload[0])
}

/// A frame built by [`frame_of`] has sixteen bytes, starts and ends with the
/// markers, names the module it was built for and carries the payload it was
/// built from.
pub proof fn lemma_frame_shape(module_id: u8, payload: Seq<u8>)
    requires
        payload.len() == COMMAND_PAYLOAD_SIZE,
    ensures
        frame_of(module_id, payload).len() == COMMAND_BUFFER_SIZE,
        frame_of(module_id, payload)[0] == COMMAND_BUFFER_START_BYTE,
        frame_of(module_id, payload)[1] == module_id,
        frame_of(module_id, payload)[14] == 0,
        frame_of(module_id, payload)[15] == COMMAND_BUFFER_END_BYTE,
        payload_of(frame_of(module_id, payload)) == payload,
{
    assert(payload_of(frame_of(module_id, payload)) =~= payload);
}

/// A frame passes the structural check exactly if it starts and ends with the
/// markers and its module identifier is 0, 1 or 2. The check then yields the
/// module that the identifier names.
pub proof fn lemma_structural_check(frame: Seq<u8>)
    ensures
        well_formed(frame) <==> {
            &&& frame[0] == COMMAND_BUFFER_START_BYTE
            &&& frame[15] == COMMAND_BUFFER_END_BYTE
            &&& frame[1] <= 2
        },
        well_formed(frame) <==> addressed_module(frame) is Ok,
        well_formed(frame) ==> (addressed_module(frame) matches Ok(module) && module_of(frame[1])
            == Some(module)),
{
}

/// Overwriting the first byte of a frame with anything but the start marker,
/// or the last byte with anything but the end marker, makes the frame fail the
/// structural check.
pub proof fn lemma_mutated_marker_is_rejected(frame: Seq<u8>, byte: u8)
    requires
        frame.len() == COMMAND_BUFFER_SIZE,
    ensures
        byte != COMMAND_BUFFER_START_BYTE ==> !well_formed(frame.update(0, byte)),
        byte != COMMAND_BUFFER_END_BYTE ==> !well_formed(frame.update(15, byte)),
{
}

/// The frame that encodes a command has sixteen bytes, starts and ends with
/// the markers and passes the structural check, and its payload region
/// decodes to the command.
pub proof fn lemma_round_trip<C: Serde>(command: C)
    ensures
        encoding(command).len() == COMMAND_BUFFER_SIZE,
        encoding(command)[0] == COMMAND_BUFFER_START_BYTE,
        encoding(command)[15] == COMMAND_BUFFER_END_BYTE,
        well_formed(encoding(command)),
        decoding::<C>(payload_of(encoding(command))) == Ok::<C, DecodeError>(command),
{
    command.lemma_payload_stands_for_command();
    lemma_frame_shape(C::module_id(), command.payload());
}

impl BallastCommand {
    /// The state byte that stands for the command.
    pub open spec fn state(self) -> u8 {
        match self {
            BallastCommand::Idle => 0,
            BallastCommand::Intake => 1,
            BallastCommand::Discharge => 2,
        }
    }

    /// The command that a state byte stands for.
    pub open spec fn of_state(state: u8) -> Option<BallastCommand> {
        if state == 0 {
            Some(BallastCommand::Idle)
        } else if state == 1 {
            Some(BallastCommand::Intake)
        } else if state == 2 {
            Some(BallastCommand::Discharge)
        } else {
            None
        }
    }
}

/// One state byte, then eleven unused bytes.
impl Serde for BallastCommand {
    open spec fn module_id() -> u8 {
        BALLAST_ID
    }

    open spec fn payload(&self) -> Seq<u8> {
        seq![self.state()] + zeros(11)
    }

    open spec fn command(payload: Seq<u8>) -> Option<Self> {
        Self::of_state(payload[0])
    }

    open spec fn payload_read() -> nat {
        1
    }

    proof fn lemma_payload_stands_for_command(&self) {
    }

    proof fn lemma_unused_bytes_are_ignored(payload: Seq<u8>, other: Seq<u8>) {
        assert(payload[0] == other[0]);
    }

    fn deserialize(command_payload: &[u8]) -> (decoded: Result<Self, DecodeError>)
        ensures
            decoded is Err <==> command_payload@[0] > 2,
    {
        let discriminant: u8 = command_payload[0];
        match discriminant {
            0 => Ok(BallastCommand::Idle),
            1 => Ok(BallastCommand::Intake),
            2 => Ok(BallastCommand::Discharge),
            _ => Err(DecodeError { discriminant }),
        }
    }

    fn serialize(&self) -> (frame: [u8; COMMAND_BUFFER_SIZE]) {
        let mut buf = create_command_buffer_template();
        buf[1] = BALLAST_ID;
        let ballast_state: u8 = match self {
            Self::Idle => 0,
            Self::Intake => 1,
            Self::Discharge => 2,
        };
        buf[2] = ballast_state;
        assert(buf@ =~= frame_of(BALLAST_ID, self.payload()));
        buf
    }
}

impl DirectionVector {
    /// The eight bytes that stand for the vector: `x`, then `y`, each in
    /// little-endian order.
    pub open spec fn bytes(self) -> Seq<u8> {
        le_bytes(self.x) + le_bytes(self.y)
    }

    /// The vector that the first eight bytes of `bytes` stand for.
    pub open spec fn of_bytes(bytes: Seq<u8>) -> DirectionVector
        recommends
            bytes.len() >= 8,
    {
        DirectionVector { x: le_word(bytes.subrange(0, 4)), y: le_word(bytes.subrange(4, 8)) }
    }
}

/// The eight bytes of the thrust vector, then four unused bytes. Every bit
/// pattern stands for a vector, so decoding never fails.
impl Serde for PropulsionCommand {
    open spec fn module_id() -> u8 {
        PROP_ID
    }

    open spec fn payload(&self) -> Seq<u8> {
        match *self {
            PropulsionCommand::SetThrust(thrust) => thrust.bytes() + zeros(4),
        }
    }

    open spec fn command(payload: Seq<u8>) -> Option<Self> {
        Some(PropulsionCommand::SetThrust(DirectionVector::of_bytes(payload)))
    }

    open spec fn payload_read() -> nat {
        8
    }

    proof fn lemma_payload_stands_for_command(&self) {
        match *self {
            PropulsionCommand::SetThrust(thrust) => {
                lemma_le_word_of_bytes(thrust.x);
                lemma_le_word_of_bytes(thrust.y);
                assert(self.payload().subrange(0, 4) =~= le_bytes(thrust.x));
                assert(self.payload().subrange(4, 8) =~= le_bytes(thrust.y));
            },
        }
    }

    proof fn lemma_unused_bytes_are_ignored(payload: Seq<u8>, other: Seq<u8>) {
        assert(payload.subrange(0, 4) =~= other.subrange(0, 4));
        assert(payload.subrange(4, 8) =~= other.subrange(4, 8));
    }

    fn deserialize(command_payload: &[u8]) -> (decoded: Result<Self, DecodeError>)
        ensures
            decoded is Ok,
    {
        let x_component: [u8; 4] = [
            command_payload[0],
            command_payload[1],
            command_payload[2],
            command_payload[3],
        ];
        let y_component: [u8; 4] = [
            command_payload[4],
            command_payload[5],
            command_payload[6],
            command_payload[7],
        ];
        assert(x_component@ =~= command_payload@.subrange(0, 4));
        assert(y_component@ =~= command_payload@.subrange(4, 8));
        let x: u32 = from_le_bytes(x_component);
        let y: u32 = from_le_bytes(y_component);
        Ok(PropulsionCommand::SetThrust(DirectionVector { x, y }))
    }

    fn serialize(&self) -> (frame: [u8; COMMAND_BUFFER_SIZE]) {
        let mut buf = create_command_buffer_template();
        let thrust = match self {
            Self::SetThrust(thrust) => thrust,
        };
        let x_bytes = to_le_bytes(thrust.x);
        let y_bytes = to_le_bytes(thrust.y);
        buf[1] = PROP_ID;
        buf[2] = x_bytes[0];
        buf[3] = x_bytes[1];
        buf[4] = x_bytes[2];
        buf[5] = x_bytes[3];
        buf[6] = y_bytes[0];
        buf[7] = y_bytes[1];
        buf[8] = y_bytes[2];
        buf[9] = y_bytes[3];
        assert(buf@ =~= frame_of(PROP_ID, self.payload()));
        buf
    }
}

impl LightCommand {
    /// The state byte that stands for the command. `On` is 1 and `Off` is 0:
    /// the bytes do not follow the order in which the variants are declared.
    pub open spec fn state(self) -> u8 {
        match self {
            LightCommand::On => 1,
            LightCommand::Off => 0,
            LightCommand::Blink => 2,
        }
    }

    /// The command that a state byte stands for.
    pub open spec fn of_state(state: u8) -> Option<LightCommand> {
        if state == 0 {
            Some(LightCommand::Off)
        } else if state == 1 {
            Some(LightCommand::On)
        } else if state == 2 {
            Some(LightCommand::Blink)
        } else {
            None
        }
    }
}

/// One state byte, then eleven unused bytes.
impl Serde for LightCommand {
    open spec fn module_id() -> u8 {
        LIGHT_ID
    }

    open spec fn payload(&self) -> Seq<u8> {
        seq![self.state()] + zeros(11)
    }

    open spec fn command(payload: Seq<u8>) -> Option<Self> {
        Self::of_state(payload[0])
    }

    open spec fn payload_read() -> nat {
        1
    }

    proof fn lemma_payload_stands_for_command(&self) {
    }

    proof fn lemma_unused_bytes_are_ignored(payload: Seq<u8>, other: Seq<u8>) {
        assert(payload[0] == other[0]);
    }

    fn deserialize(command_payload: &[u8]) -> (decoded: Result<Self, DecodeError>)
        ensures
            decoded is Err <==> command_payload@[0] > 2,
    {
        let discriminant: u8 = command_payload[0];
        match discriminant {
            0 => Ok(LightCommand::Off),
            1 => Ok(LightCommand::On),
            2 => Ok(LightCommand::Blink),
            _ => Err(DecodeError { discriminant }),
        }
    }

    fn serialize(&self) -> (frame: [u8; COMMAND_BUFFER_SIZE]) {
        let mut buf = create_command_buffer_template();
        buf[1] = LIGHT_ID;
        let light_state: u8 = match self {
            Self::On => 1,
            Self::Off => 0,
            Self::Blink => 2,
        };
        buf[2] = light_state;
        assert(buf@ =~= frame_of(LIGHT_ID, self.payload()));
        buf
    }
}

} // verus!
