use command_codec::commands::codec::FrameError;
use command_codec::commands::serde::{DecodeError, Serde, StructuralError};
use command_codec::commands::{
    BallastCommand, Command, DirectionVector, LightCommand, PropulsionCommand,
};

fn all_commands() -> Vec<Command> {
    vec![
        Command::Ballast(BallastCommand::Idle),
        Command::Ballast(BallastCommand::Intake),
        Command::Ballast(BallastCommand::Discharge),
        Command::Light(LightCommand::On),
        Command::Light(LightCommand::Off),
        Command::Light(LightCommand::Blink),
        Command::Propulsion(PropulsionCommand::SetThrust(DirectionVector {
            x: 1.0f32.to_bits(),
            y: (-2.0f32).to_bits(),
        })),
        Command::Propulsion(PropulsionCommand::SetThrust(DirectionVector {
            x: f32::NAN.to_bits(),
            y: f32::INFINITY.to_bits(),
        })),
        Command::Propulsion(PropulsionCommand::SetThrust(DirectionVector { x: 0, y: u32::MAX })),
    ]
}

#[test]
fn command_round_trip() {
    for command in all_commands() {
        assert_eq!(Command::decode(&command.encode()), Ok(command));
    }
}

#[test]
fn command_encoding_is_the_family_encoding() {
    assert_eq!(
        Command::Ballast(BallastCommand::Intake).encode(),
        BallastCommand::Intake.serialize()
    );
    assert_eq!(Command::Light(LightCommand::On).encode(), LightCommand::On.serialize());
    let thrust = PropulsionCommand::SetThrust(DirectionVector { x: 7, y: 9 });
    assert_eq!(Command::Propulsion(thrust).encode(), thrust.serialize());
}

#[test]
fn decode_selects_the_codec_by_module_id() {
    let mut frame = [0x0A, 0x00, 0x01, 0, 0, 0, 0, 0, 0, 0, 0, 0, 0, 0, 0, 0x0F];
    assert_eq!(Command::decode(&frame), Ok(Command::Ballast(BallastCommand::Intake)));
    frame[1] = 0x02;
    assert_eq!(Command::decode(&frame), Ok(Command::Light(LightCommand::On)));
    frame[1] = 0x01;
    assert_eq!(
        Command::decode(&frame),
        Ok(Command::Propulsion(PropulsionCommand::SetThrust(DirectionVector { x: 1, y: 0 })))
    );
}

#[test]
fn decode_reports_structural_errors() {
    let mut frame = BallastCommand::Idle.serialize();
    frame[1] = 5;
    assert_eq!(
        Command::decode(&frame),
        Err(FrameError::Structure(StructuralError::UnknownModule { module_id: 5 }))
    );
    frame[0] = 0;
    assert_eq!(
        Command::decode(&frame),
        Err(FrameError::Structure(StructuralError::Markers { start: 0, end: 0x0F }))
    );
}

#[test]
fn decode_reports_payload_errors() {
    let mut frame = BallastCommand::Idle.serialize();
    frame[2] = 3;
    assert_eq!(
        Command::decode(&frame),
        Err(FrameError::Payload(DecodeError { discriminant: 3 }))
    );
    frame[1] = 2;
    frame[2] = 0xFF;
    assert_eq!(
        Command::decode(&frame),
        Err(FrameError::Payload(DecodeError { discriminant: 0xFF }))
    );
}

#[test]
fn structure_is_checked_before_the_payload() {
    let mut frame = LightCommand::Off.serialize();
    frame[2] = 9;
    frame[15] = 0;
    assert_eq!(
        Command::decode(&frame),
        Err(FrameError::Structure(StructuralError::Markers { start: 0x0A, end: 0 }))
    );
}

#[test]
fn decode_ignores_the_checksum_byte() {
    let mut frame = LightCommand::Blink.serialize();
    frame[14] = 0x5A;
    assert_eq!(Command::decode(&frame), Ok(Command::Light(LightCommand::Blink)));
}
