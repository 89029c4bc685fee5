use command_codec::commands::serde::{
    check_command_structure, validate_command_structure, Serde, StructuralError,
};
use command_codec::commands::{BallastCommand, DirectionVector, LightCommand, Module, PropulsionCommand};

fn frame_for(module_id: u8) -> [u8; 16] {
    let mut frame = [0u8; 16];
    frame[0] = 0x0A;
    frame[1] = module_id;
    frame[15] = 0x0F;
    frame
}

#[test]
fn unknown_module_five_is_invalid() {
    let frame = [0x0A, 0x05, 0, 0, 0, 0, 0, 0, 0, 0, 0, 0, 0, 0, 0, 0x0F];
    assert!(!validate_command_structure(&frame));
    assert_eq!(
        check_command_structure(&frame),
        Err(StructuralError::UnknownModule { module_id: 5 })
    );
}

#[test]
fn known_modules_are_valid() {
    assert!(validate_command_structure(&frame_for(0)));
    assert!(validate_command_structure(&frame_for(1)));
    assert!(validate_command_structure(&frame_for(2)));
    assert_eq!(check_command_structure(&frame_for(0)), Ok(Module::Ballast));
    assert_eq!(check_command_structure(&frame_for(1)), Ok(Module::Propulsion));
    assert_eq!(check_command_structure(&frame_for(2)), Ok(Module::Light));
}

#[test]
fn every_other_module_id_is_invalid() {
    for module_id in 3..=255u8 {
        let frame = frame_for(module_id);
        assert!(!validate_command_structure(&frame));
        assert_eq!(
            check_command_structure(&frame),
            Err(StructuralError::UnknownModule { module_id })
        );
    }
}

#[test]
fn mutated_start_byte_is_invalid() {
    for start in 0..=255u8 {
        if start == 0x0A {
            continue;
        }
        let mut frame = BallastCommand::Intake.serialize();
        frame[0] = start;
        assert!(!validate_command_structure(&frame));
        assert_eq!(
            check_command_structure(&frame),
            Err(StructuralError::Markers { start, end: 0x0F })
        );
    }
}

#[test]
fn mutated_end_byte_is_invalid() {
    for end in 0..=255u8 {
        if end == 0x0F {
            continue;
        }
        let mut frame = LightCommand::Blink.serialize();
        frame[15] = end;
        assert!(!validate_command_structure(&frame));
        assert_eq!(
            check_command_structure(&frame),
            Err(StructuralError::Markers { start: 0x0A, end })
        );
    }
}

#[test]
fn markers_are_checked_before_the_module_id() {
    let mut frame = frame_for(9);
    frame[0] = 0x0B;
    frame[15] = 0x00;
    assert_eq!(
        check_command_structure(&frame),
        Err(StructuralError::Markers { start: 0x0B, end: 0x00 })
    );
    assert!(!validate_command_structure(&frame));
}

#[test]
fn swapped_markers_are_invalid() {
    let mut frame = frame_for(1);
    frame[0] = 0x0F;
    frame[15] = 0x0A;
    assert!(!validate_command_structure(&frame));
}

#[test]
fn checksum_byte_is_not_checked() {
    for checksum in 0..=255u8 {
        let mut frame = frame_for(2);
        frame[14] = checksum;
        assert!(validate_command_structure(&frame));
    }
}

#[test]
fn payload_is_not_checked() {
    let mut frame = frame_for(0);
    for byte in frame[2..14].iter_mut() {
        *byte = 0xFF;
    }
    assert!(validate_command_structure(&frame));
}

#[test]
fn blank_all_zero_frame_is_invalid() {
    assert!(!validate_command_structure(&[0u8; 16]));
}

#[test]
fn encoded_frames_are_valid() {
    assert!(validate_command_structure(&BallastCommand::Idle.serialize()));
    assert!(validate_command_structure(&LightCommand::On.serialize()));
    let thrust = PropulsionCommand::SetThrust(DirectionVector {
        x: f32::NAN.to_bits(),
        y: f32::NEG_INFINITY.to_bits(),
    });
    assert!(validate_command_structure(&thrust.serialize()));
}
