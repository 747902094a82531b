use buttplug::dg_lab_v3::{
    b0_set_command, b0_set_command_by_struct, input_to_frequency, DGLabV3, DGLabV3Initializer,
    MAXIMUM_POWER, MAXIMUM_WAVEFORM_STRENGTH,
};
use buttplug::errors::{ButtplugDeviceError, ProtocolErrorDetail, ProtocolKind};
use buttplug::hardware::{Endpoint, HardwareCommand};
use buttplug::messages::ActuatorType;

#[test]
fn piecewise_frequency_mapping_examples() {
    // 50 passes through; 300 -> (300-100)/5+100 = 140; 800 -> (800-600)/10+200 = 220;
    // 1001 clamps to 10
    assert_eq!(input_to_frequency(50), 50);
    assert_eq!(input_to_frequency(300), 140);
    assert_eq!(input_to_frequency(800), 220);
    assert_eq!(input_to_frequency(1001), 10);
    assert_eq!(input_to_frequency(0), 0);
    assert_eq!(input_to_frequency(10), 10);
    assert_eq!(input_to_frequency(100), 100);
    assert_eq!(input_to_frequency(101), 100);
    assert_eq!(input_to_frequency(600), 200);
    assert_eq!(input_to_frequency(601), 200);
    assert_eq!(input_to_frequency(1000), 240);
}

#[test]
fn b0_frame_layout_is_exact() {
    let frame = b0_set_command(100, 200, [140; 4], [220; 4], [50; 4], [100; 4]);
    let mut expected = vec![0xB0, 0x0F, 100, 200];
    expected.extend([140; 4]);
    expected.extend([50; 4]);
    expected.extend([220; 4]);
    expected.extend([100; 4]);
    assert_eq!(frame, expected);
    assert_eq!(frame.len(), 20);
}

#[test]
fn full_state_frame_carries_untouched_channels() {
    let mut handler = DGLabV3Initializer::default().initialize();
    // establish state on every channel
    handler
        .handle_scalar_cmd(&[
            Some((ActuatorType::Vibrate, 11)),
            Some((ActuatorType::Vibrate, 22)),
            Some((ActuatorType::Oscillate, 300)),
            Some((ActuatorType::Oscillate, 800)),
            Some((ActuatorType::Inflate, 33)),
            Some((ActuatorType::Inflate, 44)),
        ])
        .expect("all entries valid");
    // update only channel A's power
    let out = handler
        .handle_scalar_cmd(&[Some((ActuatorType::Vibrate, 99))])
        .expect("valid");
    assert_eq!(out.len(), 1);
    match &out[0] {
        HardwareCommand::Write(w) => {
            assert_eq!(w.endpoint, Endpoint::Tx);
            let mut expected = vec![0xB0, 0x0F, 99, 22];
            expected.extend([140; 4]); // channel A frequency, from input 300
            expected.extend([33; 4]); // channel A waveform strength
            expected.extend([220; 4]); // channel B frequency, from input 800
            expected.extend([44; 4]); // channel B waveform strength
            assert_eq!(w.data, expected);
        }
        other => panic!("expected a write, got {:?}", other),
    }
}

#[test]
fn rejected_scalar_leaves_state_unchanged() {
    let mut handler = DGLabV3::default();
    handler
        .handle_scalar_cmd(&[Some((ActuatorType::Vibrate, MAXIMUM_POWER))])
        .expect("the bound itself is valid");
    let before = handler;
    let err = handler
        .handle_scalar_cmd(&[
            Some((ActuatorType::Vibrate, 1)),
            Some((ActuatorType::Vibrate, MAXIMUM_POWER + 1)),
        ])
        .expect_err("201 exceeds the power bound");
    assert_eq!(
        err,
        ButtplugDeviceError::ProtocolSpecificError(
            ProtocolKind::DgLabV3,
            ProtocolErrorDetail::ScalarOutOfRange { scalar: 201, min: 0, max: 200 },
        )
    );
    assert_eq!(handler, before);
}

#[test]
fn waveform_strength_bound_and_index_checks() {
    let mut handler = DGLabV3::default();
    let err = handler
        .handle_scalar_cmd(&[
            None,
            None,
            None,
            None,
            Some((ActuatorType::Inflate, MAXIMUM_WAVEFORM_STRENGTH + 1)),
        ])
        .expect_err("101 exceeds the waveform strength bound");
    assert_eq!(
        err,
        ButtplugDeviceError::ProtocolSpecificError(
            ProtocolKind::DgLabV3,
            ProtocolErrorDetail::ScalarOutOfRange { scalar: 101, min: 0, max: 100 },
        )
    );
    let err2 = handler
        .handle_scalar_cmd(&[
            None,
            None,
            None,
            None,
            None,
            None,
            Some((ActuatorType::Inflate, 1)),
        ])
        .expect_err("inflate only addresses channels 4 and 5");
    assert_eq!(
        err2,
        ButtplugDeviceError::ProtocolSpecificError(
            ProtocolKind::DgLabV3,
            ProtocolErrorDetail::InvalidChannelIndex { index: 6 },
        )
    );
    let err3 = handler
        .handle_scalar_cmd(&[Some((ActuatorType::Position, 1))])
        .expect_err("position is not controllable on this family");
    assert_eq!(err3, ButtplugDeviceError::UnhandledCommand);
}

#[test]
fn repeat_commands_resend_the_full_state_frame() {
    let mut handler = DGLabV3::default();
    handler
        .handle_scalar_cmd(&[Some((ActuatorType::Vibrate, 5)), Some((ActuatorType::Vibrate, 6))])
        .expect("valid");
    let frames = handler.repeat_commands();
    assert_eq!(frames.len(), 1);
    assert_eq!(frames[0].endpoint, Endpoint::Tx);
    assert_eq!(frames[0].data, b0_set_command_by_struct(&handler));
    assert_eq!(frames[0].data[2], 5);
    assert_eq!(frames[0].data[3], 6);
}
