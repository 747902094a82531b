use buttplug::dg_lab_v2::{
    ab_power_to_byte, commands_vec_by_struct, frequency_to_xy, xyz_to_bytes, DGLabV2,
    DGLabV2Initializer, MAXIMUM_POWER, MAXIMUM_PULSE_WIDTH,
};
use buttplug::errors::{ButtplugDeviceError, ProtocolErrorDetail, ProtocolKind};
use buttplug::hardware::{Endpoint, HardwareCommand};
use buttplug::messages::ActuatorType;

#[test]
fn ab_power_packs_eleven_bit_fields_little_endian() {
    // data = (300 & 0x7FF) << 11 | (100 & 0x7FF)
    assert_eq!(ab_power_to_byte(100, 300), vec![100, 96, 9]);
    assert_eq!(ab_power_to_byte(0, 0), vec![0, 0, 0]);
}

#[test]
fn xyz_packs_five_ten_five_bit_fields_little_endian() {
    assert_eq!(xyz_to_bytes(15, 985, 5), vec![47, 251, 2]);
    assert_eq!(xyz_to_bytes(0, 0, 0), vec![0, 0, 0]);
}

#[test]
fn frequency_curve_examples() {
    // input 0 -> (0, 0); input 1000 -> x = round(min(31, sqrt(1) * 15)) = 15,
    // y = round(min(1023, 1000 - 15)) = 985
    assert_eq!(frequency_to_xy(0), (0, 0));
    assert_eq!(frequency_to_xy(1000), (15, 985));
    assert_eq!(frequency_to_xy(10), (2, 8));
    assert_eq!(frequency_to_xy(500), (11, 489));
}

#[test]
fn scalar_cmd_updates_all_three_frames() {
    let mut handler = DGLabV2Initializer::default().initialize();
    let commands = [
        Some((ActuatorType::Vibrate, 100)),
        Some((ActuatorType::Vibrate, 300)),
        Some((ActuatorType::Oscillate, 1000)),
        None,
        Some((ActuatorType::Inflate, 5)),
        None,
    ];
    let out = handler.handle_scalar_cmd(&commands).expect("all entries are valid");
    assert_eq!(out.len(), 3);
    match &out[0] {
        HardwareCommand::Write(w) => {
            assert_eq!(w.endpoint, Endpoint::Tx);
            assert_eq!(w.data, vec![100, 96, 9]);
            assert!(!w.write_with_response);
        }
        other => panic!("expected a write, got {:?}", other),
    }
    match &out[1] {
        HardwareCommand::Write(w) => {
            assert_eq!(w.endpoint, Endpoint::Generic0);
            // channel A: x = 15, y = 985 from frequency 1000, z = 5
            assert_eq!(w.data, vec![47, 251, 2]);
        }
        other => panic!("expected a write, got {:?}", other),
    }
    match &out[2] {
        HardwareCommand::Write(w) => {
            assert_eq!(w.endpoint, Endpoint::Generic1);
            // channel B: untouched frequency and pulse width stay zero
            assert_eq!(w.data, vec![0, 0, 0]);
        }
        other => panic!("expected a write, got {:?}", other),
    }
}

#[test]
fn two_identical_batches_produce_identical_frames() {
    let commands = [Some((ActuatorType::Vibrate, 1234)), Some((ActuatorType::Vibrate, 77))];
    let mut h1 = DGLabV2::default();
    let mut h2 = DGLabV2::default();
    let f1 = h1.handle_scalar_cmd(&commands).expect("valid");
    let f2 = h2.handle_scalar_cmd(&commands).expect("valid");
    for (a, b) in f1.iter().zip(f2.iter()) {
        match (a, b) {
            (HardwareCommand::Write(wa), HardwareCommand::Write(wb)) => {
                assert_eq!(wa.data, wb.data);
                assert_eq!(wa.endpoint, wb.endpoint);
            }
            _ => panic!("expected writes"),
        }
    }
}

#[test]
fn power_above_bound_is_rejected_and_state_unchanged() {
    let mut handler = DGLabV2::default();
    handler
        .handle_scalar_cmd(&[Some((ActuatorType::Vibrate, 500))])
        .expect("500 is within the power bound");
    let before = handler;
    let err = handler
        .handle_scalar_cmd(&[Some((ActuatorType::Vibrate, MAXIMUM_POWER + 1))])
        .expect_err("2048 exceeds the power bound");
    assert_eq!(
        err,
        ButtplugDeviceError::ProtocolSpecificError(
            ProtocolKind::DgLabV2,
            ProtocolErrorDetail::ScalarOutOfRange { scalar: 2048, min: 0, max: 2047 },
        )
    );
    assert_eq!(handler, before);
}

#[test]
fn mixed_batch_with_late_error_applies_nothing() {
    let mut handler = DGLabV2::default();
    let before = handler;
    let err = handler
        .handle_scalar_cmd(&[
            Some((ActuatorType::Vibrate, 10)),
            Some((ActuatorType::Inflate, MAXIMUM_PULSE_WIDTH + 1)),
        ])
        .expect_err("second entry exceeds the pulse width bound");
    assert_eq!(
        err,
        ButtplugDeviceError::ProtocolSpecificError(
            ProtocolKind::DgLabV2,
            ProtocolErrorDetail::ScalarOutOfRange { scalar: 32, min: 0, max: 31 },
        )
    );
    // the valid first entry must not have been applied either
    assert_eq!(handler, before);
    assert_eq!(handler.a_scalar.power, 0);
}

#[test]
fn frequency_out_of_range_is_rejected() {
    let mut handler = DGLabV2::default();
    let err = handler
        .handle_scalar_cmd(&[None, None, Some((ActuatorType::Oscillate, 1001))])
        .expect_err("1001 exceeds the frequency bound");
    assert_eq!(
        err,
        ButtplugDeviceError::ProtocolSpecificError(
            ProtocolKind::DgLabV2,
            ProtocolErrorDetail::ScalarOutOfRange { scalar: 1001, min: 10, max: 1000 },
        )
    );
    let err2 = handler
        .handle_scalar_cmd(&[None, None, Some((ActuatorType::Oscillate, 5))])
        .expect_err("5 is below the minimum frequency");
    assert_eq!(
        err2,
        ButtplugDeviceError::ProtocolSpecificError(
            ProtocolKind::DgLabV2,
            ProtocolErrorDetail::ScalarOutOfRange { scalar: 5, min: 10, max: 1000 },
        )
    );
}

#[test]
fn frequency_just_below_minimum_means_off() {
    let mut handler = DGLabV2::default();
    handler
        .handle_scalar_cmd(&[None, None, Some((ActuatorType::Oscillate, 1000))])
        .expect("valid");
    assert_eq!(handler.a_scalar.x, 15);
    // 9 is rewritten to 0: frequency off
    handler
        .handle_scalar_cmd(&[None, None, Some((ActuatorType::Oscillate, 9))])
        .expect("9 means off");
    assert_eq!(handler.a_scalar.x, 0);
    assert_eq!(handler.a_scalar.y, 0);
}

#[test]
fn channel_index_outside_defined_set_is_rejected() {
    let mut handler = DGLabV2::default();
    let err = handler
        .handle_scalar_cmd(&[None, None, Some((ActuatorType::Vibrate, 1))])
        .expect_err("vibrate only addresses channels 0 and 1");
    assert_eq!(
        err,
        ButtplugDeviceError::ProtocolSpecificError(
            ProtocolKind::DgLabV2,
            ProtocolErrorDetail::InvalidChannelIndex { index: 2 },
        )
    );
}

#[test]
fn unsupported_actuator_kind_is_rejected() {
    let mut handler = DGLabV2::default();
    let err = handler
        .handle_scalar_cmd(&[Some((ActuatorType::Rotate, 1))])
        .expect_err("rotate is not controllable on this family");
    assert_eq!(err, ButtplugDeviceError::UnhandledCommand);
}

#[test]
fn repeat_commands_skip_the_power_frame() {
    let mut handler = DGLabV2::default();
    handler
        .handle_scalar_cmd(&[
            Some((ActuatorType::Vibrate, 7)),
            None,
            Some((ActuatorType::Oscillate, 1000)),
        ])
        .expect("valid");
    let frames = handler.repeat_commands();
    assert_eq!(frames.len(), 2);
    assert_eq!(frames[0].endpoint, Endpoint::Generic0);
    assert_eq!(frames[1].endpoint, Endpoint::Generic1);
    let all = commands_vec_by_struct(&handler);
    assert_eq!(frames[0].data, all[1].data);
    assert_eq!(frames[1].data, all[2].data);
}

#[test]
fn channel_b_frequency_lands_in_the_third_frame() {
    let mut handler = DGLabV2::default();
    let out = handler
        .handle_scalar_cmd(&[None, None, None, Some((ActuatorType::Oscillate, 1000))])
        .expect("valid");
    assert_eq!(handler.b_scalar.x, 15);
    assert_eq!(handler.b_scalar.y, 985);
    match &out[2] {
        HardwareCommand::Write(w) => {
            assert_eq!(w.endpoint, Endpoint::Generic1);
            assert_eq!(w.data, xyz_to_bytes(15, 985, 0));
        }
        other => panic!("expected a write, got {:?}", other),
    }
}
