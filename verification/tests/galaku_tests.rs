use buttplug::errors::{ButtplugDeviceError, ProtocolErrorDetail, ProtocolKind};
use buttplug::galaku_one_engine::{
    battery_level_from_events, battery_level_on_event, decrypt, encrypt, get_tab_key, read_value,
    send_bytes, vibrate_command, vibrate_data, BatteryWaitStep, GalakuOneEngine,
    GalakuOneEngineInitializer,
};
use buttplug::hardware::{
    Endpoint, HardwareCommand, HardwareEvent, ProtocolKeepaliveStrategy,
};
use buttplug::messages::{
    LinearCmd, SensorReadCmd, SensorSubscribeCmd, SensorType, VectorSubcommand,
};

#[test]
fn tab_key_selects_row_by_low_two_bits() {
    assert_eq!(get_tab_key(0, 1), 24);
    assert_eq!(get_tab_key(1, 1), 69);
    assert_eq!(get_tab_key(2, 11), 163);
    assert_eq!(get_tab_key(3, 4), 248);
    assert_eq!(get_tab_key(7, 4), 248); // 7 & 3 == 3
    assert_eq!(get_tab_key(128, 5), 61); // 128 & 3 == 0
}

#[test]
fn decrypt_inverts_encrypt_on_protocol_length_frames() {
    let frame: Vec<u32> = vec![12, 34, 56, 78, 90, 123, 231, 0, 255, 1, 2, 3];
    let round = decrypt(encrypt(frame.clone()));
    assert_eq!(round, frame);
}

#[test]
fn decrypt_inverts_encrypt_on_shorter_frames_too() {
    let frame: Vec<u32> = vec![255, 0, 17];
    assert_eq!(decrypt(encrypt(frame.clone())), frame);
    let single: Vec<u32> = vec![42];
    assert_eq!(decrypt(encrypt(single.clone())), single);
}

#[test]
fn encrypt_first_value_passes_through() {
    let frame: Vec<u32> = vec![35, 90, 0, 0, 1, 49, 0, 0, 0, 0, 0, 175];
    let enc = encrypt(frame);
    assert_eq!(enc[0], 35);
}

#[test]
fn send_bytes_frames_lead_byte_payload_and_checksum() {
    let data: Vec<u32> = vec![90, 0, 0, 1, 49, 0, 0, 0, 0, 0];
    assert_eq!(
        send_bytes(data),
        vec![35, 129, 187, 171, 210, 236, 59, 35, 187, 163, 59, 144]
    );
}

#[test]
fn vibrate_frame_bytes_are_exact() {
    assert_eq!(
        vibrate_data(0),
        vec![35, 129, 187, 171, 210, 236, 59, 35, 187, 163, 59, 144]
    );
    assert_eq!(
        vibrate_data(20),
        vec![35, 129, 187, 171, 210, 236, 71, 35, 187, 163, 59, 244]
    );
    let cmd = vibrate_command(20);
    assert_eq!(cmd.endpoint, Endpoint::Tx);
    assert!(!cmd.write_with_response);
    assert_eq!(cmd.data, vibrate_data(20));
}

#[test]
fn read_value_extracts_the_battery_position() {
    let frame: Vec<u8> = vec![35, 172, 81, 180, 112, 88, 53, 202, 43, 170, 81, 86];
    assert_eq!(read_value(frame), 77);
}

#[test]
fn keepalive_wants_last_packet_repeated() {
    let engine = GalakuOneEngine::new();
    assert_eq!(
        engine.keepalive_strategy(),
        ProtocolKeepaliveStrategy::RepeatLastPacketStrategy
    );
}

#[test]
fn scalar_vibrate_updates_state_and_emits_one_frame() {
    let mut engine = GalakuOneEngineInitializer::default().initialize();
    let out = engine.handle_scalar_vibrate_cmd(0, 20).expect("never fails");
    assert_eq!(engine.vibrate_value, 20);
    assert_eq!(out.len(), 1);
    match &out[0] {
        HardwareCommand::Write(w) => {
            assert_eq!(w.endpoint, Endpoint::Tx);
            assert_eq!(w.data, vibrate_data(20));
        }
        other => panic!("expected a write, got {:?}", other),
    }
}

#[test]
fn linear_cmd_interpolates_in_fixed_steps() {
    let mut engine = GalakuOneEngine::new();
    // 500 ms at interval 100 gives 5 steps from 0 toward 100: each write
    // carries 0 + round(100 / 5) = 20, and 100 becomes the new baseline.
    let message = LinearCmd::new(0, vec![VectorSubcommand { index: 0, duration: 500, position: 100 }]);
    let out = engine.handle_linear_cmd(message).expect("never fails");
    assert_eq!(out.len(), 5);
    for cmd in &out {
        match cmd {
            HardwareCommand::Write(w) => assert_eq!(w.data, vibrate_data(20)),
            other => panic!("expected a write, got {:?}", other),
        }
    }
    assert_eq!(engine.vibrate_value, 100);
}

#[test]
fn linear_cmd_with_short_duration_only_moves_the_baseline() {
    let mut engine = GalakuOneEngine::new();
    let message = LinearCmd::new(0, vec![VectorSubcommand { index: 0, duration: 99, position: 60 }]);
    let out = engine.handle_linear_cmd(message).expect("never fails");
    assert!(out.is_empty());
    assert_eq!(engine.vibrate_value, 60);
}

#[test]
fn linear_cmd_moves_down_with_rounding_half_away() {
    let mut engine = GalakuOneEngine::new();
    engine.handle_scalar_vibrate_cmd(0, 100).expect("never fails");
    // 200 ms gives 2 steps from 100 toward 0: each write carries
    // 100 + round(-100 / 2) = 50.
    let message = LinearCmd::new(0, vec![VectorSubcommand { index: 0, duration: 200, position: 0 }]);
    let out = engine.handle_linear_cmd(message).expect("never fails");
    assert_eq!(out.len(), 2);
    match &out[0] {
        HardwareCommand::Write(w) => assert_eq!(w.data, vibrate_data(50)),
        other => panic!("expected a write, got {:?}", other),
    }
    assert_eq!(engine.vibrate_value, 0);
}

#[test]
fn sensor_subscribe_dispatches_on_kind() {
    let engine = GalakuOneEngine::new();
    let message = SensorSubscribeCmd::new(0, 0, SensorType::Battery);
    let (cmd, _reply) = engine
        .handle_sensor_subscribe_cmd(&message)
        .expect("battery is supported");
    assert_eq!(cmd.endpoint, Endpoint::RxBLEBattery);
    let unsupported = SensorSubscribeCmd::new(0, 0, SensorType::Pressure);
    let err = engine
        .handle_sensor_subscribe_cmd(&unsupported)
        .expect_err("pressure is not supported");
    assert_eq!(err, ButtplugDeviceError::UnhandledCommand);
}

#[test]
fn sensor_unsubscribe_dispatches_on_kind() {
    let engine = GalakuOneEngine::new();
    let (cmd, _reply) = engine
        .handle_sensor_unsubscribe_cmd(1, SensorType::Battery)
        .expect("battery is supported");
    assert_eq!(cmd.endpoint, Endpoint::RxBLEBattery);
    let err = engine
        .handle_sensor_unsubscribe_cmd(1, SensorType::Rssi)
        .expect_err("rssi is not supported");
    assert_eq!(err, ButtplugDeviceError::UnhandledCommand);
}

#[test]
fn battery_read_subscribes_then_writes_the_request() {
    let engine = GalakuOneEngine::new();
    let message = SensorReadCmd::new(3, 0, SensorType::Battery);
    let out = engine.handle_battery_level_cmd(&message);
    assert_eq!(out.len(), 2);
    match &out[0] {
        HardwareCommand::Subscribe(s) => assert_eq!(s.endpoint, Endpoint::RxBLEBattery),
        other => panic!("expected a subscribe, got {:?}", other),
    }
    match &out[1] {
        HardwareCommand::Write(w) => {
            assert_eq!(w.endpoint, Endpoint::Tx);
            assert!(w.write_with_response);
            assert_eq!(
                w.data,
                vec![35, 129, 187, 171, 210, 206, 211, 35, 187, 163, 59, 194]
            );
        }
        other => panic!("expected a write, got {:?}", other),
    }
}

#[test]
fn battery_wait_ignores_unrelated_endpoints_and_resolves_on_battery_data() {
    let message = SensorReadCmd::new(3, 0, SensorType::Battery);
    let unrelated = HardwareEvent::Notification(Endpoint::Rx, vec![1, 2, 3, 4, 5, 6]);
    match battery_level_on_event(&message, &unrelated) {
        BatteryWaitStep::KeepWaiting => {}
        other => panic!("expected to keep waiting, got {:?}", other),
    }
    let battery = HardwareEvent::Notification(
        Endpoint::RxBLEBattery,
        vec![35, 172, 81, 180, 112, 88, 53, 202, 43, 170, 81, 86],
    );
    match battery_level_on_event(&message, &battery) {
        BatteryWaitStep::Reading(reading) => {
            assert_eq!(reading.device_index, 3);
            assert_eq!(reading.sensor_type, SensorType::Battery);
            assert_eq!(reading.data, vec![77]);
        }
        other => panic!("expected a reading, got {:?}", other),
    }
}

#[test]
fn disconnect_while_waiting_fails_the_battery_read() {
    let message = SensorReadCmd::new(0, 0, SensorType::Battery);
    let events = vec![
        HardwareEvent::Notification(Endpoint::Rx, vec![9, 9, 9, 9, 9, 9]),
        HardwareEvent::Disconnected,
        HardwareEvent::Notification(
            Endpoint::RxBLEBattery,
            vec![35, 172, 81, 180, 112, 88, 53, 202, 43, 170, 81, 86],
        ),
    ];
    let err = battery_level_from_events(&message, &events)
        .expect_err("the disconnect arrives before any battery data");
    assert_eq!(
        err,
        ButtplugDeviceError::ProtocolSpecificError(
            ProtocolKind::GalakuOneEngine,
            ProtocolErrorDetail::DisconnectedWhileReading,
        )
    );
}

#[test]
fn exhausted_event_stream_fails_the_battery_read() {
    let message = SensorReadCmd::new(0, 0, SensorType::Battery);
    let err = battery_level_from_events(&message, &vec![])
        .expect_err("no events means the stream closed");
    assert_eq!(
        err,
        ButtplugDeviceError::ProtocolSpecificError(
            ProtocolKind::GalakuOneEngine,
            ProtocolErrorDetail::DisconnectedWhileReading,
        )
    );
}

#[test]
fn battery_read_resolves_past_unrelated_events() {
    let message = SensorReadCmd::new(5, 2, SensorType::Battery);
    let events = vec![
        HardwareEvent::Notification(Endpoint::Rx, vec![1, 2, 3, 4, 5, 6]),
        HardwareEvent::Notification(Endpoint::RxBLEBattery, vec![1, 2]), // too short: ignored
        HardwareEvent::Notification(
            Endpoint::RxBLEBattery,
            vec![35, 172, 81, 180, 112, 88, 53, 202, 43, 170, 81, 86],
        ),
    ];
    let reading = battery_level_from_events(&message, &events).expect("battery data arrives");
    assert_eq!(reading.device_index, 5);
    assert_eq!(reading.sensor_index, 2);
    assert_eq!(reading.data, vec![77]);
}

#[test]
fn linear_cmd_chains_baselines_across_vectors() {
    let mut engine = GalakuOneEngine::new();
    let message = LinearCmd::new(
        0,
        vec![
            VectorSubcommand { index: 0, duration: 300, position: 90 },
            VectorSubcommand { index: 0, duration: 200, position: 30 },
        ],
    );
    let out = engine.handle_linear_cmd(message).expect("never fails");
    // first move: 3 steps of 0 + round(90 / 3) = 30; second move starts from
    // the persisted baseline 90: 2 steps of 90 + round(-60 / 2) = 60
    assert_eq!(out.len(), 5);
    for cmd in &out[..3] {
        match cmd {
            HardwareCommand::Write(w) => assert_eq!(w.data, vibrate_data(30)),
            other => panic!("expected a write, got {:?}", other),
        }
    }
    for cmd in &out[3..] {
        match cmd {
            HardwareCommand::Write(w) => assert_eq!(w.data, vibrate_data(60)),
            other => panic!("expected a write, got {:?}", other),
        }
    }
    assert_eq!(engine.vibrate_value, 30);
}
