use buttplug::messages::{
    ButtplugMessageError, SensorSubcommand, SensorType, SensorUnsubscribeCmd, DEFAULT_MESSAGE_ID,
};

#[test]
fn new_unsubscribe_command_carries_the_default_id() {
    let sensors = vec![SensorSubcommand { index: 0, sensor_type: SensorType::Battery }];
    let cmd = SensorUnsubscribeCmd::new(4, sensors.clone());
    assert_eq!(cmd.id(), DEFAULT_MESSAGE_ID);
    assert_eq!(cmd.device_index(), 4);
    assert_eq!(cmd.sensors(), &sensors);
}

#[test]
fn validity_rejects_the_system_message_id() {
    let mut cmd = SensorUnsubscribeCmd::new(0, vec![]);
    assert!(cmd.is_valid().is_ok());
    cmd.id = 0;
    assert_eq!(cmd.is_valid(), Err(ButtplugMessageError::InvalidMessageContents));
}
