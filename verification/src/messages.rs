//! Generic command and reply records exchanged with callers.
//!
//! These are plain data records with a message id and a validity predicate;
//! the protocol handlers perform their own family-specific range checks on
//! top of the generic validity rules.

use vstd::prelude::*;

verus! {

/// Message id reserved for messages the system itself emits; commands from
/// callers must never carry it.
pub const SYSTEM_MESSAGE_ID: u32 = 0;

/// Id given to messages constructed locally rather than received.
pub const DEFAULT_MESSAGE_ID: u32 = 1;

/// Logical category of physical output a scalar command addresses.
#[derive(Clone, Copy, Debug, PartialEq, Eq, Structural)]
pub enum ActuatorType {
    Vibrate,
    Rotate,
    Oscillate,
    Constrict,
    Inflate,
    Position,
}

/// Kind of reading a sensor command addresses.
#[derive(Clone, Copy, Debug, PartialEq, Eq, Structural)]
pub enum SensorType {
    Battery,
    Rssi,
    Pressure,
}

/// One sensor selected inside a subscribe or unsubscribe command.
#[derive(Clone, Copy, Debug, PartialEq, Eq, Structural)]
pub struct SensorSubcommand {
    pub index: u32,
    pub sensor_type: SensorType,
}

/// Generic error raised when a message fails its validity predicate.
#[derive(Clone, Copy, Debug, PartialEq, Eq, Structural)]
pub enum ButtplugMessageError {
    InvalidMessageContents,
}

/// Request to stop streaming notifications for a set of sensors.
#[derive(Clone, Debug)]
pub struct SensorUnsubscribeCmd {
    pub id: u32,
    pub device_index: u32,
    pub sensors: Vec<SensorSubcommand>,
}

impl SensorUnsubscribeCmd {
    pub fn new(device_index: u32, sensors: Vec<SensorSubcommand>) -> (r: Self)
        ensures
            r.id == DEFAULT_MESSAGE_ID,
            r.device_index == device_index,
            r.sensors@ == sensors@,
    {
        Self { id: DEFAULT_MESSAGE_ID, device_index, sensors }
    }

    pub fn id(&self) -> (r: u32)
        ensures
            r == self.id,
    {
        self.id
    }

    pub fn device_index(&self) -> (r: u32)
        ensures
            r == self.device_index,
    {
        self.device_index
    }

    pub fn sensors(&self) -> (r: &Vec<SensorSubcommand>)
        ensures
            r@ == self.sensors@,
    {
        &self.sensors
    }

    /// A command is valid exactly when its id is not the reserved system id.
    pub fn is_valid(&self) -> (r: Result<(), ButtplugMessageError>)
        ensures
            r is Ok <==> self.id != SYSTEM_MESSAGE_ID,
            r is Err ==> r == Err::<(), ButtplugMessageError>(
                ButtplugMessageError::InvalidMessageContents,
            ),
    {
        if self.id != SYSTEM_MESSAGE_ID {
            Ok(())
        } else {
            Err(ButtplugMessageError::InvalidMessageContents)
        }
    }
}

/// Request for a one-shot reading of one sensor.
#[derive(Clone, Copy, Debug, PartialEq, Eq, Structural)]
pub struct SensorReadCmd {
    pub id: u32,
    pub device_index: u32,
    pub sensor_index: u32,
    pub sensor_type: SensorType,
}

impl SensorReadCmd {
    pub fn new(device_index: u32, sensor_index: u32, sensor_type: SensorType) -> (r: Self)
        ensures
            r == (SensorReadCmd {
                id: DEFAULT_MESSAGE_ID,
                device_index,
                sensor_index,
                sensor_type,
            }),
    {
        Self { id: DEFAULT_MESSAGE_ID, device_index, sensor_index, sensor_type }
    }
}

/// Request to start streaming notifications for one sensor.
#[derive(Clone, Copy, Debug, PartialEq, Eq, Structural)]
pub struct SensorSubscribeCmd {
    pub id: u32,
    pub device_index: u32,
    pub sensor_index: u32,
    pub sensor_type: SensorType,
}

impl SensorSubscribeCmd {
    pub fn new(device_index: u32, sensor_index: u32, sensor_type: SensorType) -> (r: Self)
        ensures
            r == (SensorSubscribeCmd {
                id: DEFAULT_MESSAGE_ID,
                device_index,
                sensor_index,
                sensor_type,
            }),
    {
        Self { id: DEFAULT_MESSAGE_ID, device_index, sensor_index, sensor_type }
    }
}

/// Normalized sensor reading sent back to the caller.
#[derive(Clone, Debug)]
pub struct SensorReading {
    pub id: u32,
    pub device_index: u32,
    pub sensor_index: u32,
    pub sensor_type: SensorType,
    pub data: Vec<i32>,
}

impl SensorReading {
    pub fn new(device_index: u32, sensor_index: u32, sensor_type: SensorType, data: Vec<i32>)
        -> (r: Self)
        ensures
            r.id == DEFAULT_MESSAGE_ID,
            r.device_index == device_index,
            r.sensor_index == sensor_index,
            r.sensor_type == sensor_type,
            r.data@ == data@,
    {
        Self { id: DEFAULT_MESSAGE_ID, device_index, sensor_index, sensor_type, data }
    }
}

/// Plain acknowledgement carrying the id of the message it answers.
#[derive(Clone, Copy, Debug, PartialEq, Eq, Structural)]
pub struct OkMessage {
    pub id: u32,
}

impl OkMessage {
    pub fn new(id: u32) -> (r: Self)
        ensures
            r == (OkMessage { id }),
    {
        Self { id }
    }
}

/// Replies a protocol handler can hand back to the caller.
#[derive(Clone, Debug)]
pub enum ButtplugServerMessage {
    OkMsg(OkMessage),
    SensorReading(SensorReading),
}

/// One requested move of a positional actuator.
///
/// `position` is the requested target in hundredths of full scale: `100`
/// stands for the far end of travel. `duration` is the requested move time
/// in milliseconds.
#[derive(Clone, Copy, Debug, PartialEq, Eq, Structural)]
pub struct VectorSubcommand {
    pub index: u32,
    pub duration: u32,
    pub position: u32,
}

/// Request to move positional actuators along timed linear ramps.
#[derive(Clone, Debug)]
pub struct LinearCmd {
    pub id: u32,
    pub device_index: u32,
    pub vectors: Vec<VectorSubcommand>,
}

impl LinearCmd {
    pub fn new(device_index: u32, vectors: Vec<VectorSubcommand>) -> (r: Self)
        ensures
            r.id == DEFAULT_MESSAGE_ID,
            r.device_index == device_index,
            r.vectors@ == vectors@,
    {
        Self { id: DEFAULT_MESSAGE_ID, device_index, vectors }
    }

    pub fn vectors(&self) -> (r: &Vec<VectorSubcommand>)
        ensures
            r@ == self.vectors@,
    {
        &self.vectors
    }
}

} // verus!
