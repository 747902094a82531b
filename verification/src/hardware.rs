//! Transport-level operations a protocol handler asks its caller to perform,
//! and the events the transport layer streams back.
//!
//! The engine only decides what bytes to send, in what groupings and order;
//! the transport drivers that actually move them live outside this crate.

use vstd::prelude::*;

verus! {

/// Addressable endpoint on a connected device.
#[derive(Clone, Copy, Debug, PartialEq, Eq, Structural)]
pub enum Endpoint {
    Tx,
    Rx,
    Generic0,
    Generic1,
    RxBLEBattery,
}

/// Order to write `data` to `endpoint`, optionally demanding a transport
/// acknowledgement.
#[derive(Clone, Debug)]
pub struct HardwareWriteCmd {
    pub endpoint: Endpoint,
    pub data: Vec<u8>,
    pub write_with_response: bool,
}

impl HardwareWriteCmd {
    pub fn new(endpoint: Endpoint, data: Vec<u8>, write_with_response: bool) -> (r: Self)
        ensures
            r.endpoint == endpoint,
            r.data@ == data@,
            r.write_with_response == write_with_response,
    {
        Self { endpoint, data, write_with_response }
    }
}

/// Order to start streaming notifications from `endpoint`.
#[derive(Clone, Copy, Debug, PartialEq, Eq, Structural)]
pub struct HardwareSubscribeCmd {
    pub endpoint: Endpoint,
}

impl HardwareSubscribeCmd {
    pub fn new(endpoint: Endpoint) -> (r: Self)
        ensures
            r == (HardwareSubscribeCmd { endpoint }),
    {
        Self { endpoint }
    }
}

/// Order to stop streaming notifications from `endpoint`.
#[derive(Clone, Copy, Debug, PartialEq, Eq, Structural)]
pub struct HardwareUnsubscribeCmd {
    pub endpoint: Endpoint,
}

impl HardwareUnsubscribeCmd {
    pub fn new(endpoint: Endpoint) -> (r: Self)
        ensures
            r == (HardwareUnsubscribeCmd { endpoint }),
    {
        Self { endpoint }
    }
}

/// One transport-level operation a handler hands back to its caller.
#[derive(Clone, Debug)]
pub enum HardwareCommand {
    Write(HardwareWriteCmd),
    Subscribe(HardwareSubscribeCmd),
    Unsubscribe(HardwareUnsubscribeCmd),
}

/// Event delivered by the transport layer while a handler is waiting.
#[derive(Clone, Debug)]
pub enum HardwareEvent {
    /// Bytes arrived on an endpoint the handler subscribed to.
    Notification(Endpoint, Vec<u8>),
    /// The device dropped the connection; the universal cancellation signal.
    Disconnected,
}

/// Keepalive policy a handler declares to the task that owns it.
#[derive(Clone, Copy, Debug, PartialEq, Eq, Structural)]
pub enum ProtocolKeepaliveStrategy {
    /// The device stays awake on its own; send nothing between commands.
    NoStrategy,
    /// Retransmit the last frames the handler produced at a fixed interval,
    /// or the device deactivates on silence.
    RepeatLastPacketStrategy,
}

} // verus!
