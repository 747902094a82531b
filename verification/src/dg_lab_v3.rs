//! Handler for the second-generation two-channel electro-stimulation family.
//!
//! This family requires a full command set per transmission: every outgoing
//! frame carries power, frequency and waveform strength for both channels,
//! read from current state at encode time. Input frequencies pass through a
//! three-segment piecewise-linear table before they reach the wire.

use vstd::prelude::*;

#[allow(unused_imports)]
use vstd::array::axiom_spec_array_fill_for_copy_type;

use crate::errors::{ButtplugDeviceError, ProtocolErrorDetail, ProtocolKind};
use crate::hardware::{Endpoint, HardwareCommand, HardwareWriteCmd};
use crate::messages::ActuatorType;

verus! {

/// Smallest nonzero input frequency a caller may request.
pub const MINIMUM_INPUT_FREQUENCY: u32 = 10;

/// Largest input frequency a caller may request.
pub const MAXIMUM_INPUT_FREQUENCY: u32 = 1000;

/// Largest power scalar either channel accepts.
pub const MAXIMUM_POWER: u32 = 200;

/// Largest waveform strength either channel accepts.
pub const MAXIMUM_WAVEFORM_STRENGTH: u32 = 100;

/// Header byte of the full-state "set" frame.
pub const B0_HEAD: u8 = 0xB0;

/// Serial number nibble used for locally built frames.
pub const DEFAULT_SERIAL_NO: u8 = 0;

/// Strength-parsing method telling the device to set levels absolutely.
pub const STRENGTH_PARSING_METHOD_SET_TO: u8 = 3;

/// A value as the single wire byte that carries it.
pub open spec fn as_byte(v: u32) -> u8 {
    (v % 256) as u8
}

/// The three-segment piecewise mapping from input frequency to wire
/// frequency: 10-100 passes through, 101-600 is compressed 5:1 with +100
/// offset, 601-1000 is compressed 10:1 with +200 offset, and anything else
/// except zero clamps to the minimum.
pub open spec fn input_frequency_map(value: int) -> int {
    if value == 0 {
        0
    } else if 10 <= value && value <= 100 {
        value
    } else if 101 <= value && value <= 600 {
        (value - 100) / 5 + 100
    } else if 601 <= value && value <= 1000 {
        (value - 600) / 10 + 200
    } else {
        10
    }
}

/// Applies the piecewise frequency table to one input value.
pub fn input_to_frequency(value: u32) -> (r: u32)
    ensures
        r == input_frequency_map(value as int),
        r <= 240,
{
    if value == 0 {
        0
    } else if 10 <= value && value <= 100 {
        value
    } else if 101 <= value && value <= 600 {
        (value - 100) / 5 + 100
    } else if 601 <= value && value <= 1000 {
        (value - 600) / 10 + 200
    } else {
        10
    }
}

/// The 20-byte full-state frame: header, serial/method byte, both power
/// levels, then four repetitions each of channel A's frequency, channel A's
/// waveform strength, channel B's frequency and channel B's waveform
/// strength.
pub open spec fn b0_frame_matches(
    power_a: u32,
    power_b: u32,
    frequency_a: Seq<u32>,
    waveform_strength_a: Seq<u32>,
    frequency_b: Seq<u32>,
    waveform_strength_b: Seq<u32>,
    bytes: Seq<u8>,
) -> bool {
    &&& frequency_a.len() == 4
    &&& waveform_strength_a.len() == 4
    &&& frequency_b.len() == 4
    &&& waveform_strength_b.len() == 4
    &&& bytes.len() == 20
    &&& bytes[0] == B0_HEAD
    &&& bytes[1] == (DEFAULT_SERIAL_NO << 4) | (STRENGTH_PARSING_METHOD_SET_TO << 2)
        | STRENGTH_PARSING_METHOD_SET_TO
    &&& bytes[2] == as_byte(power_a)
    &&& bytes[3] == as_byte(power_b)
    &&& forall|k: int| 0 <= k < 4 ==> bytes[4 + k] == as_byte(#[trigger] frequency_a[k])
    &&& forall|k: int| 0 <= k < 4 ==> bytes[8 + k] == as_byte(#[trigger] waveform_strength_a[k])
    &&& forall|k: int| 0 <= k < 4 ==> bytes[12 + k] == as_byte(#[trigger] frequency_b[k])
    &&& forall|k: int| 0 <= k < 4 ==> bytes[16 + k] == as_byte(#[trigger] waveform_strength_b[k])
}

/// Encodes the full-state "set" frame from explicit channel values.
pub fn b0_set_command(
    power_a: u32,
    power_b: u32,
    frequency_a: [u32; 4],
    frequency_b: [u32; 4],
    waveform_strength_a: [u32; 4],
    waveform_strength_b: [u32; 4],
) -> (r: Vec<u8>)
    ensures
        b0_frame_matches(
            power_a,
            power_b,
            frequency_a@,
            waveform_strength_a@,
            frequency_b@,
            waveform_strength_b@,
            r@,
        ),
{
    let mut data: Vec<u8> = Vec::new();
    data.push(B0_HEAD);
    data.push((DEFAULT_SERIAL_NO << 4) | (STRENGTH_PARSING_METHOD_SET_TO << 2)
        | STRENGTH_PARSING_METHOD_SET_TO);
    data.push((power_a % 256) as u8);
    data.push((power_b % 256) as u8);
    let mut k: usize = 0;
    while k < 4
        invariant
            k <= 4,
            data@.len() == 4 + k,
            data@[0] == B0_HEAD,
            data@[1] == (DEFAULT_SERIAL_NO << 4) | (STRENGTH_PARSING_METHOD_SET_TO << 2)
                | STRENGTH_PARSING_METHOD_SET_TO,
            data@[2] == as_byte(power_a),
            data@[3] == as_byte(power_b),
            forall|j: int| 0 <= j < k ==> data@[4 + j] == as_byte(#[trigger] frequency_a@[j]),
        decreases 4 - k,
    {
        data.push((frequency_a[k] % 256) as u8);
        k = k + 1;
    }
    let mut k: usize = 0;
    while k < 4
        invariant
            k <= 4,
            data@.len() == 8 + k,
            data@[0] == B0_HEAD,
            data@[1] == (DEFAULT_SERIAL_NO << 4) | (STRENGTH_PARSING_METHOD_SET_TO << 2)
                | STRENGTH_PARSING_METHOD_SET_TO,
            data@[2] == as_byte(power_a),
            data@[3] == as_byte(power_b),
            forall|j: int| 0 <= j < 4 ==> data@[4 + j] == as_byte(#[trigger] frequency_a@[j]),
            forall|j: int| 0 <= j < k ==> data@[8 + j] == as_byte(
                #[trigger] waveform_strength_a@[j],
            ),
        decreases 4 - k,
    {
        data.push((waveform_strength_a[k] % 256) as u8);
        k = k + 1;
    }
    let mut k: usize = 0;
    while k < 4
        invariant
            k <= 4,
            data@.len() == 12 + k,
            data@[0] == B0_HEAD,
            data@[1] == (DEFAULT_SERIAL_NO << 4) | (STRENGTH_PARSING_METHOD_SET_TO << 2)
                | STRENGTH_PARSING_METHOD_SET_TO,
            data@[2] == as_byte(power_a),
            data@[3] == as_byte(power_b),
            forall|j: int| 0 <= j < 4 ==> data@[4 + j] == as_byte(#[trigger] frequency_a@[j]),
            forall|j: int| 0 <= j < 4 ==> data@[8 + j] == as_byte(
                #[trigger] waveform_strength_a@[j],
            ),
            forall|j: int| 0 <= j < k ==> data@[12 + j] == as_byte(#[trigger] frequency_b@[j]),
        decreases 4 - k,
    {
        data.push((frequency_b[k] % 256) as u8);
        k = k + 1;
    }
    let mut k: usize = 0;
    while k < 4
        invariant
            k <= 4,
            data@.len() == 16 + k,
            data@[0] == B0_HEAD,
            data@[1] == (DEFAULT_SERIAL_NO << 4) | (STRENGTH_PARSING_METHOD_SET_TO << 2)
                | STRENGTH_PARSING_METHOD_SET_TO,
            data@[2] == as_byte(power_a),
            data@[3] == as_byte(power_b),
            forall|j: int| 0 <= j < 4 ==> data@[4 + j] == as_byte(#[trigger] frequency_a@[j]),
            forall|j: int| 0 <= j < 4 ==> data@[8 + j] == as_byte(
                #[trigger] waveform_strength_a@[j],
            ),
            forall|j: int| 0 <= j < 4 ==> data@[12 + j] == as_byte(#[trigger] frequency_b@[j]),
            forall|j: int| 0 <= j < k ==> data@[16 + j] == as_byte(
                #[trigger] waveform_strength_b@[j],
            ),
        decreases 4 - k,
    {
        data.push((waveform_strength_b[k] % 256) as u8);
        k = k + 1;
    }
    data
}

/// Current commanded values for one of the two channels.
#[derive(Clone, Copy, Debug, PartialEq, Eq, Structural)]
pub struct ChannelScalar {
    pub power: u32,
    pub frequency: u32,
    pub waveform_strength: u32,
}

/// Handler state: the last accepted values for channels A and B.
#[derive(Clone, Copy, Debug, PartialEq, Eq, Structural)]
pub struct DGLabV3 {
    pub a_scalar: ChannelScalar,
    pub b_scalar: ChannelScalar,
}

impl Default for DGLabV3 {
    /// Both channels start fully off.
    fn default() -> (r: Self)
        ensures
            r == (DGLabV3 {
                a_scalar: ChannelScalar { power: 0, frequency: 0, waveform_strength: 0 },
                b_scalar: ChannelScalar { power: 0, frequency: 0, waveform_strength: 0 },
            }),
    {
        DGLabV3 {
            a_scalar: ChannelScalar { power: 0, frequency: 0, waveform_strength: 0 },
            b_scalar: ChannelScalar { power: 0, frequency: 0, waveform_strength: 0 },
        }
    }
}

/// The full-state frame for handler state `s`: each channel value repeated
/// in its four-byte group.
pub open spec fn b0_state_frame_matches(s: DGLabV3, bytes: Seq<u8>) -> bool {
    b0_frame_matches(
        s.a_scalar.power,
        s.b_scalar.power,
        Seq::new(4, |k: int| s.a_scalar.frequency),
        Seq::new(4, |k: int| s.a_scalar.waveform_strength),
        Seq::new(4, |k: int| s.b_scalar.frequency),
        Seq::new(4, |k: int| s.b_scalar.waveform_strength),
        bytes,
    )
}

/// Encodes the complete current state of `dg_lab_v3` as one full-state frame.
pub fn b0_set_command_by_struct(dg_lab_v3: &DGLabV3) -> (r: Vec<u8>)
    ensures
        b0_state_frame_matches(*dg_lab_v3, r@),
{
    broadcast use axiom_spec_array_fill_for_copy_type;

    let frequency_a: [u32; 4] = [dg_lab_v3.a_scalar.frequency; 4];
    let frequency_b: [u32; 4] = [dg_lab_v3.b_scalar.frequency; 4];
    let waveform_strength_a: [u32; 4] = [dg_lab_v3.a_scalar.waveform_strength; 4];
    let waveform_strength_b: [u32; 4] = [dg_lab_v3.b_scalar.waveform_strength; 4];
    proof {
        assert(frequency_a@ =~= Seq::new(4, |k: int| dg_lab_v3.a_scalar.frequency));
        assert(waveform_strength_a@ =~= Seq::new(
            4,
            |k: int| dg_lab_v3.a_scalar.waveform_strength,
        ));
        assert(frequency_b@ =~= Seq::new(4, |k: int| dg_lab_v3.b_scalar.frequency));
        assert(waveform_strength_b@ =~= Seq::new(
            4,
            |k: int| dg_lab_v3.b_scalar.waveform_strength,
        ));
    }
    b0_set_command(
        dg_lab_v3.a_scalar.power,
        dg_lab_v3.b_scalar.power,
        frequency_a,
        frequency_b,
        waveform_strength_a,
        waveform_strength_b,
    )
}

/// Outcome of validating and applying one present command entry: the updated
/// state, or the validation error the entry provokes. Bounds are checked
/// before channel indexes, and neither check depends on the current state.
pub open spec fn scalar_entry_outcome(
    s: DGLabV3,
    index: int,
    actuator: ActuatorType,
    scalar: u32,
) -> Result<DGLabV3, ButtplugDeviceError> {
    match actuator {
        ActuatorType::Vibrate => {
            if scalar > MAXIMUM_POWER {
                Err(ButtplugDeviceError::ProtocolSpecificError(
                    ProtocolKind::DgLabV3,
                    ProtocolErrorDetail::ScalarOutOfRange { scalar, min: 0, max: MAXIMUM_POWER },
                ))
            } else if index == 0 {
                Ok(DGLabV3 { a_scalar: ChannelScalar { power: scalar, ..s.a_scalar }, ..s })
            } else if index == 1 {
                Ok(DGLabV3 { b_scalar: ChannelScalar { power: scalar, ..s.b_scalar }, ..s })
            } else {
                Err(ButtplugDeviceError::ProtocolSpecificError(
                    ProtocolKind::DgLabV3,
                    ProtocolErrorDetail::InvalidChannelIndex { index: index as usize },
                ))
            }
        },
        ActuatorType::Oscillate => {
            let eff = if scalar == MINIMUM_INPUT_FREQUENCY - 1 { 0u32 } else { scalar };
            if eff != 0 && (eff < MINIMUM_INPUT_FREQUENCY || eff > MAXIMUM_INPUT_FREQUENCY) {
                Err(ButtplugDeviceError::ProtocolSpecificError(
                    ProtocolKind::DgLabV3,
                    ProtocolErrorDetail::ScalarOutOfRange {
                        scalar,
                        min: MINIMUM_INPUT_FREQUENCY,
                        max: MAXIMUM_INPUT_FREQUENCY,
                    },
                ))
            } else if index == 2 {
                Ok(DGLabV3 {
                    a_scalar: ChannelScalar {
                        frequency: input_frequency_map(eff as int) as u32,
                        ..s.a_scalar
                    },
                    ..s
                })
            } else if index == 3 {
                Ok(DGLabV3 {
                    b_scalar: ChannelScalar {
                        frequency: input_frequency_map(eff as int) as u32,
                        ..s.b_scalar
                    },
                    ..s
                })
            } else {
                Err(ButtplugDeviceError::ProtocolSpecificError(
                    ProtocolKind::DgLabV3,
                    ProtocolErrorDetail::InvalidChannelIndex { index: index as usize },
                ))
            }
        },
        ActuatorType::Inflate => {
            if scalar > MAXIMUM_WAVEFORM_STRENGTH {
                Err(ButtplugDeviceError::ProtocolSpecificError(
                    ProtocolKind::DgLabV3,
                    ProtocolErrorDetail::ScalarOutOfRange {
                        scalar,
                        min: 0,
                        max: MAXIMUM_WAVEFORM_STRENGTH,
                    },
                ))
            } else if index == 4 {
                Ok(DGLabV3 {
                    a_scalar: ChannelScalar { waveform_strength: scalar, ..s.a_scalar },
                    ..s
                })
            } else if index == 5 {
                Ok(DGLabV3 {
                    b_scalar: ChannelScalar { waveform_strength: scalar, ..s.b_scalar },
                    ..s
                })
            } else {
                Err(ButtplugDeviceError::ProtocolSpecificError(
                    ProtocolKind::DgLabV3,
                    ProtocolErrorDetail::InvalidChannelIndex { index: index as usize },
                ))
            }
        },
        _ => Err(ButtplugDeviceError::UnhandledCommand),
    }
}

/// Whether one present entry passes validation; independent of handler state.
pub open spec fn scalar_entry_valid(index: int, actuator: ActuatorType, scalar: u32) -> bool {
    match actuator {
        ActuatorType::Vibrate => scalar <= MAXIMUM_POWER && (index == 0 || index == 1),
        ActuatorType::Oscillate => {
            let eff = if scalar == MINIMUM_INPUT_FREQUENCY - 1 { 0u32 } else { scalar };
            (eff == 0 || (MINIMUM_INPUT_FREQUENCY <= eff && eff <= MAXIMUM_INPUT_FREQUENCY)) && (
            index == 2 || index == 3)
        },
        ActuatorType::Inflate => scalar <= MAXIMUM_WAVEFORM_STRENGTH && (index == 4 || index == 5),
        _ => false,
    }
}

/// Folds a command batch over the state from entry `i` on: the final state if
/// every present entry validates, or the first validation error.
pub open spec fn scalar_outcome_from(
    s: DGLabV3,
    cmds: Seq<Option<(ActuatorType, u32)>>,
    i: int,
) -> Result<DGLabV3, ButtplugDeviceError>
    decreases cmds.len() - i,
{
    if i < 0 || i >= cmds.len() {
        Ok(s)
    } else {
        match cmds[i] {
            None => scalar_outcome_from(s, cmds, i + 1),
            Some((actuator, scalar)) => match scalar_entry_outcome(s, i, actuator, scalar) {
                Ok(s2) => scalar_outcome_from(s2, cmds, i + 1),
                Err(e) => Err(e),
            },
        }
    }
}

/// Outcome of one whole `handle_scalar_cmd` batch on state `s`.
pub open spec fn scalar_outcome(s: DGLabV3, cmds: Seq<Option<(ActuatorType, u32)>>) -> Result<
    DGLabV3,
    ButtplugDeviceError,
> {
    scalar_outcome_from(s, cmds, 0)
}

/// The single full-state write this family answers every batch with.
pub open spec fn command_frames_match(s: DGLabV3, cmds: Seq<HardwareCommand>) -> bool {
    &&& cmds.len() == 1
    &&& cmds[0] matches HardwareCommand::Write(w) && w.endpoint == Endpoint::Tx
        && b0_state_frame_matches(s, w.data@) && !w.write_with_response
}

impl DGLabV3 {
    /// Validates a batch of optional per-channel scalar commands, commits
    /// every update only if the whole batch validates, and encodes the
    /// complete new state of all channels as one full-state frame.
    ///
    /// On any validation failure the first error is returned and no channel
    /// state changes: rejected updates never partially apply.
    pub fn handle_scalar_cmd(&mut self, commands: &[Option<(ActuatorType, u32)>]) -> (r: Result<
        Vec<HardwareCommand>,
        ButtplugDeviceError,
    >)
        ensures
            match r {
                Ok(cmds) => scalar_outcome(*old(self), commands@) == Ok::<
                    DGLabV3,
                    ButtplugDeviceError,
                >(*final(self)) && command_frames_match(*final(self), cmds@),
                Err(e) => scalar_outcome(*old(self), commands@) == Err::<
                    DGLabV3,
                    ButtplugDeviceError,
                >(e) && *final(self) == *old(self),
            },
    {
        let ghost s0 = *self;
        let mut staged: DGLabV3 = *self;
        let mut i: usize = 0;
        while i < commands.len()
            invariant
                i <= commands@.len(),
                scalar_outcome(s0, commands@) == scalar_outcome_from(staged, commands@, i as int),
                *self == s0,
            decreases commands@.len() - i,
        {
            match commands[i] {
                None => {},
                Some((actuator, scalar)) => {
                    match actuator {
                        ActuatorType::Vibrate => {
                            if scalar > MAXIMUM_POWER {
                                return Err(
                                    ButtplugDeviceError::ProtocolSpecificError(
                                        ProtocolKind::DgLabV3,
                                        ProtocolErrorDetail::ScalarOutOfRange {
                                            scalar,
                                            min: 0,
                                            max: MAXIMUM_POWER,
                                        },
                                    ),
                                );
                            }
                            if i == 0 {
                                staged.a_scalar.power = scalar;
                            } else if i == 1 {
                                staged.b_scalar.power = scalar;
                            } else {
                                return Err(
                                    ButtplugDeviceError::ProtocolSpecificError(
                                        ProtocolKind::DgLabV3,
                                        ProtocolErrorDetail::InvalidChannelIndex { index: i },
                                    ),
                                );
                            }
                        },
                        ActuatorType::Oscillate => {
                            let eff: u32 = if scalar == MINIMUM_INPUT_FREQUENCY - 1 {
                                0
                            } else {
                                scalar
                            };
                            if eff != 0 && (eff < MINIMUM_INPUT_FREQUENCY
                                || eff > MAXIMUM_INPUT_FREQUENCY) {
                                return Err(
                                    ButtplugDeviceError::ProtocolSpecificError(
                                        ProtocolKind::DgLabV3,
                                        ProtocolErrorDetail::ScalarOutOfRange {
                                            scalar,
                                            min: MINIMUM_INPUT_FREQUENCY,
                                            max: MAXIMUM_INPUT_FREQUENCY,
                                        },
                                    ),
                                );
                            }
                            if i == 2 {
                                staged.a_scalar.frequency = input_to_frequency(eff);
                            } else if i == 3 {
                                staged.b_scalar.frequency = input_to_frequency(eff);
                            } else {
                                return Err(
                                    ButtplugDeviceError::ProtocolSpecificError(
                                        ProtocolKind::DgLabV3,
                                        ProtocolErrorDetail::InvalidChannelIndex { index: i },
                                    ),
                                );
                            }
                        },
                        ActuatorType::Inflate => {
                            if scalar > MAXIMUM_WAVEFORM_STRENGTH {
                                return Err(
                                    ButtplugDeviceError::ProtocolSpecificError(
                                        ProtocolKind::DgLabV3,
                                        ProtocolErrorDetail::ScalarOutOfRange {
                                            scalar,
                                            min: 0,
                                            max: MAXIMUM_WAVEFORM_STRENGTH,
                                        },
                                    ),
                                );
                            }
                            if i == 4 {
                                staged.a_scalar.waveform_strength = scalar;
                            } else if i == 5 {
                                staged.b_scalar.waveform_strength = scalar;
                            } else {
                                return Err(
                                    ButtplugDeviceError::ProtocolSpecificError(
                                        ProtocolKind::DgLabV3,
                                        ProtocolErrorDetail::InvalidChannelIndex { index: i },
                                    ),
                                );
                            }
                        },
                        _ => {
                            return Err(ButtplugDeviceError::UnhandledCommand);
                        },
                    }
                },
            }
            i = i + 1;
        }
        *self = staged;
        let frame = b0_set_command_by_struct(self);
        let mut out: Vec<HardwareCommand> = Vec::new();
        out.push(HardwareCommand::Write(HardwareWriteCmd::new(Endpoint::Tx, frame, false)));
        Ok(out)
    }

    /// The frame the background keepalive task retransmits: the same
    /// full-state frame the command path emits, encoding current state.
    pub fn repeat_commands(&self) -> (r: Vec<HardwareWriteCmd>)
        ensures
            r@.len() == 1,
            r@[0].endpoint == Endpoint::Tx,
            b0_state_frame_matches(*self, r@[0].data@),
            !r@[0].write_with_response,
    {
        let mut r: Vec<HardwareWriteCmd> = Vec::new();
        r.push(HardwareWriteCmd::new(Endpoint::Tx, b0_set_command_by_struct(self), false));
        r
    }
}

/// Builds the handler this family binds to freshly connected hardware.
#[derive(Clone, Copy, Debug, Default)]
pub struct DGLabV3Initializer {}

impl DGLabV3Initializer {
    /// Produces the handler in its all-zero initial state. The caller is
    /// expected to spawn a background task that, after a settle delay,
    /// periodically writes `repeat_commands` until the device disconnects.
    pub fn initialize(&mut self) -> (r: DGLabV3)
        ensures
            r == (DGLabV3 {
                a_scalar: ChannelScalar { power: 0, frequency: 0, waveform_strength: 0 },
                b_scalar: ChannelScalar { power: 0, frequency: 0, waveform_strength: 0 },
            }),
    {
        DGLabV3::default()
    }
}

/// A batch whose every present entry is within bounds and addresses a defined
/// channel is never rejected: the fold always reaches `Ok`.
pub proof fn lemma_valid_commands_accepted_from(
    s: DGLabV3,
    cmds: Seq<Option<(ActuatorType, u32)>>,
    i: int,
)
    requires
        forall|j: int, actuator: ActuatorType, scalar: u32|
            0 <= j < cmds.len() && cmds[j] == Some((actuator, scalar)) ==> scalar_entry_valid(
                j,
                actuator,
                scalar,
            ),
        0 <= i <= cmds.len(),
    ensures
        scalar_outcome_from(s, cmds, i) is Ok,
    decreases cmds.len() - i,
{
    if i < cmds.len() {
        match cmds[i] {
            None => {
                lemma_valid_commands_accepted_from(s, cmds, i + 1);
            },
            Some((actuator, scalar)) => {
                assert(scalar_entry_valid(i, actuator, scalar));
                let s2 = scalar_entry_outcome(s, i, actuator, scalar)->Ok_0;
                lemma_valid_commands_accepted_from(s2, cmds, i + 1);
            },
        }
    }
}

/// For all scalar inputs within this family's documented bounds,
/// `handle_scalar_cmd` never returns a validation error.
pub proof fn lemma_valid_commands_accepted(s: DGLabV3, cmds: Seq<Option<(ActuatorType, u32)>>)
    requires
        forall|j: int, actuator: ActuatorType, scalar: u32|
            0 <= j < cmds.len() && cmds[j] == Some((actuator, scalar)) ==> scalar_entry_valid(
                j,
                actuator,
                scalar,
            ),
    ensures
        scalar_outcome(s, cmds) is Ok,
{
    lemma_valid_commands_accepted_from(s, cmds, 0);
}

/// The full-state frame is a pure function of channel state: two encodes of
/// the same state produce byte-identical frames.
pub proof fn lemma_frames_deterministic(s1: DGLabV3, s2: DGLabV3, b1: Seq<u8>, b2: Seq<u8>)
    requires
        s1 == s2,
        b0_state_frame_matches(s1, b1),
        b0_state_frame_matches(s2, b2),
    ensures
        b1 =~= b2,
{
    assert forall|k: int| 0 <= k < 20 implies b1[k] == b2[k] by {
        if 4 <= k < 8 {
            assert(Seq::new(4, |q: int| s1.a_scalar.frequency)[k - 4] == s1.a_scalar.frequency);
            assert(b1[4 + (k - 4)] == as_byte(
                Seq::new(4, |q: int| s1.a_scalar.frequency)[k - 4],
            ));
            assert(b2[4 + (k - 4)] == as_byte(
                Seq::new(4, |q: int| s2.a_scalar.frequency)[k - 4],
            ));
        } else if 8 <= k < 12 {
            assert(Seq::new(4, |q: int| s1.a_scalar.waveform_strength)[k - 8]
                == s1.a_scalar.waveform_strength);
            assert(b1[8 + (k - 8)] == as_byte(
                Seq::new(4, |q: int| s1.a_scalar.waveform_strength)[k - 8],
            ));
            assert(b2[8 + (k - 8)] == as_byte(
                Seq::new(4, |q: int| s2.a_scalar.waveform_strength)[k - 8],
            ));
        } else if 12 <= k < 16 {
            assert(Seq::new(4, |q: int| s1.b_scalar.frequency)[k - 12] == s1.b_scalar.frequency);
            assert(b1[12 + (k - 12)] == as_byte(
                Seq::new(4, |q: int| s1.b_scalar.frequency)[k - 12],
            ));
            assert(b2[12 + (k - 12)] == as_byte(
                Seq::new(4, |q: int| s2.b_scalar.frequency)[k - 12],
            ));
        } else if 16 <= k < 20 {
            assert(Seq::new(4, |q: int| s1.b_scalar.waveform_strength)[k - 16]
                == s1.b_scalar.waveform_strength);
            assert(b1[16 + (k - 16)] == as_byte(
                Seq::new(4, |q: int| s1.b_scalar.waveform_strength)[k - 16],
            ));
            assert(b2[16 + (k - 16)] == as_byte(
                Seq::new(4, |q: int| s2.b_scalar.waveform_strength)[k - 16],
            ));
        }
    }
}

/// Updating only channel A's power still emits a frame carrying the last
/// known values of every other channel parameter, never zeros: the frame for
/// the new state repeats channel B's power, both frequencies and both
/// waveform strengths from the previous state.
pub proof fn lemma_untouched_channels_keep_last_values(
    s: DGLabV3,
    power: u32,
    cmds: Seq<Option<(ActuatorType, u32)>>,
    bytes: Seq<u8>,
)
    requires
        power <= MAXIMUM_POWER,
        cmds == seq![Some((ActuatorType::Vibrate, power))],
        scalar_outcome(s, cmds) is Ok,
        b0_state_frame_matches(scalar_outcome(s, cmds)->Ok_0, bytes),
    ensures
        scalar_outcome(s, cmds)->Ok_0 == (DGLabV3 {
            a_scalar: ChannelScalar { power, ..s.a_scalar },
            ..s
        }),
        bytes[3] == as_byte(s.b_scalar.power),
        forall|k: int| 4 <= k < 8 ==> bytes[k] == as_byte(s.a_scalar.frequency),
        forall|k: int| 8 <= k < 12 ==> bytes[k] == as_byte(s.a_scalar.waveform_strength),
        forall|k: int| 12 <= k < 16 ==> bytes[k] == as_byte(s.b_scalar.frequency),
        forall|k: int| 16 <= k < 20 ==> bytes[k] == as_byte(s.b_scalar.waveform_strength),
{
    let s1 = scalar_entry_outcome(s, 0, ActuatorType::Vibrate, power)->Ok_0;
    assert(scalar_outcome_from(s1, cmds, 1) == Ok::<DGLabV3, ButtplugDeviceError>(s1));
    assert forall|k: int| 4 <= k < 8 implies bytes[k] == as_byte(s.a_scalar.frequency) by {
        assert(Seq::new(4, |q: int| s1.a_scalar.frequency)[k - 4] == s1.a_scalar.frequency);
        assert(bytes[4 + (k - 4)] == as_byte(Seq::new(4, |q: int| s1.a_scalar.frequency)[k - 4]));
    }
    assert forall|k: int| 8 <= k < 12 implies bytes[k] == as_byte(
        s.a_scalar.waveform_strength,
    ) by {
        assert(Seq::new(4, |q: int| s1.a_scalar.waveform_strength)[k - 8]
            == s1.a_scalar.waveform_strength);
        assert(bytes[8 + (k - 8)] == as_byte(
            Seq::new(4, |q: int| s1.a_scalar.waveform_strength)[k - 8],
        ));
    }
    assert forall|k: int| 12 <= k < 16 implies bytes[k] == as_byte(s.b_scalar.frequency) by {
        assert(Seq::new(4, |q: int| s1.b_scalar.frequency)[k - 12] == s1.b_scalar.frequency);
        assert(bytes[12 + (k - 12)] == as_byte(Seq::new(4, |q: int| s1.b_scalar.frequency)[k - 12]));
    }
    assert forall|k: int| 16 <= k < 20 implies bytes[k] == as_byte(
        s.b_scalar.waveform_strength,
    ) by {
        assert(Seq::new(4, |q: int| s1.b_scalar.waveform_strength)[k - 16]
            == s1.b_scalar.waveform_strength);
        assert(bytes[16 + (k - 16)] == as_byte(
            Seq::new(4, |q: int| s1.b_scalar.waveform_strength)[k - 16],
        ));
    }
}

} // verus!
