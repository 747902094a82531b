//! Handler for the first-generation two-channel electro-stimulation family.
//!
//! Each of the two channels (A and B) carries a power level, a frequency
//! expressed on the wire as a derived `(x, y)` pair, and a pulse width. The
//! wire format packs pairs of 11-bit values, or an `(x, y, z)` triple, into
//! 24-bit little-endian fields. The frequency curve maps an input frequency
//! `f` to `x = round(min(31, sqrt(f / 1000) * 15))` and
//! `y = round(min(1023, f - x))`, computed here in exact integer arithmetic.

use vstd::prelude::*;

use crate::errors::{ButtplugDeviceError, ProtocolErrorDetail, ProtocolKind};
use crate::hardware::{Endpoint, HardwareCommand, HardwareWriteCmd};
use crate::messages::ActuatorType;

verus! {

/// Smallest nonzero frequency a caller may request.
pub const MINIMUM_FREQUENCY: u32 = 10;

/// Largest frequency a caller may request.
pub const MAXIMUM_FREQUENCY: u32 = 1000;

/// Largest power scalar either channel accepts.
pub const MAXIMUM_POWER: u32 = 2047;

/// Largest pulse width either channel accepts.
pub const MAXIMUM_PULSE_WIDTH: u32 = 31;

/// Cap on the derived frequency sub-parameter `x`.
pub const MAXIMUM_X: u32 = 31;

/// Cap on the derived frequency sub-parameter `y`.
pub const MAXIMUM_Y: u32 = 1023;

/// Two 11-bit values packed as `AAAA AAAA AAAB BBBB BBBB BB00` (bit 0 of `a`
/// is bit 0 of the field).
pub open spec fn ab_power_pack(a: u32, b: u32) -> u32 {
    ((b & 0x7FF) << 11) | (a & 0x7FF)
}

/// An `(x, y, z)` triple packed as `XXXX XYYY YYYY YYYZ ZZZZ 0000` (bit 0 of
/// `x` is bit 0 of the field).
pub open spec fn xyz_pack(x: u32, y: u32, z: u32) -> u32 {
    ((z & 0x1F) << 15) | ((y & 0x3FF) << 5) | (x & 0x1F)
}

/// The low 24 bits of `data` as three little-endian bytes.
pub open spec fn le24_bytes(data: u32) -> Seq<u8> {
    seq![
        (data & 0xFF) as u8,
        ((data >> 8) & 0xFF) as u8,
        ((data >> 16) & 0xFF) as u8,
    ]
}

/// Largest `k <= bound` with `10 * (2k - 1)^2 <= 9 * f`, or `0`.
///
/// `k` satisfies that inequality exactly when `sqrt(f / 1000) * 15` is at
/// least `k - 1/2`, so the largest such `k` is `sqrt(f / 1000) * 15` rounded
/// half away from zero.
pub open spec fn frequency_x_search(f: int, k: int) -> int
    decreases k,
{
    if k <= 0 {
        0
    } else if 10 * (2 * k - 1) * (2 * k - 1) <= 9 * f {
        k
    } else {
        frequency_x_search(f, k - 1)
    }
}

/// The derived sub-parameter `x`: `round(min(31, sqrt(f / 1000) * 15))`.
pub open spec fn frequency_curve_x(f: int) -> int {
    frequency_x_search(f, MAXIMUM_X as int)
}

/// The derived sub-parameter `y`: `round(min(1023, f - x))`.
pub open spec fn frequency_curve_y(f: int) -> int {
    if f - frequency_curve_x(f) > MAXIMUM_Y as int {
        MAXIMUM_Y as int
    } else {
        f - frequency_curve_x(f)
    }
}

/// Packs the two channels' power levels into the 3-byte power frame.
pub fn ab_power_to_byte(a: u32, b: u32) -> (r: Vec<u8>)
    ensures
        r@ == le24_bytes(ab_power_pack(a, b)),
{
    let data: u32 = ((b & 0x7FF) << 11) | (a & 0x7FF);
    assert((data & 0xFF) < 256 && ((data >> 8) & 0xFF) < 256 && ((data >> 16) & 0xFF) < 256)
        by (bit_vector);
    let r = vec![
        (data & 0xFF) as u8,
        ((data >> 8) & 0xFF) as u8,
        ((data >> 16) & 0xFF) as u8,
    ];
    proof {
        assert(r@ =~= le24_bytes(ab_power_pack(a, b)));
    }
    r
}

/// Packs one channel's `(x, y, z)` parameters into its 3-byte frame.
pub fn xyz_to_bytes(x: u32, y: u32, z: u32) -> (r: Vec<u8>)
    ensures
        r@ == le24_bytes(xyz_pack(x, y, z)),
{
    let data: u32 = ((z & 0x1F) << 15) | ((y & 0x3FF) << 5) | (x & 0x1F);
    assert((data & 0xFF) < 256 && ((data >> 8) & 0xFF) < 256 && ((data >> 16) & 0xFF) < 256)
        by (bit_vector);
    let r = vec![
        (data & 0xFF) as u8,
        ((data >> 8) & 0xFF) as u8,
        ((data >> 16) & 0xFF) as u8,
    ];
    proof {
        assert(r@ =~= le24_bytes(xyz_pack(x, y, z)));
    }
    r
}

/// Maps a validated frequency to its derived `(x, y)` wire pair.
pub fn frequency_to_xy(frequency: u32) -> (r: (u32, u32))
    ensures
        r.0 == frequency_curve_x(frequency as int),
        r.1 == frequency_curve_y(frequency as int),
        r.0 <= MAXIMUM_X,
        r.1 <= MAXIMUM_Y,
{
    let f9: u64 = 9 * (frequency as u64);
    let mut x: u32 = MAXIMUM_X;
    loop
        invariant_except_break
            x <= MAXIMUM_X,
            f9 == 9 * frequency,
            frequency_curve_x(frequency as int) == frequency_x_search(frequency as int, x as int),
        ensures
            x <= MAXIMUM_X,
            x as int == frequency_curve_x(frequency as int),
            x > 0 ==> 10 * (2 * (x as int) - 1) * (2 * (x as int) - 1) <= 9 * (frequency as int),
        decreases x,
    {
        if x == 0 {
            break ;
        }
        let d: u64 = 2 * (x as u64) - 1;
        assert(10 * d * d <= 37210) by (nonlinear_arith)
            requires
                d <= 61,
        ;
        if 10 * d * d <= f9 {
            break ;
        }
        x = x - 1;
    }
    proof {
        if x > 0 {
            assert(x <= frequency) by (nonlinear_arith)
                requires
                    x >= 1,
                    10 * (2 * (x as int) - 1) * (2 * (x as int) - 1) <= 9 * (frequency as int),
            ;
        }
    }
    let y: u32 = frequency - x;
    if y > MAXIMUM_Y {
        (x, MAXIMUM_Y)
    } else {
        (x, y)
    }
}

/// Current commanded values for one of the two channels.
#[derive(Clone, Copy, Debug, PartialEq, Eq, Structural, Default)]
pub struct ChannelScalar {
    pub power: u32,
    pub x: u32,
    pub y: u32,
    pub pulse_width: u32,
}

/// Handler state: the last accepted values for channels A and B.
#[derive(Clone, Copy, Debug, PartialEq, Eq, Structural, Default)]
pub struct DGLabV2 {
    pub a_scalar: ChannelScalar,
    pub b_scalar: ChannelScalar,
}

/// Outcome of validating and applying one present command entry: the updated
/// state, or the validation error the entry provokes. Bounds are checked
/// before channel indexes, and neither check depends on the current state.
pub open spec fn scalar_entry_outcome(
    s: DGLabV2,
    index: int,
    actuator: ActuatorType,
    scalar: u32,
) -> Result<DGLabV2, ButtplugDeviceError> {
    match actuator {
        ActuatorType::Vibrate => {
            if scalar > MAXIMUM_POWER {
                Err(ButtplugDeviceError::ProtocolSpecificError(
                    ProtocolKind::DgLabV2,
                    ProtocolErrorDetail::ScalarOutOfRange { scalar, min: 0, max: MAXIMUM_POWER },
                ))
            } else if index == 0 {
                Ok(DGLabV2 { a_scalar: ChannelScalar { power: scalar, ..s.a_scalar }, ..s })
            } else if index == 1 {
                Ok(DGLabV2 { b_scalar: ChannelScalar { power: scalar, ..s.b_scalar }, ..s })
            } else {
                Err(ButtplugDeviceError::ProtocolSpecificError(
                    ProtocolKind::DgLabV2,
                    ProtocolErrorDetail::InvalidChannelIndex { index: index as usize },
                ))
            }
        },
        ActuatorType::Oscillate => {
            let eff = if scalar == MINIMUM_FREQUENCY - 1 { 0u32 } else { scalar };
            if eff != 0 && (eff < MINIMUM_FREQUENCY || eff > MAXIMUM_FREQUENCY) {
                Err(ButtplugDeviceError::ProtocolSpecificError(
                    ProtocolKind::DgLabV2,
                    ProtocolErrorDetail::ScalarOutOfRange {
                        scalar,
                        min: MINIMUM_FREQUENCY,
                        max: MAXIMUM_FREQUENCY,
                    },
                ))
            } else if index == 2 {
                Ok(DGLabV2 {
                    a_scalar: ChannelScalar {
                        x: frequency_curve_x(eff as int) as u32,
                        y: frequency_curve_y(eff as int) as u32,
                        ..s.a_scalar
                    },
                    ..s
                })
            } else if index == 3 {
                Ok(DGLabV2 {
                    b_scalar: ChannelScalar {
                        x: frequency_curve_x(eff as int) as u32,
                        y: frequency_curve_y(eff as int) as u32,
                        ..s.b_scalar
                    },
                    ..s
                })
            } else {
                Err(ButtplugDeviceError::ProtocolSpecificError(
                    ProtocolKind::DgLabV2,
                    ProtocolErrorDetail::InvalidChannelIndex { index: index as usize },
                ))
            }
        },
        ActuatorType::Inflate => {
            if scalar > MAXIMUM_PULSE_WIDTH {
                Err(ButtplugDeviceError::ProtocolSpecificError(
                    ProtocolKind::DgLabV2,
                    ProtocolErrorDetail::ScalarOutOfRange {
                        scalar,
                        min: 0,
                        max: MAXIMUM_PULSE_WIDTH,
                    },
                ))
            } else if index == 4 {
                Ok(DGLabV2 { a_scalar: ChannelScalar { pulse_width: scalar, ..s.a_scalar }, ..s })
            } else if index == 5 {
                Ok(DGLabV2 { b_scalar: ChannelScalar { pulse_width: scalar, ..s.b_scalar }, ..s })
            } else {
                Err(ButtplugDeviceError::ProtocolSpecificError(
                    ProtocolKind::DgLabV2,
                    ProtocolErrorDetail::InvalidChannelIndex { index: index as usize },
                ))
            }
        },
        _ => Err(ButtplugDeviceError::UnhandledCommand),
    }
}

/// Whether one present entry passes validation; independent of handler state.
pub open spec fn scalar_entry_valid(index: int, actuator: ActuatorType, scalar: u32) -> bool {
    match actuator {
        ActuatorType::Vibrate => scalar <= MAXIMUM_POWER && (index == 0 || index == 1),
        ActuatorType::Oscillate => {
            let eff = if scalar == MINIMUM_FREQUENCY - 1 { 0u32 } else { scalar };
            (eff == 0 || (MINIMUM_FREQUENCY <= eff && eff <= MAXIMUM_FREQUENCY)) && (index == 2
                || index == 3)
        },
        ActuatorType::Inflate => scalar <= MAXIMUM_PULSE_WIDTH && (index == 4 || index == 5),
        _ => false,
    }
}

/// Folds a command batch over the state from entry `i` on: the final state if
/// every present entry validates, or the first validation error.
pub open spec fn scalar_outcome_from(
    s: DGLabV2,
    cmds: Seq<Option<(ActuatorType, u32)>>,
    i: int,
) -> Result<DGLabV2, ButtplugDeviceError>
    decreases cmds.len() - i,
{
    if i < 0 || i >= cmds.len() {
        Ok(s)
    } else {
        match cmds[i] {
            None => scalar_outcome_from(s, cmds, i + 1),
            Some((actuator, scalar)) => match scalar_entry_outcome(s, i, actuator, scalar) {
                Ok(s2) => scalar_outcome_from(s2, cmds, i + 1),
                Err(e) => Err(e),
            },
        }
    }
}

/// Outcome of one whole `handle_scalar_cmd` batch on state `s`.
pub open spec fn scalar_outcome(s: DGLabV2, cmds: Seq<Option<(ActuatorType, u32)>>) -> Result<
    DGLabV2,
    ButtplugDeviceError,
> {
    scalar_outcome_from(s, cmds, 0)
}

/// The three write frames this family emits for state `s`: both power levels
/// on `Tx`, then channel A's and channel B's `(x, y, z)` parameters on their
/// own endpoints. Every frame reads current state for all channels.
pub open spec fn write_frames_match(s: DGLabV2, frames: Seq<HardwareWriteCmd>) -> bool {
    &&& frames.len() == 3
    &&& frames[0].endpoint == Endpoint::Tx
    &&& frames[0].data@ == le24_bytes(ab_power_pack(s.a_scalar.power, s.b_scalar.power))
    &&& !frames[0].write_with_response
    &&& frames[1].endpoint == Endpoint::Generic0
    &&& frames[1].data@ == le24_bytes(xyz_pack(s.a_scalar.x, s.a_scalar.y, s.a_scalar.pulse_width))
    &&& !frames[1].write_with_response
    &&& frames[2].endpoint == Endpoint::Generic1
    &&& frames[2].data@ == le24_bytes(xyz_pack(s.b_scalar.x, s.b_scalar.y, s.b_scalar.pulse_width))
    &&& !frames[2].write_with_response
}

/// Same three frames, wrapped as generic hardware commands.
pub open spec fn command_frames_match(s: DGLabV2, cmds: Seq<HardwareCommand>) -> bool {
    &&& cmds.len() == 3
    &&& cmds[0] matches HardwareCommand::Write(w0) && w0.endpoint == Endpoint::Tx && w0.data@
        == le24_bytes(ab_power_pack(s.a_scalar.power, s.b_scalar.power)) && !w0.write_with_response
    &&& cmds[1] matches HardwareCommand::Write(w1) && w1.endpoint == Endpoint::Generic0 && w1.data@
        == le24_bytes(xyz_pack(s.a_scalar.x, s.a_scalar.y, s.a_scalar.pulse_width))
        && !w1.write_with_response
    &&& cmds[2] matches HardwareCommand::Write(w2) && w2.endpoint == Endpoint::Generic1 && w2.data@
        == le24_bytes(xyz_pack(s.b_scalar.x, s.b_scalar.y, s.b_scalar.pulse_width))
        && !w2.write_with_response
}

/// Encodes the complete current state of `dg_lab_v2` as its three frames.
pub fn commands_vec_by_struct(dg_lab_v2: &DGLabV2) -> (r: Vec<HardwareWriteCmd>)
    ensures
        write_frames_match(*dg_lab_v2, r@),
{
    let mut r: Vec<HardwareWriteCmd> = Vec::new();
    r.push(
        HardwareWriteCmd::new(
            Endpoint::Tx,
            ab_power_to_byte(dg_lab_v2.a_scalar.power, dg_lab_v2.b_scalar.power),
            false,
        ),
    );
    r.push(
        HardwareWriteCmd::new(
            Endpoint::Generic0,
            xyz_to_bytes(
                dg_lab_v2.a_scalar.x,
                dg_lab_v2.a_scalar.y,
                dg_lab_v2.a_scalar.pulse_width,
            ),
            false,
        ),
    );
    r.push(
        HardwareWriteCmd::new(
            Endpoint::Generic1,
            xyz_to_bytes(
                dg_lab_v2.b_scalar.x,
                dg_lab_v2.b_scalar.y,
                dg_lab_v2.b_scalar.pulse_width,
            ),
            false,
        ),
    );
    r
}

impl DGLabV2 {
    /// Validates a batch of optional per-channel scalar commands, commits
    /// every update only if the whole batch validates, and encodes the
    /// complete new state as write frames.
    ///
    /// On any validation failure the first error is returned and no channel
    /// state changes: rejected updates never partially apply.
    pub fn handle_scalar_cmd(&mut self, commands: &[Option<(ActuatorType, u32)>]) -> (r: Result<
        Vec<HardwareCommand>,
        ButtplugDeviceError,
    >)
        ensures
            match r {
                Ok(cmds) => scalar_outcome(*old(self), commands@) == Ok::<
                    DGLabV2,
                    ButtplugDeviceError,
                >(*final(self)) && command_frames_match(*final(self), cmds@),
                Err(e) => scalar_outcome(*old(self), commands@) == Err::<
                    DGLabV2,
                    ButtplugDeviceError,
                >(e) && *final(self) == *old(self),
            },
    {
        let ghost s0 = *self;
        let mut staged: DGLabV2 = *self;
        let mut i: usize = 0;
        while i < commands.len()
            invariant
                i <= commands@.len(),
                scalar_outcome(s0, commands@) == scalar_outcome_from(staged, commands@, i as int),
                *self == s0,
            decreases commands@.len() - i,
        {
            match commands[i] {
                None => {},
                Some((actuator, scalar)) => {
                    match actuator {
                        ActuatorType::Vibrate => {
                            if scalar > MAXIMUM_POWER {
                                return Err(
                                    ButtplugDeviceError::ProtocolSpecificError(
                                        ProtocolKind::DgLabV2,
                                        ProtocolErrorDetail::ScalarOutOfRange {
                                            scalar,
                                            min: 0,
                                            max: MAXIMUM_POWER,
                                        },
                                    ),
                                );
                            }
                            if i == 0 {
                                staged.a_scalar.power = scalar;
                            } else if i == 1 {
                                staged.b_scalar.power = scalar;
                            } else {
                                return Err(
                                    ButtplugDeviceError::ProtocolSpecificError(
                                        ProtocolKind::DgLabV2,
                                        ProtocolErrorDetail::InvalidChannelIndex { index: i },
                                    ),
                                );
                            }
                        },
                        ActuatorType::Oscillate => {
                            let eff: u32 = if scalar == MINIMUM_FREQUENCY - 1 {
                                0
                            } else {
                                scalar
                            };
                            if eff != 0 && (eff < MINIMUM_FREQUENCY || eff > MAXIMUM_FREQUENCY) {
                                return Err(
                                    ButtplugDeviceError::ProtocolSpecificError(
                                        ProtocolKind::DgLabV2,
                                        ProtocolErrorDetail::ScalarOutOfRange {
                                            scalar,
                                            min: MINIMUM_FREQUENCY,
                                            max: MAXIMUM_FREQUENCY,
                                        },
                                    ),
                                );
                            }
                            if i == 2 {
                                let (x, y) = frequency_to_xy(eff);
                                staged.a_scalar.x = x;
                                staged.a_scalar.y = y;
                            } else if i == 3 {
                                let (x, y) = frequency_to_xy(eff);
                                staged.b_scalar.x = x;
                                staged.b_scalar.y = y;
                            } else {
                                return Err(
                                    ButtplugDeviceError::ProtocolSpecificError(
                                        ProtocolKind::DgLabV2,
                                        ProtocolErrorDetail::InvalidChannelIndex { index: i },
                                    ),
                                );
                            }
                        },
                        ActuatorType::Inflate => {
                            if scalar > MAXIMUM_PULSE_WIDTH {
                                return Err(
                                    ButtplugDeviceError::ProtocolSpecificError(
                                        ProtocolKind::DgLabV2,
                                        ProtocolErrorDetail::ScalarOutOfRange {
                                            scalar,
                                            min: 0,
                                            max: MAXIMUM_PULSE_WIDTH,
                                        },
                                    ),
                                );
                            }
                            if i == 4 {
                                staged.a_scalar.pulse_width = scalar;
                            } else if i == 5 {
                                staged.b_scalar.pulse_width = scalar;
                            } else {
                                return Err(
                                    ButtplugDeviceError::ProtocolSpecificError(
                                        ProtocolKind::DgLabV2,
                                        ProtocolErrorDetail::InvalidChannelIndex { index: i },
                                    ),
                                );
                            }
                        },
                        _ => {
                            return Err(ButtplugDeviceError::UnhandledCommand);
                        },
                    }
                },
            }
            i = i + 1;
        }
        *self = staged;
        let frames = commands_vec_by_struct(self);
        let mut out: Vec<HardwareCommand> = Vec::new();
        let mut f = frames;
        // Wrap the three frames in order as generic hardware commands.
        let w2 = f.pop().unwrap();
        let w1 = f.pop().unwrap();
        let w0 = f.pop().unwrap();
        out.push(HardwareCommand::Write(w0));
        out.push(HardwareCommand::Write(w1));
        out.push(HardwareCommand::Write(w2));
        Ok(out)
    }

    /// The frames the background keepalive task retransmits: the two
    /// per-channel parameter frames, encoding current state. The power frame
    /// is not repeated.
    pub fn repeat_commands(&self) -> (r: Vec<HardwareWriteCmd>)
        ensures
            r@.len() == 2,
            r@[0].endpoint == Endpoint::Generic0,
            r@[0].data@ == le24_bytes(
                xyz_pack(self.a_scalar.x, self.a_scalar.y, self.a_scalar.pulse_width),
            ),
            !r@[0].write_with_response,
            r@[1].endpoint == Endpoint::Generic1,
            r@[1].data@ == le24_bytes(
                xyz_pack(self.b_scalar.x, self.b_scalar.y, self.b_scalar.pulse_width),
            ),
            !r@[1].write_with_response,
    {
        let mut frames = commands_vec_by_struct(self);
        frames.remove(0);
        frames
    }
}

/// Builds the handler this family binds to freshly connected hardware.
#[derive(Clone, Copy, Debug, Default)]
pub struct DGLabV2Initializer {}

impl DGLabV2Initializer {
    /// Produces the handler in its all-zero initial state. The caller is
    /// expected to spawn a background task that, after a settle delay,
    /// periodically writes `repeat_commands` until the device disconnects.
    pub fn initialize(&mut self) -> (r: DGLabV2)
        ensures
            r == (DGLabV2 {
                a_scalar: ChannelScalar { power: 0, x: 0, y: 0, pulse_width: 0 },
                b_scalar: ChannelScalar { power: 0, x: 0, y: 0, pulse_width: 0 },
            }),
    {
        DGLabV2 {
            a_scalar: ChannelScalar { power: 0, x: 0, y: 0, pulse_width: 0 },
            b_scalar: ChannelScalar { power: 0, x: 0, y: 0, pulse_width: 0 },
        }
    }
}

/// A batch whose every present entry is within bounds and addresses a defined
/// channel is never rejected: the fold always reaches `Ok`.
pub proof fn lemma_valid_commands_accepted_from(
    s: DGLabV2,
    cmds: Seq<Option<(ActuatorType, u32)>>,
    i: int,
)
    requires
        forall|j: int, actuator: ActuatorType, scalar: u32|
            0 <= j < cmds.len() && cmds[j] == Some((actuator, scalar)) ==> scalar_entry_valid(
                j,
                actuator,
                scalar,
            ),
        0 <= i <= cmds.len(),
    ensures
        scalar_outcome_from(s, cmds, i) is Ok,
    decreases cmds.len() - i,
{
    if i < cmds.len() {
        match cmds[i] {
            None => {
                lemma_valid_commands_accepted_from(s, cmds, i + 1);
            },
            Some((actuator, scalar)) => {
                assert(scalar_entry_valid(i, actuator, scalar));
                let s2 = scalar_entry_outcome(s, i, actuator, scalar)->Ok_0;
                lemma_valid_commands_accepted_from(s2, cmds, i + 1);
            },
        }
    }
}

/// For all scalar inputs within this family's documented bounds,
/// `handle_scalar_cmd` never returns a validation error.
pub proof fn lemma_valid_commands_accepted(s: DGLabV2, cmds: Seq<Option<(ActuatorType, u32)>>)
    requires
        forall|j: int, actuator: ActuatorType, scalar: u32|
            0 <= j < cmds.len() && cmds[j] == Some((actuator, scalar)) ==> scalar_entry_valid(
                j,
                actuator,
                scalar,
            ),
    ensures
        scalar_outcome(s, cmds) is Ok,
{
    lemma_valid_commands_accepted_from(s, cmds, 0);
}

/// The emitted frames are a pure function of channel state: two encodes of
/// equal states produce byte-identical frames.
pub proof fn lemma_frames_deterministic(
    s1: DGLabV2,
    s2: DGLabV2,
    f1: Seq<HardwareWriteCmd>,
    f2: Seq<HardwareWriteCmd>,
)
    requires
        s1 == s2,
        write_frames_match(s1, f1),
        write_frames_match(s2, f2),
    ensures
        forall|k: int| 0 <= k < 3 ==> #[trigger] f1[k].data@ == f2[k].data@,
        forall|k: int| 0 <= k < 3 ==> #[trigger] f1[k].endpoint == f2[k].endpoint,
{
}

} // verus!
