//! Handler for the cipher-framed single-motor family.
//!
//! Every frame is a 12-byte sequence: a fixed lead byte, a 10-value payload
//! and a trailing checksum, passed through a byte-substitution stream cipher
//! whose rolling key is selected by the low two bits of the previous output
//! byte and the position in the frame. The cipher is proprietary obfuscation,
//! not a security boundary: it is treated here as an exact bit-transform with
//! a proved round trip. Battery reads follow a request-then-notification
//! pattern; the waiting logic is a pure function over the event stream so a
//! disconnect always resolves the wait.

use vstd::prelude::*;

use crate::errors::{ButtplugDeviceError, ProtocolErrorDetail, ProtocolKind};
use crate::hardware::{
    Endpoint, HardwareCommand, HardwareEvent, HardwareSubscribeCmd, HardwareUnsubscribeCmd,
    HardwareWriteCmd, ProtocolKeepaliveStrategy,
};
use crate::messages::{
    ButtplugServerMessage, LinearCmd, OkMessage, SensorReadCmd, SensorReading, SensorSubscribeCmd,
    SensorType,
};

verus! {

/// Fixed interval, in milliseconds, between interpolated linear-move writes.
pub const LINEAR_CONTROL_INTERVAL: u32 = 100;

/// Lead byte of every outgoing frame.
pub const FRAME_LEAD_BYTE: u32 = 35;

/// Number of cipher positions the rolling-key table covers: the fixed
/// protocol frame length.
pub const FRAME_LENGTH: usize = 12;

/// Row 0 of the rolling-key table, indexed by frame position.
pub open spec fn galaku_key_row_0(t: int) -> u32 {
    if t == 0 {
        0
    } else if t == 1 {
        24
    } else if t == 2 {
        152
    } else if t == 3 {
        247
    } else if t == 4 {
        165
    } else if t == 5 {
        61
    } else if t == 6 {
        13
    } else if t == 7 {
        41
    } else if t == 8 {
        37
    } else if t == 9 {
        80
    } else if t == 10 {
        68
    } else {
        70
    }
}

/// Row 1 of the rolling-key table, indexed by frame position.
pub open spec fn galaku_key_row_1(t: int) -> u32 {
    if t == 0 {
        0
    } else if t == 1 {
        69
    } else if t == 2 {
        110
    } else if t == 3 {
        106
    } else if t == 4 {
        111
    } else if t == 5 {
        120
    } else if t == 6 {
        32
    } else if t == 7 {
        83
    } else if t == 8 {
        45
    } else if t == 9 {
        49
    } else if t == 10 {
        46
    } else {
        55
    }
}

/// Row 2 of the rolling-key table, indexed by frame position.
pub open spec fn galaku_key_row_2(t: int) -> u32 {
    if t == 0 {
        0
    } else if t == 1 {
        101
    } else if t == 2 {
        120
    } else if t == 3 {
        32
    } else if t == 4 {
        84
    } else if t == 5 {
        111
    } else if t == 6 {
        121
    } else if t == 7 {
        115
    } else if t == 8 {
        10
    } else if t == 9 {
        142
    } else if t == 10 {
        157
    } else {
        163
    }
}

/// Row 3 of the rolling-key table, indexed by frame position.
pub open spec fn galaku_key_row_3(t: int) -> u32 {
    if t == 0 {
        0
    } else if t == 1 {
        197
    } else if t == 2 {
        214
    } else if t == 3 {
        231
    } else if t == 4 {
        248
    } else if t == 5 {
        10
    } else if t == 6 {
        50
    } else if t == 7 {
        32
    } else if t == 8 {
        111
    } else if t == 9 {
        98
    } else if t == 10 {
        13
    } else {
        10
    }
}

/// Rolling key byte for a frame position: the row is picked by the low two
/// bits of the previous output byte, the column by the position.
pub open spec fn galaku_key(prev: int, t: int) -> u32 {
    let e = prev % 4;
    if e == 0 {
        galaku_key_row_0(t)
    } else if e == 1 {
        galaku_key_row_1(t)
    } else if e == 2 {
        galaku_key_row_2(t)
    } else {
        galaku_key_row_3(t)
    }
}

/// Every entry of the rolling-key table fits in a byte.
pub proof fn lemma_galaku_key_bound(prev: int, t: int)
    ensures
        galaku_key(prev, t) <= 248,
{
}

/// Looks up the rolling key byte for position `t` after output byte `r`.
pub fn get_tab_key(r: usize, t: usize) -> (key: u32)
    requires
        t < FRAME_LENGTH,
    ensures
        key == galaku_key(r as int, t as int),
        key <= 248,
{
    let e: usize = 3 & r;
    proof {
        assert(3 & r == r % 4) by (bit_vector);
    }
    if e == 0 {
        if t == 0 {
            0
        } else if t == 1 {
            24
        } else if t == 2 {
            152
        } else if t == 3 {
            247
        } else if t == 4 {
            165
        } else if t == 5 {
            61
        } else if t == 6 {
            13
        } else if t == 7 {
            41
        } else if t == 8 {
            37
        } else if t == 9 {
            80
        } else if t == 10 {
            68
        } else {
            70
        }
    } else if e == 1 {
        if t == 0 {
            0
        } else if t == 1 {
            69
        } else if t == 2 {
            110
        } else if t == 3 {
            106
        } else if t == 4 {
            111
        } else if t == 5 {
            120
        } else if t == 6 {
            32
        } else if t == 7 {
            83
        } else if t == 8 {
            45
        } else if t == 9 {
            49
        } else if t == 10 {
            46
        } else {
            55
        }
    } else if e == 2 {
        if t == 0 {
            0
        } else if t == 1 {
            101
        } else if t == 2 {
            120
        } else if t == 3 {
            32
        } else if t == 4 {
            84
        } else if t == 5 {
            111
        } else if t == 6 {
            121
        } else if t == 7 {
            115
        } else if t == 8 {
            10
        } else if t == 9 {
            142
        } else if t == 10 {
            157
        } else {
            163
        }
    } else {
        if t == 0 {
            0
        } else if t == 1 {
            197
        } else if t == 2 {
            214
        } else if t == 3 {
            231
        } else if t == 4 {
            248
        } else if t == 5 {
            10
        } else if t == 6 {
            50
        } else if t == 7 {
            32
        } else if t == 8 {
            111
        } else if t == 9 {
            98
        } else if t == 10 {
            13
        } else {
            10
        }
    }
}

/// Value at position `i` of the encrypted frame: the first value passes
/// through; each later value is keyed off the previous *output* value `p` as
/// `(key ^ first ^ value) + key` with `key = galaku_key(p, i)`.
pub open spec fn encrypt_at(data: Seq<u32>, i: int) -> int
    decreases i,
{
    if i <= 0 {
        data[0] as int
    } else {
        let key = galaku_key(encrypt_at(data, i - 1), i);
        (key ^ data[0] ^ data[i]) + key
    }
}

/// The whole encrypted frame for `data`.
pub open spec fn encrypt_seq(data: Seq<u32>) -> Seq<u32> {
    Seq::new(data.len(), |i: int| encrypt_at(data, i) as u32)
}

/// Value at position `i` of the decrypted frame: the first value passes
/// through; each later value is keyed off the previous *input* value, undoing
/// the encryption of a value that was below 256.
pub open spec fn decrypt_at(data: Seq<u32>, i: int) -> u32 {
    if i <= 0 {
        data[0]
    } else {
        let key = galaku_key(data[i - 1] as int, i);
        let mask = key ^ data[0];
        if data[i] < key {
            (((data[i] + 256 - key)) as u32) ^ mask
        } else {
            ((data[i] - key) as u32) ^ mask
        }
    }
}

/// The whole decrypted frame for `data`.
pub open spec fn decrypt_seq(data: Seq<u32>) -> Seq<u32> {
    Seq::new(data.len(), |i: int| decrypt_at(data, i))
}

/// Encrypts a frame of at most the fixed protocol length.
///
/// Values must stay below `2^31` so the keyed sum cannot overflow; frames on
/// the wire only ever carry values below 256.
pub fn encrypt(data: Vec<u32>) -> (r: Vec<u32>)
    requires
        0 < data@.len() <= FRAME_LENGTH,
        forall|i: int| 0 <= i < data@.len() ==> data@[i] < 0x8000_0000,
    ensures
        r@.len() == data@.len(),
        forall|i: int| 0 <= i < r@.len() ==> r@[i] as int == encrypt_at(data@, i),
{
    let mut new_data: Vec<u32> = Vec::new();
    new_data.push(data[0]);
    let mut i: usize = 1;
    while i < data.len()
        invariant
            1 <= i <= data@.len(),
            data@.len() <= FRAME_LENGTH,
            forall|j: int| 0 <= j < data@.len() ==> data@[j] < 0x8000_0000,
            new_data@.len() == i,
            forall|j: int| 0 <= j < i ==> new_data@[j] as int == encrypt_at(data@, j),
        decreases data@.len() - i,
    {
        let prev = new_data[i - 1];
        let key = get_tab_key(prev as usize, i);
        let d0 = data[0];
        let di = data[i];
        assert((key ^ d0 ^ di) < 0x8000_0000u32) by (bit_vector)
            requires
                key < 0x8000_0000u32,
                d0 < 0x8000_0000u32,
                di < 0x8000_0000u32,
        ;
        let u: u32 = (key ^ d0 ^ di) + key;
        new_data.push(u);
        i = i + 1;
    }
    new_data
}

/// Decrypts a frame of at most the fixed protocol length, inverting
/// `encrypt` on frames of byte values.
pub fn decrypt(data: Vec<u32>) -> (r: Vec<u32>)
    requires
        0 < data@.len() <= FRAME_LENGTH,
        forall|i: int| 0 <= i < data@.len() ==> data@[i] < 0x8000_0000,
    ensures
        r@.len() == data@.len(),
        forall|i: int| 0 <= i < r@.len() ==> r@[i] == decrypt_at(data@, i),
{
    let mut new_data: Vec<u32> = Vec::new();
    new_data.push(data[0]);
    let mut i: usize = 1;
    while i < data.len()
        invariant
            1 <= i <= data@.len(),
            data@.len() <= FRAME_LENGTH,
            forall|j: int| 0 <= j < data@.len() ==> data@[j] < 0x8000_0000,
            new_data@.len() == i,
            forall|j: int| 0 <= j < i ==> new_data@[j] == decrypt_at(data@, j),
        decreases data@.len() - i,
    {
        let key = get_tab_key(data[i - 1] as usize, i);
        let mask = key ^ data[0];
        let di = data[i];
        let u: u32 = if di < key {
            (di + 256 - key) ^ mask
        } else {
            (di - key) ^ mask
        };
        new_data.push(u);
        i = i + 1;
    }
    new_data
}

/// Decrypting an encrypted frame of byte values gives the frame back,
/// position by position.
pub proof fn lemma_decrypt_encrypt_at(data: Seq<u32>, i: int)
    requires
        0 < data.len() <= FRAME_LENGTH,
        forall|j: int| 0 <= j < data.len() ==> data[j] < 256,
        0 <= i < data.len(),
    ensures
        0 <= encrypt_at(data, i) < 504,
        decrypt_at(encrypt_seq(data), i) == data[i],
    decreases i,
{
    if i == 0 {
        assert(decrypt_at(encrypt_seq(data), 0) == encrypt_seq(data)[0]);
    } else {
        lemma_decrypt_encrypt_at(data, i - 1);
        let prev = encrypt_at(data, i - 1);
        let key = galaku_key(prev, i);
        lemma_galaku_key_bound(prev, i);
        let d0 = data[0];
        let di = data[i];
        assert((key ^ d0 ^ di) < 256 && ((key ^ d0 ^ di) ^ (key ^ d0)) == di) by (bit_vector)
            requires
                key < 256,
                d0 < 256,
                di < 256,
        ;
        let c = encrypt_seq(data)[i];
        assert(c as int == (key ^ d0 ^ di) + key);
        assert(encrypt_seq(data)[i - 1] as int == prev);
        assert(encrypt_seq(data)[0] == d0);
        assert(c >= key);
        assert((c - key) as u32 == key ^ d0 ^ di);
        assert(decrypt_at(encrypt_seq(data), i) == ((key ^ d0 ^ di) ^ (key ^ d0)));
    }
}

/// Round trip: decrypting the encryption of any frame of the fixed protocol
/// length (or shorter), whose values are bytes, yields the frame unchanged.
pub proof fn lemma_decrypt_encrypt_roundtrip(data: Seq<u32>)
    requires
        0 < data.len() <= FRAME_LENGTH,
        forall|j: int| 0 <= j < data.len() ==> data[j] < 256,
    ensures
        decrypt_seq(encrypt_seq(data)) =~= data,
{
    assert forall|i: int| 0 <= i < data.len() implies decrypt_seq(encrypt_seq(data))[i]
        == data[i] by {
        lemma_decrypt_encrypt_at(data, i);
    }
}

/// Sum of a sequence of values.
pub open spec fn seq_sum(data: Seq<u32>) -> int
    decreases data.len(),
{
    if data.len() == 0 {
        0
    } else {
        seq_sum(data.drop_last()) + data.last()
    }
}

/// A payload as it goes to the cipher: the lead byte, the payload, and a
/// checksum summing everything before it.
pub open spec fn wire_frame(data: Seq<u32>) -> Seq<u32> {
    seq![FRAME_LEAD_BYTE] + data + seq![(FRAME_LEAD_BYTE + seq_sum(data)) as u32]
}

/// Frames a payload and encrypts it for the wire: lead byte, payload,
/// checksum, then the cipher, truncating each value to its wire byte.
pub fn send_bytes(data: Vec<u32>) -> (r: Vec<u8>)
    requires
        data@.len() == FRAME_LENGTH - 2,
        forall|i: int| 0 <= i < data@.len() ==> data@[i] <= 255,
    ensures
        r@.len() == FRAME_LENGTH,
        forall|i: int| 0 <= i < r@.len() ==> r@[i] == (encrypt_at(wire_frame(data@), i) % 256) as u8,
{
    let ghost gdata = data@;
    let mut new_data: Vec<u32> = Vec::new();
    new_data.push(FRAME_LEAD_BYTE);
    let mut i: usize = 0;
    let mut sum: u32 = FRAME_LEAD_BYTE;
    while i < data.len()
        invariant
            i <= gdata.len(),
            gdata.len() == FRAME_LENGTH - 2,
            data@ == gdata,
            forall|j: int| 0 <= j < gdata.len() ==> gdata[j] <= 255,
            new_data@ =~= seq![FRAME_LEAD_BYTE] + gdata.take(i as int),
            sum == FRAME_LEAD_BYTE + seq_sum(gdata.take(i as int)),
            sum <= FRAME_LEAD_BYTE + 255 * i,
        decreases gdata.len() - i,
    {
        new_data.push(data[i]);
        proof {
            assert(gdata.take(i + 1).drop_last() =~= gdata.take(i as int));
            assert(gdata.take(i + 1).last() == gdata[i as int]);
        }
        sum = sum + data[i];
        proof {
            assert(new_data@ =~= seq![FRAME_LEAD_BYTE] + gdata.take(i + 1));
        }
        i = i + 1;
    }
    proof {
        assert(gdata.take(gdata.len() as int) =~= gdata);
    }
    new_data.push(sum);
    proof {
        assert(new_data@ =~= wire_frame(gdata));
    }
    let encrypted = encrypt(new_data);
    let mut out: Vec<u8> = Vec::new();
    let mut k: usize = 0;
    while k < encrypted.len()
        invariant
            k <= encrypted@.len(),
            encrypted@.len() == FRAME_LENGTH,
            forall|j: int| 0 <= j < encrypted@.len() ==> encrypted@[j] as int == encrypt_at(
                wire_frame(gdata),
                j,
            ),
            out@.len() == k,
            forall|j: int| 0 <= j < k ==> out@[j] == (encrypt_at(wire_frame(gdata), j) % 256) as u8,
        decreases encrypted@.len() - k,
    {
        out.push((encrypted[k] % 256) as u8);
        k = k + 1;
    }
    out
}

/// Extracts the normalized reading carried at the fixed payload position of
/// a decrypted notification frame.
pub fn read_value(data: Vec<u8>) -> (r: u32)
    requires
        4 < data@.len() <= FRAME_LENGTH,
    ensures
        r == decrypt_at(data@.map_values(|b: u8| b as u32), 4),
        r < 256,
{
    let mut uint32_data: Vec<u32> = Vec::new();
    let mut i: usize = 0;
    while i < data.len()
        invariant
            i <= data@.len(),
            uint32_data@.len() == i,
            forall|j: int| 0 <= j < i ==> uint32_data@[j] == data@[j] as u32,
        decreases data@.len() - i,
    {
        uint32_data.push(data[i] as u32);
        i = i + 1;
    }
    proof {
        assert(uint32_data@ =~= data@.map_values(|b: u8| b as u32));
    }
    let decrypted = decrypt(uint32_data);
    let r = decrypted[4];
    proof {
        let s = data@.map_values(|b: u8| b as u32);
        let key = galaku_key(s[3] as int, 4);
        lemma_galaku_key_bound(s[3] as int, 4);
        let x0 = s[0];
        let x4 = s[4];
        let mask = key ^ x0;
        assert(mask < 256 && (x4 < key ==> (((x4 + 256 - key) as u32) ^ mask) < 256) && (x4 >= key
            ==> (((x4 - key) as u32) ^ mask) < 256)) by (bit_vector)
            requires
                key < 256,
                x0 < 256,
                x4 < 256,
                mask == key ^ x0,
        ;
    }
    r
}

/// Payload of a vibrate command carrying one scalar.
pub open spec fn vibrate_payload(scalar: u32) -> Seq<u32> {
    seq![90u32, 0u32, 0u32, 1u32, 49u32, scalar, 0u32, 0u32, 0u32, 0u32]
}

/// Payload of a battery read request.
pub open spec fn battery_request_payload() -> Seq<u32> {
    seq![90u32, 0u32, 0u32, 1u32, 19u32, 0u32, 0u32, 0u32, 0u32, 0u32]
}

/// Whether `bytes` is the encrypted wire frame for `payload`.
pub open spec fn frame_for_payload_matches(payload: Seq<u32>, bytes: Seq<u8>) -> bool {
    &&& bytes.len() == payload.len() + 2
    &&& forall|i: int|
        0 <= i < bytes.len() ==> bytes[i] == (encrypt_at(wire_frame(payload), i) % 256) as u8
}

/// Whether `bytes` is the encrypted vibrate frame for `scalar`.
pub open spec fn vibrate_frame_matches(scalar: u32, bytes: Seq<u8>) -> bool {
    frame_for_payload_matches(vibrate_payload(scalar), bytes)
}

/// Encodes the vibrate frame for one scalar.
pub fn vibrate_data(scalar: u32) -> (r: Vec<u8>)
    requires
        scalar <= 255,
    ensures
        vibrate_frame_matches(scalar, r@),
{
    let data: Vec<u32> = vec![90u32, 0u32, 0u32, 1u32, 49u32, scalar, 0u32, 0u32, 0u32, 0u32];
    proof {
        assert(data@ =~= vibrate_payload(scalar));
    }
    send_bytes(data)
}

/// Wraps the vibrate frame for one scalar as a write to the command endpoint.
pub fn vibrate_command(scalar: u32) -> (r: HardwareWriteCmd)
    requires
        scalar <= 255,
    ensures
        r.endpoint == Endpoint::Tx,
        vibrate_frame_matches(scalar, r.data@),
        !r.write_with_response,
{
    HardwareWriteCmd::new(Endpoint::Tx, vibrate_data(scalar), false)
}

/// Rounds `n / d` to the nearest integer, halves away from zero; `d` must be
/// positive.
pub open spec fn round_half_away(n: int, d: int) -> int {
    if n >= 0 {
        (2 * n + d) / (2 * d)
    } else {
        -((2 * (-n) + d) / (2 * d))
    }
}

/// The single interpolated value written during one linear move: the last
/// known value plus the per-step increment, rounded.
pub open spec fn linear_step_value(v: int, target: int, steps: int) -> int {
    v + round_half_away(target - v, steps)
}

/// All write values a sequence of requested moves emits, starting from last
/// known value `v`: each move contributes one write per full control
/// interval in its duration, all carrying that move's interpolated value.
pub open spec fn linear_values(v: int, vectors: Seq<crate::messages::VectorSubcommand>, i: int)
    -> Seq<u32>
    decreases vectors.len() - i,
{
    if i < 0 || i >= vectors.len() {
        Seq::empty()
    } else {
        let steps = vectors[i].duration as int / (LINEAR_CONTROL_INTERVAL as int);
        let target = vectors[i].position as int;
        Seq::new(steps as nat, |k: int| linear_step_value(v, target, steps) as u32)
            + linear_values(target, vectors, i + 1)
    }
}

/// The baseline value that remains after a sequence of requested moves.
pub open spec fn linear_final(v: int, vectors: Seq<crate::messages::VectorSubcommand>, i: int)
    -> int
    decreases vectors.len() - i,
{
    if i < 0 || i >= vectors.len() {
        v
    } else {
        linear_final(vectors[i].position as int, vectors, i + 1)
    }
}

/// The validation error reported when the device drops the connection while
/// a battery read is waiting for its notification.
pub open spec fn disconnect_error() -> ButtplugDeviceError {
    ButtplugDeviceError::ProtocolSpecificError(
        ProtocolKind::GalakuOneEngine,
        ProtocolErrorDetail::DisconnectedWhileReading,
    )
}

/// Whether an event is the battery notification a pending read consumes.
pub open spec fn battery_notification_matches(event: HardwareEvent) -> bool {
    event matches HardwareEvent::Notification(endpoint, data) && endpoint
        == Endpoint::RxBLEBattery && 4 < data@.len() <= FRAME_LENGTH
}

/// Resolution of a battery read against the events from position `i` on: the
/// decoded reading at the first battery notification, or the disconnect
/// error if the device disconnects first or the stream ends.
pub open spec fn battery_wait_outcome(events: Seq<HardwareEvent>, i: int) -> Result<
    u32,
    ButtplugDeviceError,
>
    decreases events.len() - i,
{
    if i < 0 || i >= events.len() {
        Err(disconnect_error())
    } else {
        match events[i] {
            HardwareEvent::Disconnected => Err(disconnect_error()),
            HardwareEvent::Notification(endpoint, data) => {
                if endpoint == Endpoint::RxBLEBattery && 4 < data@.len() <= FRAME_LENGTH {
                    Ok(decrypt_at(data@.map_values(|b: u8| b as u32), 4))
                } else {
                    battery_wait_outcome(events, i + 1)
                }
            },
        }
    }
}

/// What a pending battery read does with one event from the device.
#[derive(Clone, Debug)]
pub enum BatteryWaitStep {
    /// The event was unrelated; keep waiting.
    KeepWaiting,
    /// A battery notification arrived; the read resolves to this reading.
    Reading(SensorReading),
    /// The device disconnected; the read fails definitively.
    Failed(ButtplugDeviceError),
}

/// Stateful translator for one connected device of this family.
pub struct GalakuOneEngine {
    /// Last accepted vibrate value; the baseline for linear interpolation.
    pub vibrate_value: u32,
}

impl GalakuOneEngine {
    /// Produces the handler for a freshly connected device, fully off.
    pub fn new() -> (r: Self)
        ensures
            r.vibrate_value == 0,
    {
        Self { vibrate_value: 0 }
    }

    /// This family deactivates on silence: the caller must retransmit the
    /// last frames it was handed at a fixed interval.
    pub fn keepalive_strategy(&self) -> (r: ProtocolKeepaliveStrategy)
        ensures
            r == ProtocolKeepaliveStrategy::RepeatLastPacketStrategy,
    {
        ProtocolKeepaliveStrategy::RepeatLastPacketStrategy
    }

    /// Stores the new vibrate value and emits its frame. The scalar is the
    /// single wire byte the frame carries.
    pub fn handle_scalar_vibrate_cmd(&mut self, _index: u32, scalar: u32) -> (r: Result<
        Vec<HardwareCommand>,
        ButtplugDeviceError,
    >)
        requires
            scalar <= 255,
        ensures
            final(self).vibrate_value == scalar,
            r is Ok,
            r->Ok_0@.len() == 1,
            r->Ok_0@[0] matches HardwareCommand::Write(w) && w.endpoint == Endpoint::Tx
                && vibrate_frame_matches(scalar, w.data@) && !w.write_with_response,
    {
        self.vibrate_value = scalar;
        let mut out: Vec<HardwareCommand> = Vec::new();
        out.push(HardwareCommand::Write(vibrate_command(scalar)));
        Ok(out)
    }

    /// Decomposes each requested move into one write per full control
    /// interval, all carrying the value interpolated between the last known
    /// value and the move's target, and persists the target as the new
    /// baseline.
    pub fn handle_linear_cmd(&mut self, message: LinearCmd) -> (r: Result<
        Vec<HardwareCommand>,
        ButtplugDeviceError,
    >)
        requires
            old(self).vibrate_value <= 255,
            forall|i: int|
                0 <= i < message.vectors@.len() ==> (#[trigger] message.vectors@[i]).position
                    <= 100,
        ensures
            r is Ok,
            final(self).vibrate_value as int == linear_final(
                old(self).vibrate_value as int,
                message.vectors@,
                0,
            ),
            final(self).vibrate_value <= 255,
            r->Ok_0@.len() == linear_values(
                old(self).vibrate_value as int,
                message.vectors@,
                0,
            ).len(),
            forall|k: int|
                0 <= k < r->Ok_0@.len() ==> ((#[trigger] r->Ok_0@[k]) matches HardwareCommand::Write(w)
                    && w.endpoint == Endpoint::Tx && !w.write_with_response
                    && vibrate_frame_matches(
                    linear_values(old(self).vibrate_value as int, message.vectors@, 0)[k],
                    w.data@,
                )),
    {
        let ghost v0 = old(self).vibrate_value as int;
        let ghost vecs = message.vectors@;
        let mut commands: Vec<HardwareCommand> = Vec::new();
        let ghost mut emitted: Seq<u32> = Seq::empty();
        let mut j: usize = 0;
        while j < message.vectors.len()
            invariant
                j <= vecs.len(),
                message.vectors@ == vecs,
                forall|t: int| 0 <= t < vecs.len() ==> (#[trigger] vecs[t]).position <= 100,
                self.vibrate_value <= 255,
                linear_values(v0, vecs, 0) =~= emitted + linear_values(
                    self.vibrate_value as int,
                    vecs,
                    j as int,
                ),
                linear_final(v0, vecs, 0) == linear_final(self.vibrate_value as int, vecs, j as int),
                commands@.len() == emitted.len(),
                forall|t: int|
                    0 <= t < emitted.len() ==> ((#[trigger] commands@[t])
                        matches HardwareCommand::Write(w) && w.endpoint == Endpoint::Tx
                        && !w.write_with_response && vibrate_frame_matches(emitted[t], w.data@)),
            decreases vecs.len() - j,
        {
            let vector = message.vectors[j];
            let step_num: u32 = vector.duration / LINEAR_CONTROL_INTERVAL;
            let target: u32 = vector.position;
            let v: u32 = self.vibrate_value;
            let ghost emitted_before = emitted;
            let ghost steps = step_num as int;
            let ghost block = Seq::new(
                steps as nat,
                |k: int| linear_step_value(v as int, target as int, steps) as u32,
            );
            if step_num > 0 {
                let diff: i64 = target as i64 - v as i64;
                let d: i64 = step_num as i64;
                let step: i64 = if diff >= 0 {
                    (2 * diff + d) / (2 * d)
                } else {
                    -((2 * (-diff) + d) / (2 * d))
                };
                proof {
                    if diff >= 0 {
                        assert(0 <= (2 * diff + d) / (2 * d) <= diff) by (nonlinear_arith)
                            requires
                                diff >= 0,
                                d >= 1,
                        ;
                    } else {
                        assert(0 <= (2 * (-diff) + d) / (2 * d) <= -diff) by (nonlinear_arith)
                            requires
                                diff < 0,
                                d >= 1,
                        ;
                    }
                }
                let val_i: i64 = v as i64 + step;
                let val: u32 = val_i as u32;
                proof {
                    assert(val as int == linear_step_value(v as int, target as int, steps));
                    assert(val <= 255);
                }
                let mut c: u32 = 0;
                while c < step_num
                    invariant
                        c <= step_num,
                        val <= 255,
                        commands@.len() == emitted.len(),
                        emitted =~= emitted_before + Seq::new(c as nat, |k: int| val),
                        forall|t: int|
                            0 <= t < emitted.len() ==> ((#[trigger] commands@[t])
                                matches HardwareCommand::Write(w) && w.endpoint == Endpoint::Tx
                                && !w.write_with_response && vibrate_frame_matches(
                                emitted[t],
                                w.data@,
                            )),
                    decreases step_num - c,
                {
                    commands.push(HardwareCommand::Write(vibrate_command(val)));
                    proof {
                        emitted = emitted.push(val);
                        assert(emitted =~= emitted_before + Seq::new((c + 1) as nat, |k: int| val));
                    }
                    c = c + 1;
                }
                proof {
                    assert(emitted =~= emitted_before + block);
                }
            } else {
                proof {
                    assert(block =~= Seq::<u32>::empty());
                    assert(emitted =~= emitted_before + block);
                }
            }
            self.vibrate_value = target;
            proof {
                assert(linear_values(v as int, vecs, j as int) == block + linear_values(
                    target as int,
                    vecs,
                    j + 1,
                ));
                assert(emitted + linear_values(target as int, vecs, j + 1) =~= emitted_before + (
                block + linear_values(target as int, vecs, j + 1)));
                assert(linear_values(v0, vecs, 0) =~= emitted + linear_values(
                    target as int,
                    vecs,
                    j + 1,
                ));
            }
            j = j + 1;
        }
        proof {
            assert(linear_values(v0, vecs, j as int) =~= Seq::<u32>::empty());
            assert(linear_values(v0, vecs, 0) =~= emitted);
        }
        Ok(commands)
    }

    /// Dispatches a sensor subscription: battery reads are served from the
    /// battery notification endpoint; any other sensor kind is unhandled.
    pub fn handle_sensor_subscribe_cmd(&self, message: &SensorSubscribeCmd) -> (r: Result<
        (HardwareSubscribeCmd, ButtplugServerMessage),
        ButtplugDeviceError,
    >)
        ensures
            match r {
                Ok((cmd, reply)) => message.sensor_type == SensorType::Battery && cmd.endpoint
                    == Endpoint::RxBLEBattery && (reply matches ButtplugServerMessage::OkMsg(ok)
                    && ok.id == message.id),
                Err(e) => message.sensor_type != SensorType::Battery && e
                    == ButtplugDeviceError::UnhandledCommand,
            },
    {
        match message.sensor_type {
            SensorType::Battery => Ok(
                (
                    HardwareSubscribeCmd::new(Endpoint::RxBLEBattery),
                    ButtplugServerMessage::OkMsg(OkMessage::new(message.id)),
                ),
            ),
            _ => Err(ButtplugDeviceError::UnhandledCommand),
        }
    }

    /// Dispatches a sensor unsubscription; mirrors
    /// [`Self::handle_sensor_subscribe_cmd`].
    pub fn handle_sensor_unsubscribe_cmd(&self, message_id: u32, sensor_type: SensorType) -> (r:
        Result<(HardwareUnsubscribeCmd, ButtplugServerMessage), ButtplugDeviceError>)
        ensures
            match r {
                Ok((cmd, reply)) => sensor_type == SensorType::Battery && cmd.endpoint
                    == Endpoint::RxBLEBattery && (reply matches ButtplugServerMessage::OkMsg(ok)
                    && ok.id == message_id),
                Err(e) => sensor_type != SensorType::Battery && e
                    == ButtplugDeviceError::UnhandledCommand,
            },
    {
        match sensor_type {
            SensorType::Battery => Ok(
                (
                    HardwareUnsubscribeCmd::new(Endpoint::RxBLEBattery),
                    ButtplugServerMessage::OkMsg(OkMessage::new(message_id)),
                ),
            ),
            _ => Err(ButtplugDeviceError::UnhandledCommand),
        }
    }

    /// The transport operations that start a battery read: subscribe to the
    /// battery notification endpoint, then write the read request with an
    /// acknowledgement demanded. The caller then feeds device events to
    /// [`Self::battery_level_on_event`] until the read resolves.
    pub fn handle_battery_level_cmd(&self, _message: &SensorReadCmd) -> (r: Vec<HardwareCommand>)
        ensures
            r@.len() == 2,
            r@[0] matches HardwareCommand::Subscribe(s) && s.endpoint == Endpoint::RxBLEBattery,
            r@[1] matches HardwareCommand::Write(w) && w.endpoint == Endpoint::Tx
                && frame_for_payload_matches(battery_request_payload(), w.data@)
                && w.write_with_response,
    {
        let data: Vec<u32> = vec![90u32, 0u32, 0u32, 1u32, 19u32, 0u32, 0u32, 0u32, 0u32, 0u32];
        proof {
            assert(data@ =~= battery_request_payload());
        }
        let mut out: Vec<HardwareCommand> = Vec::new();
        out.push(HardwareCommand::Subscribe(HardwareSubscribeCmd::new(Endpoint::RxBLEBattery)));
        out.push(HardwareCommand::Write(HardwareWriteCmd::new(Endpoint::Tx, send_bytes(data), true)));
        out
    }
}

/// Builds the handler this family binds to freshly connected hardware.
#[derive(Clone, Copy, Debug, Default)]
pub struct GalakuOneEngineInitializer {}

impl GalakuOneEngineInitializer {
    /// Produces the handler bound to the device, fully off; this family
    /// needs no background bring-up beyond its keepalive declaration.
    pub fn initialize(&mut self) -> (r: GalakuOneEngine)
        ensures
            r.vibrate_value == 0,
    {
        GalakuOneEngine::new()
    }
}

/// What a pending battery read does with one device event: unrelated
/// notifications (wrong endpoint, or a payload that is not a protocol frame)
/// are ignored and waiting continues; a battery notification resolves the
/// read; a disconnect fails it definitively.
pub fn battery_level_on_event(message: &SensorReadCmd, event: &HardwareEvent) -> (r:
    BatteryWaitStep)
    ensures
        event matches HardwareEvent::Disconnected ==> r matches BatteryWaitStep::Failed(e) && e
            == disconnect_error(),
        !battery_notification_matches(*event) && !(event matches HardwareEvent::Disconnected)
            ==> r is KeepWaiting,
        battery_notification_matches(*event) ==> (r matches BatteryWaitStep::Reading(rd)
            && rd.device_index == message.device_index && rd.sensor_index == message.sensor_index
            && rd.sensor_type == message.sensor_type && (event matches HardwareEvent::Notification(
            _ep,
            data,
        ) && rd.data@ == seq![decrypt_at(data@.map_values(|b: u8| b as u32), 4) as i32])),
{
    match event {
        HardwareEvent::Notification(endpoint, data) => {
            if *endpoint != Endpoint::RxBLEBattery {
                return BatteryWaitStep::KeepWaiting;
            }
            if data.len() <= 4 || data.len() > FRAME_LENGTH {
                return BatteryWaitStep::KeepWaiting;
            }
            let mut payload: Vec<u8> = Vec::new();
            let mut i: usize = 0;
            while i < data.len()
                invariant
                    i <= data@.len(),
                    payload@ =~= data@.take(i as int),
                decreases data@.len() - i,
            {
                payload.push(data[i]);
                proof {
                    assert(payload@ =~= data@.take(i + 1));
                }
                i = i + 1;
            }
            proof {
                assert(payload@ =~= data@);
            }
            let value = read_value(payload);
            BatteryWaitStep::Reading(
                SensorReading::new(
                    message.device_index,
                    message.sensor_index,
                    message.sensor_type,
                    vec![value as i32],
                ),
            )
        },
        HardwareEvent::Disconnected => BatteryWaitStep::Failed(
            ButtplugDeviceError::ProtocolSpecificError(
                ProtocolKind::GalakuOneEngine,
                ProtocolErrorDetail::DisconnectedWhileReading,
            ),
        ),
    }
}

/// Resolves a battery read against a finite sequence of device events, as
/// the asynchronous wait would: the first battery notification wins, a
/// disconnect (or the stream ending) fails the read.
pub fn battery_level_from_events(message: &SensorReadCmd, events: &Vec<HardwareEvent>) -> (r:
    Result<SensorReading, ButtplugDeviceError>)
    ensures
        match r {
            Ok(rd) => battery_wait_outcome(events@, 0) is Ok && rd.device_index
                == message.device_index && rd.sensor_index == message.sensor_index
                && rd.sensor_type == message.sensor_type && rd.data@ == seq![
                battery_wait_outcome(events@, 0)->Ok_0 as i32
            ],
            Err(e) => battery_wait_outcome(events@, 0) == Err::<u32, ButtplugDeviceError>(e),
        },
{
    let mut i: usize = 0;
    while i < events.len()
        invariant
            i <= events@.len(),
            battery_wait_outcome(events@, 0) == battery_wait_outcome(events@, i as int),
        decreases events@.len() - i,
    {
        match battery_level_on_event(message, &events[i]) {
            BatteryWaitStep::KeepWaiting => {},
            BatteryWaitStep::Reading(rd) => {
                return Ok(rd);
            },
            BatteryWaitStep::Failed(e) => {
                return Err(e);
            },
        }
        i = i + 1;
    }
    Err(ButtplugDeviceError::ProtocolSpecificError(
        ProtocolKind::GalakuOneEngine,
        ProtocolErrorDetail::DisconnectedWhileReading,
    ))
}

/// A disconnect that arrives while a battery read is waiting resolves the
/// wait with the disconnect error, however many unrelated notifications
/// preceded it: the read never hangs past a disconnect.
pub proof fn lemma_disconnect_resolves_battery_wait_from(
    events: Seq<HardwareEvent>,
    i: int,
    k: int,
)
    requires
        0 <= i <= k < events.len(),
        events[k] is Disconnected,
        forall|j: int| 0 <= j < k ==> !battery_notification_matches(#[trigger] events[j]),
    ensures
        battery_wait_outcome(events, i) == Err::<u32, ButtplugDeviceError>(disconnect_error()),
    decreases k - i,
{
    if i < k {
        match events[i] {
            HardwareEvent::Disconnected => {},
            HardwareEvent::Notification(endpoint, data) => {
                assert(!battery_notification_matches(events[i]));
                lemma_disconnect_resolves_battery_wait_from(events, i + 1, k);
            },
        }
    }
}

/// Sensor wait cancellation: a disconnect event with no battery notification
/// before it makes the battery read fail with the disconnect error.
pub proof fn lemma_disconnect_resolves_battery_wait(events: Seq<HardwareEvent>, k: int)
    requires
        0 <= k < events.len(),
        events[k] is Disconnected,
        forall|j: int| 0 <= j < k ==> !battery_notification_matches(#[trigger] events[j]),
    ensures
        battery_wait_outcome(events, 0) == Err::<u32, ButtplugDeviceError>(disconnect_error()),
{
    lemma_disconnect_resolves_battery_wait_from(events, 0, k);
}

} // verus!
