//! Device configuration resolver.
//!
//! A built-in declarative configuration maps each protocol name to the
//! specifiers that recognize its devices over the transports, and to
//! attribute sets keyed by discovered identifier. An optional user
//! configuration layers further specifiers, per-address allow/deny flags,
//! reserved device indexes and attribute overrides on top. Resolution merges
//! the two into one immutable view, then answers lookups keyed by protocol
//! name, discovered identifier and transport address, with the deny list
//! short-circuiting everything else.
//!
//! Maps are association lists ordered by insertion; lookups take the last
//! entry whose key matches, so appending an entry shadows earlier ones. Keys
//! compare by their text, which the spec-level `*_view` functions expose.

use vstd::prelude::*;

use crate::errors::{ButtplugDeviceError, ButtplugError, ConfigurationErrorDetail};

verus! {

/// Version of the built-in configuration this engine was compiled with.
/// User documents older than this are rejected unless the check is bypassed.
pub const INTERNAL_CONFIG_VERSION: u32 = 2;

/// The version the engine's built-in configuration carries.
pub fn get_internal_config_version() -> (r: u32)
    ensures
        r == INTERNAL_CONFIG_VERSION,
{
    INTERNAL_CONFIG_VERSION
}

/// Match rule for devices on a USB transport.
#[derive(Clone, Copy, Debug, PartialEq, Eq, Structural)]
pub struct USBSpecifier {
    pub vendor_id: u16,
    pub product_id: u16,
}

/// Match rule for devices on an HID transport.
#[derive(Clone, Copy, Debug, PartialEq, Eq, Structural)]
pub struct HIDSpecifier {
    pub vendor_id: u16,
    pub product_id: u16,
}

/// Match rule for devices on a serial port.
#[derive(Debug)]
pub struct SerialSpecifier {
    pub port: String,
    pub baud_rate: u32,
}

impl Clone for SerialSpecifier {
    fn clone(&self) -> (r: Self)
        ensures
            r == *self,
    {
        SerialSpecifier { port: self.port.clone(), baud_rate: self.baud_rate }
    }
}

/// Clones a list of strings.
pub fn clone_string_vec(v: &Vec<String>) -> (r: Vec<String>)
    ensures
        r@ == v@,
{
    let mut r: Vec<String> = Vec::new();
    let mut i: usize = 0;
    while i < v.len()
        invariant
            i <= v@.len(),
            r@ =~= v@.take(i as int),
        decreases v@.len() - i,
    {
        r.push(v[i].clone());
        proof {
            assert(r@ =~= v@.take(i + 1));
        }
        i = i + 1;
    }
    proof {
        assert(r@ =~= v@);
    }
    r
}

/// Match rule for devices advertising over Bluetooth LE.
#[derive(Debug)]
pub struct BluetoothLESpecifier {
    pub names: Vec<String>,
    pub services: Vec<String>,
}

impl Clone for BluetoothLESpecifier {
    fn clone(&self) -> (r: Self)
        ensures
            r.names@ == self.names@,
            r.services@ == self.services@,
    {
        BluetoothLESpecifier {
            names: clone_string_vec(&self.names),
            services: clone_string_vec(&self.services),
        }
    }
}

/// Match rule for an XInput gamepad.
#[derive(Clone, Copy, Debug, PartialEq, Eq, Structural, Default)]
pub struct XInputSpecifier {}

/// Match rule for devices reachable over a websocket.
#[derive(Debug)]
pub struct WebsocketSpecifier {
    pub names: Vec<String>,
}

impl Clone for WebsocketSpecifier {
    fn clone(&self) -> (r: Self)
        ensures
            r.names@ == self.names@,
    {
        WebsocketSpecifier { names: clone_string_vec(&self.names) }
    }
}

/// Match rule for devices reachable through the vendor cloud relay.
#[derive(Clone, Copy, Debug, PartialEq, Eq, Structural, Default)]
pub struct LovenseConnectServiceSpecifier {}

/// Declarative rule for recognizing a device over one transport; exactly one
/// specifier kind per instance.
#[derive(Debug)]
pub enum ProtocolCommunicationSpecifier {
    USB(USBSpecifier),
    Serial(SerialSpecifier),
    HID(HIDSpecifier),
    BluetoothLE(BluetoothLESpecifier),
    XInput(XInputSpecifier),
    Websocket(WebsocketSpecifier),
    LovenseConnectService(LovenseConnectServiceSpecifier),
}

/// How an attribute set is keyed: the protocol's default set, or the set for
/// one discovered identifier.
#[derive(Clone, Debug)]
pub enum ProtocolAttributesType {
    Default,
    Identifier(String),
}

/// The text key of an attributes type: none for the default set.
pub open spec fn attributes_type_key(t: ProtocolAttributesType) -> Option<Seq<char>> {
    match t {
        ProtocolAttributesType::Default => None,
        ProtocolAttributesType::Identifier(s) => Some(s@),
    }
}

/// Compares two attribute keys by their text.
pub fn attributes_type_eq(a: &ProtocolAttributesType, b: &ProtocolAttributesType) -> (r: bool)
    ensures
        r == (attributes_type_key(*a) == attributes_type_key(*b)),
{
    match (a, b) {
        (ProtocolAttributesType::Default, ProtocolAttributesType::Default) => true,
        (ProtocolAttributesType::Identifier(x), ProtocolAttributesType::Identifier(y)) => *x == *y,
        _ => false,
    }
}

/// Identity of one connected device: its transport address, the protocol it
/// speaks, and which attribute set it resolved to.
#[derive(Clone, Debug)]
pub struct ServerDeviceIdentifier {
    pub address: String,
    pub protocol: String,
    pub attributes_identifier: ProtocolAttributesType,
}

/// The text key of a device identity.
pub open spec fn device_identifier_key(s: ServerDeviceIdentifier) -> (
    Seq<char>,
    Seq<char>,
    Option<Seq<char>>,
) {
    (s.address@, s.protocol@, attributes_type_key(s.attributes_identifier))
}

impl ServerDeviceIdentifier {
    pub fn new(
        address: String,
        protocol: String,
        attributes_identifier: ProtocolAttributesType,
    ) -> (r: Self)
        ensures
            r.address == address,
            r.protocol == protocol,
            r.attributes_identifier == attributes_identifier,
    {
        Self { address, protocol, attributes_identifier }
    }

    pub fn address(&self) -> (r: &String)
        ensures
            r == &self.address,
    {
        &self.address
    }

    pub fn protocol(&self) -> (r: &String)
        ensures
            r == &self.protocol,
    {
        &self.protocol
    }

    pub fn attributes_identifier(&self) -> (r: &ProtocolAttributesType)
        ensures
            r == &self.attributes_identifier,
    {
        &self.attributes_identifier
    }
}

/// Compares two device identities by their text keys.
pub fn device_identifier_eq(a: &ServerDeviceIdentifier, b: &ServerDeviceIdentifier) -> (r: bool)
    ensures
        r == (device_identifier_key(*a) == device_identifier_key(*b)),
{
    let same = a.address == b.address && a.protocol == b.protocol && attributes_type_eq(
        &a.attributes_identifier,
        &b.attributes_identifier,
    );
    same
}

/// Key of one resolved attribute set: protocol name, attribute key, and the
/// device address for user-supplied per-address entries.
#[derive(Clone, Debug)]
pub struct ProtocolAttributesIdentifier {
    pub protocol: String,
    pub attributes_identifier: ProtocolAttributesType,
    pub address: Option<String>,
}

/// The text of an optional string.
pub open spec fn opt_string_view(o: Option<String>) -> Option<Seq<char>> {
    match o {
        Some(s) => Some(s@),
        None => None,
    }
}

/// The text key of a resolved attribute set.
pub open spec fn attributes_identifier_key(p: ProtocolAttributesIdentifier) -> (
    Seq<char>,
    Option<Seq<char>>,
    Option<Seq<char>>,
) {
    (p.protocol@, attributes_type_key(p.attributes_identifier), opt_string_view(p.address))
}

impl ProtocolAttributesIdentifier {
    pub fn new(
        protocol: &String,
        attributes_identifier: &ProtocolAttributesType,
        address: &Option<String>,
    ) -> (r: Self)
        ensures
            attributes_identifier_key(r) == (
                protocol@,
                attributes_type_key(*attributes_identifier),
                opt_string_view(*address),
            ),
    {
        let ident = match attributes_identifier {
            ProtocolAttributesType::Default => ProtocolAttributesType::Default,
            ProtocolAttributesType::Identifier(s) => ProtocolAttributesType::Identifier(s.clone()),
        };
        let addr = match address {
            Some(s) => Some(s.clone()),
            None => None,
        };
        Self { protocol: protocol.clone(), attributes_identifier: ident, address: addr }
    }
}

/// Compares two attribute-set keys by their text.
pub fn attributes_identifier_eq(
    a: &ProtocolAttributesIdentifier,
    b: &ProtocolAttributesIdentifier,
) -> (r: bool)
    ensures
        r == (attributes_identifier_key(*a) == attributes_identifier_key(*b)),
{
    let addr_eq = match (&a.address, &b.address) {
        (Some(x), Some(y)) => *x == *y,
        (None, None) => true,
        _ => false,
    };
    a.protocol == b.protocol && attributes_type_eq(
        &a.attributes_identifier,
        &b.attributes_identifier,
    ) && addr_eq
}

/// Capability limits declared for one generic message kind.
#[derive(Debug)]
pub struct DeviceMessageAttributes {
    pub message_type: String,
    pub feature_count: u32,
}

impl Clone for DeviceMessageAttributes {
    fn clone(&self) -> (r: Self)
        ensures
            r == *self,
    {
        DeviceMessageAttributes {
            message_type: self.message_type.clone(),
            feature_count: self.feature_count,
        }
    }
}

/// The text view of one message-attributes entry.
pub open spec fn message_attributes_view(d: DeviceMessageAttributes) -> (Seq<char>, u32) {
    (d.message_type@, d.feature_count)
}

/// The text view of a message-attributes list.
pub open spec fn message_attributes_map_view(s: Seq<DeviceMessageAttributes>) -> Seq<
    (Seq<char>, u32),
> {
    s.map_values(|d: DeviceMessageAttributes| message_attributes_view(d))
}

/// Clones a message-attributes list.
pub fn clone_message_attributes(v: &Vec<DeviceMessageAttributes>) -> (r: Vec<
    DeviceMessageAttributes,
>)
    ensures
        r@ == v@,
{
    let mut r: Vec<DeviceMessageAttributes> = Vec::new();
    let mut i: usize = 0;
    while i < v.len()
        invariant
            i <= v@.len(),
            r@ =~= v@.take(i as int),
        decreases v@.len() - i,
    {
        r.push(v[i].clone());
        proof {
            assert(r@ =~= v@.take(i + 1));
        }
        i = i + 1;
    }
    proof {
        assert(r@ =~= v@);
    }
    r
}

/// Raw attribute block of a configuration document: which identifiers it
/// applies to, a display name, and per-message limits.
#[derive(Clone, Debug, Default)]
pub struct ProtocolAttributes {
    pub identifier: Option<Vec<String>>,
    pub name: Option<String>,
    pub messages: Option<Vec<DeviceMessageAttributes>>,
}

/// Capability and naming metadata resolved for one device identity.
#[derive(Debug)]
pub struct ProtocolDeviceAttributes {
    pub identifier: ProtocolAttributesType,
    pub name: Option<String>,
    pub display_name: Option<String>,
    pub message_attributes: Vec<DeviceMessageAttributes>,
}

/// Everything lookups observe of one resolved attribute set.
#[verifier::ext_equal]
pub ghost struct DeviceAttributesView {
    pub identifier: Option<Seq<char>>,
    pub name: Option<Seq<char>>,
    pub display_name: Option<Seq<char>>,
    pub message_attributes: Seq<(Seq<char>, u32)>,
}

/// The text view of one resolved attribute set.
pub open spec fn device_attributes_view(p: ProtocolDeviceAttributes) -> DeviceAttributesView {
    DeviceAttributesView {
        identifier: attributes_type_key(p.identifier),
        name: opt_string_view(p.name),
        display_name: opt_string_view(p.display_name),
        message_attributes: message_attributes_map_view(p.message_attributes@),
    }
}

impl ProtocolDeviceAttributes {
    pub fn new(
        identifier: ProtocolAttributesType,
        name: Option<String>,
        display_name: Option<String>,
        message_attributes: Vec<DeviceMessageAttributes>,
    ) -> (r: Self)
        ensures
            r == (ProtocolDeviceAttributes { identifier, name, display_name, message_attributes }),
    {
        Self { identifier, name, display_name, message_attributes }
    }
}

/// One protocol's block of a configuration document: its specifiers per
/// transport, a default attribute set, and identifier-keyed attribute sets.
#[derive(Clone, Debug, Default)]
pub struct ProtocolDefinition {
    pub usb: Option<Vec<USBSpecifier>>,
    pub btle: Option<BluetoothLESpecifier>,
    pub serial: Option<Vec<SerialSpecifier>>,
    pub hid: Option<Vec<HIDSpecifier>>,
    pub xinput: Option<XInputSpecifier>,
    pub websocket: Option<WebsocketSpecifier>,
    pub lovense_connect_service: Option<LovenseConnectServiceSpecifier>,
    pub defaults: Option<ProtocolAttributes>,
    pub configurations: Vec<ProtocolAttributes>,
}

/// The flat specifier list declared across the transports, in the order the
/// resolver keeps it: USB, serial, HID, Bluetooth LE, XInput, websocket,
/// vendor cloud relay.
pub open spec fn specifiers_of_parts(
    usb: Option<Vec<USBSpecifier>>,
    serial: Option<Vec<SerialSpecifier>>,
    hid: Option<Vec<HIDSpecifier>>,
    btle: Option<BluetoothLESpecifier>,
    xinput: Option<XInputSpecifier>,
    websocket: Option<WebsocketSpecifier>,
    lovense_connect_service: Option<LovenseConnectServiceSpecifier>,
) -> Seq<ProtocolCommunicationSpecifier> {
    (match usb {
        Some(v) => v@.map_values(|u: USBSpecifier| ProtocolCommunicationSpecifier::USB(u)),
        None => Seq::empty(),
    }) + (match serial {
        Some(v) => v@.map_values(|u: SerialSpecifier| ProtocolCommunicationSpecifier::Serial(u)),
        None => Seq::empty(),
    }) + (match hid {
        Some(v) => v@.map_values(|u: HIDSpecifier| ProtocolCommunicationSpecifier::HID(u)),
        None => Seq::empty(),
    }) + (match btle {
        Some(b) => seq![ProtocolCommunicationSpecifier::BluetoothLE(b)],
        None => Seq::empty(),
    }) + (match xinput {
        Some(x) => seq![ProtocolCommunicationSpecifier::XInput(x)],
        None => Seq::empty(),
    }) + (match websocket {
        Some(w) => seq![ProtocolCommunicationSpecifier::Websocket(w)],
        None => Seq::empty(),
    }) + (match lovense_connect_service {
        Some(l) => seq![ProtocolCommunicationSpecifier::LovenseConnectService(l)],
        None => Seq::empty(),
    })
}

/// The flat specifier list one protocol block declares.
pub open spec fn specifiers_of_definition(def: ProtocolDefinition) -> Seq<
    ProtocolCommunicationSpecifier,
> {
    specifiers_of_parts(
        def.usb,
        def.serial,
        def.hid,
        def.btle,
        def.xinput,
        def.websocket,
        def.lovense_connect_service,
    )
}

/// Collects the specifiers of one protocol block across all transports.
/// Appends one transport's USB specifiers.
fn push_usb_specifiers(out: &mut Vec<ProtocolCommunicationSpecifier>, usb_vec: Vec<USBSpecifier>)
    ensures
        final(out)@ == old(out)@ + usb_vec@.map_values(
            |u: USBSpecifier| ProtocolCommunicationSpecifier::USB(u),
        ),
{
    let ghost base = out@;
    let mut i: usize = 0;
    while i < usb_vec.len()
        invariant
            i <= usb_vec@.len(),
            out@ =~= base + usb_vec@.take(i as int).map_values(
                |u: USBSpecifier| ProtocolCommunicationSpecifier::USB(u),
            ),
        decreases usb_vec@.len() - i,
    {
        out.push(ProtocolCommunicationSpecifier::USB(usb_vec[i]));
        proof {
            assert(out@ =~= base + usb_vec@.take(i + 1).map_values(
                |u: USBSpecifier| ProtocolCommunicationSpecifier::USB(u),
            ));
        }
        i = i + 1;
    }
    proof {
        assert(usb_vec@.take(usb_vec@.len() as int) =~= usb_vec@);
        assert(out@ =~= base + usb_vec@.map_values(
            |u: USBSpecifier| ProtocolCommunicationSpecifier::USB(u),
        ));
    }
}

/// Appends one transport's serial specifiers, consuming them.
fn push_serial_specifiers(
    out: &mut Vec<ProtocolCommunicationSpecifier>,
    serial_vec: Vec<SerialSpecifier>,
)
    ensures
        final(out)@ == old(out)@ + serial_vec@.map_values(
            |u: SerialSpecifier| ProtocolCommunicationSpecifier::Serial(u),
        ),
{
    let ghost base = out@;
    let ghost gsv = serial_vec@;
    let mut rest = serial_vec;
    let mut i: usize = 0;
    let n = rest.len();
    while i < n
        invariant
            i <= gsv.len(),
            n == gsv.len(),
            rest@ =~= gsv.skip(i as int),
            out@ =~= base + gsv.take(i as int).map_values(
                |u: SerialSpecifier| ProtocolCommunicationSpecifier::Serial(u),
            ),
        decreases n - i,
    {
        let item = rest.remove(0);
        proof {
            assert(item == gsv[i as int]);
            assert(rest@ =~= gsv.skip(i + 1));
        }
        out.push(ProtocolCommunicationSpecifier::Serial(item));
        proof {
            assert(out@ =~= base + gsv.take(i + 1).map_values(
                |u: SerialSpecifier| ProtocolCommunicationSpecifier::Serial(u),
            ));
        }
        i = i + 1;
    }
    proof {
        assert(gsv.take(gsv.len() as int) =~= gsv);
        assert(out@ =~= base + gsv.map_values(
            |u: SerialSpecifier| ProtocolCommunicationSpecifier::Serial(u),
        ));
    }
}

/// Appends one transport's HID specifiers.
fn push_hid_specifiers(out: &mut Vec<ProtocolCommunicationSpecifier>, hid_vec: Vec<HIDSpecifier>)
    ensures
        final(out)@ == old(out)@ + hid_vec@.map_values(
            |u: HIDSpecifier| ProtocolCommunicationSpecifier::HID(u),
        ),
{
    let ghost base = out@;
    let mut i: usize = 0;
    while i < hid_vec.len()
        invariant
            i <= hid_vec@.len(),
            out@ =~= base + hid_vec@.take(i as int).map_values(
                |u: HIDSpecifier| ProtocolCommunicationSpecifier::HID(u),
            ),
        decreases hid_vec@.len() - i,
    {
        out.push(ProtocolCommunicationSpecifier::HID(hid_vec[i]));
        proof {
            assert(out@ =~= base + hid_vec@.take(i + 1).map_values(
                |u: HIDSpecifier| ProtocolCommunicationSpecifier::HID(u),
            ));
        }
        i = i + 1;
    }
    proof {
        assert(hid_vec@.take(hid_vec@.len() as int) =~= hid_vec@);
        assert(out@ =~= base + hid_vec@.map_values(
            |u: HIDSpecifier| ProtocolCommunicationSpecifier::HID(u),
        ));
    }
}

/// Collects the specifiers of one protocol block across all transports.
fn flatten_specifiers(
    usb: Option<Vec<USBSpecifier>>,
    serial: Option<Vec<SerialSpecifier>>,
    hid: Option<Vec<HIDSpecifier>>,
    btle: Option<BluetoothLESpecifier>,
    xinput: Option<XInputSpecifier>,
    websocket: Option<WebsocketSpecifier>,
    lovense_connect_service: Option<LovenseConnectServiceSpecifier>,
) -> (r: Vec<ProtocolCommunicationSpecifier>)
    ensures
        r@ == specifiers_of_parts(
            usb,
            serial,
            hid,
            btle,
            xinput,
            websocket,
            lovense_connect_service,
        ),
{
    let ghost gusb = usb;
    let ghost gserial = serial;
    let ghost ghid = hid;
    let ghost gbtle = btle;
    let ghost gxinput = xinput;
    let ghost gwebsocket = websocket;
    let ghost glcs = lovense_connect_service;
    let ghost s_usb = (match gusb {
        Some(v) => v@.map_values(|u: USBSpecifier| ProtocolCommunicationSpecifier::USB(u)),
        None => Seq::empty(),
    });
    let ghost s_serial = (match gserial {
        Some(v) => v@.map_values(|u: SerialSpecifier| ProtocolCommunicationSpecifier::Serial(u)),
        None => Seq::empty(),
    });
    let ghost s_hid = (match ghid {
        Some(v) => v@.map_values(|u: HIDSpecifier| ProtocolCommunicationSpecifier::HID(u)),
        None => Seq::empty(),
    });
    let ghost s_btle = (match gbtle {
        Some(b) => seq![ProtocolCommunicationSpecifier::BluetoothLE(b)],
        None => Seq::<ProtocolCommunicationSpecifier>::empty(),
    });
    let ghost s_xinput = (match gxinput {
        Some(x) => seq![ProtocolCommunicationSpecifier::XInput(x)],
        None => Seq::<ProtocolCommunicationSpecifier>::empty(),
    });
    let ghost s_websocket = (match gwebsocket {
        Some(w) => seq![ProtocolCommunicationSpecifier::Websocket(w)],
        None => Seq::<ProtocolCommunicationSpecifier>::empty(),
    });
    let ghost s_lcs = (match glcs {
        Some(l) => seq![ProtocolCommunicationSpecifier::LovenseConnectService(l)],
        None => Seq::<ProtocolCommunicationSpecifier>::empty(),
    });
    let mut specifiers: Vec<ProtocolCommunicationSpecifier> = Vec::new();
    if let Some(usb_vec) = usb {
        push_usb_specifiers(&mut specifiers, usb_vec);
    }
    proof {
        assert(specifiers@ =~= s_usb);
    }
    if let Some(serial_vec) = serial {
        push_serial_specifiers(&mut specifiers, serial_vec);
    }
    proof {
        assert(specifiers@ =~= s_usb + s_serial);
    }
    if let Some(hid_vec) = hid {
        push_hid_specifiers(&mut specifiers, hid_vec);
    }
    proof {
        assert(specifiers@ =~= s_usb + s_serial + s_hid);
    }
    if let Some(b) = btle {
        specifiers.push(ProtocolCommunicationSpecifier::BluetoothLE(b));
    }
    proof {
        assert(specifiers@ =~= s_usb + s_serial + s_hid + s_btle);
    }
    if let Some(x) = xinput {
        specifiers.push(ProtocolCommunicationSpecifier::XInput(x));
    }
    proof {
        assert(specifiers@ =~= s_usb + s_serial + s_hid + s_btle + s_xinput);
    }
    if let Some(w) = websocket {
        specifiers.push(ProtocolCommunicationSpecifier::Websocket(w));
    }
    proof {
        assert(specifiers@ =~= s_usb + s_serial + s_hid + s_btle + s_xinput + s_websocket);
    }
    if let Some(l) = lovense_connect_service {
        specifiers.push(ProtocolCommunicationSpecifier::LovenseConnectService(l));
    }
    proof {
        assert(specifiers@ =~= s_usb + s_serial + s_hid + s_btle + s_xinput + s_websocket
            + s_lcs);
        assert(specifiers_of_parts(gusb, gserial, ghid, gbtle, gxinput, gwebsocket, glcs) == s_usb
            + s_serial + s_hid + s_btle + s_xinput + s_websocket + s_lcs);
    }
    specifiers
}

/// The message-attribute view an optional raw block resolves to: absent
/// blocks mean no per-message limits.
pub open spec fn opt_messages_view(m: Option<Vec<DeviceMessageAttributes>>) -> Seq<
    (Seq<char>, u32),
> {
    match m {
        Some(v) => message_attributes_map_view(v@),
        None => Seq::empty(),
    }
}

/// The attribute view a raw block's shared fields resolve to, under a given
/// key.
pub open spec fn block_attributes_view(key: Option<Seq<char>>, c: ProtocolAttributes)
    -> DeviceAttributesView {
    DeviceAttributesView {
        identifier: key,
        name: opt_string_view(c.name),
        display_name: None,
        message_attributes: opt_messages_view(c.messages),
    }
}

/// The attribute entries one identifier-keyed raw block contributes: one per
/// identifier it names.
pub open spec fn config_block_entries(c: ProtocolAttributes) -> Seq<
    (Option<Seq<char>>, DeviceAttributesView),
> {
    match c.identifier {
        Some(ids) => ids@.map_values(
            |ident: String| (Some(ident@), block_attributes_view(Some(ident@), c)),
        ),
        None => Seq::empty(),
    }
}

/// The attribute entries of the identifier-keyed raw blocks from `i` on.
pub open spec fn config_blocks_entries(blocks: Seq<ProtocolAttributes>, i: int) -> Seq<
    (Option<Seq<char>>, DeviceAttributesView),
>
    decreases blocks.len() - i,
{
    if i < 0 || i >= blocks.len() {
        Seq::empty()
    } else {
        config_block_entries(blocks[i]) + config_blocks_entries(blocks, i + 1)
    }
}

/// All attribute entries a protocol block declares: the default set first if
/// present, then one entry per named identifier, so identifier entries
/// shadow the default on lookup.
pub open spec fn configurations_of_parts(
    defaults: Option<ProtocolAttributes>,
    blocks: Seq<ProtocolAttributes>,
) -> Seq<(Option<Seq<char>>, DeviceAttributesView)> {
    (match defaults {
        Some(d) => seq![(None, block_attributes_view(None, d))],
        None => Seq::empty(),
    }) + config_blocks_entries(blocks, 0)
}

/// All attribute entries one protocol block declares.
pub open spec fn configurations_of_definition(def: ProtocolDefinition) -> Seq<
    (Option<Seq<char>>, DeviceAttributesView),
> {
    configurations_of_parts(def.defaults, def.configurations@)
}

/// The view of an attribute association list: key text paired with the
/// attribute view.
pub open spec fn configurations_view(s: Seq<(ProtocolAttributesType, ProtocolDeviceAttributes)>)
    -> Seq<(Option<Seq<char>>, DeviceAttributesView)> {
    s.map_values(
        |e: (ProtocolAttributesType, ProtocolDeviceAttributes)|
            (attributes_type_key(e.0), device_attributes_view(e.1)),
    )
}

/// Builds the resolved attribute set a raw block describes, under the given
/// key.
fn build_block_attributes(key: ProtocolAttributesType, name: &Option<String>, messages: &Option<
    Vec<DeviceMessageAttributes>,
>) -> (r: ProtocolDeviceAttributes)
    ensures
        attributes_type_key(r.identifier) == attributes_type_key(key),
        opt_string_view(r.name) == opt_string_view(*name),
        r.display_name is None,
        message_attributes_map_view(r.message_attributes@) == opt_messages_view(*messages),
{
    let message_attributes = match messages {
        Some(m) => clone_message_attributes(m),
        None => Vec::new(),
    };
    let name_clone = match name {
        Some(n) => Some(n.clone()),
        None => None,
    };
    ProtocolDeviceAttributes::new(key, name_clone, None, message_attributes)
}

/// Builds the attribute association list one protocol block declares.
#[verifier::rlimit(100)]
fn build_configurations(
    defaults: Option<ProtocolAttributes>,
    configurations: Vec<ProtocolAttributes>,
) -> (r: Vec<(ProtocolAttributesType, ProtocolDeviceAttributes)>)
    ensures
        configurations_view(r@) =~~= configurations_of_parts(defaults, configurations@),
{
    let ghost gdefaults = defaults;
    let ghost gblocks = configurations@;
    let mut out: Vec<(ProtocolAttributesType, ProtocolDeviceAttributes)> = Vec::new();
    if let Some(d) = &defaults {
        let config_attrs = build_block_attributes(
            ProtocolAttributesType::Default,
            &d.name,
            &d.messages,
        );
        out.push((ProtocolAttributesType::Default, config_attrs));
    }
    proof {
        assert(configurations_view(out@) =~~= (match gdefaults {
            Some(d) => seq![(None, block_attributes_view(None, d))],
            None => Seq::empty(),
        }));
    }
    let ghost after_defaults = configurations_view(out@);
    let mut blocks = configurations;
    let mut bi: usize = 0;
    let nblocks = blocks.len();
    while bi < nblocks
        invariant
            bi <= gblocks.len(),
            nblocks == gblocks.len(),
            blocks@ =~= gblocks.skip(bi as int),
            configurations_view(out@) =~~= after_defaults + config_blocks_entries_upto(
                gblocks,
                bi as int,
            ),
        decreases nblocks - bi,
    {
        let block = blocks.remove(0);
        proof {
            assert(block == gblocks[bi as int]);
            assert(blocks@ =~= gblocks.skip(bi + 1));
        }
        let ghost before_block = configurations_view(out@);
        match &block.identifier {
            Some(identifiers) => {
                let mut ii: usize = 0;
                let ghost gids = identifiers@;
                while ii < identifiers.len()
                    invariant
                        ii <= gids.len(),
                        identifiers@ == gids,
                        block == gblocks[bi as int],
                        block.identifier == Some(*identifiers),
                        configurations_view(out@) =~~= before_block + gids.take(
                            ii as int,
                        ).map_values(
                            |ident: String|
                                (Some(ident@), block_attributes_view(Some(ident@), block)),
                        ),
                    decreases gids.len() - ii,
                {
                    let ident = identifiers[ii].clone();
                    let config_attrs = build_block_attributes(
                        ProtocolAttributesType::Identifier(ident.clone()),
                        &block.name,
                        &block.messages,
                    );
                    let ghost out_before = out@;
                    out.push((ProtocolAttributesType::Identifier(ident), config_attrs));
                    proof {
                        let lam = |id: String|
                            (Some(id@), block_attributes_view(Some(id@), block));
                        let prev = before_block + gids.take(ii as int).map_values(lam);
                        let next = before_block + gids.take(ii + 1).map_values(lam);
                        assert(configurations_view(out_before) == prev);
                        assert(device_attributes_view(config_attrs) =~~= block_attributes_view(
                            Some(gids[ii as int]@),
                            block,
                        ));
                        assert(out@.len() == out_before.len() + 1);
                        assert(gids.take(ii + 1).len() == ii + 1);
                        assert(prev.len() == before_block.len() + ii);
                        assert(configurations_view(out@).len() == next.len());
                        assert forall|k: int|
                            0 <= k < next.len() implies configurations_view(out@)[k] == next[k] by {
                            if k < prev.len() {
                                assert(out@[k] == out_before[k]);
                                assert(configurations_view(out@)[k] == configurations_view(
                                    out_before,
                                )[k]);
                                assert(next[k] == prev[k]);
                            } else {
                                assert(k == before_block.len() + ii);
                                assert(out@[k] == (ProtocolAttributesType::Identifier(ident),
                                config_attrs));
                                assert(gids.take(ii + 1)[ii as int] == gids[ii as int]);
                                assert(next[k] == lam(gids[ii as int]));
                                assert(ident@ == gids[ii as int]@);
                            }
                        }
                        assert(configurations_view(out@) =~~= next);
                    }
                    ii = ii + 1;
                }
                proof {
                    assert(gids.take(gids.len() as int) =~= gids);
                    assert(configurations_view(out@) =~~= before_block + config_block_entries(
                        gblocks[bi as int],
                    ));
                }
            },
            None => {
                proof {
                    assert(config_block_entries(gblocks[bi as int]) =~~= Seq::empty());
                    assert(configurations_view(out@) =~~= before_block + config_block_entries(
                        gblocks[bi as int],
                    ));
                }
            },
        }
        proof {
            lemma_config_blocks_entries_step(gblocks, bi as int);
            assert(configurations_view(out@) =~~= after_defaults + config_blocks_entries_upto(
                gblocks,
                bi + 1,
            ));
        }
        bi = bi + 1;
    }
    proof {
        lemma_config_blocks_entries_upto_all(gblocks);
        assert(configurations_view(out@) =~~= configurations_of_parts(gdefaults, gblocks));
    }
    out
}

/// Everything known about the devices one protocol drives: the specifiers
/// that recognize them, and attribute sets keyed by discovered identifier.
#[derive(Debug, Default)]
pub struct ProtocolDeviceConfiguration {
    pub specifiers: Vec<ProtocolCommunicationSpecifier>,
    pub configurations: Vec<(ProtocolAttributesType, ProtocolDeviceAttributes)>,
}

impl ProtocolDeviceConfiguration {
    /// Create a new instance.
    pub fn new(
        specifiers: Vec<ProtocolCommunicationSpecifier>,
        configurations: Vec<(ProtocolAttributesType, ProtocolDeviceAttributes)>,
    ) -> (r: Self)
        ensures
            r == (ProtocolDeviceConfiguration { specifiers, configurations }),
    {
        Self { specifiers, configurations }
    }

    pub fn specifiers(&self) -> (r: &Vec<ProtocolCommunicationSpecifier>)
        ensures
            r == &self.specifiers,
    {
        &self.specifiers
    }

    pub fn configurations(&self) -> (r: &Vec<(ProtocolAttributesType, ProtocolDeviceAttributes)>)
        ensures
            r == &self.configurations,
    {
        &self.configurations
    }

    /// Flattens one protocol block of a configuration document: collects its
    /// specifiers across all transports in a fixed order, then builds the
    /// attribute association list, the default set before identifier-keyed
    /// sets so the latter shadow it on lookup.
    pub fn from_definition(protocol_def: ProtocolDefinition) -> (r: Self)
        ensures
            r.specifiers@ == specifiers_of_definition(protocol_def),
            configurations_view(r.configurations@) =~~= configurations_of_definition(protocol_def),
    {
        let ProtocolDefinition {
            usb,
            btle,
            serial,
            hid,
            xinput,
            websocket,
            lovense_connect_service,
            defaults,
            configurations,
        } = protocol_def;
        let specifiers = flatten_specifiers(
            usb,
            serial,
            hid,
            btle,
            xinput,
            websocket,
            lovense_connect_service,
        );
        let out_configurations = build_configurations(defaults, configurations);
        Self { specifiers, configurations: out_configurations }
    }
}

/// The attribute entries of the identifier-keyed raw blocks before `i`.
pub open spec fn config_blocks_entries_upto(blocks: Seq<ProtocolAttributes>, i: int) -> Seq<
    (Option<Seq<char>>, DeviceAttributesView),
>
    decreases i,
{
    if i <= 0 {
        Seq::empty()
    } else {
        config_blocks_entries_upto(blocks, i - 1) + config_block_entries(blocks[i - 1])
    }
}

/// Appending one block's entries extends the prefix fold by that block.
pub proof fn lemma_config_blocks_entries_step(blocks: Seq<ProtocolAttributes>, i: int)
    requires
        0 <= i < blocks.len(),
    ensures
        config_blocks_entries_upto(blocks, i + 1) == config_blocks_entries_upto(blocks, i)
            + config_block_entries(blocks[i]),
{
}

/// The prefix fold over all blocks equals the suffix fold from the start.
pub proof fn lemma_config_blocks_entries_upto_all(blocks: Seq<ProtocolAttributes>)
    ensures
        config_blocks_entries_upto(blocks, blocks.len() as int) == config_blocks_entries(blocks, 0),
{
    lemma_config_blocks_entries_agree(blocks, 0);
}

/// The two folds over identifier-keyed blocks agree on every split point.
pub proof fn lemma_config_blocks_entries_agree(blocks: Seq<ProtocolAttributes>, i: int)
    requires
        0 <= i <= blocks.len(),
    ensures
        config_blocks_entries_upto(blocks, blocks.len() as int) == config_blocks_entries_upto(
            blocks,
            i,
        ) + config_blocks_entries(blocks, i),
    decreases blocks.len() - i,
{
    if i == blocks.len() {
        assert(config_blocks_entries(blocks, i) =~= Seq::empty());
        assert(config_blocks_entries_upto(blocks, i) + Seq::empty()
            =~= config_blocks_entries_upto(blocks, i));
    } else {
        lemma_config_blocks_entries_agree(blocks, i + 1);
        lemma_config_blocks_entries_step(blocks, i);
        assert(config_blocks_entries_upto(blocks, i) + (config_block_entries(blocks[i])
            + config_blocks_entries(blocks, i + 1)) =~= (config_blocks_entries_upto(blocks, i)
            + config_block_entries(blocks[i])) + config_blocks_entries(blocks, i + 1));
    }
}

/// Per-address overrides a user supplies for one device: a display name,
/// allow/deny flags, a reserved index, and message-attribute overrides.
#[derive(Clone, Debug, Default)]
pub struct DeviceUserConfig {
    pub display_name: Option<String>,
    pub allow: Option<bool>,
    pub deny: Option<bool>,
    pub messages: Option<Vec<DeviceMessageAttributes>>,
    pub index: Option<u32>,
}

impl DeviceUserConfig {
    pub fn allow(&self) -> (r: &Option<bool>)
        ensures
            r == &self.allow,
    {
        &self.allow
    }

    pub fn deny(&self) -> (r: &Option<bool>)
        ensures
            r == &self.deny,
    {
        &self.deny
    }

    pub fn index(&self) -> (r: &Option<u32>)
        ensures
            r == &self.index,
    {
        &self.index
    }

    pub fn set_allow(&mut self, allow: Option<bool>)
        ensures
            *final(self) == (DeviceUserConfig { allow, ..*old(self) }),
    {
        self.allow = allow;
    }

    pub fn set_deny(&mut self, deny: Option<bool>)
        ensures
            *final(self) == (DeviceUserConfig { deny, ..*old(self) }),
    {
        self.deny = deny;
    }

    pub fn set_index(&mut self, index: Option<u32>)
        ensures
            *final(self) == (DeviceUserConfig { index, ..*old(self) }),
    {
        self.index = index;
    }
}

/// The user configuration layer: extra specifiers per protocol name, and
/// per-device overrides.
#[derive(Clone, Debug)]
pub struct UserConfigDefinition {
    pub specifiers: Vec<(String, ProtocolDefinition)>,
    pub user_configs: Vec<(ServerDeviceIdentifier, DeviceUserConfig)>,
}

impl Default for UserConfigDefinition {
    /// An empty user layer: nothing added, nothing overridden.
    fn default() -> (r: Self)
        ensures
            r.specifiers@ == Seq::<(String, ProtocolDefinition)>::empty(),
            r.user_configs@ == Seq::<(ServerDeviceIdentifier, DeviceUserConfig)>::empty(),
    {
        UserConfigDefinition { specifiers: Vec::new(), user_configs: Vec::new() }
    }
}

/// The resolved, merged configuration a session runs on: allow and deny
/// lists, reserved indexes, per-protocol specifiers, and attribute sets from
/// both layers. Read-only once built.
#[derive(Debug)]
pub struct ExternalDeviceConfiguration {
    pub allow_list: Vec<String>,
    pub deny_list: Vec<String>,
    pub reserved_indexes: Vec<(u32, ServerDeviceIdentifier)>,
    pub protocol_specifiers: Vec<(String, Vec<ProtocolCommunicationSpecifier>)>,
    pub protocol_attributes: Vec<(ProtocolAttributesIdentifier, ProtocolDeviceAttributes)>,
    pub user_configs: Vec<(ServerDeviceIdentifier, ProtocolDeviceAttributes)>,
}

impl Default for ExternalDeviceConfiguration {
    /// A configuration with nothing resolved yet.
    fn default() -> (r: Self)
        ensures
            r.allow_list@ == Seq::<String>::empty(),
            r.deny_list@ == Seq::<String>::empty(),
            r.reserved_indexes@ == Seq::<(u32, ServerDeviceIdentifier)>::empty(),
            r.protocol_specifiers@ == Seq::<
                (String, Vec<ProtocolCommunicationSpecifier>),
            >::empty(),
            r.protocol_attributes@ == Seq::<
                (ProtocolAttributesIdentifier, ProtocolDeviceAttributes),
            >::empty(),
            r.user_configs@ == Seq::<(ServerDeviceIdentifier, ProtocolDeviceAttributes)>::empty(),
    {
        ExternalDeviceConfiguration {
            allow_list: Vec::new(),
            deny_list: Vec::new(),
            reserved_indexes: Vec::new(),
            protocol_specifiers: Vec::new(),
            protocol_attributes: Vec::new(),
            user_configs: Vec::new(),
        }
    }
}

/// Whether a list of strings contains the given text.
pub open spec fn contains_string(list: Seq<String>, text: Seq<char>) -> bool {
    exists|k: int| 0 <= k < list.len() && list[k]@ == text
}

/// Whether an address may proceed to handler construction: the deny list
/// short-circuits everything; an allow list, when one is configured, admits
/// only its members.
pub open spec fn spec_address_allowed(c: ExternalDeviceConfiguration, address: Seq<char>) -> bool {
    &&& !contains_string(c.deny_list@, address)
    &&& (c.allow_list@.len() == 0 || contains_string(c.allow_list@, address))
}

/// Index of the last attribute entry with the given key, or `-1`.
pub open spec fn last_attributes_index(
    s: Seq<(ProtocolAttributesIdentifier, ProtocolDeviceAttributes)>,
    key: (Seq<char>, Option<Seq<char>>, Option<Seq<char>>),
) -> int
    decreases s.len(),
{
    if s.len() == 0 {
        -1
    } else if attributes_identifier_key(s.last().0) == key {
        s.len() - 1
    } else {
        last_attributes_index(s.drop_last(), key)
    }
}

/// Index of the last per-device entry with the given identity key, or `-1`.
pub open spec fn last_user_config_index(
    s: Seq<(ServerDeviceIdentifier, ProtocolDeviceAttributes)>,
    key: (Seq<char>, Seq<char>, Option<Seq<char>>),
) -> int
    decreases s.len(),
{
    if s.len() == 0 {
        -1
    } else if device_identifier_key(s.last().0) == key {
        s.len() - 1
    } else {
        last_user_config_index(s.drop_last(), key)
    }
}

/// The attribute set resolution chain for one device identity: nothing if
/// the address may not proceed; otherwise the per-device user entry if one
/// exists, else the protocol's entry for the discovered identifier, else the
/// protocol's default entry.
pub open spec fn spec_resolve_attributes(
    c: ExternalDeviceConfiguration,
    identifier: ServerDeviceIdentifier,
) -> Option<ProtocolDeviceAttributes> {
    if !spec_address_allowed(c, identifier.address@) {
        None
    } else {
        let ui = last_user_config_index(c.user_configs@, device_identifier_key(identifier));
        if ui >= 0 {
            Some(c.user_configs@[ui].1)
        } else {
            let pkey = (
                identifier.protocol@,
                attributes_type_key(identifier.attributes_identifier),
                None::<Seq<char>>,
            );
            let pi = last_attributes_index(c.protocol_attributes@, pkey);
            if pi >= 0 {
                Some(c.protocol_attributes@[pi].1)
            } else if attributes_type_key(identifier.attributes_identifier) is Some {
                let dkey = (identifier.protocol@, None::<Seq<char>>, None::<Seq<char>>);
                let di = last_attributes_index(c.protocol_attributes@, dkey);
                if di >= 0 {
                    Some(c.protocol_attributes@[di].1)
                } else {
                    None
                }
            } else {
                None
            }
        }
    }
}

/// Checks whether a list of strings contains the given one.
fn string_list_contains(list: &Vec<String>, text: &String) -> (r: bool)
    ensures
        r == contains_string(list@, text@),
{
    let mut i: usize = 0;
    while i < list.len()
        invariant
            i <= list@.len(),
            forall|k: int| 0 <= k < i ==> (#[trigger] list@[k])@ != text@,
        decreases list@.len() - i,
    {
        if list[i] == *text {
            return true;
        }
        i = i + 1;
    }
    false
}

/// Finds the last attribute entry with the given key.
fn find_last_attributes<'a>(
    s: &'a Vec<(ProtocolAttributesIdentifier, ProtocolDeviceAttributes)>,
    key: &ProtocolAttributesIdentifier,
) -> (r: Option<&'a ProtocolDeviceAttributes>)
    ensures
        match r {
            Some(a) => last_attributes_index(s@, attributes_identifier_key(*key)) >= 0 && *a == s@[
                last_attributes_index(s@, attributes_identifier_key(*key))
            ].1,
            None => last_attributes_index(s@, attributes_identifier_key(*key)) == -1,
        },
{
    let ghost gkey = attributes_identifier_key(*key);
    let mut best: Option<usize> = None;
    let mut i: usize = 0;
    while i < s.len()
        invariant
            i <= s@.len(),
            gkey == attributes_identifier_key(*key),
            match best {
                Some(b) => last_attributes_index(s@.take(i as int), gkey) == b,
                None => last_attributes_index(s@.take(i as int), gkey) == -1,
            },
            best matches Some(b) ==> b < i,
        decreases s@.len() - i,
    {
        proof {
            assert(s@.take(i + 1).drop_last() =~= s@.take(i as int));
            assert(s@.take(i + 1).last() == s@[i as int]);
        }
        let m = attributes_identifier_eq(&s[i].0, key);
        if m {
            best = Some(i);
        }
        proof {
            if m {
                assert(attributes_identifier_key(s@.take(i + 1).last().0) == gkey);
                assert(last_attributes_index(s@.take(i + 1), gkey) == i as int);
            } else {
                assert(attributes_identifier_key(s@.take(i + 1).last().0) != gkey);
                assert(last_attributes_index(s@.take(i + 1), gkey) == last_attributes_index(
                    s@.take(i as int),
                    gkey,
                ));
            }
        }
        i = i + 1;
    }
    proof {
        assert(s@.take(s@.len() as int) =~= s@);
    }
    match best {
        Some(b) => Some(&s[b].1),
        None => None,
    }
}

/// Finds the last per-device entry with the given identity key.
fn find_last_user_config<'a>(
    s: &'a Vec<(ServerDeviceIdentifier, ProtocolDeviceAttributes)>,
    key: &ServerDeviceIdentifier,
) -> (r: Option<&'a ProtocolDeviceAttributes>)
    ensures
        match r {
            Some(a) => last_user_config_index(s@, device_identifier_key(*key)) >= 0 && *a == s@[
                last_user_config_index(s@, device_identifier_key(*key))
            ].1,
            None => last_user_config_index(s@, device_identifier_key(*key)) == -1,
        },
{
    let ghost gkey = device_identifier_key(*key);
    let mut best: Option<usize> = None;
    let mut i: usize = 0;
    while i < s.len()
        invariant
            i <= s@.len(),
            gkey == device_identifier_key(*key),
            match best {
                Some(b) => last_user_config_index(s@.take(i as int), gkey) == b,
                None => last_user_config_index(s@.take(i as int), gkey) == -1,
            },
            best matches Some(b) ==> b < i,
        decreases s@.len() - i,
    {
        proof {
            assert(s@.take(i + 1).drop_last() =~= s@.take(i as int));
            assert(s@.take(i + 1).last() == s@[i as int]);
        }
        let m = device_identifier_eq(&s[i].0, key);
        if m {
            best = Some(i);
        }
        proof {
            if m {
                assert(device_identifier_key(s@.take(i + 1).last().0) == gkey);
                assert(last_user_config_index(s@.take(i + 1), gkey) == i as int);
            } else {
                assert(device_identifier_key(s@.take(i + 1).last().0) != gkey);
                assert(last_user_config_index(s@.take(i + 1), gkey) == last_user_config_index(
                    s@.take(i as int),
                    gkey,
                ));
            }
        }
        i = i + 1;
    }
    proof {
        assert(s@.take(s@.len() as int) =~= s@);
    }
    match best {
        Some(b) => Some(&s[b].1),
        None => None,
    }
}

impl ExternalDeviceConfiguration {
    pub fn allow_list(&self) -> (r: &Vec<String>)
        ensures
            r == &self.allow_list,
    {
        &self.allow_list
    }

    pub fn deny_list(&self) -> (r: &Vec<String>)
        ensures
            r == &self.deny_list,
    {
        &self.deny_list
    }

    pub fn reserved_indexes(&self) -> (r: &Vec<(u32, ServerDeviceIdentifier)>)
        ensures
            r == &self.reserved_indexes,
    {
        &self.reserved_indexes
    }

    pub fn protocol_specifiers(&self) -> (r: &Vec<(String, Vec<ProtocolCommunicationSpecifier>)>)
        ensures
            r == &self.protocol_specifiers,
    {
        &self.protocol_specifiers
    }

    pub fn protocol_attributes(&self) -> (r: &Vec<
        (ProtocolAttributesIdentifier, ProtocolDeviceAttributes),
    >)
        ensures
            r == &self.protocol_attributes,
    {
        &self.protocol_attributes
    }

    pub fn user_configs(&self) -> (r: &Vec<(ServerDeviceIdentifier, ProtocolDeviceAttributes)>)
        ensures
            r == &self.user_configs,
    {
        &self.user_configs
    }

    /// Whether an address may proceed to handler construction: a deny-listed
    /// address never may, whatever the allow list says; with an allow list
    /// configured, only its members may.
    pub fn address_allowed(&self, address: &String) -> (r: bool)
        ensures
            r == spec_address_allowed(*self, address@),
    {
        if string_list_contains(&self.deny_list, address) {
            return false;
        }
        if self.allow_list.len() > 0 && !string_list_contains(&self.allow_list, address) {
            return false;
        }
        true
    }

    /// Resolves the attribute set for one device identity: the per-device
    /// user entry overrides the protocol/identifier entry, which overrides
    /// the protocol's default entry; a device that may not proceed resolves
    /// to nothing.
    pub fn resolve_attributes<'a>(&'a self, identifier: &ServerDeviceIdentifier) -> (r: Option<
        &'a ProtocolDeviceAttributes,
    >)
        ensures
            match r {
                Some(a) => spec_resolve_attributes(*self, *identifier) == Some(*a),
                None => spec_resolve_attributes(*self, *identifier) is None,
            },
    {
        if !self.address_allowed(&identifier.address) {
            return None;
        }
        if let Some(a) = find_last_user_config(&self.user_configs, identifier) {
            return Some(a);
        }
        let pai = ProtocolAttributesIdentifier::new(
            &identifier.protocol,
            &identifier.attributes_identifier,
            &None,
        );
        if let Some(a) = find_last_attributes(&self.protocol_attributes, &pai) {
            return Some(a);
        }
        match &identifier.attributes_identifier {
            ProtocolAttributesType::Identifier(_) => {
                let dai = ProtocolAttributesIdentifier::new(
                    &identifier.protocol,
                    &ProtocolAttributesType::Default,
                    &None,
                );
                find_last_attributes(&self.protocol_attributes, &dai)
            },
            ProtocolAttributesType::Default => None,
        }
    }
}

/// A deny-listed address never resolves to a usable attribute set, whatever
/// the allow list or the built-in protocol entries hold for it.
pub proof fn lemma_denied_address_resolves_nothing(
    c: ExternalDeviceConfiguration,
    identifier: ServerDeviceIdentifier,
)
    requires
        contains_string(c.deny_list@, identifier.address@),
    ensures
        spec_resolve_attributes(c, identifier) is None,
{
}

/// Clones an attribute key, preserving its text.
fn clone_attributes_type(t: &ProtocolAttributesType) -> (r: ProtocolAttributesType)
    ensures
        attributes_type_key(r) == attributes_type_key(*t),
{
    match t {
        ProtocolAttributesType::Default => ProtocolAttributesType::Default,
        ProtocolAttributesType::Identifier(s) => ProtocolAttributesType::Identifier(s.clone()),
    }
}

/// Clones a device identity, preserving its text key.
fn clone_device_identifier(s: &ServerDeviceIdentifier) -> (r: ServerDeviceIdentifier)
    ensures
        device_identifier_key(r) == device_identifier_key(*s),
{
    ServerDeviceIdentifier {
        address: s.address.clone(),
        protocol: s.protocol.clone(),
        attributes_identifier: clone_attributes_type(&s.attributes_identifier),
    }
}

/// The extra specifiers a user-layer protocol block declares; the user layer
/// carries no XInput or cloud-relay rules.
pub open spec fn user_specifiers_of_definition(def: ProtocolDefinition) -> Seq<
    ProtocolCommunicationSpecifier,
> {
    specifiers_of_parts(def.usb, def.serial, def.hid, def.btle, None, def.websocket, None)
}

/// The view of the per-protocol specifier table: name text paired with the
/// specifier list.
pub open spec fn protocol_specifiers_view(s: Seq<(String, Vec<ProtocolCommunicationSpecifier>)>)
    -> Seq<(Seq<char>, Seq<ProtocolCommunicationSpecifier>)> {
    s.map_values(
        |e: (String, Vec<ProtocolCommunicationSpecifier>)| (e.0@, e.1@),
    )
}

/// Index of the last specifier-table entry with the given name, or `-1`.
pub open spec fn last_name_index(
    s: Seq<(Seq<char>, Seq<ProtocolCommunicationSpecifier>)>,
    name: Seq<char>,
) -> int
    decreases s.len(),
{
    if s.len() == 0 {
        -1
    } else if s.last().0 == name {
        s.len() - 1
    } else {
        last_name_index(s.drop_last(), name)
    }
}

/// The specifier table after the user layer's additions: each user block for
/// a known protocol name appends its specifiers to that protocol's entry;
/// blocks for unknown names are ignored; nothing is ever replaced.
pub open spec fn merged_protocol_specifiers(
    base: Seq<(Seq<char>, Seq<ProtocolCommunicationSpecifier>)>,
    user: Seq<(String, ProtocolDefinition)>,
    i: int,
) -> Seq<(Seq<char>, Seq<ProtocolCommunicationSpecifier>)>
    decreases user.len() - i,
{
    if i < 0 || i >= user.len() {
        base
    } else {
        let idx = last_name_index(base, user[i].0@);
        let base2 = if idx >= 0 {
            base.update(idx, (base[idx].0, base[idx].1 + user_specifiers_of_definition(user[i].1)))
        } else {
            base
        };
        merged_protocol_specifiers(base2, user, i + 1)
    }
}

/// Finds the last specifier-table entry with the given name.
fn find_last_protocol_index(
    s: &Vec<(String, Vec<ProtocolCommunicationSpecifier>)>,
    name: &String,
) -> (r: Option<usize>)
    ensures
        match r {
            Some(b) => b < s@.len() && last_name_index(protocol_specifiers_view(s@), name@) == b,
            None => last_name_index(protocol_specifiers_view(s@), name@) == -1,
        },
{
    let ghost v = protocol_specifiers_view(s@);
    let mut best: Option<usize> = None;
    let mut i: usize = 0;
    while i < s.len()
        invariant
            i <= s@.len(),
            v == protocol_specifiers_view(s@),
            match best {
                Some(b) => last_name_index(v.take(i as int), name@) == b,
                None => last_name_index(v.take(i as int), name@) == -1,
            },
            best matches Some(b) ==> b < i,
        decreases s@.len() - i,
    {
        proof {
            assert(v.take(i + 1).drop_last() =~= v.take(i as int));
            assert(v.take(i + 1).last() == v[i as int]);
            assert(v[i as int].0 == s@[i as int].0@);
        }
        let m = s[i].0 == *name;
        if m {
            best = Some(i);
        }
        proof {
            if m {
                assert(last_name_index(v.take(i + 1), name@) == i as int);
            } else {
                assert(last_name_index(v.take(i + 1), name@) == last_name_index(
                    v.take(i as int),
                    name@,
                ));
            }
        }
        i = i + 1;
    }
    proof {
        assert(v.take(s@.len() as int) =~= v);
    }
    best
}

/// Appends the user layer's extra specifiers to the protocols they name.
///
/// Specifiers are additive: a user block for a known protocol appends to
/// that protocol's list, never replacing built-in entries; a block for an
/// unknown protocol name is ignored. Nothing else in the configuration
/// changes.
pub fn merge_user_specifiers(
    external_config: &mut ExternalDeviceConfiguration,
    specifiers: Vec<(String, ProtocolDefinition)>,
)
    ensures
        protocol_specifiers_view(final(external_config).protocol_specifiers@)
            =~~= merged_protocol_specifiers(
            protocol_specifiers_view(old(external_config).protocol_specifiers@),
            specifiers@,
            0,
        ),
        final(external_config).allow_list == old(external_config).allow_list,
        final(external_config).deny_list == old(external_config).deny_list,
        final(external_config).reserved_indexes == old(external_config).reserved_indexes,
        final(external_config).protocol_attributes == old(external_config).protocol_attributes,
        final(external_config).user_configs == old(external_config).user_configs,
{
    let ghost base0 = protocol_specifiers_view(old(external_config).protocol_specifiers@);
    let ghost guser = specifiers@;
    let mut rest = specifiers;
    let mut j: usize = 0;
    let n = rest.len();
    while j < n
        invariant
            j <= guser.len(),
            n == guser.len(),
            rest@ =~= guser.skip(j as int),
            merged_protocol_specifiers(base0, guser, 0) == merged_protocol_specifiers(
                protocol_specifiers_view(external_config.protocol_specifiers@),
                guser,
                j as int,
            ),
            external_config.allow_list == old(external_config).allow_list,
            external_config.deny_list == old(external_config).deny_list,
            external_config.reserved_indexes == old(external_config).reserved_indexes,
            external_config.protocol_attributes == old(external_config).protocol_attributes,
            external_config.user_configs == old(external_config).user_configs,
        decreases n - j,
    {
        let (name, def) = rest.remove(0);
        proof {
            assert((name, def) == guser[j as int]);
            assert(rest@ =~= guser.skip(j + 1));
        }
        let ghost cur = protocol_specifiers_view(external_config.protocol_specifiers@);
        match find_last_protocol_index(&external_config.protocol_specifiers, &name) {
            Some(idx) => {
                let ProtocolDefinition { usb, btle, serial, hid, websocket, .. } = def;
                let mut additions = flatten_specifiers(
                    usb,
                    serial,
                    hid,
                    btle,
                    None,
                    websocket,
                    None,
                );
                let ghost gadd = additions@;
                let ghost pre = external_config.protocol_specifiers@;
                let mut entry = external_config.protocol_specifiers.remove(idx);
                entry.1.append(&mut additions);
                external_config.protocol_specifiers.insert(idx, entry);
                proof {
                    assert(external_config.protocol_specifiers@ =~= pre.update(idx as int, entry));
                    let next = cur.update(
                        idx as int,
                        (cur[idx as int].0, cur[idx as int].1 + gadd),
                    );
                    assert(gadd == user_specifiers_of_definition(guser[j as int].1));
                    assert(entry.0 == pre[idx as int].0);
                    assert(entry.1@ == pre[idx as int].1@ + gadd);
                    assert(protocol_specifiers_view(external_config.protocol_specifiers@).len()
                        == next.len());
                    assert forall|k: int|
                        0 <= k < next.len() implies protocol_specifiers_view(
                        external_config.protocol_specifiers@,
                    )[k] == next[k] by {
                        if k != idx {
                            assert(external_config.protocol_specifiers@[k] == pre[k]);
                            assert(cur[k] == (pre[k].0@, pre[k].1@));
                        } else {
                            assert(external_config.protocol_specifiers@[k] == entry);
                            assert(cur[k] == (pre[k].0@, pre[k].1@));
                        }
                    }
                    assert(protocol_specifiers_view(external_config.protocol_specifiers@)
                        =~~= next);
                }
            },
            None => {
            },
        }
        j = j + 1;
    }
    proof {
        assert(merged_protocol_specifiers(
            protocol_specifiers_view(external_config.protocol_specifiers@),
            guser,
            n as int,
        ) == protocol_specifiers_view(external_config.protocol_specifiers@));
    }
}

/// The addresses the user layer allow-lists, in order.
pub open spec fn allow_additions(entries: Seq<(ServerDeviceIdentifier, DeviceUserConfig)>, i: int)
    -> Seq<Seq<char>>
    decreases entries.len() - i,
{
    if i < 0 || i >= entries.len() {
        Seq::empty()
    } else {
        (if entries[i].1.allow == Some(true) {
            seq![entries[i].0.address@]
        } else {
            Seq::empty()
        }) + allow_additions(entries, i + 1)
    }
}

/// The addresses the user layer deny-lists, in order.
pub open spec fn deny_additions(entries: Seq<(ServerDeviceIdentifier, DeviceUserConfig)>, i: int)
    -> Seq<Seq<char>>
    decreases entries.len() - i,
{
    if i < 0 || i >= entries.len() {
        Seq::empty()
    } else {
        (if entries[i].1.deny == Some(true) {
            seq![entries[i].0.address@]
        } else {
            Seq::empty()
        }) + deny_additions(entries, i + 1)
    }
}

/// The reserved-index bindings the user layer adds, in order.
pub open spec fn reserved_additions(entries: Seq<(ServerDeviceIdentifier, DeviceUserConfig)>, i: int)
    -> Seq<(u32, (Seq<char>, Seq<char>, Option<Seq<char>>))>
    decreases entries.len() - i,
{
    if i < 0 || i >= entries.len() {
        Seq::empty()
    } else {
        (match entries[i].1.index {
            Some(ix) => seq![(ix, device_identifier_key(entries[i].0))],
            None => Seq::empty(),
        }) + reserved_additions(entries, i + 1)
    }
}

/// The attribute view a user-layer override resolves to.
pub open spec fn user_override_view(
    identifier: ServerDeviceIdentifier,
    cfg: DeviceUserConfig,
) -> DeviceAttributesView {
    DeviceAttributesView {
        identifier: attributes_type_key(identifier.attributes_identifier),
        name: None,
        display_name: opt_string_view(cfg.display_name),
        message_attributes: opt_messages_view(cfg.messages),
    }
}

/// The per-device attribute entries the user layer adds, in order.
pub open spec fn user_config_additions(
    entries: Seq<(ServerDeviceIdentifier, DeviceUserConfig)>,
    i: int,
) -> Seq<((Seq<char>, Seq<char>, Option<Seq<char>>), DeviceAttributesView)>
    decreases entries.len() - i,
{
    if i < 0 || i >= entries.len() {
        Seq::empty()
    } else {
        seq![(device_identifier_key(entries[i].0), user_override_view(entries[i].0, entries[i].1))]
            + user_config_additions(entries, i + 1)
    }
}

/// The text view of a string list.
pub open spec fn string_seq_view(s: Seq<String>) -> Seq<Seq<char>> {
    s.map_values(|x: String| x@)
}

/// The view of the reserved-index table: index paired with identity key.
pub open spec fn reserved_view(s: Seq<(u32, ServerDeviceIdentifier)>) -> Seq<
    (u32, (Seq<char>, Seq<char>, Option<Seq<char>>)),
> {
    s.map_values(|e: (u32, ServerDeviceIdentifier)| (e.0, device_identifier_key(e.1)))
}

/// The view of the per-device attribute table: identity key paired with the
/// attribute view.
pub open spec fn user_configs_view(s: Seq<(ServerDeviceIdentifier, ProtocolDeviceAttributes)>)
    -> Seq<((Seq<char>, Seq<char>, Option<Seq<char>>), DeviceAttributesView)> {
    s.map_values(
        |e: (ServerDeviceIdentifier, ProtocolDeviceAttributes)|
            (device_identifier_key(e.0), device_attributes_view(e.1)),
    )
}

/// Applies the user layer's per-device entries: allow and deny flags extend
/// the address lists, reserved indexes are recorded, and each entry's
/// overrides are appended to the per-device attribute table, shadowing any
/// earlier entry for the same identity. The specifier tables are untouched.
#[verifier::rlimit(100)]
pub fn apply_device_user_configs(
    external_config: &mut ExternalDeviceConfiguration,
    user_configs: Vec<(ServerDeviceIdentifier, DeviceUserConfig)>,
)
    ensures
        string_seq_view(final(external_config).allow_list@) =~~= string_seq_view(
            old(external_config).allow_list@,
        ) + allow_additions(user_configs@, 0),
        string_seq_view(final(external_config).deny_list@) =~~= string_seq_view(
            old(external_config).deny_list@,
        ) + deny_additions(user_configs@, 0),
        reserved_view(final(external_config).reserved_indexes@) =~~= reserved_view(
            old(external_config).reserved_indexes@,
        ) + reserved_additions(user_configs@, 0),
        user_configs_view(final(external_config).user_configs@) =~~= user_configs_view(
            old(external_config).user_configs@,
        ) + user_config_additions(user_configs@, 0),
        final(external_config).protocol_specifiers == old(external_config).protocol_specifiers,
        final(external_config).protocol_attributes == old(external_config).protocol_attributes,
{
    let ghost gentries = user_configs@;
    let ghost allow0 = string_seq_view(old(external_config).allow_list@);
    let ghost deny0 = string_seq_view(old(external_config).deny_list@);
    let ghost reserved0 = reserved_view(old(external_config).reserved_indexes@);
    let ghost ucfg0 = user_configs_view(old(external_config).user_configs@);
    let mut rest = user_configs;
    let mut j: usize = 0;
    let n = rest.len();
    while j < n
        invariant
            j <= gentries.len(),
            n == gentries.len(),
            rest@ =~= gentries.skip(j as int),
            string_seq_view(external_config.allow_list@) + allow_additions(gentries, j as int)
                =~~= allow0 + allow_additions(gentries, 0),
            string_seq_view(external_config.deny_list@) + deny_additions(gentries, j as int)
                =~~= deny0 + deny_additions(gentries, 0),
            reserved_view(external_config.reserved_indexes@) + reserved_additions(
                gentries,
                j as int,
            ) =~~= reserved0 + reserved_additions(gentries, 0),
            user_configs_view(external_config.user_configs@) + user_config_additions(
                gentries,
                j as int,
            ) =~~= ucfg0 + user_config_additions(gentries, 0),
            external_config.protocol_specifiers == old(external_config).protocol_specifiers,
            external_config.protocol_attributes == old(external_config).protocol_attributes,
        decreases n - j,
    {
        let (identifier, cfg) = rest.remove(0);
        proof {
            assert((identifier, cfg) == gentries[j as int]);
            assert(rest@ =~= gentries.skip(j + 1));
        }
        let allow_flag = match &cfg.allow {
            Some(b) => *b,
            None => false,
        };
        if allow_flag {
            let ghost before = string_seq_view(external_config.allow_list@);
            external_config.allow_list.push(identifier.address.clone());
            proof {
                assert(string_seq_view(external_config.allow_list@) =~~= before + seq![
                    identifier.address@
                ]);
            }
        }
        proof {
            assert(string_seq_view(external_config.allow_list@) + allow_additions(gentries, j + 1)
                =~~= allow0 + allow_additions(gentries, 0));
        }
        let deny_flag = match &cfg.deny {
            Some(b) => *b,
            None => false,
        };
        if deny_flag {
            let ghost before = string_seq_view(external_config.deny_list@);
            external_config.deny_list.push(identifier.address.clone());
            proof {
                assert(string_seq_view(external_config.deny_list@) =~~= before + seq![
                    identifier.address@
                ]);
            }
        }
        proof {
            assert(string_seq_view(external_config.deny_list@) + deny_additions(gentries, j + 1)
                =~~= deny0 + deny_additions(gentries, 0));
        }
        if let Some(ix) = cfg.index {
            let ghost before = reserved_view(external_config.reserved_indexes@);
            external_config.reserved_indexes.push((ix, clone_device_identifier(&identifier)));
            proof {
                assert(reserved_view(external_config.reserved_indexes@) =~~= before + seq![
                    (ix, device_identifier_key(identifier))
                ]);
            }
        }
        proof {
            assert(reserved_view(external_config.reserved_indexes@) + reserved_additions(
                gentries,
                j + 1,
            ) =~~= reserved0 + reserved_additions(gentries, 0));
        }
        let messages = match &cfg.messages {
            Some(m) => clone_message_attributes(m),
            None => Vec::new(),
        };
        let display_name = match &cfg.display_name {
            Some(d) => Some(d.clone()),
            None => None,
        };
        let config_attrs = ProtocolDeviceAttributes::new(
            clone_attributes_type(&identifier.attributes_identifier),
            None,
            display_name,
            messages,
        );
        let ghost before_ucfg = user_configs_view(external_config.user_configs@);
        external_config.user_configs.push((identifier, config_attrs));
        proof {
            assert(device_attributes_view(config_attrs) =~~= user_override_view(
                gentries[j as int].0,
                gentries[j as int].1,
            ));
            assert(user_configs_view(external_config.user_configs@) =~~= before_ucfg + seq![
                (
                    device_identifier_key(gentries[j as int].0),
                    user_override_view(gentries[j as int].0, gentries[j as int].1),
                )
            ]);
            assert(user_configs_view(external_config.user_configs@) + user_config_additions(
                gentries,
                j + 1,
            ) =~~= ucfg0 + user_config_additions(gentries, 0));
        }
        j = j + 1;
    }
    proof {
        assert(allow_additions(gentries, n as int) =~= Seq::<Seq<char>>::empty());
        assert(deny_additions(gentries, n as int) =~= Seq::<Seq<char>>::empty());
        assert(reserved_additions(gentries, n as int) =~= Seq::<
            (u32, (Seq<char>, Seq<char>, Option<Seq<char>>)),
        >::empty());
        assert(user_config_additions(gentries, n as int) =~= Seq::<
            ((Seq<char>, Seq<char>, Option<Seq<char>>), DeviceAttributesView),
        >::empty());
        assert(string_seq_view(external_config.allow_list@) =~~= allow0 + allow_additions(
            gentries,
            0,
        ));
        assert(string_seq_view(external_config.deny_list@) =~~= deny0 + deny_additions(
            gentries,
            0,
        ));
        assert(reserved_view(external_config.reserved_indexes@) =~~= reserved0
            + reserved_additions(gentries, 0));
        assert(user_configs_view(external_config.user_configs@) =~~= ucfg0
            + user_config_additions(gentries, 0));
    }
}

/// Merges one user configuration layer into a resolved configuration:
/// appends user specifiers to known protocols, then applies the per-device
/// entries.
pub fn add_user_configs_to_protocol(
    external_config: &mut ExternalDeviceConfiguration,
    user_config_def: UserConfigDefinition,
)
    ensures
        protocol_specifiers_view(final(external_config).protocol_specifiers@)
            =~~= merged_protocol_specifiers(
            protocol_specifiers_view(old(external_config).protocol_specifiers@),
            user_config_def.specifiers@,
            0,
        ),
        string_seq_view(final(external_config).allow_list@) =~~= string_seq_view(
            old(external_config).allow_list@,
        ) + allow_additions(user_config_def.user_configs@, 0),
        string_seq_view(final(external_config).deny_list@) =~~= string_seq_view(
            old(external_config).deny_list@,
        ) + deny_additions(user_config_def.user_configs@, 0),
        reserved_view(final(external_config).reserved_indexes@) =~~= reserved_view(
            old(external_config).reserved_indexes@,
        ) + reserved_additions(user_config_def.user_configs@, 0),
        user_configs_view(final(external_config).user_configs@) =~~= user_configs_view(
            old(external_config).user_configs@,
        ) + user_config_additions(user_config_def.user_configs@, 0),
        final(external_config).protocol_attributes == old(external_config).protocol_attributes,
{
    let UserConfigDefinition { specifiers, user_configs } = user_config_def;
    merge_user_specifiers(external_config, specifiers);
    apply_device_user_configs(external_config, user_configs);
}

/// A parsed configuration document: its version, the built-in protocol
/// blocks, and the optional user layer.
#[derive(Clone, Debug)]
pub struct ProtocolConfiguration {
    pub version: u32,
    pub protocols: Option<Vec<(String, ProtocolDefinition)>>,
    pub user_configs: Option<UserConfigDefinition>,
}

impl Default for ProtocolConfiguration {
    /// An empty document at the engine's own version.
    fn default() -> (r: Self)
        ensures
            r.version == INTERNAL_CONFIG_VERSION,
            r.protocols matches Some(p) && p@ == Seq::<(String, ProtocolDefinition)>::empty(),
            r.user_configs matches Some(u) && u.specifiers@ == Seq::<
                (String, ProtocolDefinition),
            >::empty() && u.user_configs@ == Seq::<
                (ServerDeviceIdentifier, DeviceUserConfig),
            >::empty(),
    {
        ProtocolConfiguration {
            version: INTERNAL_CONFIG_VERSION,
            protocols: Some(Vec::new()),
            user_configs: Some(UserConfigDefinition::default()),
        }
    }
}

/// Whether a document of this version is accepted: older than the engine's
/// compiled-in version only when the check is bypassed.
pub open spec fn version_accepted(version: u32, skip_version_check: bool) -> bool {
    skip_version_check || version >= INTERNAL_CONFIG_VERSION
}

/// The error an outdated document is rejected with.
pub open spec fn version_error(version: u32) -> ButtplugError {
    ButtplugError::ButtplugDeviceError(
        ButtplugDeviceError::DeviceConfigurationError(
            ConfigurationErrorDetail::VersionOlderThanInternal {
                document: version,
                internal: INTERNAL_CONFIG_VERSION,
            },
        ),
    )
}

/// Rejects a configuration document older than the engine's compiled-in
/// version, unless the check is bypassed.
pub fn check_config_version(version: u32, skip_version_check: bool) -> (r: Result<
    (),
    ButtplugError,
>)
    ensures
        r is Ok <==> version_accepted(version, skip_version_check),
        r is Err ==> r == Err::<(), ButtplugError>(version_error(version)),
{
    if !skip_version_check && version < INTERNAL_CONFIG_VERSION {
        Err(
            ButtplugError::ButtplugDeviceError(
                ButtplugDeviceError::DeviceConfigurationError(
                    ConfigurationErrorDetail::VersionOlderThanInternal {
                        document: version,
                        internal: INTERNAL_CONFIG_VERSION,
                    },
                ),
            ),
        )
    } else {
        Ok(())
    }
}

/// The specifier table the built-in protocol blocks produce: one entry per
/// block, in order.
pub open spec fn main_specifier_entries(protocols: Seq<(String, ProtocolDefinition)>) -> Seq<
    (Seq<char>, Seq<ProtocolCommunicationSpecifier>),
> {
    protocols.map_values(
        |e: (String, ProtocolDefinition)| (e.0@, specifiers_of_definition(e.1)),
    )
}

/// One protocol's attribute entries keyed for the global table.
pub open spec fn tag_attribute_entries(
    name: Seq<char>,
    entries: Seq<(Option<Seq<char>>, DeviceAttributesView)>,
) -> Seq<((Seq<char>, Option<Seq<char>>, Option<Seq<char>>), DeviceAttributesView)> {
    entries.map_values(
        |e: (Option<Seq<char>>, DeviceAttributesView)| ((name, e.0, None), e.1),
    )
}

/// The global attribute table the built-in protocol blocks from `i` on
/// produce.
pub open spec fn main_attribute_entries(protocols: Seq<(String, ProtocolDefinition)>, i: int)
    -> Seq<((Seq<char>, Option<Seq<char>>, Option<Seq<char>>), DeviceAttributesView)>
    decreases protocols.len() - i,
{
    if i < 0 || i >= protocols.len() {
        Seq::empty()
    } else {
        tag_attribute_entries(protocols[i].0@, configurations_of_definition(protocols[i].1))
            + main_attribute_entries(protocols, i + 1)
    }
}

/// The view of the global attribute table.
pub open spec fn protocol_attributes_view(
    s: Seq<(ProtocolAttributesIdentifier, ProtocolDeviceAttributes)>,
) -> Seq<((Seq<char>, Option<Seq<char>>, Option<Seq<char>>), DeviceAttributesView)> {
    s.map_values(
        |e: (ProtocolAttributesIdentifier, ProtocolDeviceAttributes)|
            (attributes_identifier_key(e.0), device_attributes_view(e.1)),
    )
}

/// Appends one protocol's keyed attribute entries to the global table.
#[verifier::rlimit(100)]
fn push_protocol_attribute_entries(
    out: &mut Vec<(ProtocolAttributesIdentifier, ProtocolDeviceAttributes)>,
    name: &String,
    configurations: Vec<(ProtocolAttributesType, ProtocolDeviceAttributes)>,
)
    ensures
        protocol_attributes_view(final(out)@) =~~= protocol_attributes_view(old(out)@)
            + tag_attribute_entries(name@, configurations_view(configurations@)),
{
    let ghost base = protocol_attributes_view(old(out)@);
    let ghost gconf = configurations@;
    let mut rest = configurations;
    let mut i: usize = 0;
    let n = rest.len();
    while i < n
        invariant
            i <= gconf.len(),
            n == gconf.len(),
            rest@ =~= gconf.skip(i as int),
            protocol_attributes_view(out@) =~~= base + tag_attribute_entries(
                name@,
                configurations_view(gconf.take(i as int)),
            ),
        decreases n - i,
    {
        let (ident, attrs) = rest.remove(0);
        proof {
            assert((ident, attrs) == gconf[i as int]);
            assert(rest@ =~= gconf.skip(i + 1));
        }
        let pai = ProtocolAttributesIdentifier::new(name, &ident, &None);
        let ghost before = protocol_attributes_view(out@);
        out.push((pai, attrs));
        proof {
            assert(protocol_attributes_view(out@) =~~= before + seq![
                (
                    (name@, attributes_type_key(gconf[i as int].0), None::<Seq<char>>),
                    device_attributes_view(gconf[i as int].1),
                )
            ]);
            assert(configurations_view(gconf.take(i + 1)) =~~= configurations_view(
                gconf.take(i as int),
            ).push(
                (attributes_type_key(gconf[i as int].0), device_attributes_view(gconf[i as int].1)),
            ));
            assert(protocol_attributes_view(out@) =~~= base + tag_attribute_entries(
                name@,
                configurations_view(gconf.take(i + 1)),
            ));
        }
        i = i + 1;
    }
    proof {
        assert(gconf.take(gconf.len() as int) =~= gconf);
    }
}

/// Builds the resolved configuration from a parsed built-in document and an
/// optional parsed user document.
///
/// Each document's version must be accepted. The built-in protocol blocks
/// produce the specifier and attribute tables; the user document's layer is
/// then merged on top. No partial configuration is ever returned.
#[verifier::rlimit(100)]
pub fn load_protocol_configs_from_json(
    main_config: ProtocolConfiguration,
    user_config: Option<ProtocolConfiguration>,
    skip_version_check: bool,
) -> (r: Result<ExternalDeviceConfiguration, ButtplugError>)
    ensures
        r is Ok <==> version_accepted(main_config.version, skip_version_check) && (match
            user_config {
            Some(u) => version_accepted(u.version, skip_version_check),
            None => true,
        }),
        r is Err ==> r == Err::<ExternalDeviceConfiguration, ButtplugError>(
            if !version_accepted(main_config.version, skip_version_check) {
                version_error(main_config.version)
            } else {
                version_error(user_config->Some_0.version)
            },
        ),
        r matches Ok(c) ==> {
            let protocols = (match main_config.protocols {
                Some(p) => p@,
                None => Seq::<(String, ProtocolDefinition)>::empty(),
            });
            let ucd = (match user_config {
                Some(u) => u.user_configs,
                None => None,
            });
            let base_ps = main_specifier_entries(protocols);
            &&& protocol_attributes_view(c.protocol_attributes@) =~~= main_attribute_entries(
                protocols,
                0,
            )
            &&& protocol_specifiers_view(c.protocol_specifiers@) =~~= (match ucd {
                Some(u) => merged_protocol_specifiers(base_ps, u.specifiers@, 0),
                None => base_ps,
            })
            &&& string_seq_view(c.allow_list@) =~~= (match ucd {
                Some(u) => allow_additions(u.user_configs@, 0),
                None => Seq::<Seq<char>>::empty(),
            })
            &&& string_seq_view(c.deny_list@) =~~= (match ucd {
                Some(u) => deny_additions(u.user_configs@, 0),
                None => Seq::<Seq<char>>::empty(),
            })
            &&& reserved_view(c.reserved_indexes@) =~~= (match ucd {
                Some(u) => reserved_additions(u.user_configs@, 0),
                None => Seq::<(u32, (Seq<char>, Seq<char>, Option<Seq<char>>))>::empty(),
            })
            &&& user_configs_view(c.user_configs@) =~~= (match ucd {
                Some(u) => user_config_additions(u.user_configs@, 0),
                None => Seq::<
                    ((Seq<char>, Seq<char>, Option<Seq<char>>), DeviceAttributesView),
                >::empty(),
            })
        },
{
    if let Err(e) = check_config_version(main_config.version, skip_version_check) {
        return Err(e);
    }
    let mut external_config = ExternalDeviceConfiguration::default();
    proof {
        assert(external_config.allow_list@ =~= Seq::<String>::empty());
        assert(external_config.deny_list@ =~= Seq::<String>::empty());
        assert(external_config.reserved_indexes@ =~= Seq::<
            (u32, ServerDeviceIdentifier),
        >::empty());
        assert(external_config.protocol_specifiers@ =~= Seq::<
            (String, Vec<ProtocolCommunicationSpecifier>),
        >::empty());
        assert(external_config.protocol_attributes@ =~= Seq::<
            (ProtocolAttributesIdentifier, ProtocolDeviceAttributes),
        >::empty());
        assert(external_config.user_configs@ =~= Seq::<
            (ServerDeviceIdentifier, ProtocolDeviceAttributes),
        >::empty());
    }
    let ghost gprotocols = (match &main_config.protocols {
        Some(p) => p@,
        None => Seq::<(String, ProtocolDefinition)>::empty(),
    });
    if let Some(protocols) = main_config.protocols {
        let mut rest = protocols;
        let mut i: usize = 0;
        let n = rest.len();
        while i < n
            invariant
                i <= gprotocols.len(),
                n == gprotocols.len(),
                rest@ =~= gprotocols.skip(i as int),
                protocol_specifiers_view(external_config.protocol_specifiers@)
                    =~~= main_specifier_entries(gprotocols.take(i as int)),
                protocol_attributes_view(external_config.protocol_attributes@)
                    =~~= main_attribute_entries_upto(gprotocols, i as int),
                external_config.allow_list@ =~= Seq::<String>::empty(),
                external_config.deny_list@ =~= Seq::<String>::empty(),
                external_config.reserved_indexes@ =~= Seq::<
                    (u32, ServerDeviceIdentifier),
                >::empty(),
                external_config.user_configs@ =~= Seq::<
                    (ServerDeviceIdentifier, ProtocolDeviceAttributes),
                >::empty(),
            decreases n - i,
        {
            let (protocol_name, protocol_def) = rest.remove(0);
            proof {
                assert((protocol_name, protocol_def) == gprotocols[i as int]);
                assert(rest@ =~= gprotocols.skip(i + 1));
            }
            let protocol_device_config = ProtocolDeviceConfiguration::from_definition(
                protocol_def,
            );
            let ProtocolDeviceConfiguration { specifiers, configurations } =
                protocol_device_config;
            push_protocol_attribute_entries(
                &mut external_config.protocol_attributes,
                &protocol_name,
                configurations,
            );
            let ghost before_ps = protocol_specifiers_view(external_config.protocol_specifiers@);
            external_config.protocol_specifiers.push((protocol_name, specifiers));
            proof {
                assert(protocol_specifiers_view(external_config.protocol_specifiers@)
                    =~~= before_ps + seq![
                    (
                        gprotocols[i as int].0@,
                        specifiers_of_definition(gprotocols[i as int].1),
                    )
                ]);
                assert(main_specifier_entries(gprotocols.take(i + 1))
                    =~~= main_specifier_entries(gprotocols.take(i as int)).push(
                    (gprotocols[i as int].0@, specifiers_of_definition(gprotocols[i as int].1)),
                ));
                lemma_main_attribute_entries_step(gprotocols, i as int);
                assert(protocol_attributes_view(external_config.protocol_attributes@)
                    =~~= main_attribute_entries_upto(gprotocols, i + 1));
            }
            i = i + 1;
        }
        proof {
            assert(gprotocols.take(gprotocols.len() as int) =~= gprotocols);
            lemma_main_attribute_entries_upto_all(gprotocols);
        }
    }
    proof {
        assert(protocol_specifiers_view(external_config.protocol_specifiers@)
            =~~= main_specifier_entries(gprotocols));
        assert(protocol_attributes_view(external_config.protocol_attributes@)
            =~~= main_attribute_entries(gprotocols, 0));
    }
    if let Some(user) = user_config {
        if let Err(e) = check_config_version(user.version, skip_version_check) {
            return Err(e);
        }
        if let Some(user_configs) = user.user_configs {
            add_user_configs_to_protocol(&mut external_config, user_configs);
        }
    }
    Ok(external_config)
}

/// The global attribute table the built-in protocol blocks before `i`
/// produce.
pub open spec fn main_attribute_entries_upto(protocols: Seq<(String, ProtocolDefinition)>, i: int)
    -> Seq<((Seq<char>, Option<Seq<char>>, Option<Seq<char>>), DeviceAttributesView)>
    decreases i,
{
    if i <= 0 {
        Seq::empty()
    } else {
        main_attribute_entries_upto(protocols, i - 1) + tag_attribute_entries(
            protocols[i - 1].0@,
            configurations_of_definition(protocols[i - 1].1),
        )
    }
}

/// Appending one protocol's entries extends the prefix fold by that
/// protocol.
pub proof fn lemma_main_attribute_entries_step(
    protocols: Seq<(String, ProtocolDefinition)>,
    i: int,
)
    requires
        0 <= i < protocols.len(),
    ensures
        main_attribute_entries_upto(protocols, i + 1) == main_attribute_entries_upto(protocols, i)
            + tag_attribute_entries(
            protocols[i].0@,
            configurations_of_definition(protocols[i].1),
        ),
{
}

/// The prefix fold over all protocols equals the suffix fold from the start.
pub proof fn lemma_main_attribute_entries_upto_all(protocols: Seq<(String, ProtocolDefinition)>)
    ensures
        main_attribute_entries_upto(protocols, protocols.len() as int) == main_attribute_entries(
            protocols,
            0,
        ),
{
    lemma_main_attribute_entries_agree(protocols, 0);
}

/// The two folds over protocol blocks agree on every split point.
pub proof fn lemma_main_attribute_entries_agree(
    protocols: Seq<(String, ProtocolDefinition)>,
    i: int,
)
    requires
        0 <= i <= protocols.len(),
    ensures
        main_attribute_entries_upto(protocols, protocols.len() as int)
            == main_attribute_entries_upto(protocols, i) + main_attribute_entries(protocols, i),
    decreases protocols.len() - i,
{
    if i == protocols.len() {
        assert(main_attribute_entries(protocols, i) =~= Seq::<
            ((Seq<char>, Option<Seq<char>>, Option<Seq<char>>), DeviceAttributesView),
        >::empty());
        assert(main_attribute_entries_upto(protocols, i) + Seq::<
            ((Seq<char>, Option<Seq<char>>, Option<Seq<char>>), DeviceAttributesView),
        >::empty() =~= main_attribute_entries_upto(protocols, i));
    } else {
        lemma_main_attribute_entries_agree(protocols, i + 1);
        lemma_main_attribute_entries_step(protocols, i);
        let block = tag_attribute_entries(
            protocols[i].0@,
            configurations_of_definition(protocols[i].1),
        );
        assert(main_attribute_entries_upto(protocols, i) + (block + main_attribute_entries(
            protocols,
            i + 1,
        )) =~= (main_attribute_entries_upto(protocols, i) + block) + main_attribute_entries(
            protocols,
            i + 1,
        ));
    }
}

/// The per-session lookup table a device-connection pipeline consumes:
/// whether raw messages are allowed, plus the resolved specifier and
/// attribute tables.
#[derive(Debug, Default)]
pub struct DeviceConfigurationManager {
    pub allow_raw_messages: bool,
    pub protocol_specifiers: Vec<(String, Vec<ProtocolCommunicationSpecifier>)>,
    pub protocol_attributes: Vec<(ProtocolAttributesIdentifier, ProtocolDeviceAttributes)>,
}

/// Builds a manager from the engine's own empty built-in configuration,
/// for exercising the connection pipeline without configuration files.
pub fn create_test_dcm(allow_raw_messages: bool) -> (r: DeviceConfigurationManager)
    ensures
        r.allow_raw_messages == allow_raw_messages,
        r.protocol_specifiers@ =~= Seq::<
            (String, Vec<ProtocolCommunicationSpecifier>),
        >::empty(),
        r.protocol_attributes@ =~= Seq::<
            (ProtocolAttributesIdentifier, ProtocolDeviceAttributes),
        >::empty(),
{
    let devices = load_protocol_configs_from_json(ProtocolConfiguration::default(), None, false);
    match devices {
        Ok(d) => {
            proof {
                assert(protocol_specifiers_view(d.protocol_specifiers@)
                    =~~= main_specifier_entries(
                    Seq::<(String, ProtocolDefinition)>::empty(),
                ));
                assert(d.protocol_specifiers@.len() == 0);
                assert(d.protocol_attributes@.len() == 0);
            }
            DeviceConfigurationManager {
                allow_raw_messages,
                protocol_specifiers: d.protocol_specifiers,
                protocol_attributes: d.protocol_attributes,
            }
        },
        Err(_) => vstd::pervasive::unreached(),
    }
}

} // verus!
