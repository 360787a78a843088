//! The control dispatcher and the bus device's Plug-and-Play lifecycle.
//!
//! Requests arrive as an opcode and a payload of caller-declared length. The
//! length is checked against the opcode's structure size before any byte is
//! interpreted. The lifecycle is a state machine from event to action: the
//! caller performs each action (creating or deleting the device object or its
//! symbolic link) and reports the outcome as the next event.
use vstd::prelude::*;
use crate::registry::{
    DeviceView, Registry, create_spec, remove_spec, rename_spec, set_format_spec,
};
use crate::wire::{
    AudioDataType, AudioFormat, ChannelConfig, ControlError, DEVICE_CONTROL_PAYLOAD_SIZE, DeviceId,
    DeviceControlPayload, IOCTL_CREATE_VIRTUAL_DEVICE, IOCTL_REMOVE_VIRTUAL_DEVICE,
    IOCTL_SET_STREAM_FORMAT, IOCTL_UPDATE_DEVICE_NAME, NAME_UNITS, STREAM_FORMAT_PAYLOAD_SIZE,
    StreamFormatPayload, channels_of_code, data_type_of_code,
};

verus! {

/// The little-endian 16-bit word at `off`.
pub open spec fn le_u16(b: Seq<u8>, off: int) -> u16 {
    (b[off] as int + 256 * (b[off + 1] as int)) as u16
}

/// The little-endian 32-bit word at `off`.
pub open spec fn le_u32(b: Seq<u8>, off: int) -> u32 {
    (b[off] as int + 256 * (b[off + 1] as int) + 65536 * (b[off + 2] as int) + 16777216 * (b[off
        + 3] as int)) as u32
}

/// The device id: the payload's first sixteen bytes.
pub open spec fn id_bytes(b: Seq<u8>) -> Seq<u8> {
    b.take(16)
}

/// The sixty-four name units that follow the id.
pub open spec fn name_units(b: Seq<u8>) -> Seq<u16> {
    Seq::new(NAME_UNITS as nat, |i: int| le_u16(b, 16 + 2 * i))
}

/// The units of a name field before its first zero unit.
pub open spec fn until_nul(s: Seq<u16>) -> Seq<u16> {
    if exists|i: int| 0 <= i < s.len() && s[i] == 0 {
        s.take(
            choose|i: int|
                0 <= i < s.len() && s[i] == 0 && forall|j: int| 0 <= j < i ==> s[j] != 0,
        )
    } else {
        s
    }
}

/// The format that follows the id in a stream-format payload.
pub open spec fn format_bytes(b: Seq<u8>) -> AudioFormat {
    AudioFormat {
        sample_rate: le_u32(b, 16),
        channels: channels_of_code(le_u32(b, 20)).unwrap(),
        data_type: data_type_of_code(le_u32(b, 24)).unwrap(),
    }
}

/// Whether a payload is long enough, and well formed, for its opcode.
pub open spec fn valid_request(opcode: u32, b: Seq<u8>) -> bool {
    if opcode == IOCTL_CREATE_VIRTUAL_DEVICE || opcode == IOCTL_REMOVE_VIRTUAL_DEVICE || opcode
        == IOCTL_UPDATE_DEVICE_NAME {
        b.len() >= DEVICE_CONTROL_PAYLOAD_SIZE
    } else if opcode == IOCTL_SET_STREAM_FORMAT {
        &&& b.len() >= STREAM_FORMAT_PAYLOAD_SIZE
        &&& channels_of_code(le_u32(b, 20)).is_some()
        &&& data_type_of_code(le_u32(b, 24)).is_some()
    } else {
        false
    }
}

/// What a valid request does to the device table, and its result.
pub open spec fn request_effect(s: Seq<DeviceView>, opcode: u32, b: Seq<u8>) -> (
    Seq<DeviceView>,
    Result<(), ControlError>,
) {
    if opcode == IOCTL_CREATE_VIRTUAL_DEVICE {
        create_spec(s, id_bytes(b), until_nul(name_units(b)), b[144] != 0, b[145] != 0)
    } else if opcode == IOCTL_REMOVE_VIRTUAL_DEVICE {
        remove_spec(s, id_bytes(b))
    } else if opcode == IOCTL_UPDATE_DEVICE_NAME {
        rename_spec(s, id_bytes(b), until_nul(name_units(b)))
    } else {
        set_format_spec(s, id_bytes(b), format_bytes(b))
    }
}

/// A decoded request, tagged by its opcode.
pub enum ControlRequest {
    CreateVirtualDevice(DeviceControlPayload),
    RemoveVirtualDevice(DeviceControlPayload),
    UpdateDeviceName(DeviceControlPayload),
    SetStreamFormat(StreamFormatPayload),
}

/// Whether a device payload holds what the bytes encode.
pub open spec fn device_payload_of(p: DeviceControlPayload, b: Seq<u8>) -> bool {
    &&& p.id@ == id_bytes(b)
    &&& p.friendly_name@ == name_units(b)
    &&& p.is_enabled == (b[144] != 0)
    &&& p.persistent == (b[145] != 0)
}

/// Reads the little-endian 16-bit word at `off`.
fn read_u16(b: &[u8], off: usize) -> (r: u16)
    requires
        off + 2 <= b@.len(),
    ensures
        r == le_u16(b@, off as int),
{
    b[off] as u16 + (b[off + 1] as u16) * 256
}

/// Reads the little-endian 32-bit word at `off`.
fn read_u32(b: &[u8], off: usize) -> (r: u32)
    requires
        off + 4 <= b@.len(),
    ensures
        r == le_u32(b@, off as int),
{
    b[off] as u32 + (b[off + 1] as u32) * 256 + (b[off + 2] as u32) * 65536 + (b[off + 3] as u32)
        * 16777216
}

/// Reads the device id at the head of a payload.
fn read_id(b: &[u8]) -> (id: DeviceId)
    requires
        b@.len() >= 16,
    ensures
        id@ == id_bytes(b@),
{
    let mut id: DeviceId = [0u8; 16];
    let mut i: usize = 0;
    while i < 16
        invariant
            i <= 16,
            b@.len() >= 16,
            id@.len() == 16,
            forall|j: int| 0 <= j < i ==> id@[j] == b@[j],
        decreases 16 - i,
    {
        id[i] = b[i];
        i = i + 1;
    }
    assert(id@ =~= id_bytes(b@));
    id
}

/// Decodes a device payload; the caller has checked its length.
fn read_device_payload(b: &[u8]) -> (p: DeviceControlPayload)
    requires
        b@.len() >= DEVICE_CONTROL_PAYLOAD_SIZE,
    ensures
        device_payload_of(p, b@),
{
    let id = read_id(b);
    let mut name: [u16; 64] = [0u16; 64];
    let mut i: usize = 0;
    while i < NAME_UNITS
        invariant
            i <= NAME_UNITS,
            b@.len() >= DEVICE_CONTROL_PAYLOAD_SIZE,
            name@.len() == NAME_UNITS,
            forall|j: int| 0 <= j < i ==> name@[j] == le_u16(b@, 16 + 2 * j),
        decreases NAME_UNITS - i,
    {
        name[i] = read_u16(b, 16 + 2 * i);
        i = i + 1;
    }
    assert(name@ =~= name_units(b@));
    DeviceControlPayload { id, friendly_name: name, is_enabled: b[144] != 0, persistent: b[145] != 0 }
}

/// Checks the declared payload length against the opcode's structure size,
/// then decodes the payload. Anything else is an invalid request.
pub fn decode(opcode: u32, input: &[u8]) -> (r: Result<ControlRequest, ControlError>)
    ensures
        r.is_ok() == valid_request(opcode, input@),
        match r {
            Ok(ControlRequest::CreateVirtualDevice(p)) => opcode == IOCTL_CREATE_VIRTUAL_DEVICE
                && device_payload_of(p, input@),
            Ok(ControlRequest::RemoveVirtualDevice(p)) => opcode == IOCTL_REMOVE_VIRTUAL_DEVICE
                && device_payload_of(p, input@),
            Ok(ControlRequest::UpdateDeviceName(p)) => opcode == IOCTL_UPDATE_DEVICE_NAME
                && device_payload_of(p, input@),
            Ok(ControlRequest::SetStreamFormat(p)) => opcode == IOCTL_SET_STREAM_FORMAT && p.id@
                == id_bytes(input@) && p.format == format_bytes(input@),
            Err(e) => e == ControlError::InvalidRequest,
        },
{
    if opcode == IOCTL_CREATE_VIRTUAL_DEVICE || opcode == IOCTL_REMOVE_VIRTUAL_DEVICE || opcode
        == IOCTL_UPDATE_DEVICE_NAME {
        if input.len() < DEVICE_CONTROL_PAYLOAD_SIZE {
            return Err(ControlError::InvalidRequest);
        }
        let p = read_device_payload(input);
        if opcode == IOCTL_CREATE_VIRTUAL_DEVICE {
            Ok(ControlRequest::CreateVirtualDevice(p))
        } else if opcode == IOCTL_REMOVE_VIRTUAL_DEVICE {
            Ok(ControlRequest::RemoveVirtualDevice(p))
        } else {
            Ok(ControlRequest::UpdateDeviceName(p))
        }
    } else if opcode == IOCTL_SET_STREAM_FORMAT {
        if input.len() < STREAM_FORMAT_PAYLOAD_SIZE {
            return Err(ControlError::InvalidRequest);
        }
        let channels = ChannelConfig::from_code(read_u32(input, 20));
        let data_type = AudioDataType::from_code(read_u32(input, 24));
        match (channels, data_type) {
            (Some(channels), Some(data_type)) => {
                let format = AudioFormat { sample_rate: read_u32(input, 16), channels, data_type };
                Ok(ControlRequest::SetStreamFormat(StreamFormatPayload { id: read_id(input), format }))
            },
            _ => Err(ControlError::InvalidRequest),
        }
    } else {
        Err(ControlError::InvalidRequest)
    }
}

/// The units of a name field before its first zero unit.
pub fn name_until_nul(units: &[u16]) -> (r: Vec<u16>)
    ensures
        r@ == until_nul(units@),
{
    let mut r: Vec<u16> = Vec::new();
    let mut i: usize = 0;
    while i < units.len()
        invariant
            i <= units@.len(),
            r@ =~= units@.take(i as int),
            forall|j: int| 0 <= j < i ==> units@[j] != 0,
        decreases units@.len() - i,
    {
        if units[i] == 0 {
            proof {
                let s = units@;
                assert(exists|k: int| 0 <= k < s.len() && s[k] == 0);
                let c = choose|k: int|
                    0 <= k < s.len() && s[k] == 0 && forall|j: int| 0 <= j < k ==> s[j] != 0;
                assert(0 <= i < s.len() && s[i as int] == 0 && forall|j: int|
                    0 <= j < i ==> s[j] != 0);
                if c < i {
                } else if c > i {
                    assert(s[i as int] != 0);
                }
                assert(c == i);
            }
            return r;
        }
        r.push(units[i]);
        i = i + 1;
    }
    assert(units@.take(units@.len() as int) =~= units@);
    r
}

/// Lifecycle phase of the bus device.
#[derive(Debug, Clone, Copy, PartialEq, Eq, Structural)]
pub enum BusState {
    Unbound,
    Started,
    Removing,
    Removed,
}

/// What the platform reports to the bus device.
#[derive(Debug, Clone, Copy, PartialEq, Eq, Structural)]
pub enum PnpEvent {
    /// The platform asks the device to start.
    Start,
    /// The device object was created.
    DeviceCreated,
    /// Creating the device object failed.
    DeviceCreateFailed,
    /// The symbolic link was created.
    LinkCreated,
    /// Creating the symbolic link failed.
    LinkCreateFailed,
    /// The platform asks the device to go away.
    Remove,
    /// The symbolic link was deleted.
    LinkDeleted,
    /// The device object was deleted.
    DeviceDeleted,
}

/// What the caller does next on the bus device's behalf.
#[derive(Debug, Clone, Copy, PartialEq, Eq, Structural)]
pub enum PnpAction {
    CreateDevice,
    CreateLink,
    DeleteLink,
    DeleteDevice,
    /// The transition finished: report success to the platform.
    Complete,
    /// The start failed and was undone: report failure to the platform.
    Fail,
    /// The event does not apply in this state; nothing changes.
    Ignore,
}

/// The bus device as a client sees it.
pub struct BusView {
    pub state: BusState,
    pub device_object: bool,
    pub symbolic_link: bool,
    pub devices: Seq<DeviceView>,
}

/// The bus device after an event, and the action it asks for. The symbolic
/// link is always deleted before the device object, and a failed start is
/// undone back to `Unbound`.
pub open spec fn pnp_step(v: BusView, e: PnpEvent) -> (BusView, PnpAction) {
    match (v.state, e) {
        (BusState::Unbound, PnpEvent::Start) if !v.device_object => (v, PnpAction::CreateDevice),
        (BusState::Unbound, PnpEvent::DeviceCreated) if !v.device_object => (
            BusView { device_object: true, ..v },
            PnpAction::CreateLink,
        ),
        (BusState::Unbound, PnpEvent::DeviceCreateFailed) if !v.device_object => (
            v,
            PnpAction::Fail,
        ),
        (BusState::Unbound, PnpEvent::LinkCreated) if v.device_object && !v.symbolic_link => (
            BusView { state: BusState::Started, symbolic_link: true, ..v },
            PnpAction::Complete,
        ),
        (BusState::Unbound, PnpEvent::LinkCreateFailed) if v.device_object && !v.symbolic_link => (
            v,
            PnpAction::DeleteDevice,
        ),
        (BusState::Unbound, PnpEvent::DeviceDeleted) if v.device_object && !v.symbolic_link => (
            BusView { device_object: false, ..v },
            PnpAction::Fail,
        ),
        (BusState::Started, PnpEvent::Remove) => (
            BusView { state: BusState::Removing, ..v },
            PnpAction::DeleteLink,
        ),
        (BusState::Removing, PnpEvent::LinkDeleted) if v.symbolic_link => (
            BusView { symbolic_link: false, ..v },
            PnpAction::DeleteDevice,
        ),
        (BusState::Removing, PnpEvent::DeviceDeleted) if v.device_object && !v.symbolic_link => (
            BusView {
                state: BusState::Removed,
                device_object: false,
                devices: Seq::empty(),
                ..v
            },
            PnpAction::Complete,
        ),
        _ => (v, PnpAction::Ignore),
    }
}

/// The bus device's lifecycle invariant.
pub open spec fn bus_inv(v: BusView) -> bool {
    &&& v.symbolic_link ==> v.device_object
    &&& v.state == BusState::Started ==> v.device_object && v.symbolic_link
    &&& v.state == BusState::Unbound ==> !v.symbolic_link
    &&& v.state == BusState::Removed ==> !v.device_object && !v.symbolic_link && v.devices.len()
        == 0
}

/// What a control request does to the bus: refused unless started, refused
/// when malformed, else its effect on the device table.
pub open spec fn dispatch_spec(v: BusView, opcode: u32, b: Seq<u8>) -> (
    Seq<DeviceView>,
    Result<(), ControlError>,
) {
    if v.state != BusState::Started {
        (v.devices, Err(ControlError::NotReady))
    } else if !valid_request(opcode, b) {
        (v.devices, Err(ControlError::InvalidRequest))
    } else {
        request_effect(v.devices, opcode, b)
    }
}

/// The bus device: its lifecycle and the registry of virtual devices that
/// it owns from start to unload.
pub struct BusDevice {
    state: BusState,
    device_object: bool,
    symbolic_link: bool,
    registry: Registry,
}

impl View for BusDevice {
    type V = BusView;

    closed spec fn view(&self) -> BusView {
        BusView {
            state: self.state,
            device_object: self.device_object,
            symbolic_link: self.symbolic_link,
            devices: self.registry@,
        }
    }
}

impl BusDevice {
    pub closed spec fn wf(&self) -> bool {
        self.registry.wf() && bus_inv(self@)
    }

    /// A bus device not yet started, with no virtual devices.
    pub fn new() -> (r: BusDevice)
        ensures
            r.wf(),
            r@ == (BusView {
                state: BusState::Unbound,
                device_object: false,
                symbolic_link: false,
                devices: Seq::empty(),
            }),
    {
        BusDevice {
            state: BusState::Unbound,
            device_object: false,
            symbolic_link: false,
            registry: Registry::new(),
        }
    }

    /// The current lifecycle phase.
    pub fn state(&self) -> (r: BusState)
        ensures
            r == self@.state,
    {
        self.state
    }

    /// The registry of virtual devices.
    pub fn registry(&self) -> (r: &Registry)
        requires
            self.wf(),
        ensures
            r.wf(),
            r@ == self@.devices,
    {
        &self.registry
    }

    /// Applies a lifecycle event and returns the action the caller performs.
    pub fn on_pnp_event(&mut self, e: PnpEvent) -> (r: PnpAction)
        requires
            old(self).wf(),
        ensures
            final(self).wf(),
            (final(self)@, r) == pnp_step(old(self)@, e),
            r == PnpAction::DeleteDevice ==> !final(self)@.symbolic_link,
    {
        let unbound = self.state == BusState::Unbound;
        let dev = self.device_object;
        let link = self.symbolic_link;
        if unbound && e == PnpEvent::Start && !dev {
            PnpAction::CreateDevice
        } else if unbound && e == PnpEvent::DeviceCreated && !dev {
            self.device_object = true;
            PnpAction::CreateLink
        } else if unbound && e == PnpEvent::DeviceCreateFailed && !dev {
            PnpAction::Fail
        } else if unbound && e == PnpEvent::LinkCreated && dev && !link {
            self.symbolic_link = true;
            self.state = BusState::Started;
            PnpAction::Complete
        } else if unbound && e == PnpEvent::LinkCreateFailed && dev && !link {
            PnpAction::DeleteDevice
        } else if unbound && e == PnpEvent::DeviceDeleted && dev && !link {
            self.device_object = false;
            PnpAction::Fail
        } else if self.state == BusState::Started && e == PnpEvent::Remove {
            self.state = BusState::Removing;
            PnpAction::DeleteLink
        } else if self.state == BusState::Removing && e == PnpEvent::LinkDeleted && link {
            self.symbolic_link = false;
            PnpAction::DeleteDevice
        } else if self.state == BusState::Removing && e == PnpEvent::DeviceDeleted && dev && !link {
            self.registry.clear();
            self.device_object = false;
            self.state = BusState::Removed;
            PnpAction::Complete
        } else {
            PnpAction::Ignore
        }
    }

    /// Handles one control request: `NotReady` unless started, then
    /// `InvalidRequest` for a short or malformed payload, else the registry
    /// operation the opcode names. A failure changes nothing.
    pub fn dispatch(&mut self, opcode: u32, input: &[u8]) -> (r: Result<(), ControlError>)
        requires
            old(self).wf(),
        ensures
            final(self).wf(),
            final(self)@.state == old(self)@.state,
            final(self)@.device_object == old(self)@.device_object,
            final(self)@.symbolic_link == old(self)@.symbolic_link,
            (final(self)@.devices, r) == dispatch_spec(old(self)@, opcode, input@),
    {
        if self.state != BusState::Started {
            return Err(ControlError::NotReady);
        }
        match decode(opcode, input) {
            Err(e) => Err(e),
            Ok(ControlRequest::CreateVirtualDevice(p)) => {
                let name = name_until_nul(&p.friendly_name);
                self.registry.create(&p.id, &name, p.is_enabled, p.persistent)
            },
            Ok(ControlRequest::RemoveVirtualDevice(p)) => self.registry.remove(&p.id),
            Ok(ControlRequest::UpdateDeviceName(p)) => {
                let name = name_until_nul(&p.friendly_name);
                self.registry.rename(&p.id, &name)
            },
            Ok(ControlRequest::SetStreamFormat(p)) => self.registry.set_format(&p.id, p.format),
        }
    }

    /// Detaches the stream of device `id` (see `Registry::detach`).
    pub fn detach(&mut self, id: &DeviceId) -> (r: Result<(), ControlError>)
        requires
            old(self).wf(),
        ensures
            final(self).wf(),
            final(self)@ == (BusView {
                devices: crate::registry::detach_spec(old(self)@.devices, id@).0,
                ..old(self)@
            }),
            r == crate::registry::detach_spec(old(self)@.devices, id@).1,
    {
        self.registry.detach(id)
    }

    /// Acknowledges status bits of the stream of device `id` (see
    /// `Registry::acknowledge_stream_status`).
    pub fn acknowledge_stream_status(&mut self, id: &DeviceId, mask: u32) -> (r: Result<(), ControlError>)
        requires
            old(self).wf(),
        ensures
            final(self).wf(),
            final(self)@ == (BusView {
                devices: crate::registry::acknowledge_spec(old(self)@.devices, id@, mask).0,
                ..old(self)@
            }),
            r == crate::registry::acknowledge_spec(old(self)@.devices, id@, mask).1,
    {
        self.registry.acknowledge_stream_status(id, mask)
    }

    /// Producer side of the stream of device `id` (see `Registry::write_stream`).
    pub fn write_stream(&mut self, id: &DeviceId, bytes: &[u8]) -> (r: Result<(), ControlError>)
        requires
            old(self).wf(),
        ensures
            final(self).wf(),
            final(self)@ == (BusView {
                devices: crate::registry::stream_write_spec(old(self)@.devices, id@, bytes@).0,
                ..old(self)@
            }),
            r == crate::registry::stream_write_spec(old(self)@.devices, id@, bytes@).1,
    {
        self.registry.write_stream(id, bytes)
    }

    /// Consumer side of the stream of device `id` (see `Registry::read_stream`).
    pub fn read_stream(&mut self, id: &DeviceId, max_len: usize) -> (r: Result<Vec<u8>, ControlError>)
        requires
            old(self).wf(),
        ensures
            final(self).wf(),
            final(self)@ == (BusView {
                devices: crate::registry::stream_read_spec(old(self)@.devices, id@, max_len as nat).0,
                ..old(self)@
            }),
            match (r, crate::registry::stream_read_spec(old(self)@.devices, id@, max_len as nat).1) {
                (Ok(out), Ok(expected)) => out@ == expected,
                (Err(e), Err(expected)) => e == expected,
                _ => false,
            },
    {
        self.registry.read_stream(id, max_len)
    }
}

/// Readiness: while the bus device is not started, every control request is
/// refused with `NotReady` and changes nothing. A start that succeeds (the
/// device object, then the symbolic link, are created) leaves it started,
/// and the identical request is then handled: refused with `InvalidRequest`
/// only when its payload is short or malformed, else applied to the table.
pub proof fn lemma_ready_after_start(v: BusView, opcode: u32, b: Seq<u8>)
    requires
        bus_inv(v),
        v.state == BusState::Unbound,
        !v.device_object,
    ensures
        dispatch_spec(v, opcode, b) == (
            v.devices,
            Err::<(), ControlError>(ControlError::NotReady),
        ),
        ({
            let (v1, a1) = pnp_step(v, PnpEvent::Start);
            let (v2, a2) = pnp_step(v1, PnpEvent::DeviceCreated);
            let (v3, a3) = pnp_step(v2, PnpEvent::LinkCreated);
            &&& a1 == PnpAction::CreateDevice
            &&& a2 == PnpAction::CreateLink
            &&& a3 == PnpAction::Complete
            &&& v3.state == BusState::Started
            &&& v3.devices == v.devices
            &&& bus_inv(v3)
            &&& dispatch_spec(v3, opcode, b) == (if valid_request(opcode, b) {
                request_effect(v.devices, opcode, b)
            } else {
                (v.devices, Err(ControlError::InvalidRequest))
            })
        }),
{
}

} // verus!
