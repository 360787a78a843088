use cable_audio_bus::control::{decode, name_until_nul, BusDevice, BusState, ControlRequest, PnpAction, PnpEvent};
use cable_audio_bus::wire::{
    ControlError, STATUS_OVERRUN, STATUS_UNDERRUN, IOCTL_CREATE_VIRTUAL_DEVICE, IOCTL_REMOVE_VIRTUAL_DEVICE, IOCTL_SET_STREAM_FORMAT,
    IOCTL_UPDATE_DEVICE_NAME,
};

fn id(n: u8) -> [u8; 16] {
    let mut a = [0u8; 16];
    a[0] = n;
    a
}

fn device_payload(n: u8, name: &str, enabled: bool, persistent: bool) -> Vec<u8> {
    let mut b = id(n).to_vec();
    let units: Vec<u16> = name.encode_utf16().collect();
    for i in 0..64 {
        let u = if i < units.len() { units[i] } else { 0 };
        b.extend_from_slice(&u.to_le_bytes());
    }
    b.push(enabled as u8);
    b.push(persistent as u8);
    b
}

fn format_payload(n: u8, rate: u32, channels: u32, data_type: u32) -> Vec<u8> {
    let mut b = id(n).to_vec();
    b.extend_from_slice(&rate.to_le_bytes());
    b.extend_from_slice(&channels.to_le_bytes());
    b.extend_from_slice(&data_type.to_le_bytes());
    b
}

fn started() -> BusDevice {
    let mut bus = BusDevice::new();
    assert_eq!(bus.on_pnp_event(PnpEvent::Start), PnpAction::CreateDevice);
    assert_eq!(bus.on_pnp_event(PnpEvent::DeviceCreated), PnpAction::CreateLink);
    assert_eq!(bus.on_pnp_event(PnpEvent::LinkCreated), PnpAction::Complete);
    assert_eq!(bus.state(), BusState::Started);
    bus
}

#[test]
fn cable_a_lifecycle() {
    let mut bus = started();
    let id1 = id(1);
    assert_eq!(bus.dispatch(IOCTL_CREATE_VIRTUAL_DEVICE, &device_payload(1, "Cable-A", true, false)), Ok(()));
    assert_eq!(bus.dispatch(IOCTL_SET_STREAM_FORMAT, &format_payload(1, 48000, 2, 0)), Ok(()));
    assert!(bus.registry().stream_header(&id1).is_some());
    assert_eq!(bus.dispatch(IOCTL_SET_STREAM_FORMAT, &format_payload(1, 44100, 1, 3)), Err(ControlError::Busy));
    assert_eq!(bus.dispatch(IOCTL_REMOVE_VIRTUAL_DEVICE, &device_payload(1, "", false, false)), Ok(()));
    assert!(!bus.registry().contains_id(&id1));
    assert!(bus.registry().stream_header(&id1).is_none());
    assert_eq!(bus.dispatch(IOCTL_REMOVE_VIRTUAL_DEVICE, &device_payload(1, "", false, false)), Err(ControlError::NotFound));
}

#[test]
fn requests_before_start_are_not_ready() {
    let mut bus = BusDevice::new();
    let create = device_payload(1, "Cable-A", true, false);
    assert_eq!(bus.dispatch(IOCTL_CREATE_VIRTUAL_DEVICE, &create), Err(ControlError::NotReady));
    assert_eq!(bus.dispatch(IOCTL_SET_STREAM_FORMAT, &format_payload(1, 48000, 2, 0)), Err(ControlError::NotReady));
    assert_eq!(bus.dispatch(0x1234, &[]), Err(ControlError::NotReady));
    assert_eq!(bus.registry().len(), 0);
    assert_eq!(bus.on_pnp_event(PnpEvent::Start), PnpAction::CreateDevice);
    assert_eq!(bus.on_pnp_event(PnpEvent::DeviceCreated), PnpAction::CreateLink);
    assert_eq!(bus.on_pnp_event(PnpEvent::LinkCreated), PnpAction::Complete);
    assert_eq!(bus.dispatch(IOCTL_CREATE_VIRTUAL_DEVICE, &create), Ok(()));
    assert_eq!(bus.dispatch(IOCTL_SET_STREAM_FORMAT, &format_payload(1, 48000, 2, 0)), Ok(()));
}

#[test]
fn failed_link_undoes_start() {
    let mut bus = BusDevice::new();
    assert_eq!(bus.on_pnp_event(PnpEvent::Start), PnpAction::CreateDevice);
    assert_eq!(bus.on_pnp_event(PnpEvent::DeviceCreated), PnpAction::CreateLink);
    assert_eq!(bus.on_pnp_event(PnpEvent::LinkCreateFailed), PnpAction::DeleteDevice);
    assert_eq!(bus.on_pnp_event(PnpEvent::DeviceDeleted), PnpAction::Fail);
    assert_eq!(bus.state(), BusState::Unbound);
    assert_eq!(bus.dispatch(IOCTL_CREATE_VIRTUAL_DEVICE, &device_payload(1, "A", true, false)), Err(ControlError::NotReady));
    assert_eq!(bus.on_pnp_event(PnpEvent::Start), PnpAction::CreateDevice);
    assert_eq!(bus.on_pnp_event(PnpEvent::DeviceCreateFailed), PnpAction::Fail);
    assert_eq!(bus.state(), BusState::Unbound);
}

#[test]
fn removal_deletes_link_before_device_and_clears_registry() {
    let mut bus = started();
    bus.dispatch(IOCTL_CREATE_VIRTUAL_DEVICE, &device_payload(1, "A", true, false)).unwrap();
    assert_eq!(bus.on_pnp_event(PnpEvent::DeviceDeleted), PnpAction::Ignore);
    assert_eq!(bus.on_pnp_event(PnpEvent::Remove), PnpAction::DeleteLink);
    assert_eq!(bus.state(), BusState::Removing);
    assert_eq!(bus.on_pnp_event(PnpEvent::DeviceDeleted), PnpAction::Ignore);
    assert_eq!(bus.on_pnp_event(PnpEvent::LinkDeleted), PnpAction::DeleteDevice);
    assert_eq!(bus.on_pnp_event(PnpEvent::DeviceDeleted), PnpAction::Complete);
    assert_eq!(bus.state(), BusState::Removed);
    assert_eq!(bus.registry().len(), 0);
    assert_eq!(bus.dispatch(IOCTL_CREATE_VIRTUAL_DEVICE, &device_payload(1, "A", true, false)), Err(ControlError::NotReady));
}

#[test]
fn short_or_malformed_payloads_are_invalid() {
    let mut bus = started();
    let full = device_payload(1, "A", true, false);
    assert_eq!(bus.dispatch(IOCTL_CREATE_VIRTUAL_DEVICE, &full[..145]), Err(ControlError::InvalidRequest));
    assert_eq!(bus.dispatch(IOCTL_SET_STREAM_FORMAT, &format_payload(1, 48000, 2, 0)[..27]), Err(ControlError::InvalidRequest));
    assert_eq!(bus.dispatch(IOCTL_SET_STREAM_FORMAT, &format_payload(1, 48000, 3, 0)), Err(ControlError::InvalidRequest));
    assert_eq!(bus.dispatch(IOCTL_SET_STREAM_FORMAT, &format_payload(1, 48000, 2, 9)), Err(ControlError::InvalidRequest));
    assert_eq!(bus.dispatch(0x8005, &full), Err(ControlError::InvalidRequest));
    assert_eq!(bus.registry().len(), 0);
}

#[test]
fn rename_through_dispatch() {
    let mut bus = started();
    bus.dispatch(IOCTL_CREATE_VIRTUAL_DEVICE, &device_payload(3, "Old", true, true)).unwrap();
    assert_eq!(bus.dispatch(IOCTL_UPDATE_DEVICE_NAME, &device_payload(3, "New name", false, false)), Ok(()));
    let expected: Vec<u16> = "New name".encode_utf16().collect();
    assert_eq!(bus.registry().name_of(&id(3)), Some(expected));
    assert!(bus.registry().is_enabled(&id(3)));
    assert_eq!(bus.dispatch(IOCTL_UPDATE_DEVICE_NAME, &device_payload(4, "X", false, false)), Err(ControlError::NotFound));
}

#[test]
fn decode_reads_little_endian_fields() {
    match decode(IOCTL_SET_STREAM_FORMAT, &format_payload(5, 0x0000_BB80, 8, 2)) {
        Ok(ControlRequest::SetStreamFormat(p)) => {
            assert_eq!(p.id, id(5));
            assert_eq!(p.format.sample_rate, 48000);
            assert_eq!(p.format.channels.code(), 8);
            assert_eq!(p.format.data_type.code(), 2);
        }
        _ => panic!("expected a format request"),
    }
    match decode(IOCTL_CREATE_VIRTUAL_DEVICE, &device_payload(6, "Zé", false, true)) {
        Ok(ControlRequest::CreateVirtualDevice(p)) => {
            assert_eq!(p.id, id(6));
            assert_eq!(p.friendly_name[0], 'Z' as u16);
            assert_eq!(p.friendly_name[1], 0x00E9);
            assert_eq!(p.friendly_name[2], 0);
            assert!(!p.is_enabled);
            assert!(p.persistent);
            assert_eq!(name_until_nul(&p.friendly_name), vec!['Z' as u16, 0x00E9]);
        }
        _ => panic!("expected a create request"),
    }
}

#[test]
fn stream_through_bus() {
    let mut bus = started();
    bus.dispatch(IOCTL_CREATE_VIRTUAL_DEVICE, &device_payload(1, "A", true, false)).unwrap();
    bus.dispatch(IOCTL_SET_STREAM_FORMAT, &format_payload(1, 48000, 1, 0)).unwrap();
    assert_eq!(bus.write_stream(&id(1), &[10, 11, 12, 13]), Ok(()));
    assert_eq!(bus.read_stream(&id(1), 2), Ok(vec![10, 11]));
    assert_eq!(bus.detach(&id(1)), Ok(()));
    assert_eq!(bus.read_stream(&id(1), 2), Err(ControlError::NotFound));
}

#[test]
fn stream_status_acknowledged_through_bus() {
    let mut bus = started();
    bus.dispatch(IOCTL_CREATE_VIRTUAL_DEVICE, &device_payload(1, "A", true, false)).unwrap();
    bus.dispatch(IOCTL_SET_STREAM_FORMAT, &format_payload(1, 8000, 1, 0)).unwrap();
    assert_eq!(bus.read_stream(&id(1), 4), Ok(vec![]));
    let h = bus.registry().stream_header(&id(1)).unwrap();
    assert_eq!(h.status, STATUS_UNDERRUN);
    let big = vec![7u8; 2049];
    assert_eq!(bus.write_stream(&id(1), &big), Ok(()));
    assert_eq!(bus.registry().stream_header(&id(1)).unwrap().status, STATUS_OVERRUN | STATUS_UNDERRUN);
    assert_eq!(bus.acknowledge_stream_status(&id(1), STATUS_UNDERRUN), Ok(()));
    assert_eq!(bus.registry().stream_header(&id(1)).unwrap().status, STATUS_OVERRUN);
    assert_eq!(bus.acknowledge_stream_status(&id(2), STATUS_OVERRUN), Err(ControlError::NotFound));
}
