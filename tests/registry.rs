use cable_audio_bus::registry::{Registry, STREAM_BUFFER_FRAMES};
use cable_audio_bus::wire::{AudioDataType, AudioFormat, ChannelConfig, ControlError, DeviceId};

fn id(n: u8) -> DeviceId {
    let mut a = [0u8; 16];
    a[0] = n;
    a
}

fn name(s: &str) -> Vec<u16> {
    s.encode_utf16().collect()
}

fn stereo16() -> AudioFormat {
    AudioFormat { sample_rate: 48000, channels: ChannelConfig::Stereo, data_type: AudioDataType::PcmInt16 }
}

#[test]
fn create_then_remove_restores_size() {
    let mut r = Registry::new();
    r.create(&id(7), &name("Other"), true, false).unwrap();
    let before = r.len();
    assert_eq!(r.create(&id(1), &name("Cable-A"), true, false), Ok(()));
    assert_eq!(r.len(), before + 1);
    assert_eq!(r.remove(&id(1)), Ok(()));
    assert_eq!(r.len(), before);
    assert!(r.contains_id(&id(7)));
}

#[test]
fn remove_unknown_is_not_found() {
    let mut r = Registry::new();
    r.create(&id(2), &name("B"), true, false).unwrap();
    assert_eq!(r.remove(&id(3)), Err(ControlError::NotFound));
    assert_eq!(r.len(), 1);
}

#[test]
fn duplicate_create_is_already_exists() {
    let mut r = Registry::new();
    assert_eq!(r.create(&id(1), &name("A"), true, false), Ok(()));
    assert_eq!(r.create(&id(1), &name("B"), false, true), Err(ControlError::AlreadyExists));
    assert_eq!(r.name_of(&id(1)), Some(name("A")));
    assert_eq!(r.len(), 1);
}

#[test]
fn long_names_are_truncated() {
    let mut r = Registry::new();
    let long: Vec<u16> = (0..100u16).map(|i| i + 1).collect();
    r.create(&id(1), &long, true, false).unwrap();
    assert_eq!(r.name_of(&id(1)).unwrap(), long[..64].to_vec());
}

#[test]
fn rename_and_enable() {
    let mut r = Registry::new();
    r.create(&id(1), &name("A"), false, false).unwrap();
    assert_eq!(r.rename(&id(1), &name("Renamed")), Ok(()));
    assert_eq!(r.name_of(&id(1)), Some(name("Renamed")));
    assert!(!r.is_enabled(&id(1)));
    assert_eq!(r.set_enabled(&id(1), true), Ok(()));
    assert!(r.is_enabled(&id(1)));
    assert_eq!(r.rename(&id(9), &name("x")), Err(ControlError::NotFound));
    assert_eq!(r.set_enabled(&id(9), true), Err(ControlError::NotFound));
}

#[test]
fn set_format_busy_until_detached() {
    let mut r = Registry::new();
    r.create(&id(1), &name("A"), true, false).unwrap();
    assert_eq!(r.set_format(&id(1), stereo16()), Ok(()));
    let quad32 = AudioFormat { sample_rate: 96000, channels: ChannelConfig::Quad, data_type: AudioDataType::PcmInt32 };
    assert_eq!(r.set_format(&id(1), quad32), Err(ControlError::Busy));
    assert_eq!(r.format_of(&id(1)), Some(stereo16()));
    assert_eq!(r.detach(&id(1)), Ok(()));
    assert!(r.stream_header(&id(1)).is_none());
    assert_eq!(r.set_format(&id(1), quad32), Ok(()));
    assert_eq!(r.format_of(&id(1)), Some(quad32));
    let h = r.stream_header(&id(1)).unwrap();
    assert_eq!(h.buffer_size, 16 * STREAM_BUFFER_FRAMES);
    assert_eq!(h.buffer_size % quad32.frame_size(), 0);
    assert_eq!(h.write_index, 0);
    let frame = [1u8; 16];
    assert_eq!(r.write_stream(&id(1), &frame), Ok(()));
    assert_eq!(r.read_stream(&id(1), 16), Ok(frame.to_vec()));
}

#[test]
fn stream_io_needs_attached_stream() {
    let mut r = Registry::new();
    r.create(&id(1), &name("A"), true, false).unwrap();
    assert_eq!(r.write_stream(&id(1), &[1, 2]), Err(ControlError::NotFound));
    assert_eq!(r.read_stream(&id(1), 2), Err(ControlError::NotFound));
    assert_eq!(r.set_format(&id(4), stereo16()), Err(ControlError::NotFound));
    assert_eq!(r.detach(&id(4)), Err(ControlError::NotFound));
}

#[test]
fn clear_destroys_every_device() {
    let mut r = Registry::new();
    r.create(&id(1), &name("A"), true, false).unwrap();
    r.create(&id(2), &name("B"), true, true).unwrap();
    r.set_format(&id(2), stereo16()).unwrap();
    r.clear();
    assert_eq!(r.len(), 0);
    assert!(!r.contains_id(&id(2)));
}

#[test]
fn frame_sizes() {
    assert_eq!(stereo16().frame_size(), 4);
    let f = AudioFormat { sample_rate: 44100, channels: ChannelConfig::Surround51, data_type: AudioDataType::PcmInt24 };
    assert_eq!(f.frame_size(), 18);
    let g = AudioFormat { sample_rate: 44100, channels: ChannelConfig::Surround71, data_type: AudioDataType::Float32 };
    assert_eq!(g.frame_size(), 32);
    assert_eq!(ChannelConfig::from_code(6), Some(ChannelConfig::Surround51));
    assert_eq!(ChannelConfig::from_code(3), None);
    assert_eq!(AudioDataType::from_code(3), Some(AudioDataType::Float32));
    assert_eq!(AudioDataType::from_code(4), None);
}
