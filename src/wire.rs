//! Fixed-layout vocabulary exchanged across the control boundary and placed at
//! the head of the shared streaming region.
use vstd::prelude::*;

verus! {

/// Sample encoding carried by a stream.
#[derive(Debug, Clone, Copy, PartialEq, Eq, Structural)]
pub enum AudioDataType {
    PcmInt16,
    PcmInt24,
    PcmInt32,
    Float32,
}

/// Channel layout carried by a stream.
#[derive(Debug, Clone, Copy, PartialEq, Eq, Structural)]
pub enum ChannelConfig {
    Mono,
    Stereo,
    Quad,
    Surround51,
    Surround71,
}

/// Wire code of each sample encoding.
pub open spec fn data_type_code(t: AudioDataType) -> u32 {
    match t {
        AudioDataType::PcmInt16 => 0,
        AudioDataType::PcmInt24 => 1,
        AudioDataType::PcmInt32 => 2,
        AudioDataType::Float32 => 3,
    }
}

/// Bytes taken by one sample of each encoding.
pub open spec fn sample_bytes(t: AudioDataType) -> u32 {
    match t {
        AudioDataType::PcmInt16 => 2,
        AudioDataType::PcmInt24 => 3,
        AudioDataType::PcmInt32 => 4,
        AudioDataType::Float32 => 4,
    }
}

/// Wire code of each channel layout: its number of channels.
pub open spec fn channel_count(c: ChannelConfig) -> u32 {
    match c {
        ChannelConfig::Mono => 1,
        ChannelConfig::Stereo => 2,
        ChannelConfig::Quad => 4,
        ChannelConfig::Surround51 => 6,
        ChannelConfig::Surround71 => 8,
    }
}

/// The sample encoding with a given wire code, if any.
pub open spec fn data_type_of_code(code: u32) -> Option<AudioDataType> {
    if code == 0 {
        Some(AudioDataType::PcmInt16)
    } else if code == 1 {
        Some(AudioDataType::PcmInt24)
    } else if code == 2 {
        Some(AudioDataType::PcmInt32)
    } else if code == 3 {
        Some(AudioDataType::Float32)
    } else {
        None
    }
}

/// The channel layout with a given wire code, if any.
pub open spec fn channels_of_code(code: u32) -> Option<ChannelConfig> {
    if code == 1 {
        Some(ChannelConfig::Mono)
    } else if code == 2 {
        Some(ChannelConfig::Stereo)
    } else if code == 4 {
        Some(ChannelConfig::Quad)
    } else if code == 6 {
        Some(ChannelConfig::Surround51)
    } else if code == 8 {
        Some(ChannelConfig::Surround71)
    } else {
        None
    }
}

impl AudioDataType {
    pub fn code(&self) -> (r: u32)
        ensures
            r == data_type_code(*self),
    {
        match self {
            AudioDataType::PcmInt16 => 0,
            AudioDataType::PcmInt24 => 1,
            AudioDataType::PcmInt32 => 2,
            AudioDataType::Float32 => 3,
        }
    }

    pub fn bytes_per_sample(&self) -> (r: u32)
        ensures
            r == sample_bytes(*self),
    {
        match self {
            AudioDataType::PcmInt16 => 2,
            AudioDataType::PcmInt24 => 3,
            AudioDataType::PcmInt32 => 4,
            AudioDataType::Float32 => 4,
        }
    }

    pub fn from_code(code: u32) -> (r: Option<AudioDataType>)
        ensures
            r == data_type_of_code(code),
    {
        if code == 0 {
            Some(AudioDataType::PcmInt16)
        } else if code == 1 {
            Some(AudioDataType::PcmInt24)
        } else if code == 2 {
            Some(AudioDataType::PcmInt32)
        } else if code == 3 {
            Some(AudioDataType::Float32)
        } else {
            None
        }
    }
}

impl ChannelConfig {
    pub fn code(&self) -> (r: u32)
        ensures
            r == channel_count(*self),
    {
        match self {
            ChannelConfig::Mono => 1,
            ChannelConfig::Stereo => 2,
            ChannelConfig::Quad => 4,
            ChannelConfig::Surround51 => 6,
            ChannelConfig::Surround71 => 8,
        }
    }

    pub fn from_code(code: u32) -> (r: Option<ChannelConfig>)
        ensures
            r == channels_of_code(code),
    {
        if code == 1 {
            Some(ChannelConfig::Mono)
        } else if code == 2 {
            Some(ChannelConfig::Stereo)
        } else if code == 4 {
            Some(ChannelConfig::Quad)
        } else if code == 6 {
            Some(ChannelConfig::Surround51)
        } else if code == 8 {
            Some(ChannelConfig::Surround71)
        } else {
            None
        }
    }
}

/// Metadata of a stream: rate, layout and encoding.
#[derive(Debug, Clone, Copy, PartialEq, Eq, Structural)]
pub struct AudioFormat {
    pub sample_rate: u32,
    pub channels: ChannelConfig,
    pub data_type: AudioDataType,
}

/// Bytes of one frame (one sample per channel) in a format.
pub open spec fn frame_bytes(f: AudioFormat) -> u32 {
    (channel_count(f.channels) * sample_bytes(f.data_type)) as u32
}

impl AudioFormat {
    /// Bytes of one frame: one sample for every channel.
    pub fn frame_size(&self) -> (r: u32)
        ensures
            r == frame_bytes(*self),
            r as int == channel_count(self.channels) as int * sample_bytes(self.data_type) as int,
            1 <= r <= 32,
    {
        self.channels.code() * self.data_type.bytes_per_sample()
    }
}

/// Status bit set when the producer overwrote unread bytes.
pub const STATUS_OVERRUN: u32 = 1;

/// Status bit set when the consumer asked for more than was available.
pub const STATUS_UNDERRUN: u32 = 2;

/// Control header at offset zero of a shared streaming region. The payload of
/// `buffer_size` bytes follows it immediately.
#[derive(Debug, Clone, Copy, PartialEq, Eq, Structural)]
pub struct RingBufferHeader {
    /// Total bytes ever published by the producer.
    pub write_index: u64,
    /// Total bytes ever consumed.
    pub read_index: u64,
    /// Capacity of the payload region in bytes.
    pub buffer_size: u32,
    /// Sticky status bits: `STATUS_OVERRUN`, `STATUS_UNDERRUN`.
    pub status: u32,
}

/// Caller-chosen identifier of a virtual device.
pub type DeviceId = [u8; 16];

/// Number of UTF-16 code units in a device name field.
pub const NAME_UNITS: usize = 64;

/// Payload of the device-management requests.
#[derive(Clone, Copy)]
pub struct DeviceControlPayload {
    /// Identifier of the target device.
    pub id: DeviceId,
    /// Device name in UTF-16, ended by the first zero unit or by the field's end.
    pub friendly_name: [u16; 64],
    /// Whether the device is active.
    pub is_enabled: bool,
    /// Whether the device survives a restart.
    pub persistent: bool,
}

/// Payload of a stream-format request: the target device, then the format.
#[derive(Clone, Copy)]
pub struct StreamFormatPayload {
    pub id: DeviceId,
    pub format: AudioFormat,
}

/// Opcode: create a virtual device.
pub const IOCTL_CREATE_VIRTUAL_DEVICE: u32 = 0x8001;
/// Opcode: remove a virtual device.
pub const IOCTL_REMOVE_VIRTUAL_DEVICE: u32 = 0x8002;
/// Opcode: rename a virtual device.
pub const IOCTL_UPDATE_DEVICE_NAME: u32 = 0x8003;
/// Opcode: bind a stream format and attach a stream.
pub const IOCTL_SET_STREAM_FORMAT: u32 = 0x8004;

/// Encoded size of `DeviceControlPayload`: id, name units (little-endian), two flag bytes.
pub const DEVICE_CONTROL_PAYLOAD_SIZE: usize = 146;

/// Encoded size of `AudioFormat`: three little-endian 32-bit words.
pub const AUDIO_FORMAT_SIZE: usize = 12;

/// Encoded size of `StreamFormatPayload`: the id, then the format.
pub const STREAM_FORMAT_PAYLOAD_SIZE: usize = 28;

} // verus!

verus! {

/// Control-plane failures. Overrun and underrun are not failures: they are
/// status bits of a stream.
#[derive(Debug, Clone, Copy, PartialEq, Eq, Structural)]
pub enum ControlError {
    /// Undersized or malformed payload, or an unknown opcode.
    InvalidRequest,
    /// No device with that id, or the device has no attached stream.
    NotFound,
    /// A device with that id already exists.
    AlreadyExists,
    /// The bus device is not started.
    NotReady,
    /// The device's stream is attached: its format cannot change.
    Busy,
}

} // verus!
