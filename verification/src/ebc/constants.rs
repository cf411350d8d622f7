use vstd::prelude::*;

verus! {

/// Length of a frame sent by the device.
pub const INBOUND_FRAME_SIZE: usize = 19;

/// Length of a frame sent to the device.
pub const OUTBOUND_FRAME_SIZE: usize = 10;

/// Start of frame marker.
pub const START_BYTE: u8 = 0xfa;

/// End of frame marker.
pub const END_BYTE: u8 = 0xf8;

/// ZKETECH EBC models, told apart by the code that the device sends.
#[derive(Debug, Clone, Copy, PartialEq, Eq, Structural)]
pub enum DeviceType {
    EbcA05,
    EbcA10H,
    EbcA20,
}

/// The model code of each device type.
pub open spec fn spec_device_code(t: DeviceType) -> u8 {
    match t {
        DeviceType::EbcA05 => 0x05,
        DeviceType::EbcA10H => 0x06,
        DeviceType::EbcA20 => 0x09,
    }
}

/// The device type that a model code names, if any.
pub open spec fn spec_device_type_of(code: u8) -> Option<DeviceType> {
    if code == 0x05 {
        Some(DeviceType::EbcA05)
    } else if code == 0x06 {
        Some(DeviceType::EbcA10H)
    } else if code == 0x09 {
        Some(DeviceType::EbcA20)
    } else {
        None
    }
}

/// The display name of each device type.
pub open spec fn spec_device_name(t: DeviceType) -> Seq<char> {
    match t {
        DeviceType::EbcA05 => "EBC-A05"@,
        DeviceType::EbcA10H => "EBC-A10H"@,
        DeviceType::EbcA20 => "EBC-A20"@,
    }
}

/// A model code that names no known device.
#[derive(Debug, Clone, Copy, PartialEq, Eq, Structural)]
pub struct UnknownDeviceCode {
    pub code: u8,
}

impl DeviceType {
    /// The model code that the device sends for this type.
    pub fn code(&self) -> (c: u8)
        ensures
            c == spec_device_code(*self),
    {
        match self {
            DeviceType::EbcA05 => 0x05,
            DeviceType::EbcA10H => 0x06,
            DeviceType::EbcA20 => 0x09,
        }
    }

    /// The device type of a model code; unknown codes are an error.
    pub fn try_from(value: u8) -> (r: Result<DeviceType, UnknownDeviceCode>)
        ensures
            match r {
                Ok(t) => spec_device_type_of(value) == Some(t),
                Err(e) => spec_device_type_of(value) is None && e.code == value,
            },
    {
        if value == 0x05 {
            Ok(DeviceType::EbcA05)
        } else if value == 0x06 {
            Ok(DeviceType::EbcA10H)
        } else if value == 0x09 {
            Ok(DeviceType::EbcA20)
        } else {
            Err(UnknownDeviceCode { code: value })
        }
    }

    /// The display name of the device type, such as "EBC-A20".
    pub fn to_string(&self) -> (s: String)
        ensures
            s@ == spec_device_name(*self),
    {
        match self {
            DeviceType::EbcA20 => String::from_str("EBC-A20"),
            DeviceType::EbcA10H => String::from_str("EBC-A10H"),
            DeviceType::EbcA05 => String::from_str("EBC-A05"),
        }
    }
}

/// Reading back the code of a device type gives the same type.
pub proof fn lemma_device_code_roundtrip(t: DeviceType)
    ensures
        spec_device_type_of(spec_device_code(t)) == Some(t),
{
}

} // verus!
