//! Device types.  Unlike the other enumerations, an unrecognized
//! discriminant decodes to `Unknown`, never to an error.

use vstd::prelude::*;
use vstd::bytes::{
    spec_u32_to_le_bytes, spec_u32_from_le_bytes, lemma_auto_spec_u32_to_from_le_bytes,
};

use crate::codec::{DeserFromBuf, SerToBuf, WireCodec};
use crate::error::{OpenRgbError, ProtocolErrorKind};
use crate::message::{ReceivedMessage, WriteMessage};

verus! {

/// Kind of RGB controller hardware.
#[derive(Debug, Clone, Copy, PartialEq, Eq, Structural)]
pub enum DeviceType {
    /// Motherboard.
    Motherboard,
    /// DRAM module.
    DRam,
    /// Graphics card.
    Gpu,
    /// Cooler.
    Cooler,
    /// LED strip.
    LEDStrip,
    /// Keyboard.
    Keyboard,
    /// Mouse.
    Mouse,
    /// Mouse mat.
    MouseMat,
    /// Headset.
    Headset,
    /// Headset stand.
    HeadsetStand,
    /// Gamepad.
    Gamepad,
    /// Light.
    Light,
    /// Speaker.
    Speaker,
    /// Virtual device.
    Virtual,
    /// Any discriminant this client does not know.
    Unknown,
}

/// The wire discriminant of each device type.
pub open spec fn device_type_value(x: DeviceType) -> u32 {
    match x {
        DeviceType::Motherboard => 0,
        DeviceType::DRam => 1,
        DeviceType::Gpu => 2,
        DeviceType::Cooler => 3,
        DeviceType::LEDStrip => 4,
        DeviceType::Keyboard => 5,
        DeviceType::Mouse => 6,
        DeviceType::MouseMat => 7,
        DeviceType::Headset => 8,
        DeviceType::HeadsetStand => 9,
        DeviceType::Gamepad => 10,
        DeviceType::Light => 11,
        DeviceType::Speaker => 12,
        DeviceType::Virtual => 13,
        DeviceType::Unknown => 14,
    }
}

/// The device type a wire discriminant names, with `Unknown` for an unrecognized one.
pub open spec fn device_type_from(v: u32) -> DeviceType {
    if v == 0 {
        DeviceType::Motherboard
    } else if v == 1 {
        DeviceType::DRam
    } else if v == 2 {
        DeviceType::Gpu
    } else if v == 3 {
        DeviceType::Cooler
    } else if v == 4 {
        DeviceType::LEDStrip
    } else if v == 5 {
        DeviceType::Keyboard
    } else if v == 6 {
        DeviceType::Mouse
    } else if v == 7 {
        DeviceType::MouseMat
    } else if v == 8 {
        DeviceType::Headset
    } else if v == 9 {
        DeviceType::HeadsetStand
    } else if v == 10 {
        DeviceType::Gamepad
    } else if v == 11 {
        DeviceType::Light
    } else if v == 12 {
        DeviceType::Speaker
    } else if v == 13 {
        DeviceType::Virtual
    } else {
        DeviceType::Unknown
    }
}

impl DeepView for DeviceType {
    type V = DeviceType;

    open spec fn deep_view(&self) -> DeviceType {
        *self
    }
}

impl DeviceType {
    /// The wire discriminant of this device type.
    pub fn to_u32(self) -> (r: u32)
        ensures
            r == device_type_value(self),
    {
        match self {
            DeviceType::Motherboard => 0,
            DeviceType::DRam => 1,
            DeviceType::Gpu => 2,
            DeviceType::Cooler => 3,
            DeviceType::LEDStrip => 4,
            DeviceType::Keyboard => 5,
            DeviceType::Mouse => 6,
            DeviceType::MouseMat => 7,
            DeviceType::Headset => 8,
            DeviceType::HeadsetStand => 9,
            DeviceType::Gamepad => 10,
            DeviceType::Light => 11,
            DeviceType::Speaker => 12,
            DeviceType::Virtual => 13,
            DeviceType::Unknown => 14,
        }
    }

    /// The device type named by a wire discriminant, with `Unknown` for an unrecognized one.
    pub fn from_u32(v: u32) -> (r: DeviceType)
        ensures
            r == device_type_from(v),
    {
        if v == 0 {
            DeviceType::Motherboard
        } else if v == 1 {
            DeviceType::DRam
        } else if v == 2 {
            DeviceType::Gpu
        } else if v == 3 {
            DeviceType::Cooler
        } else if v == 4 {
            DeviceType::LEDStrip
        } else if v == 5 {
            DeviceType::Keyboard
        } else if v == 6 {
            DeviceType::Mouse
        } else if v == 7 {
            DeviceType::MouseMat
        } else if v == 8 {
            DeviceType::Headset
        } else if v == 9 {
            DeviceType::HeadsetStand
        } else if v == 10 {
            DeviceType::Gamepad
        } else if v == 11 {
            DeviceType::Light
        } else if v == 12 {
            DeviceType::Speaker
        } else if v == 13 {
            DeviceType::Virtual
        } else {
            DeviceType::Unknown
        }
    }
}

impl SerToBuf for DeviceType {
    open spec fn enc(&self, ver: u32) -> Seq<u8> {
        spec_u32_to_le_bytes(device_type_value(*self))
    }

    open spec fn enc_err(&self, ver: u32) -> bool {
        false
    }

    open spec fn wf(&self, ver: u32) -> bool {
        true
    }

    fn serialize(&self, buf: &mut WriteMessage) -> (r: Result<(), OpenRgbError>) {
        buf.write_u32(self.to_u32());
        Ok(())
    }

    fn size(&self, ver: u32) -> (r: usize) {
        proof {
            lemma_auto_spec_u32_to_from_le_bytes();
        }
        4
    }
}

impl DeserFromBuf for DeviceType {
    open spec fn dec(bytes: Seq<u8>, ver: u32) -> Option<(DeviceType, int)> {
        if bytes.len() >= 4 {
            Some((device_type_from(spec_u32_from_le_bytes(bytes.take(4))), 4int))
        } else {
            None
        }
    }

    fn deserialize(buf: &mut ReceivedMessage<'_>) -> (r: Result<Self, OpenRgbError>) {
        let raw = buf.read_u32()?;
        Ok(DeviceType::from_u32(raw))
    }
}

impl WireCodec for DeviceType {
    proof fn lemma_round_trip(&self, ver: u32, rest: Seq<u8>) {
        lemma_auto_spec_u32_to_from_le_bytes();
        assert((self.enc(ver) + rest).take(4) =~= self.enc(ver));
    }
}

} // verus!
