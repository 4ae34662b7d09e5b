//! Packet-type ids: the closed enumeration naming every packet this
//! client can send or receive.  An unrecognized id on the wire is a hard
//! decode error.

use vstd::prelude::*;
use vstd::bytes::{
    spec_u32_to_le_bytes, spec_u32_from_le_bytes, lemma_auto_spec_u32_to_from_le_bytes,
};

use crate::codec::{DeserFromBuf, SerToBuf, WireCodec};
use crate::error::{OpenRgbError, ProtocolErrorKind};
use crate::message::{ReceivedMessage, WriteMessage};

verus! {

/// Packet-type id carried in every packet header.
#[derive(Debug, Clone, Copy, PartialEq, Eq, Structural)]
pub enum PacketId {
    /// Request the controller count from the server.
    RequestControllerCount,
    /// Request one controller's data block.
    RequestControllerData,
    /// Request the server's protocol version.
    RequestProtocolVersion,
    /// Send this client's name to the server.
    SetClientName,
    /// Server notice that the device list changed.
    DeviceListUpdated,
    /// Ask the server to rescan for devices (protocol version 5).
    RequestDeviceRescan,
    /// Request the profile list (protocol version 2).
    RequestProfileList,
    /// Save the current configuration as a profile (protocol version 2).
    RequestSaveProfile,
    /// Load a profile (protocol version 2).
    RequestLoadProfile,
    /// Delete a profile (protocol version 2).
    RequestDeleteProfile,
    /// Request the plugin list (protocol version 4).
    RequestPluginList,
    /// Plugin-specific command (protocol version 4).
    PluginSpecific,
    /// Resize a zone.
    RGBControllerResizeZone,
    /// Clear a zone's segments (protocol version 5).
    RgbControllerClearSegments,
    /// Add a segment to a zone (protocol version 5).
    RGBControllerAddSegment,
    /// Update all LEDs of a controller.
    RGBControllerUpdateLeds,
    /// Update the LEDs of one zone.
    RGBControllerUpdateZoneLeds,
    /// Update a single LED.
    RGBControllerUpdateSingleLed,
    /// Switch the controller to its custom mode.
    RGBControllerSetCustomMode,
    /// Update a mode and make it current.
    RGBControllerUpdateMode,
    /// Save a mode to the device (protocol version 3).
    RGBControllerSaveMode,
}

/// The wire discriminant of each packet id.
pub open spec fn packet_id_value(x: PacketId) -> u32 {
    match x {
        PacketId::RequestControllerCount => 0,
        PacketId::RequestControllerData => 1,
        PacketId::RequestProtocolVersion => 40,
        PacketId::SetClientName => 50,
        PacketId::DeviceListUpdated => 100,
        PacketId::RequestDeviceRescan => 140,
        PacketId::RequestProfileList => 150,
        PacketId::RequestSaveProfile => 151,
        PacketId::RequestLoadProfile => 152,
        PacketId::RequestDeleteProfile => 153,
        PacketId::RequestPluginList => 200,
        PacketId::PluginSpecific => 201,
        PacketId::RGBControllerResizeZone => 1000,
        PacketId::RgbControllerClearSegments => 1001,
        PacketId::RGBControllerAddSegment => 1002,
        PacketId::RGBControllerUpdateLeds => 1050,
        PacketId::RGBControllerUpdateZoneLeds => 1051,
        PacketId::RGBControllerUpdateSingleLed => 1052,
        PacketId::RGBControllerSetCustomMode => 1100,
        PacketId::RGBControllerUpdateMode => 1101,
        PacketId::RGBControllerSaveMode => 1102,
    }
}

/// The packet id a wire discriminant names, if any.
pub open spec fn packet_id_from(v: u32) -> Option<PacketId> {
    if v == 0 {
        Some(PacketId::RequestControllerCount)
    } else if v == 1 {
        Some(PacketId::RequestControllerData)
    } else if v == 40 {
        Some(PacketId::RequestProtocolVersion)
    } else if v == 50 {
        Some(PacketId::SetClientName)
    } else if v == 100 {
        Some(PacketId::DeviceListUpdated)
    } else if v == 140 {
        Some(PacketId::RequestDeviceRescan)
    } else if v == 150 {
        Some(PacketId::RequestProfileList)
    } else if v == 151 {
        Some(PacketId::RequestSaveProfile)
    } else if v == 152 {
        Some(PacketId::RequestLoadProfile)
    } else if v == 153 {
        Some(PacketId::RequestDeleteProfile)
    } else if v == 200 {
        Some(PacketId::RequestPluginList)
    } else if v == 201 {
        Some(PacketId::PluginSpecific)
    } else if v == 1000 {
        Some(PacketId::RGBControllerResizeZone)
    } else if v == 1001 {
        Some(PacketId::RgbControllerClearSegments)
    } else if v == 1002 {
        Some(PacketId::RGBControllerAddSegment)
    } else if v == 1050 {
        Some(PacketId::RGBControllerUpdateLeds)
    } else if v == 1051 {
        Some(PacketId::RGBControllerUpdateZoneLeds)
    } else if v == 1052 {
        Some(PacketId::RGBControllerUpdateSingleLed)
    } else if v == 1100 {
        Some(PacketId::RGBControllerSetCustomMode)
    } else if v == 1101 {
        Some(PacketId::RGBControllerUpdateMode)
    } else if v == 1102 {
        Some(PacketId::RGBControllerSaveMode)
    } else {
        None
    }
}

impl DeepView for PacketId {
    type V = PacketId;

    open spec fn deep_view(&self) -> PacketId {
        *self
    }
}

impl PacketId {
    /// The wire discriminant of this packet id.
    pub fn to_u32(self) -> (r: u32)
        ensures
            r == packet_id_value(self),
    {
        match self {
            PacketId::RequestControllerCount => 0,
            PacketId::RequestControllerData => 1,
            PacketId::RequestProtocolVersion => 40,
            PacketId::SetClientName => 50,
            PacketId::DeviceListUpdated => 100,
            PacketId::RequestDeviceRescan => 140,
            PacketId::RequestProfileList => 150,
            PacketId::RequestSaveProfile => 151,
            PacketId::RequestLoadProfile => 152,
            PacketId::RequestDeleteProfile => 153,
            PacketId::RequestPluginList => 200,
            PacketId::PluginSpecific => 201,
            PacketId::RGBControllerResizeZone => 1000,
            PacketId::RgbControllerClearSegments => 1001,
            PacketId::RGBControllerAddSegment => 1002,
            PacketId::RGBControllerUpdateLeds => 1050,
            PacketId::RGBControllerUpdateZoneLeds => 1051,
            PacketId::RGBControllerUpdateSingleLed => 1052,
            PacketId::RGBControllerSetCustomMode => 1100,
            PacketId::RGBControllerUpdateMode => 1101,
            PacketId::RGBControllerSaveMode => 1102,
        }
    }

    /// The packet id named by a wire discriminant, if any.
    pub fn from_u32(v: u32) -> (r: Option<PacketId>)
        ensures
            r == packet_id_from(v),
    {
        if v == 0 {
            Some(PacketId::RequestControllerCount)
        } else if v == 1 {
            Some(PacketId::RequestControllerData)
        } else if v == 40 {
            Some(PacketId::RequestProtocolVersion)
        } else if v == 50 {
            Some(PacketId::SetClientName)
        } else if v == 100 {
            Some(PacketId::DeviceListUpdated)
        } else if v == 140 {
            Some(PacketId::RequestDeviceRescan)
        } else if v == 150 {
            Some(PacketId::RequestProfileList)
        } else if v == 151 {
            Some(PacketId::RequestSaveProfile)
        } else if v == 152 {
            Some(PacketId::RequestLoadProfile)
        } else if v == 153 {
            Some(PacketId::RequestDeleteProfile)
        } else if v == 200 {
            Some(PacketId::RequestPluginList)
        } else if v == 201 {
            Some(PacketId::PluginSpecific)
        } else if v == 1000 {
            Some(PacketId::RGBControllerResizeZone)
        } else if v == 1001 {
            Some(PacketId::RgbControllerClearSegments)
        } else if v == 1002 {
            Some(PacketId::RGBControllerAddSegment)
        } else if v == 1050 {
            Some(PacketId::RGBControllerUpdateLeds)
        } else if v == 1051 {
            Some(PacketId::RGBControllerUpdateZoneLeds)
        } else if v == 1052 {
            Some(PacketId::RGBControllerUpdateSingleLed)
        } else if v == 1100 {
            Some(PacketId::RGBControllerSetCustomMode)
        } else if v == 1101 {
            Some(PacketId::RGBControllerUpdateMode)
        } else if v == 1102 {
            Some(PacketId::RGBControllerSaveMode)
        } else {
            None
        }
    }
}

impl SerToBuf for PacketId {
    open spec fn enc(&self, ver: u32) -> Seq<u8> {
        spec_u32_to_le_bytes(packet_id_value(*self))
    }

    open spec fn enc_err(&self, ver: u32) -> bool {
        false
    }

    open spec fn wf(&self, ver: u32) -> bool {
        true
    }

    fn serialize(&self, buf: &mut WriteMessage) -> (r: Result<(), OpenRgbError>) {
        buf.write_u32(self.to_u32());
        Ok(())
    }

    fn size(&self, ver: u32) -> (r: usize) {
        proof {
            lemma_auto_spec_u32_to_from_le_bytes();
        }
        4
    }
}

impl DeserFromBuf for PacketId {
    open spec fn dec(bytes: Seq<u8>, ver: u32) -> Option<(PacketId, int)> {
        if bytes.len() >= 4 {
            match packet_id_from(spec_u32_from_le_bytes(bytes.take(4))) {
                Option::Some(x) => Some((x, 4int)),
                Option::None => None,
            }
        } else {
            None
        }
    }

    fn deserialize(buf: &mut ReceivedMessage<'_>) -> (r: Result<Self, OpenRgbError>) {
        let raw = buf.read_u32()?;
        match PacketId::from_u32(raw) {
            Some(x) => Ok(x),
            None => Err(OpenRgbError::ProtocolError(ProtocolErrorKind::UnknownPacketId {
                value: raw,
            })),
        }
    }
}

impl WireCodec for PacketId {
    proof fn lemma_round_trip(&self, ver: u32, rest: Seq<u8>) {
        lemma_auto_spec_u32_to_from_le_bytes();
        assert((self.enc(ver) + rest).take(4) =~= self.enc(ver));
    }
}

} // verus!
