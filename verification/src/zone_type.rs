//! Zone types: how a zone's LEDs are laid out.  An unrecognized
//! discriminant on the wire is a hard decode error.

use vstd::prelude::*;
use vstd::bytes::{
    spec_u32_to_le_bytes, spec_u32_from_le_bytes, lemma_auto_spec_u32_to_from_le_bytes,
};

use crate::codec::{DeserFromBuf, SerToBuf, WireCodec};
use crate::error::{OpenRgbError, ProtocolErrorKind};
use crate::message::{ReceivedMessage, WriteMessage};

verus! {

/// Spatial layout of a zone's LEDs.
#[derive(Debug, Clone, Copy, PartialEq, Eq, Structural)]
pub enum ZoneType {
    /// A single LED.
    Single,
    /// A one-dimensional run of LEDs.
    Linear,
    /// A two-dimensional grid of LEDs.
    Matrix,
}

/// The wire discriminant of each zone type.
pub open spec fn zone_type_value(z: ZoneType) -> u32 {
    match z {
        ZoneType::Single => 0,
        ZoneType::Linear => 1,
        ZoneType::Matrix => 2,
    }
}

/// The zone type a wire discriminant names, if any.
pub open spec fn zone_type_from(v: u32) -> Option<ZoneType> {
    if v == 0 {
        Some(ZoneType::Single)
    } else if v == 1 {
        Some(ZoneType::Linear)
    } else if v == 2 {
        Some(ZoneType::Matrix)
    } else {
        None
    }
}

impl DeepView for ZoneType {
    type V = ZoneType;

    open spec fn deep_view(&self) -> ZoneType {
        *self
    }
}

impl ZoneType {
    /// The wire discriminant of this zone type.
    pub fn to_u32(self) -> (r: u32)
        ensures
            r == zone_type_value(self),
    {
        match self {
            ZoneType::Single => 0,
            ZoneType::Linear => 1,
            ZoneType::Matrix => 2,
        }
    }

    /// The zone type named by a wire discriminant, or `None` for an
    /// unrecognized one.
    pub fn from_u32(v: u32) -> (r: Option<ZoneType>)
        ensures
            r == zone_type_from(v),
    {
        if v == 0 {
            Some(ZoneType::Single)
        } else if v == 1 {
            Some(ZoneType::Linear)
        } else if v == 2 {
            Some(ZoneType::Matrix)
        } else {
            None
        }
    }
}

impl SerToBuf for ZoneType {
    open spec fn enc(&self, ver: u32) -> Seq<u8> {
        spec_u32_to_le_bytes(zone_type_value(*self))
    }

    open spec fn enc_err(&self, ver: u32) -> bool {
        false
    }

    open spec fn wf(&self, ver: u32) -> bool {
        true
    }

    fn serialize(&self, buf: &mut WriteMessage) -> (r: Result<(), OpenRgbError>) {
        buf.write_u32(self.to_u32());
        Ok(())
    }

    fn size(&self, ver: u32) -> (r: usize) {
        proof {
            lemma_auto_spec_u32_to_from_le_bytes();
        }
        4
    }
}

impl DeserFromBuf for ZoneType {
    open spec fn dec(bytes: Seq<u8>, ver: u32) -> Option<(ZoneType, int)> {
        if bytes.len() >= 4 {
            match zone_type_from(spec_u32_from_le_bytes(bytes.take(4))) {
                Option::Some(z) => Some((z, 4int)),
                Option::None => None,
            }
        } else {
            None
        }
    }

    fn deserialize(buf: &mut ReceivedMessage<'_>) -> (r: Result<Self, OpenRgbError>) {
        let raw = buf.read_u32()?;
        match ZoneType::from_u32(raw) {
            Some(z) => Ok(z),
            None => Err(OpenRgbError::ProtocolError(ProtocolErrorKind::UnknownZoneType {
                value: raw,
            })),
        }
    }
}

impl WireCodec for ZoneType {
    proof fn lemma_round_trip(&self, ver: u32, rest: Seq<u8>) {
        lemma_auto_spec_u32_to_from_le_bytes();
        assert((self.enc(ver) + rest).take(4) =~= self.enc(ver));
    }
}

} // verus!
