//! Color modes: how a lighting mode takes its colors.  An unrecognized
//! discriminant on the wire is a hard decode error.

use vstd::prelude::*;
use vstd::bytes::{
    spec_u32_to_le_bytes, spec_u32_from_le_bytes, lemma_auto_spec_u32_to_from_le_bytes,
};

use crate::codec::{DeserFromBuf, SerToBuf, WireCodec};
use crate::error::{OpenRgbError, ProtocolErrorKind};
use crate::message::{ReceivedMessage, WriteMessage};

verus! {

/// How a mode takes its colors.
#[derive(Debug, Clone, Copy, PartialEq, Eq, Structural)]
pub enum ColorMode {
    /// No color parameter.
    NoColor,
    /// One color per LED.
    PerLED,
    /// Colors specific to the mode.
    ModeSpecific,
    /// Random colors.
    Random,
}

/// The wire discriminant of each color mode.
pub open spec fn color_mode_value(x: ColorMode) -> u32 {
    match x {
        ColorMode::NoColor => 0,
        ColorMode::PerLED => 1,
        ColorMode::ModeSpecific => 2,
        ColorMode::Random => 3,
    }
}

/// The color mode a wire discriminant names, if any.
pub open spec fn color_mode_from(v: u32) -> Option<ColorMode> {
    if v == 0 {
        Some(ColorMode::NoColor)
    } else if v == 1 {
        Some(ColorMode::PerLED)
    } else if v == 2 {
        Some(ColorMode::ModeSpecific)
    } else if v == 3 {
        Some(ColorMode::Random)
    } else {
        None
    }
}

impl DeepView for ColorMode {
    type V = ColorMode;

    open spec fn deep_view(&self) -> ColorMode {
        *self
    }
}

impl ColorMode {
    /// The wire discriminant of this color mode.
    pub fn to_u32(self) -> (r: u32)
        ensures
            r == color_mode_value(self),
    {
        match self {
            ColorMode::NoColor => 0,
            ColorMode::PerLED => 1,
            ColorMode::ModeSpecific => 2,
            ColorMode::Random => 3,
        }
    }

    /// The color mode named by a wire discriminant, if any.
    pub fn from_u32(v: u32) -> (r: Option<ColorMode>)
        ensures
            r == color_mode_from(v),
    {
        if v == 0 {
            Some(ColorMode::NoColor)
        } else if v == 1 {
            Some(ColorMode::PerLED)
        } else if v == 2 {
            Some(ColorMode::ModeSpecific)
        } else if v == 3 {
            Some(ColorMode::Random)
        } else {
            None
        }
    }
}

impl SerToBuf for ColorMode {
    open spec fn enc(&self, ver: u32) -> Seq<u8> {
        spec_u32_to_le_bytes(color_mode_value(*self))
    }

    open spec fn enc_err(&self, ver: u32) -> bool {
        false
    }

    open spec fn wf(&self, ver: u32) -> bool {
        true
    }

    fn serialize(&self, buf: &mut WriteMessage) -> (r: Result<(), OpenRgbError>) {
        buf.write_u32(self.to_u32());
        Ok(())
    }

    fn size(&self, ver: u32) -> (r: usize) {
        proof {
            lemma_auto_spec_u32_to_from_le_bytes();
        }
        4
    }
}

impl DeserFromBuf for ColorMode {
    open spec fn dec(bytes: Seq<u8>, ver: u32) -> Option<(ColorMode, int)> {
        if bytes.len() >= 4 {
            match color_mode_from(spec_u32_from_le_bytes(bytes.take(4))) {
                Option::Some(x) => Some((x, 4int)),
                Option::None => None,
            }
        } else {
            None
        }
    }

    fn deserialize(buf: &mut ReceivedMessage<'_>) -> (r: Result<Self, OpenRgbError>) {
        let raw = buf.read_u32()?;
        match ColorMode::from_u32(raw) {
            Some(x) => Ok(x),
            None => Err(OpenRgbError::ProtocolError(ProtocolErrorKind::UnknownColorMode {
                value: raw,
            })),
        }
    }
}

impl WireCodec for ColorMode {
    proof fn lemma_round_trip(&self, ver: u32, rest: Seq<u8>) {
        lemma_auto_spec_u32_to_from_le_bytes();
        assert((self.enc(ver) + rest).take(4) =~= self.enc(ver));
    }
}

} // verus!
