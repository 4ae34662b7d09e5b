//! RGB colors.  On the wire a color is 4 bytes: red, green, blue, and one
//! padding byte always written as 0 and ignored on read.

use vstd::prelude::*;

use crate::codec::{DeserFromBuf, SerToBuf, WireCodec};
use crate::error::OpenRgbError;
use crate::message::{ReceivedMessage, WriteMessage};

verus! {

/// One RGB color, one byte per channel.
#[derive(Debug, Clone, Copy, PartialEq, Eq, Structural)]
pub struct Color {
    /// Red channel.
    pub r: u8,
    /// Green channel.
    pub g: u8,
    /// Blue channel.
    pub b: u8,
}

impl DeepView for Color {
    type V = Color;

    open spec fn deep_view(&self) -> Color {
        *self
    }
}

impl Color {
    /// The color with the given channels.
    pub fn new(r: u8, g: u8, b: u8) -> (c: Color)
        ensures
            c == (Color { r, g, b }),
    {
        Color { r, g, b }
    }
}

impl SerToBuf for Color {
    /// Red, green, blue, then the constant padding byte.
    open spec fn enc(&self, ver: u32) -> Seq<u8> {
        seq![self.r, self.g, self.b, 0u8]
    }

    open spec fn enc_err(&self, ver: u32) -> bool {
        false
    }

    open spec fn wf(&self, ver: u32) -> bool {
        true
    }

    fn serialize(&self, buf: &mut WriteMessage) -> (r: Result<(), OpenRgbError>) {
        buf.write_u8(self.r);
        buf.write_u8(self.g);
        buf.write_u8(self.b);
        buf.write_u8(0);
        proof {
            assert(buf@.bytes =~= old(buf)@.bytes + self.enc(old(buf)@.version));
        }
        Ok(())
    }

    fn size(&self, ver: u32) -> (r: usize) {
        4
    }
}

impl DeserFromBuf for Color {
    /// Three channel bytes; the fourth byte is consumed and ignored.
    open spec fn dec(bytes: Seq<u8>, ver: u32) -> Option<(Color, int)> {
        if bytes.len() >= 4 {
            Some((Color { r: bytes[0], g: bytes[1], b: bytes[2] }, 4int))
        } else {
            None
        }
    }

    fn deserialize(buf: &mut ReceivedMessage<'_>) -> (r: Result<Self, OpenRgbError>) {
        let ghost rem0 = buf@.rem;
        let r = buf.read_u8()?;
        let g = buf.read_u8()?;
        let b = buf.read_u8()?;
        let _pad = buf.read_u8()?;
        proof {
            assert(rem0.skip(1)[0] == rem0[1]);
            assert(rem0.skip(1).skip(1)[0] == rem0[2]);
            assert(rem0.skip(1).skip(1).skip(1).skip(1) =~= rem0.skip(4));
        }
        Ok(Color { r, g, b })
    }
}

impl WireCodec for Color {
    proof fn lemma_round_trip(&self, ver: u32, rest: Seq<u8>) {
        let total = self.enc(ver) + rest;
        assert(total[0] == self.r && total[1] == self.g && total[2] == self.b);
    }
}

} // verus!
