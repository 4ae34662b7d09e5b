//! Mode flags: the bit set describing which parameters a lighting mode
//! supports.  Encoded as a single `u32` of OR'd bits; a word with bits
//! outside the declared flag universe is a hard decode error.

use vstd::prelude::*;
use vstd::bytes::{
    spec_u32_to_le_bytes, spec_u32_from_le_bytes, lemma_auto_spec_u32_to_from_le_bytes,
};

use crate::codec::{DeserFromBuf, SerToBuf, WireCodec};
use crate::error::{OpenRgbError, ProtocolErrorKind};
use crate::message::{ReceivedMessage, WriteMessage};

verus! {

/// Every bit a mode-flag word may carry.
pub const MODE_FLAG_MASK: u32 = 0x3ff;

/// One capability bit (or, for `HasDirection`, the three direction bits
/// together) of a lighting mode.
#[derive(Debug, Clone, Copy, PartialEq, Eq, Structural)]
pub enum ModeFlag {
    /// The mode has a speed parameter.
    HasSpeed,
    /// The mode has a left/right parameter.
    HasDirectionLR,
    /// The mode has an up/down parameter.
    HasDirectionUD,
    /// The mode has a horizontal/vertical parameter.
    HasDirectionHV,
    /// All three direction bits together.
    HasDirection,
    /// The mode has a brightness parameter.
    HasBrightness,
    /// The mode has per-LED colors.
    HasPerLEDColor,
    /// The mode has mode-specific colors.
    HasModeSpecificColor,
    /// The mode has a random-color option.
    HasRandomColor,
    /// The mode can be saved manually.
    ManualSave,
    /// The mode saves automatically.
    AutomaticSave,
}

/// The bit (or bits) each flag stands for.
pub open spec fn mode_flag_bits(f: ModeFlag) -> u32 {
    match f {
        ModeFlag::HasSpeed => 0x1,
        ModeFlag::HasDirectionLR => 0x2,
        ModeFlag::HasDirectionUD => 0x4,
        ModeFlag::HasDirectionHV => 0x8,
        ModeFlag::HasDirection => 0xe,
        ModeFlag::HasBrightness => 0x10,
        ModeFlag::HasPerLEDColor => 0x20,
        ModeFlag::HasModeSpecificColor => 0x40,
        ModeFlag::HasRandomColor => 0x80,
        ModeFlag::ManualSave => 0x100,
        ModeFlag::AutomaticSave => 0x200,
    }
}

impl ModeFlag {
    /// The bit (or bits) this flag stands for.
    pub fn bits(self) -> (r: u32)
        ensures
            r == mode_flag_bits(self),
    {
        match self {
            ModeFlag::HasSpeed => 0x1,
            ModeFlag::HasDirectionLR => 0x2,
            ModeFlag::HasDirectionUD => 0x4,
            ModeFlag::HasDirectionHV => 0x8,
            ModeFlag::HasDirection => 0xe,
            ModeFlag::HasBrightness => 0x10,
            ModeFlag::HasPerLEDColor => 0x20,
            ModeFlag::HasModeSpecificColor => 0x40,
            ModeFlag::HasRandomColor => 0x80,
            ModeFlag::ManualSave => 0x100,
            ModeFlag::AutomaticSave => 0x200,
        }
    }
}

/// A set of [`ModeFlag`]s, stored as the OR of their bits.
///
/// A word is valid when it stays within [`MODE_FLAG_MASK`]; decoding
/// enforces this and encoding writes the word back unchanged.
#[derive(Debug, Clone, Copy, PartialEq, Eq, Structural)]
pub struct ModeFlags {
    /// The OR'd flag bits.
    pub bits: u32,
}

impl DeepView for ModeFlags {
    type V = ModeFlags;

    open spec fn deep_view(&self) -> ModeFlags {
        *self
    }
}

impl ModeFlags {
    /// Whether these bits stay within the declared flag universe.
    pub open spec fn valid(&self) -> bool {
        self.bits <= MODE_FLAG_MASK
    }

    /// Whether the set holds every bit of `f`.
    pub open spec fn spec_contains(&self, f: ModeFlag) -> bool {
        self.bits & mode_flag_bits(f) == mode_flag_bits(f)
    }

    /// The set holding exactly the given bits; a word outside the flag
    /// universe is rejected.
    pub fn new(bits: u32) -> (r: Result<ModeFlags, OpenRgbError>)
        ensures
            bits <= MODE_FLAG_MASK ==> (r matches Ok(f) && f.bits == bits),
            bits > MODE_FLAG_MASK ==> (r matches Err(e) && e == OpenRgbError::ProtocolError(
                ProtocolErrorKind::UnknownModeFlags { value: bits },
            )),
    {
        if bits <= MODE_FLAG_MASK {
            Ok(ModeFlags { bits })
        } else {
            Err(OpenRgbError::ProtocolError(ProtocolErrorKind::UnknownModeFlags { value: bits }))
        }
    }

    /// The empty set.
    pub fn empty() -> (r: ModeFlags)
        ensures
            r.bits == 0,
    {
        ModeFlags { bits: 0 }
    }

    /// The set holding exactly the bits of one flag.
    pub fn single(f: ModeFlag) -> (r: ModeFlags)
        ensures
            r.bits == mode_flag_bits(f),
            r.valid(),
    {
        proof {
            assert(mode_flag_bits(f) <= MODE_FLAG_MASK);
        }
        ModeFlags { bits: f.bits() }
    }

    /// This set with the bits of `f` added.
    pub fn with(self, f: ModeFlag) -> (r: ModeFlags)
        ensures
            r.bits == self.bits | mode_flag_bits(f),
            self.valid() ==> r.valid(),
    {
        let b = self.bits | f.bits();
        proof {
            let x = self.bits;
            let y = mode_flag_bits(f);
            assert(x <= 0x3ffu32 && y <= 0x3ffu32 ==> (x | y) <= 0x3ffu32) by (bit_vector);
        }
        ModeFlags { bits: b }
    }

    /// Whether the set holds every bit of `f`.
    pub fn contains(&self, f: ModeFlag) -> (r: bool)
        ensures
            r == self.spec_contains(f),
    {
        let fb = f.bits();
        self.bits & fb == fb
    }

    /// The OR'd flag bits.
    pub fn bits(&self) -> (r: u32)
        ensures
            r == self.bits,
    {
        self.bits
    }
}

impl SerToBuf for ModeFlags {
    open spec fn enc(&self, ver: u32) -> Seq<u8> {
        spec_u32_to_le_bytes(self.bits)
    }

    open spec fn enc_err(&self, ver: u32) -> bool {
        false
    }

    open spec fn wf(&self, ver: u32) -> bool {
        self.valid()
    }

    fn serialize(&self, buf: &mut WriteMessage) -> (r: Result<(), OpenRgbError>) {
        buf.write_u32(self.bits);
        Ok(())
    }

    fn size(&self, ver: u32) -> (r: usize) {
        proof {
            lemma_auto_spec_u32_to_from_le_bytes();
        }
        4
    }
}

impl DeserFromBuf for ModeFlags {
    open spec fn dec(bytes: Seq<u8>, ver: u32) -> Option<(ModeFlags, int)> {
        if bytes.len() >= 4 {
            let w = spec_u32_from_le_bytes(bytes.take(4));
            if w <= MODE_FLAG_MASK {
                Some((ModeFlags { bits: w }, 4int))
            } else {
                None
            }
        } else {
            None
        }
    }

    fn deserialize(buf: &mut ReceivedMessage<'_>) -> (r: Result<Self, OpenRgbError>) {
        let raw = buf.read_u32()?;
        ModeFlags::new(raw)
    }
}

impl WireCodec for ModeFlags {
    proof fn lemma_round_trip(&self, ver: u32, rest: Seq<u8>) {
        lemma_auto_spec_u32_to_from_le_bytes();
        assert((self.enc(ver) + rest).take(4) =~= self.enc(ver));
    }
}

} // verus!
