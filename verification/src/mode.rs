//! Lighting modes: a named effect whose speed, direction, brightness and
//! color parameters are gated by a flag set.  Numeric fields are always on
//! the wire but only meaningful when the matching flag is set; brightness
//! fields are additionally gated at protocol version 3.

use vstd::prelude::*;

use crate::codec::{DeserFromBuf, SerToBuf, WireCodec};
use crate::color::Color;
use crate::color_mode::ColorMode;
use crate::direction::Direction;
use crate::error::OpenRgbError;
use crate::message::{ReceivedMessage, WriteMessage};
use crate::mode_flag::{ModeFlag, ModeFlags};
use crate::protocol_option::ProtocolOption;
use crate::strings::{enc_str, enc_str_err};

verus! {

broadcast use vstd::seq_lib::lemma_seq_skip_of_skip;

/// One lighting mode of a controller.
#[derive(Debug, Clone, PartialEq, Eq)]
pub struct ModeData {
    /// Mode name.
    pub name: String,
    /// Device-specific mode value.
    pub value: i32,
    /// Which parameters this mode supports.
    pub flags: ModeFlags,
    /// Minimum speed; meaningful only with [`ModeFlag::HasSpeed`].
    pub speed_min: u32,
    /// Maximum speed; meaningful only with [`ModeFlag::HasSpeed`].
    pub speed_max: u32,
    /// Current speed; meaningful only with [`ModeFlag::HasSpeed`].
    pub speed: u32,
    /// Minimum brightness; meaningful only with [`ModeFlag::HasBrightness`],
    /// carried only from protocol version 3.
    pub brightness_min: ProtocolOption<3, u32>,
    /// Maximum brightness; meaningful only with [`ModeFlag::HasBrightness`],
    /// carried only from protocol version 3.
    pub brightness_max: ProtocolOption<3, u32>,
    /// Current brightness; meaningful only with [`ModeFlag::HasBrightness`],
    /// carried only from protocol version 3.
    pub brightness: ProtocolOption<3, u32>,
    /// How this mode takes its colors.
    pub color_mode: ColorMode,
    /// Mode colors; empty when unused.
    pub colors: Vec<Color>,
    /// Minimum color count; meaningful only when `colors` is non-empty.
    pub colors_min: u32,
    /// Maximum color count; meaningful only when `colors` is non-empty.
    pub colors_max: u32,
    /// Effect direction; meaningful only with direction flags.
    pub direction: Direction,
    /// Position of this mode in its controller's list; not on the wire,
    /// assigned after decoding.
    pub index: u32,
    /// The protocol version this mode was decoded at.
    pub protocol_version: u32,
}

/// Abstract value of a [`ModeData`].
pub struct ModeDataV {
    /// Mode name.
    pub name: Seq<char>,
    /// Device-specific mode value.
    pub value: i32,
    /// Which parameters this mode supports.
    pub flags: ModeFlags,
    /// Minimum speed.
    pub speed_min: u32,
    /// Maximum speed.
    pub speed_max: u32,
    /// Current speed.
    pub speed: u32,
    /// Minimum brightness.
    pub brightness_min: ProtocolOption<3, u32>,
    /// Maximum brightness.
    pub brightness_max: ProtocolOption<3, u32>,
    /// Current brightness.
    pub brightness: ProtocolOption<3, u32>,
    /// How this mode takes its colors.
    pub color_mode: ColorMode,
    /// Mode colors.
    pub colors: Seq<Color>,
    /// Minimum color count.
    pub colors_min: u32,
    /// Maximum color count.
    pub colors_max: u32,
    /// Effect direction.
    pub direction: Direction,
    /// Position of this mode in its controller's list.
    pub index: u32,
    /// The protocol version this mode was decoded at.
    pub protocol_version: u32,
}

impl DeepView for ModeData {
    type V = ModeDataV;

    open spec fn deep_view(&self) -> ModeDataV {
        ModeDataV {
            name: self.name.deep_view(),
            value: self.value,
            flags: self.flags,
            speed_min: self.speed_min,
            speed_max: self.speed_max,
            speed: self.speed,
            brightness_min: self.brightness_min.deep_view(),
            brightness_max: self.brightness_max.deep_view(),
            brightness: self.brightness.deep_view(),
            color_mode: self.color_mode,
            colors: self.colors.deep_view(),
            colors_min: self.colors_min,
            colors_max: self.colors_max,
            direction: self.direction,
            index: self.index,
            protocol_version: self.protocol_version,
        }
    }
}


impl ModeData {
    /// Current brightness, when the mode supports brightness and the
    /// negotiated version carries it.
    pub fn brightness(&self) -> (r: Option<u32>)
        ensures
            r == (if self.flags.spec_contains(ModeFlag::HasBrightness) {
                match self.brightness {
                    ProtocolOption::Present(b) => Some(b),
                    ProtocolOption::UnsupportedVersion => None::<u32>,
                }
            } else {
                None::<u32>
            }),
    {
        if self.flags.contains(ModeFlag::HasBrightness) {
            match self.brightness.value() {
                Some(b) => Some(*b),
                None => None,
            }
        } else {
            None
        }
    }

    /// Sets the brightness, where the mode supports brightness and the
    /// field is carried; otherwise leaves the mode unchanged.
    pub fn set_brightness(&mut self, b: u32)
        ensures
            !old(self).flags.spec_contains(ModeFlag::HasBrightness) ==> *final(self) == *old(
                self,
            ),
            old(self).flags.spec_contains(ModeFlag::HasBrightness)
                && old(self).brightness is UnsupportedVersion ==> *final(self) == *old(self),
            old(self).flags.spec_contains(ModeFlag::HasBrightness) && old(
                self,
            ).brightness is Present ==> *final(self) == (ModeData {
                brightness: ProtocolOption::Present(b),
                ..*old(self)
            }),
    {
        if self.flags.contains(ModeFlag::HasBrightness) {
            self.brightness.replace(b);
        }
    }

    /// Minimum brightness, under the same conditions as
    /// [`ModeData::brightness`].
    pub fn brightness_min(&self) -> (r: Option<u32>)
        ensures
            r == (if self.flags.spec_contains(ModeFlag::HasBrightness) {
                match self.brightness_min {
                    ProtocolOption::Present(b) => Some(b),
                    ProtocolOption::UnsupportedVersion => None::<u32>,
                }
            } else {
                None::<u32>
            }),
    {
        if self.flags.contains(ModeFlag::HasBrightness) {
            match self.brightness_min.value() {
                Some(b) => Some(*b),
                None => None,
            }
        } else {
            None
        }
    }

    /// Maximum brightness, under the same conditions as
    /// [`ModeData::brightness`].
    pub fn brightness_max(&self) -> (r: Option<u32>)
        ensures
            r == (if self.flags.spec_contains(ModeFlag::HasBrightness) {
                match self.brightness_max {
                    ProtocolOption::Present(b) => Some(b),
                    ProtocolOption::UnsupportedVersion => None::<u32>,
                }
            } else {
                None::<u32>
            }),
    {
        if self.flags.contains(ModeFlag::HasBrightness) {
            match self.brightness_max.value() {
                Some(b) => Some(*b),
                None => None,
            }
        } else {
            None
        }
    }

    /// Current speed, when the mode supports speed.
    pub fn speed(&self) -> (r: Option<u32>)
        ensures
            r == (if self.flags.spec_contains(ModeFlag::HasSpeed) {
                Some(self.speed)
            } else {
                None::<u32>
            }),
    {
        if self.flags.contains(ModeFlag::HasSpeed) {
            Some(self.speed)
        } else {
            None
        }
    }

    /// Sets the speed, where the mode supports speed; otherwise leaves the
    /// mode unchanged.
    pub fn set_speed(&mut self, sp: u32)
        ensures
            !old(self).flags.spec_contains(ModeFlag::HasSpeed) ==> *final(self) == *old(self),
            old(self).flags.spec_contains(ModeFlag::HasSpeed) ==> *final(self) == (ModeData {
                speed: sp,
                ..*old(self)
            }),
    {
        if self.flags.contains(ModeFlag::HasSpeed) {
            self.speed = sp;
        }
    }

    /// Minimum speed, when the mode supports speed.
    pub fn speed_min(&self) -> (r: Option<u32>)
        ensures
            r == (if self.flags.spec_contains(ModeFlag::HasSpeed) {
                Some(self.speed_min)
            } else {
                None::<u32>
            }),
    {
        if self.flags.contains(ModeFlag::HasSpeed) {
            Some(self.speed_min)
        } else {
            None
        }
    }

    /// Maximum speed, when the mode supports speed.
    pub fn speed_max(&self) -> (r: Option<u32>)
        ensures
            r == (if self.flags.spec_contains(ModeFlag::HasSpeed) {
                Some(self.speed_max)
            } else {
                None::<u32>
            }),
    {
        if self.flags.contains(ModeFlag::HasSpeed) {
            Some(self.speed_max)
        } else {
            None
        }
    }

    /// Effect direction, when the mode has all direction bits.
    pub fn direction(&self) -> (r: Option<Direction>)
        ensures
            r == (if self.flags.spec_contains(ModeFlag::HasDirection) {
                Some(self.direction)
            } else {
                None::<Direction>
            }),
    {
        if self.flags.contains(ModeFlag::HasDirection) {
            Some(self.direction)
        } else {
            None
        }
    }

    /// How this mode takes its colors.
    pub fn color_mode(&self) -> (r: ColorMode)
        ensures
            r == self.color_mode,
    {
        self.color_mode
    }

    /// The mode's colors.
    pub fn colors(&self) -> (r: &Vec<Color>)
        ensures
            r@ == self.colors@,
    {
        &self.colors
    }

    /// Minimum color count, when the mode carries colors.
    pub fn colors_min(&self) -> (r: Option<u32>)
        ensures
            r == (if self.colors@.len() > 0 {
                Some(self.colors_min)
            } else {
                None::<u32>
            }),
    {
        if self.colors.len() > 0 {
            Some(self.colors_min)
        } else {
            None
        }
    }

    /// Maximum color count, when the mode carries colors.
    pub fn colors_max(&self) -> (r: Option<u32>)
        ensures
            r == (if self.colors@.len() > 0 {
                Some(self.colors_max)
            } else {
                None::<u32>
            }),
    {
        if self.colors.len() > 0 {
            Some(self.colors_max)
        } else {
            None
        }
    }
}

/// The head wire fields of a mode.
pub open spec fn enc_mode_head(m: &ModeData, ver: u32) -> Seq<u8> {
    enc_str(m.name@)
        + m.value.enc(ver)
        + m.flags.enc(ver)
        + m.speed_min.enc(ver)
        + m.speed_max.enc(ver)
}

/// Decoder for the head wire fields of a mode.
pub open spec fn dec_mode_head(bytes: Seq<u8>, ver: u32) -> Option<((Seq<char>, i32, ModeFlags, u32, u32), int)> {
    match <String as DeserFromBuf>::dec(bytes, ver) {
        Option::None => None,
        Option::Some((name, k1)) => {
            match <i32 as DeserFromBuf>::dec(bytes.skip(k1), ver) {
                Option::None => None,
                Option::Some((value, k2)) => {
                    match <ModeFlags as DeserFromBuf>::dec(bytes.skip(k1 + k2), ver) {
                        Option::None => None,
                        Option::Some((flags, k3)) => {
                            match <u32 as DeserFromBuf>::dec(bytes.skip(k1 + k2 + k3), ver) {
                                Option::None => None,
                                Option::Some((speed_min, k4)) => {
                                    match <u32 as DeserFromBuf>::dec(bytes.skip(k1 + k2 + k3 + k4), ver) {
                                        Option::None => None,
                                        Option::Some((speed_max, k5)) => {
                                            Some(((name, value, flags, speed_min, speed_max), k1 + k2 + k3 + k4 + k5))
                                        },
                                    }
                                },
                            }
                        },
                    }
                },
            }
        },
    }
}

/// Round trip of the head mode fields.
#[verifier::rlimit(100)]
#[verifier::spinoff_prover]
proof fn lemma_mode_head_round_trip(m: &ModeData, ver: u32, rest: Seq<u8>)
    requires
        !enc_str_err(m.name@),
        m.flags.valid(),
    ensures
        dec_mode_head(enc_mode_head(m, ver) + rest, ver) matches Some(q)
            && q.0 == (m.name.deep_view(), m.value, m.flags, m.speed_min, m.speed_max)
            && q.1 == enc_mode_head(m, ver).len(),
{
    let e1 = enc_str(m.name@);
    let e2 = m.value.enc(ver);
    let e3 = m.flags.enc(ver);
    let e4 = m.speed_min.enc(ver);
    let e5 = m.speed_max.enc(ver);
    let t5 = rest;
    let t4 = e5 + t5;
    let t3 = e4 + t4;
    let t2 = e3 + t3;
    let t1 = e2 + t2;
    let t0 = e1 + t1;
    let total = enc_mode_head(m, ver) + rest;
    assert(total =~= t0);
    m.name.lemma_round_trip(ver, t1);
    assert(total.skip(e1.len() as int) =~= t1);
    m.value.lemma_round_trip(ver, t2);
    assert(total.skip((e1.len()) as int).skip(e2.len() as int) =~= t2);
    m.flags.lemma_round_trip(ver, t3);
    assert(total.skip((e1.len() + e2.len()) as int).skip(e3.len() as int) =~= t3);
    m.speed_min.lemma_round_trip(ver, t4);
    assert(total.skip((e1.len() + e2.len() + e3.len()) as int).skip(e4.len() as int) =~= t4);
    m.speed_max.lemma_round_trip(ver, t5);
}

/// The mid wire fields of a mode.
pub open spec fn enc_mode_mid(m: &ModeData, ver: u32) -> Seq<u8> {
    m.brightness_min.enc(ver)
        + m.brightness_max.enc(ver)
        + m.brightness.enc(ver)
        + m.colors_min.enc(ver)
        + m.colors_max.enc(ver)
}

/// Decoder for the mid wire fields of a mode.
pub open spec fn dec_mode_mid(bytes: Seq<u8>, ver: u32) -> Option<((ProtocolOption<3, u32>, ProtocolOption<3, u32>, ProtocolOption<3, u32>, u32, u32), int)> {
    match <ProtocolOption<3, u32> as DeserFromBuf>::dec(bytes, ver) {
        Option::None => None,
        Option::Some((brightness_min, k1)) => {
            match <ProtocolOption<3, u32> as DeserFromBuf>::dec(bytes.skip(k1), ver) {
                Option::None => None,
                Option::Some((brightness_max, k2)) => {
                    match <ProtocolOption<3, u32> as DeserFromBuf>::dec(bytes.skip(k1 + k2), ver) {
                        Option::None => None,
                        Option::Some((brightness, k3)) => {
                            match <u32 as DeserFromBuf>::dec(bytes.skip(k1 + k2 + k3), ver) {
                                Option::None => None,
                                Option::Some((colors_min, k4)) => {
                                    match <u32 as DeserFromBuf>::dec(bytes.skip(k1 + k2 + k3 + k4), ver) {
                                        Option::None => None,
                                        Option::Some((colors_max, k5)) => {
                                            Some(((brightness_min, brightness_max, brightness, colors_min, colors_max), k1 + k2 + k3 + k4 + k5))
                                        },
                                    }
                                },
                            }
                        },
                    }
                },
            }
        },
    }
}

/// Round trip of the mid mode fields.
#[verifier::rlimit(100)]
#[verifier::spinoff_prover]
proof fn lemma_mode_mid_round_trip(m: &ModeData, ver: u32, rest: Seq<u8>)
    requires
        m.brightness_min.wf(ver),
        m.brightness_max.wf(ver),
        m.brightness.wf(ver),
    ensures
        dec_mode_mid(enc_mode_mid(m, ver) + rest, ver) matches Some(q)
            && q.0 == (m.brightness_min.deep_view(), m.brightness_max.deep_view(), m.brightness.deep_view(), m.colors_min, m.colors_max)
            && q.1 == enc_mode_mid(m, ver).len(),
{
    let e1 = m.brightness_min.enc(ver);
    let e2 = m.brightness_max.enc(ver);
    let e3 = m.brightness.enc(ver);
    let e4 = m.colors_min.enc(ver);
    let e5 = m.colors_max.enc(ver);
    let t5 = rest;
    let t4 = e5 + t5;
    let t3 = e4 + t4;
    let t2 = e3 + t3;
    let t1 = e2 + t2;
    let t0 = e1 + t1;
    let total = enc_mode_mid(m, ver) + rest;
    assert(total =~= t0);
    m.brightness_min.lemma_round_trip(ver, t1);
    assert(total.skip(e1.len() as int) =~= t1);
    m.brightness_max.lemma_round_trip(ver, t2);
    assert(total.skip((e1.len()) as int).skip(e2.len() as int) =~= t2);
    m.brightness.lemma_round_trip(ver, t3);
    assert(total.skip((e1.len() + e2.len()) as int).skip(e3.len() as int) =~= t3);
    m.colors_min.lemma_round_trip(ver, t4);
    assert(total.skip((e1.len() + e2.len() + e3.len()) as int).skip(e4.len() as int) =~= t4);
    m.colors_max.lemma_round_trip(ver, t5);
}

/// The tail wire fields of a mode.
pub open spec fn enc_mode_tail(m: &ModeData, ver: u32) -> Seq<u8> {
    m.speed.enc(ver)
        + m.direction.enc(ver)
        + m.color_mode.enc(ver)
        + m.colors.enc(ver)
}

/// Decoder for the tail wire fields of a mode.
pub open spec fn dec_mode_tail(bytes: Seq<u8>, ver: u32) -> Option<((u32, Direction, ColorMode, Seq<Color>), int)> {
    match <u32 as DeserFromBuf>::dec(bytes, ver) {
        Option::None => None,
        Option::Some((speed, k1)) => {
            match <Direction as DeserFromBuf>::dec(bytes.skip(k1), ver) {
                Option::None => None,
                Option::Some((direction, k2)) => {
                    match <ColorMode as DeserFromBuf>::dec(bytes.skip(k1 + k2), ver) {
                        Option::None => None,
                        Option::Some((color_mode, k3)) => {
                            match <Vec<Color> as DeserFromBuf>::dec(bytes.skip(k1 + k2 + k3), ver) {
                                Option::None => None,
                                Option::Some((colors, k4)) => {
                                    Some(((speed, direction, color_mode, colors), k1 + k2 + k3 + k4))
                                },
                            }
                        },
                    }
                },
            }
        },
    }
}

/// Round trip of the tail mode fields.
#[verifier::rlimit(100)]
#[verifier::spinoff_prover]
proof fn lemma_mode_tail_round_trip(m: &ModeData, ver: u32, rest: Seq<u8>)
    requires
        m.colors.wf(ver),
        !m.colors.enc_err(ver),
    ensures
        dec_mode_tail(enc_mode_tail(m, ver) + rest, ver) matches Some(q)
            && q.0 == (m.speed, m.direction, m.color_mode, m.colors.deep_view())
            && q.1 == enc_mode_tail(m, ver).len(),
{
    let e1 = m.speed.enc(ver);
    let e2 = m.direction.enc(ver);
    let e3 = m.color_mode.enc(ver);
    let e4 = m.colors.enc(ver);
    let t4 = rest;
    let t3 = e4 + t4;
    let t2 = e3 + t3;
    let t1 = e2 + t2;
    let t0 = e1 + t1;
    let total = enc_mode_tail(m, ver) + rest;
    assert(total =~= t0);
    m.speed.lemma_round_trip(ver, t1);
    assert(total.skip(e1.len() as int) =~= t1);
    m.direction.lemma_round_trip(ver, t2);
    assert(total.skip((e1.len()) as int).skip(e2.len() as int) =~= t2);
    m.color_mode.lemma_round_trip(ver, t3);
    assert(total.skip((e1.len() + e2.len()) as int).skip(e3.len() as int) =~= t3);
    m.colors.lemma_round_trip(ver, t4);
}


/// Reads the leading mode fields.
#[verifier::spinoff_prover]
fn read_mode_head(buf: &mut ReceivedMessage<'_>) -> (r: Result<
    (String, i32, ModeFlags, u32, u32),
    OpenRgbError,
>)
    ensures
        final(buf)@.version == old(buf)@.version,
        match r {
            Ok(t) => {
                &&& dec_mode_head(old(buf)@.rem, old(buf)@.version) matches Some(p)
                    && p.0 == (t.0.deep_view(), t.1, t.2, t.3, t.4)
                    && 0 <= p.1 <= old(buf)@.rem.len()
                    && final(buf)@.rem == old(buf)@.rem.skip(p.1)
            },
            Err(_) => dec_mode_head(old(buf)@.rem, old(buf)@.version) is None,
        },
{
    let name: String = buf.read_value()?;
    let value: i32 = buf.read_value()?;
    let flags: ModeFlags = buf.read_value()?;
    let speed_min: u32 = buf.read_value()?;
    let speed_max: u32 = buf.read_value()?;
    Ok((name, value, flags, speed_min, speed_max))
}

/// Reads the middle mode fields.
#[verifier::spinoff_prover]
fn read_mode_mid(buf: &mut ReceivedMessage<'_>) -> (r: Result<
    (ProtocolOption<3, u32>, ProtocolOption<3, u32>, ProtocolOption<3, u32>, u32, u32),
    OpenRgbError,
>)
    ensures
        final(buf)@.version == old(buf)@.version,
        match r {
            Ok(t) => {
                &&& dec_mode_mid(old(buf)@.rem, old(buf)@.version) matches Some(p)
                    && p.0 == (t.0.deep_view(), t.1.deep_view(), t.2.deep_view(), t.3, t.4)
                    && 0 <= p.1 <= old(buf)@.rem.len()
                    && final(buf)@.rem == old(buf)@.rem.skip(p.1)
            },
            Err(_) => dec_mode_mid(old(buf)@.rem, old(buf)@.version) is None,
        },
{
    let brightness_min: ProtocolOption<3, u32> = buf.read_value()?;
    let brightness_max: ProtocolOption<3, u32> = buf.read_value()?;
    let brightness: ProtocolOption<3, u32> = buf.read_value()?;
    let colors_min: u32 = buf.read_value()?;
    let colors_max: u32 = buf.read_value()?;
    Ok((brightness_min, brightness_max, brightness, colors_min, colors_max))
}

/// Reads the trailing mode fields.
#[verifier::spinoff_prover]
fn read_mode_tail(buf: &mut ReceivedMessage<'_>) -> (r: Result<
    (u32, Direction, ColorMode, Vec<Color>),
    OpenRgbError,
>)
    ensures
        final(buf)@.version == old(buf)@.version,
        match r {
            Ok(t) => {
                &&& dec_mode_tail(old(buf)@.rem, old(buf)@.version) matches Some(p)
                    && p.0 == (t.0, t.1, t.2, t.3.deep_view())
                    && 0 <= p.1 <= old(buf)@.rem.len()
                    && final(buf)@.rem == old(buf)@.rem.skip(p.1)
            },
            Err(_) => dec_mode_tail(old(buf)@.rem, old(buf)@.version) is None,
        },
{
    let speed: u32 = buf.read_value()?;
    let direction: Direction = buf.read_value()?;
    let color_mode: ColorMode = buf.read_value()?;
    let colors: Vec<Color> = buf.read_value()?;
    Ok((speed, direction, color_mode, colors))
}

impl SerToBuf for ModeData {
    /// Every wire field in order; `index` and `protocol_version` are not
    /// on the wire.
    open spec fn enc(&self, ver: u32) -> Seq<u8> {
        enc_mode_head(self, ver) + enc_mode_mid(self, ver) + enc_mode_tail(self, ver)
    }

    open spec fn enc_err(&self, ver: u32) -> bool {
        enc_str_err(self.name@) || self.colors.enc_err(ver)
    }

    open spec fn wf(&self, ver: u32) -> bool {
        &&& self.flags.valid()
        &&& self.colors.wf(ver)
        &&& self.brightness_min.wf(ver)
        &&& self.brightness_max.wf(ver)
        &&& self.brightness.wf(ver)
        &&& self.index == u32::MAX
        &&& self.protocol_version == ver
    }

    #[verifier::rlimit(100)]
    #[verifier::spinoff_prover]
    fn serialize(&self, buf: &mut WriteMessage) -> (r: Result<(), OpenRgbError>) {
        self.name.serialize(buf)?;
        self.value.serialize(buf)?;
        self.flags.serialize(buf)?;
        self.speed_min.serialize(buf)?;
        self.speed_max.serialize(buf)?;
        self.brightness_min.serialize(buf)?;
        self.brightness_max.serialize(buf)?;
        self.brightness.serialize(buf)?;
        self.colors_min.serialize(buf)?;
        self.colors_max.serialize(buf)?;
        self.speed.serialize(buf)?;
        self.direction.serialize(buf)?;
        self.color_mode.serialize(buf)?;
        self.colors.serialize(buf)?;
        proof {
            assert(buf@.bytes =~= old(buf)@.bytes + self.enc(old(buf)@.version));
        }
        Ok(())
    }

    fn size(&self, ver: u32) -> (r: usize) {
        let a = self.name.size(ver);
        let b = self.value.size(ver);
        let c = self.flags.size(ver);
        let d = self.speed_min.size(ver);
        let e = self.speed_max.size(ver);
        let f = self.brightness_min.size(ver);
        let g = self.brightness_max.size(ver);
        let h = self.brightness.size(ver);
        let i = self.colors_min.size(ver);
        let j = self.colors_max.size(ver);
        let k = self.speed.size(ver);
        let l = self.direction.size(ver);
        let m = self.color_mode.size(ver);
        let n = self.colors.size(ver);
        a + b + c + d + e + f + g + h + i + j + k + l + m + n
    }
}

impl DeserFromBuf for ModeData {
    /// Every wire field in order; `index` decodes to `u32::MAX` until its
    /// controller assigns the position, and `protocol_version` records the
    /// version in effect.
    open spec fn dec(bytes: Seq<u8>, ver: u32) -> Option<(ModeDataV, int)> {
        match dec_mode_head(bytes, ver) {
            Option::None => None,
            Option::Some((a, ha)) => match dec_mode_mid(bytes.skip(ha), ver) {
                Option::None => None,
                Option::Some((b, hb)) => match dec_mode_tail(bytes.skip(ha + hb), ver) {
                    Option::None => None,
                    Option::Some((c, hc)) => Some((
                        ModeDataV {
                            name: a.0,
                            value: a.1,
                            flags: a.2,
                            speed_min: a.3,
                            speed_max: a.4,
                            brightness_min: b.0,
                            brightness_max: b.1,
                            brightness: b.2,
                            colors_min: b.3,
                            colors_max: b.4,
                            speed: c.0,
                            direction: c.1,
                            color_mode: c.2,
                            colors: c.3,
                            index: u32::MAX,
                            protocol_version: ver,
                        },
                        ha + hb + hc,
                    )),
                },
            },
        }
    }

    #[verifier::spinoff_prover]
    fn deserialize(buf: &mut ReceivedMessage<'_>) -> (r: Result<Self, OpenRgbError>) {
        let protocol_version = buf.protocol_version();
        let (name, value, flags, speed_min, speed_max) = read_mode_head(buf)?;
        let (brightness_min, brightness_max, brightness, colors_min, colors_max) = read_mode_mid(
            buf,
        )?;
        let (speed, direction, color_mode, colors) = read_mode_tail(buf)?;
        Ok(ModeData {
            name,
            value,
            flags,
            speed_min,
            speed_max,
            speed,
            brightness_min,
            brightness_max,
            brightness,
            color_mode,
            colors,
            colors_min,
            colors_max,
            direction,
            index: u32::MAX,
            protocol_version,
        })
    }
}

impl WireCodec for ModeData {
    #[verifier::rlimit(100)]
    #[verifier::spinoff_prover]
    proof fn lemma_round_trip(&self, ver: u32, rest: Seq<u8>) {
        let ea = enc_mode_head(self, ver);
        let eb = enc_mode_mid(self, ver);
        let ec = enc_mode_tail(self, ver);
        let tc = rest;
        let tb = ec + tc;
        let ta = eb + tb;
        let total = self.enc(ver) + rest;
        assert(total =~= ea + ta);
        lemma_mode_head_round_trip(self, ver, ta);
        assert((ea + ta) =~= total);
        assert(total.skip(ea.len() as int) =~= ta);
        lemma_mode_mid_round_trip(self, ver, tb);
        assert(total.skip(ea.len() as int).skip(eb.len() as int) =~= tb);
        lemma_mode_tail_round_trip(self, ver, tc);
    }
}

} // verus!
