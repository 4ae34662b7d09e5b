//! Controller data: the full description of one RGB device, and the most
//! intricate decode of the protocol.  The field order is fixed; mode
//! indices and zone ids are not carried on the wire but assigned, by
//! position, in a pass over the freshly decoded lists.

use vstd::prelude::*;

use crate::codec::{dec_n, DeserFromBuf};
use crate::color::Color;
use crate::device_type::DeviceType;
use crate::error::OpenRgbError;
use crate::led::{Led, LedV};
use crate::message::ReceivedMessage;
use crate::mode::{ModeData, ModeDataV};
use crate::protocol_option::ProtocolOption;
use crate::zone::{ZoneData, ZoneDataV};

verus! {

broadcast use vstd::seq_lib::lemma_seq_skip_of_skip;

/// One controller as reported by the server.
#[derive(Debug, Clone, PartialEq, Eq)]
pub struct ControllerData {
    /// Device type.
    pub device_type: DeviceType,
    /// Controller name.
    pub name: String,
    /// Controller vendor.
    pub vendor: String,
    /// Controller description.
    pub description: String,
    /// Firmware version string.
    pub version: String,
    /// Serial number string.
    pub serial: String,
    /// Device location string.
    pub location: String,
    /// Index of the active mode.
    pub active_mode: i32,
    /// Modes, each holding its position as its index.
    pub modes: Vec<ModeData>,
    /// Zones, each holding its position as its id.
    pub zones: Vec<ZoneData>,
    /// LEDs, in order.
    pub leds: Vec<Led>,
    /// Current colors, parallel to the LEDs.
    pub colors: Vec<Color>,
    /// Alternate LED names; carried only from protocol version 5.
    pub led_alt_names: ProtocolOption<5, Vec<String>>,
    /// Controller flags; carried only from protocol version 5.
    pub flags: ProtocolOption<5, u32>,
    /// The id this controller was requested under; not on the wire.
    pub id: u32,
}

/// Abstract value of a [`ControllerData`].
pub struct ControllerDataV {
    /// Device type.
    pub device_type: DeviceType,
    /// Controller name.
    pub name: Seq<char>,
    /// Controller vendor.
    pub vendor: Seq<char>,
    /// Controller description.
    pub description: Seq<char>,
    /// Firmware version string.
    pub version: Seq<char>,
    /// Serial number string.
    pub serial: Seq<char>,
    /// Device location string.
    pub location: Seq<char>,
    /// Index of the active mode.
    pub active_mode: i32,
    /// Modes, each holding its position as its index.
    pub modes: Seq<ModeDataV>,
    /// Zones, each holding its position as its id.
    pub zones: Seq<ZoneDataV>,
    /// LEDs, in order.
    pub leds: Seq<LedV>,
    /// Current colors, parallel to the LEDs.
    pub colors: Seq<Color>,
    /// Alternate LED names.
    pub led_alt_names: ProtocolOption<5, Seq<Seq<char>>>,
    /// Controller flags.
    pub flags: ProtocolOption<5, u32>,
    /// The id this controller was requested under.
    pub id: u32,
}

impl DeepView for ControllerData {
    type V = ControllerDataV;

    open spec fn deep_view(&self) -> ControllerDataV {
        ControllerDataV {
            device_type: self.device_type,
            name: self.name.deep_view(),
            vendor: self.vendor.deep_view(),
            description: self.description.deep_view(),
            version: self.version.deep_view(),
            serial: self.serial.deep_view(),
            location: self.location.deep_view(),
            active_mode: self.active_mode,
            modes: self.modes.deep_view(),
            zones: self.zones.deep_view(),
            leds: self.leds.deep_view(),
            colors: self.colors.deep_view(),
            led_alt_names: self.led_alt_names.deep_view(),
            flags: self.flags.deep_view(),
            id: self.id,
        }
    }
}

/// The same modes with each one's index set to its position.
pub open spec fn with_mode_indices(s: Seq<ModeDataV>) -> Seq<ModeDataV> {
    Seq::new(s.len(), |i: int| ModeDataV { index: i as u32, ..s[i] })
}

/// The same zones with each one's id set to its position.
pub open spec fn with_zone_ids(s: Seq<ZoneDataV>) -> Seq<ZoneDataV> {
    Seq::new(s.len(), |i: int| ZoneDataV { id: i as u32, ..s[i] })
}

/// Assigns each mode its position as its index.
fn assign_mode_indices(modes: Vec<ModeData>) -> (r: Vec<ModeData>)
    requires
        modes@.len() <= u32::MAX,
    ensures
        r.deep_view() == with_mode_indices(modes.deep_view()),
{
    let ghost orig = modes.deep_view();
    let mut rest = modes;
    let n = rest.len();
    let mut out: Vec<ModeData> = Vec::new();
    let mut i: usize = 0;
    proof {
        assert(rest.deep_view() =~= orig.skip(0));
        assert(out.deep_view() =~= Seq::<ModeDataV>::empty());
    }
    while i < n
        invariant
            i <= n,
            n <= u32::MAX,
            n == orig.len(),
            rest@.len() == n - i,
            rest.deep_view() == orig.skip(i as int),
            out@.len() == i,
            out.deep_view() == with_mode_indices(orig).take(i as int),
        decreases n - i,
    {
        let ghost rest_pre = rest.deep_view();
        let mut m = rest.remove(0);
        proof {
            assert(m.deep_view() == rest_pre[0]);
            assert forall|j: int| 0 <= j < rest@.len() implies #[trigger] rest.deep_view()[j]
                == orig.skip(i + 1)[j] by {
                assert(rest.deep_view()[j] == rest_pre[j + 1]);
            }
            assert(rest.deep_view() =~= orig.skip(i + 1));
            assert(m.deep_view() == orig[i as int]);
        }
        m.index = i as u32;
        let ghost out_pre = out.deep_view();
        out.push(m);
        proof {
            assert(out.deep_view() =~= with_mode_indices(orig).take(i + 1));
        }
        i = i + 1;
    }
    proof {
        assert(with_mode_indices(orig).take(n as int) =~= with_mode_indices(orig));
    }
    out
}

/// Assigns each zone its position as its id.
fn assign_zone_ids(zones: Vec<ZoneData>) -> (r: Vec<ZoneData>)
    requires
        zones@.len() <= u32::MAX,
    ensures
        r.deep_view() == with_zone_ids(zones.deep_view()),
{
    let ghost orig = zones.deep_view();
    let mut rest = zones;
    let n = rest.len();
    let mut out: Vec<ZoneData> = Vec::new();
    let mut i: usize = 0;
    proof {
        assert(rest.deep_view() =~= orig.skip(0));
        assert(out.deep_view() =~= Seq::<ZoneDataV>::empty());
    }
    while i < n
        invariant
            i <= n,
            n <= u32::MAX,
            n == orig.len(),
            rest@.len() == n - i,
            rest.deep_view() == orig.skip(i as int),
            out@.len() == i,
            out.deep_view() == with_zone_ids(orig).take(i as int),
        decreases n - i,
    {
        let ghost rest_pre = rest.deep_view();
        let mut z = rest.remove(0);
        proof {
            assert(z.deep_view() == rest_pre[0]);
            assert forall|j: int| 0 <= j < rest@.len() implies #[trigger] rest.deep_view()[j]
                == orig.skip(i + 1)[j] by {
                assert(rest.deep_view()[j] == rest_pre[j + 1]);
            }
            assert(rest.deep_view() =~= orig.skip(i + 1));
            assert(z.deep_view() == orig[i as int]);
        }
        z.id = i as u32;
        let ghost out_pre = out.deep_view();
        out.push(z);
        proof {
            assert(out.deep_view() =~= with_zone_ids(orig).take(i + 1));
        }
        i = i + 1;
    }
    proof {
        assert(with_zone_ids(orig).take(n as int) =~= with_zone_ids(orig));
    }
    out
}

/// The leading wire fields of a controller: the overall payload size (read
/// and discarded), the device type, and the six descriptive strings.
pub open spec fn dec_controller_head(bytes: Seq<u8>, ver: u32) -> Option<
    ((DeviceType, Seq<char>, Seq<char>, Seq<char>, Seq<char>, Seq<char>, Seq<char>), int),
> {
    match <u32 as DeserFromBuf>::dec(bytes, ver) {
        Option::None => None,
        Option::Some((_data_size, n1)) => match <DeviceType as DeserFromBuf>::dec(
            bytes.skip(n1),
            ver,
        ) {
            Option::None => None,
            Option::Some((device_type, n2)) => match <String as DeserFromBuf>::dec(
                bytes.skip(n1 + n2),
                ver,
            ) {
                Option::None => None,
                Option::Some((name, n3)) => match <String as DeserFromBuf>::dec(
                    bytes.skip(n1 + n2 + n3),
                    ver,
                ) {
                    Option::None => None,
                    Option::Some((vendor, n4)) => match <String as DeserFromBuf>::dec(
                        bytes.skip(n1 + n2 + n3 + n4),
                        ver,
                    ) {
                        Option::None => None,
                        Option::Some((description, n5)) => match <String as DeserFromBuf>::dec(
                            bytes.skip(n1 + n2 + n3 + n4 + n5),
                            ver,
                        ) {
                            Option::None => None,
                            Option::Some((version, n6)) => match <String as DeserFromBuf>::dec(
                                bytes.skip(n1 + n2 + n3 + n4 + n5 + n6),
                                ver,
                            ) {
                                Option::None => None,
                                Option::Some((serial, n7)) => match <String as DeserFromBuf>::dec(
                                    bytes.skip(n1 + n2 + n3 + n4 + n5 + n6 + n7),
                                    ver,
                                ) {
                                    Option::None => None,
                                    Option::Some((location, n8)) => Some(
                                        (
                                            (
                                                device_type,
                                                name,
                                                vendor,
                                                description,
                                                version,
                                                serial,
                                                location,
                                            ),
                                            n1 + n2 + n3 + n4 + n5 + n6 + n7 + n8,
                                        ),
                                    ),
                                },
                            },
                        },
                    },
                },
            },
        },
    }
}

/// Reads the leading controller fields.
#[verifier::rlimit(100)]
#[verifier::spinoff_prover]
fn read_controller_head(buf: &mut ReceivedMessage<'_>) -> (r: Result<
    (DeviceType, String, String, String, String, String, String),
    OpenRgbError,
>)
    ensures
        final(buf)@.version == old(buf)@.version,
        match r {
            Ok(t) => {
                &&& dec_controller_head(old(buf)@.rem, old(buf)@.version) matches Some(p)
                    && p.0 == (
                    t.0,
                    t.1.deep_view(),
                    t.2.deep_view(),
                    t.3.deep_view(),
                    t.4.deep_view(),
                    t.5.deep_view(),
                    t.6.deep_view(),
                )
                    && 0 <= p.1 <= old(buf)@.rem.len()
                    && final(buf)@.rem == old(buf)@.rem.skip(p.1)
            },
            Err(_) => dec_controller_head(old(buf)@.rem, old(buf)@.version) is None,
        },
{
    let _data_size = buf.read_u32()?;
    let device_type: DeviceType = buf.read_value()?;
    let name: String = buf.read_value()?;
    let vendor: String = buf.read_value()?;
    let description: String = buf.read_value()?;
    let version: String = buf.read_value()?;
    let serial: String = buf.read_value()?;
    let location: String = buf.read_value()?;
    Ok((device_type, name, vendor, description, version, serial, location))
}

impl DeserFromBuf for ControllerData {
    /// The leading fields, then the mode count and active mode, that many
    /// modes, the zone list, the LED and color lists, and the version-gated
    /// alternate names and flags.  Mode indices and zone ids are assigned
    /// by position; the controller id decodes as `u32::MAX` until the
    /// session assigns the requested id.
    open spec fn dec(bytes: Seq<u8>, ver: u32) -> Option<(ControllerDataV, int)> {
        match dec_controller_head(bytes, ver) {
            Option::None => None,
            Option::Some((head, h)) => match <u16 as DeserFromBuf>::dec(bytes.skip(h), ver) {
                Option::None => None,
                Option::Some((num_modes, n1)) => match <i32 as DeserFromBuf>::dec(
                    bytes.skip(h + n1),
                    ver,
                ) {
                    Option::None => None,
                    Option::Some((active_mode, n2)) => match dec_n::<ModeData>(
                        bytes.skip(h + n1 + n2),
                        ver,
                        num_modes as nat,
                    ) {
                        Option::None => None,
                        Option::Some((modes, n3)) => match <Vec<ZoneData> as DeserFromBuf>::dec(
                            bytes.skip(h + n1 + n2 + n3),
                            ver,
                        ) {
                            Option::None => None,
                            Option::Some((zones, n4)) => match <Vec<Led> as DeserFromBuf>::dec(
                                bytes.skip(h + n1 + n2 + n3 + n4),
                                ver,
                            ) {
                                Option::None => None,
                                Option::Some((leds, n5)) => match <Vec<
                                    Color,
                                > as DeserFromBuf>::dec(
                                    bytes.skip(h + n1 + n2 + n3 + n4 + n5),
                                    ver,
                                ) {
                                    Option::None => None,
                                    Option::Some((colors, n6)) => match <ProtocolOption<
                                        5,
                                        Vec<String>,
                                    > as DeserFromBuf>::dec(
                                        bytes.skip(h + n1 + n2 + n3 + n4 + n5 + n6),
                                        ver,
                                    ) {
                                        Option::None => None,
                                        Option::Some((led_alt_names, n7)) => match <ProtocolOption<
                                            5,
                                            u32,
                                        > as DeserFromBuf>::dec(
                                            bytes.skip(h + n1 + n2 + n3 + n4 + n5 + n6 + n7),
                                            ver,
                                        ) {
                                            Option::None => None,
                                            Option::Some((flags, n8)) => Some(
                                                (
                                                    ControllerDataV {
                                                        device_type: head.0,
                                                        name: head.1,
                                                        vendor: head.2,
                                                        description: head.3,
                                                        version: head.4,
                                                        serial: head.5,
                                                        location: head.6,
                                                        active_mode,
                                                        modes: with_mode_indices(modes),
                                                        zones: with_zone_ids(zones),
                                                        leds,
                                                        colors,
                                                        led_alt_names,
                                                        flags,
                                                        id: u32::MAX,
                                                    },
                                                    h + n1 + n2 + n3 + n4 + n5 + n6 + n7 + n8,
                                                ),
                                            ),
                                        },
                                    },
                                },
                            },
                        },
                    },
                },
            },
        }
    }

    #[verifier::rlimit(100)]
    #[verifier::spinoff_prover]
    fn deserialize(buf: &mut ReceivedMessage<'_>) -> (r: Result<Self, OpenRgbError>) {
        let (device_type, name, vendor, description, version, serial, location) =
            read_controller_head(buf)?;
        let num_modes: u16 = buf.read_value()?;
        let active_mode: i32 = buf.read_value()?;
        let modes_raw: Vec<ModeData> = buf.read_n_values::<ModeData>(num_modes as usize)?;
        let modes = assign_mode_indices(modes_raw);
        let num_zones: u16 = buf.read_value()?;
        let zones_raw: Vec<ZoneData> = buf.read_n_values::<ZoneData>(num_zones as usize)?;
        let zones = assign_zone_ids(zones_raw);
        let leds: Vec<Led> = buf.read_value()?;
        let colors: Vec<Color> = buf.read_value()?;
        let led_alt_names: ProtocolOption<5, Vec<String>> = buf.read_value()?;
        let flags: ProtocolOption<5, u32> = buf.read_value()?;
        Ok(ControllerData {
            device_type,
            name,
            vendor,
            description,
            version,
            serial,
            location,
            active_mode,
            modes,
            zones,
            leds,
            colors,
            led_alt_names,
            flags,
            id: u32::MAX,
        })
    }
}

} // verus!
