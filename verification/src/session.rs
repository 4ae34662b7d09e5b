//! The protocol session: version negotiation, version gating, and the
//! request/response shapes of every operation.
//!
//! Transport I/O stays outside the crate.  A caller connects, sends
//! [`OpenRgbProtocol::request_protocol_version_request`], parses the answer
//! with [`OpenRgbProtocol::parse_protocol_version_response`], and builds the
//! session with [`OpenRgbProtocol::new`]; from then on each operation is a
//! request builder (the exact framed bytes to write) and, where a reply is
//! expected, a response parser.  Callers must serialize each write-then-read
//! exchange: the protocol has no request ids, so responses are matched to
//! requests only by this ordering.
//!
//! Operations gated on a protocol version fail before any bytes are built,
//! with the required and the negotiated version.

use vstd::prelude::*;
use vstd::bytes::spec_u32_to_le_bytes;

use crate::codec::{DeserFromBuf, SerToBuf};
use crate::color::Color;
use crate::controller::{ControllerData, ControllerDataV};
use crate::error::{OpenRgbError, ProtocolErrorKind};
use crate::message::{ReceivedMessage, WriteMessage};
use crate::mode::ModeData;
use crate::packet::{dec_header, enc_header, enc_len_prefixed, OpenRgbMessageHeader, OpenRgbPacket};
use crate::packet_id::PacketId;
use crate::plugin::PluginData;
use crate::segment::SegmentData;
use crate::strings::RawString;
use crate::DEFAULT_PROTOCOL;

verus! {

broadcast use vstd::seq_lib::lemma_seq_skip_of_skip;

/// The version a session settles on: the server's advertised version,
/// capped at this implementation's own.
pub open spec fn negotiated_version(server_version: u32) -> u32 {
    if server_version < DEFAULT_PROTOCOL {
        server_version
    } else {
        DEFAULT_PROTOCOL
    }
}

/// Whether `e` is the version-mismatch error for an operation named `op` that
/// needs version `min` on a session at version `cur`.
pub open spec fn unsupported_err(e: OpenRgbError, op: Seq<char>, min: u32, cur: u32) -> bool {
    &&& e matches OpenRgbError::UnsupportedOperation {
        operation,
        current_protocol_version,
        min_protocol_version,
    }
    &&& operation@ == op
    &&& current_protocol_version == cur
    &&& min_protocol_version == min
}

/// One fully framed request: where it goes, what it is, and its payload.
/// [`RequestPacket::to_bytes`] yields the bytes to write, header included.
#[derive(Debug, Clone, PartialEq, Eq)]
pub struct RequestPacket {
    /// Device (controller) id; 0 when no specific device is addressed.
    pub device_id: u32,
    /// Packet type.
    pub packet_id: PacketId,
    /// Payload bytes, without the header.
    pub payload: Vec<u8>,
}

impl RequestPacket {
    /// The full wire form: the 16-byte header, then the payload.  Fails
    /// only when the payload cannot be counted by the header's `u32`.
    pub fn to_bytes(&self) -> (r: Result<Vec<u8>, OpenRgbError>)
        ensures
            match r {
                Ok(bytes) => {
                    &&& self.payload@.len() <= u32::MAX
                    &&& bytes@ == enc_header(
                        self.device_id,
                        self.packet_id,
                        self.payload@.len() as u32,
                    ) + self.payload@
                },
                Err(e) => {
                    &&& self.payload@.len() > u32::MAX
                    &&& e == OpenRgbError::ProtocolError(ProtocolErrorKind::Oversize)
                },
            },
    {
        if (self.payload.len() as u64) > (u32::MAX as u64) {
            return Err(OpenRgbError::ProtocolError(ProtocolErrorKind::Oversize));
        }
        let header = OpenRgbMessageHeader {
            device_id: self.device_id,
            packet_id: self.packet_id,
            packet_size: self.payload.len() as u32,
        };
        let mut bytes = header.to_bytes();
        let mut payload_copy = vstd::slice::slice_to_vec(self.payload.as_slice());
        bytes.append(&mut payload_copy);
        proof {
            assert(bytes@ =~= enc_header(
                self.device_id,
                self.packet_id,
                self.payload@.len() as u32,
            ) + self.payload@);
        }
        Ok(bytes)
    }
}

/// A negotiated protocol session: the fixed protocol version, and with it
/// the request and response shape of every operation.
pub struct OpenRgbProtocol {
    protocol_id: u32,
}

impl OpenRgbProtocol {
    /// The fixed version this session speaks.
    pub closed spec fn spec_version(&self) -> u32 {
        self.protocol_id
    }

    /// The request that opens negotiation: it advertises this
    /// implementation's highest supported version to the server.
    pub fn request_protocol_version_request() -> (r: RequestPacket)
        ensures
            r.device_id == 0,
            r.packet_id == PacketId::RequestProtocolVersion,
            r.payload@ == spec_u32_to_le_bytes(DEFAULT_PROTOCOL),
    {
        let mut msg = WriteMessage::new(0);
        msg.write_u32(DEFAULT_PROTOCOL);
        RequestPacket {
            device_id: 0,
            packet_id: PacketId::RequestProtocolVersion,
            payload: msg.into_bytes(),
        }
    }

    /// The server's advertised version, from the negotiation response
    /// payload.
    pub fn parse_protocol_version_response(payload: &[u8]) -> (r: Result<u32, OpenRgbError>)
        ensures
            match r {
                Ok(v) => <u32 as DeserFromBuf>::dec(payload@, 0) matches Some(p) && p.0 == v,
                Err(_) => <u32 as DeserFromBuf>::dec(payload@, 0) is None,
            },
    {
        let mut msg = ReceivedMessage::new(payload, 0);
        msg.read_u32()
    }

    /// A session fixed at the minimum of this implementation's highest
    /// version and the server's advertised one.
    pub fn new(server_version: u32) -> (r: Self)
        ensures
            r.spec_version() == negotiated_version(server_version),
    {
        let protocol_id = if server_version < DEFAULT_PROTOCOL {
            server_version
        } else {
            DEFAULT_PROTOCOL
        };
        OpenRgbProtocol { protocol_id }
    }

    /// The protocol version negotiated with the server.
    pub fn get_protocol_version(&self) -> (r: u32)
        ensures
            r == self.spec_version(),
    {
        self.protocol_id
    }

    /// Rejects an operation that needs a higher protocol version than this
    /// session negotiated, before any bytes are built or sent.
    pub fn check_protocol_version(&self, min: u32, operation: &str) -> (r: Result<
        (),
        OpenRgbError,
    >)
        ensures
            self.spec_version() >= min <==> r is Ok,
            r matches Err(e) ==> unsupported_err(e, operation@, min, self.spec_version()),
    {
        if self.protocol_id < min {
            return Err(OpenRgbError::UnsupportedOperation {
                operation: operation.to_owned(),
                current_protocol_version: self.protocol_id,
                min_protocol_version: min,
            });
        }
        Ok(())
    }

    /// Encodes one value as a payload at this session's version.
    fn payload_of<T: SerToBuf>(&self, value: &T) -> (r: Result<Vec<u8>, OpenRgbError>)
        ensures
            match r {
                Ok(p) => !value.enc_err(self.spec_version()) && p@ == value.enc(
                    self.spec_version(),
                ),
                Err(e) => value.enc_err(self.spec_version()) && e is ProtocolError,
            },
    {
        let mut msg = WriteMessage::new(self.protocol_id);
        match value.serialize(&mut msg) {
            Ok(()) => {
                proof {
                    assert(msg@.bytes =~= value.enc(self.spec_version()));
                }
                Ok(msg.into_bytes())
            },
            Err(e) => Err(e),
        }
    }

    /// Validates a response header against the exchange it answers and
    /// returns the payload length to read.
    pub fn parse_response_header(
        &self,
        bytes: &[u8],
        expected_device_id: u32,
        expected_packet_id: PacketId,
    ) -> (r: Result<u32, OpenRgbError>)
        ensures
            match r {
                Ok(n) => {
                    &&& dec_header(bytes@) matches Some(h)
                        && h.device_id == expected_device_id
                        && h.packet_id == expected_packet_id
                        && n == h.packet_size
                },
                Err(_) => dec_header(bytes@) is None || (dec_header(bytes@) matches Some(h)
                    && (h.device_id != expected_device_id || h.packet_id != expected_packet_id)),
            },
    {
        let header = OpenRgbMessageHeader::parse(bytes)?;
        header.check_expected(expected_device_id, expected_packet_id)
    }

    /// Decodes one response payload at this session's version.
    pub fn parse_response<O: DeserFromBuf>(&self, payload: &[u8]) -> (r: Result<O, OpenRgbError>)
        ensures
            match r {
                Ok(v) => O::dec(payload@, self.spec_version()) matches Some(p) && v.deep_view()
                    == p.0,
                Err(_) => O::dec(payload@, self.spec_version()) is None,
            },
    {
        let mut msg = ReceivedMessage::new(payload, self.protocol_id);
        O::deserialize(&mut msg)
    }

    /// Send this client's name to the server; fire-and-forget.
    pub fn set_name_request(&self, name: &str) -> (r: RequestPacket)
        ensures
            r.device_id == 0,
            r.packet_id == PacketId::SetClientName,
            r.payload@ == (RawString(name)).enc(self.spec_version()),
    {
        let mut msg = WriteMessage::new(self.protocol_id);
        let raw = RawString(name);
        let res = raw.serialize(&mut msg);
        proof {
            assert(res is Ok);
            assert(msg@.bytes =~= (RawString(name)).enc(self.spec_version()));
        }
        RequestPacket {
            device_id: 0,
            packet_id: PacketId::SetClientName,
            payload: msg.into_bytes(),
        }
    }

    /// Ask how many controllers the server has.
    pub fn get_controller_count_request(&self) -> (r: RequestPacket)
        ensures
            r.device_id == 0,
            r.packet_id == PacketId::RequestControllerCount,
            r.payload@ == Seq::<u8>::empty(),
    {
        RequestPacket {
            device_id: 0,
            packet_id: PacketId::RequestControllerCount,
            payload: Vec::new(),
        }
    }

    /// The controller count from the response payload.
    pub fn parse_controller_count_response(&self, payload: &[u8]) -> (r: Result<u32, OpenRgbError>)
        ensures
            match r {
                Ok(v) => <u32 as DeserFromBuf>::dec(payload@, self.spec_version()) matches Some(p)
                    && p.0 == v,
                Err(_) => <u32 as DeserFromBuf>::dec(payload@, self.spec_version()) is None,
            },
    {
        let mut msg = ReceivedMessage::new(payload, self.protocol_id);
        msg.read_u32()
    }

    /// Ask for one controller's data block.
    pub fn get_controller_request(&self, controller_id: u32) -> (r: RequestPacket)
        ensures
            r.device_id == controller_id,
            r.packet_id == PacketId::RequestControllerData,
            r.payload@ == spec_u32_to_le_bytes(self.spec_version()),
    {
        let mut msg = WriteMessage::new(self.protocol_id);
        msg.write_u32(self.protocol_id);
        RequestPacket {
            device_id: controller_id,
            packet_id: PacketId::RequestControllerData,
            payload: msg.into_bytes(),
        }
    }

    /// The controller from the response payload, holding the id it was
    /// requested under.
    pub fn parse_controller_response(&self, controller_id: u32, payload: &[u8]) -> (r: Result<
        ControllerData,
        OpenRgbError,
    >)
        ensures
            match r {
                Ok(c) => {
                    &&& <ControllerData as DeserFromBuf>::dec(payload@, self.spec_version())
                        matches Some(p)
                        && c.deep_view() == (ControllerDataV { id: controller_id, ..p.0 })
                },
                Err(_) => <ControllerData as DeserFromBuf>::dec(
                    payload@,
                    self.spec_version(),
                ) is None,
            },
    {
        let mut msg = ReceivedMessage::new(payload, self.protocol_id);
        let mut c = ControllerData::deserialize(&mut msg)?;
        c.id = controller_id;
        Ok(c)
    }

    /// Resize a controller zone; fire-and-forget.
    pub fn resize_zone_request(&self, controller_id: u32, zone_id: u32, new_size: u32) -> (r:
        RequestPacket)
        ensures
            r.device_id == controller_id,
            r.packet_id == PacketId::RGBControllerResizeZone,
            r.payload@ == spec_u32_to_le_bytes(zone_id) + spec_u32_to_le_bytes(new_size),
    {
        let mut msg = WriteMessage::new(self.protocol_id);
        msg.write_u32(zone_id);
        msg.write_u32(new_size);
        RequestPacket {
            device_id: controller_id,
            packet_id: PacketId::RGBControllerResizeZone,
            payload: msg.into_bytes(),
        }
    }

    /// Update a single LED; fire-and-forget.
    pub fn update_led_request(&self, controller_id: u32, led_id: i32, color: Color) -> (r:
        RequestPacket)
        ensures
            r.device_id == controller_id,
            r.packet_id == PacketId::RGBControllerUpdateSingleLed,
            r.payload@ == led_id.enc(self.spec_version()) + color.enc(self.spec_version()),
    {
        let mut msg = WriteMessage::new(self.protocol_id);
        msg.write_u32(led_id as u32);
        msg.write_u8(color.r);
        msg.write_u8(color.g);
        msg.write_u8(color.b);
        msg.write_u8(0);
        proof {
            assert(msg@.bytes =~= led_id.enc(self.spec_version()) + color.enc(
                self.spec_version(),
            ));
        }
        RequestPacket {
            device_id: controller_id,
            packet_id: PacketId::RGBControllerUpdateSingleLed,
            payload: msg.into_bytes(),
        }
    }

    /// Update all LEDs of a controller; fire-and-forget.  The payload
    /// embeds its own length before the color list.
    pub fn update_leds_request(&self, controller_id: u32, colors: &Vec<Color>) -> (r: Result<
        RequestPacket,
        OpenRgbError,
    >)
        ensures
            match r {
                Ok(p) => {
                    &&& !(OpenRgbPacket { contents: colors }).enc_err(self.spec_version())
                    &&& p.device_id == controller_id
                    &&& p.packet_id == PacketId::RGBControllerUpdateLeds
                    &&& p.payload@ == enc_len_prefixed(colors.enc(self.spec_version()))
                },
                Err(e) => (OpenRgbPacket { contents: colors }).enc_err(self.spec_version())
                    && e is ProtocolError,
            },
    {
        let packet = OpenRgbPacket::new(colors);
        let payload = self.payload_of(&packet)?;
        Ok(RequestPacket {
            device_id: controller_id,
            packet_id: PacketId::RGBControllerUpdateLeds,
            payload,
        })
    }

    /// Update the LEDs of one zone; fire-and-forget.  The payload embeds
    /// its own length before the zone id and color list.
    pub fn update_zone_leds_request(
        &self,
        controller_id: u32,
        zone_id: u32,
        colors: &Vec<Color>,
    ) -> (r: Result<RequestPacket, OpenRgbError>)
        ensures
            match r {
                Ok(p) => {
                    &&& !(OpenRgbPacket { contents: (zone_id, colors) }).enc_err(
                        self.spec_version(),
                    )
                    &&& p.device_id == controller_id
                    &&& p.packet_id == PacketId::RGBControllerUpdateZoneLeds
                    &&& p.payload@ == enc_len_prefixed(
                        spec_u32_to_le_bytes(zone_id) + colors.enc(self.spec_version()),
                    )
                },
                Err(e) => (OpenRgbPacket { contents: (zone_id, colors) }).enc_err(
                    self.spec_version(),
                ) && e is ProtocolError,
            },
    {
        let packet = OpenRgbPacket::new((zone_id, colors));
        let payload = self.payload_of(&packet)?;
        Ok(RequestPacket {
            device_id: controller_id,
            packet_id: PacketId::RGBControllerUpdateZoneLeds,
            payload,
        })
    }

    /// Update a mode and make it current; fire-and-forget.  The payload
    /// embeds its own length before the mode index and mode data.
    pub fn update_mode_request(&self, controller_id: u32, mode: &ModeData) -> (r: Result<
        RequestPacket,
        OpenRgbError,
    >)
        ensures
            match r {
                Ok(p) => {
                    &&& !(OpenRgbPacket { contents: (mode.index, mode) }).enc_err(
                        self.spec_version(),
                    )
                    &&& p.device_id == controller_id
                    &&& p.packet_id == PacketId::RGBControllerUpdateMode
                    &&& p.payload@ == enc_len_prefixed(
                        spec_u32_to_le_bytes(mode.index) + mode.enc(self.spec_version()),
                    )
                },
                Err(e) => (OpenRgbPacket { contents: (mode.index, mode) }).enc_err(
                    self.spec_version(),
                ) && e is ProtocolError,
            },
    {
        let packet = OpenRgbPacket::new((mode.index, mode));
        let payload = self.payload_of(&packet)?;
        Ok(RequestPacket {
            device_id: controller_id,
            packet_id: PacketId::RGBControllerUpdateMode,
            payload,
        })
    }

    /// Save a mode to the device; needs protocol version 3.
    pub fn save_mode_request(&self, controller_id: u32, mode: &ModeData) -> (r: Result<
        RequestPacket,
        OpenRgbError,
    >)
        ensures
            self.spec_version() < 3 ==> (r matches Err(e) && unsupported_err(
                e,
                "Save mode"@,
                3,
                self.spec_version(),
            )),
            self.spec_version() >= 3 ==> match r {
                Ok(p) => {
                    &&& !(OpenRgbPacket { contents: (mode.index, mode) }).enc_err(
                        self.spec_version(),
                    )
                    &&& p.device_id == controller_id
                    &&& p.packet_id == PacketId::RGBControllerSaveMode
                    &&& p.payload@ == enc_len_prefixed(
                        spec_u32_to_le_bytes(mode.index) + mode.enc(self.spec_version()),
                    )
                },
                Err(e) => (OpenRgbPacket { contents: (mode.index, mode) }).enc_err(
                    self.spec_version(),
                ) && e is ProtocolError,
            },
    {
        self.check_protocol_version(3, "Save mode")?;
        let packet = OpenRgbPacket::new((mode.index, mode));
        let payload = self.payload_of(&packet)?;
        Ok(RequestPacket {
            device_id: controller_id,
            packet_id: PacketId::RGBControllerSaveMode,
            payload,
        })
    }

    /// Ask for the profile list; needs protocol version 2.
    pub fn get_profiles_request(&self) -> (r: Result<RequestPacket, OpenRgbError>)
        ensures
            self.spec_version() < 2 ==> (r matches Err(e) && unsupported_err(
                e,
                "Get profiles"@,
                2,
                self.spec_version(),
            )),
            self.spec_version() >= 2 ==> (r matches Ok(p) && p.device_id == 0 && p.packet_id
                == PacketId::RequestProfileList && p.payload@ == Seq::<u8>::empty()),
    {
        self.check_protocol_version(2, "Get profiles")?;
        Ok(RequestPacket {
            device_id: 0,
            packet_id: PacketId::RequestProfileList,
            payload: Vec::new(),
        })
    }

    /// The profile names from the response payload: a leading data size,
    /// read and dropped, then the counted list of names.
    pub fn parse_profiles_response(&self, payload: &[u8]) -> (r: Result<Vec<String>, OpenRgbError>)
        ensures
            match r {
                Ok(profiles) => {
                    &&& <u32 as DeserFromBuf>::dec(payload@, self.spec_version()) matches Some(p)
                    &&& <Vec<String> as DeserFromBuf>::dec(payload@.skip(4), self.spec_version())
                        matches Some(q)
                        && profiles.deep_view() == q.0
                },
                Err(_) => <u32 as DeserFromBuf>::dec(payload@, self.spec_version()) is None || <Vec<
                    String,
                > as DeserFromBuf>::dec(payload@.skip(4), self.spec_version()) is None,
            },
    {
        let mut msg = ReceivedMessage::new(payload, self.protocol_id);
        let _data_size = msg.read_u32()?;
        let profiles: Vec<String> = msg.read_value()?;
        Ok(profiles)
    }

    /// Load a profile; needs protocol version 2.  The name is written bare,
    /// without a length prefix.
    pub fn load_profile_request(&self, name: &str) -> (r: Result<RequestPacket, OpenRgbError>)
        ensures
            self.spec_version() < 2 ==> (r matches Err(e) && unsupported_err(
                e,
                "Load profiles"@,
                2,
                self.spec_version(),
            )),
            self.spec_version() >= 2 ==> (r matches Ok(p) && p.device_id == 0 && p.packet_id
                == PacketId::RequestLoadProfile && p.payload@ == (RawString(name)).enc(
                self.spec_version(),
            )),
    {
        self.check_protocol_version(2, "Load profiles")?;
        let payload = self.payload_of(&RawString(name))?;
        Ok(RequestPacket { device_id: 0, packet_id: PacketId::RequestLoadProfile, payload })
    }

    /// Save the current configuration as a profile; needs protocol
    /// version 2.  The name is written length-prefixed.
    pub fn save_profile_request(&self, name: &String) -> (r: Result<RequestPacket, OpenRgbError>)
        ensures
            self.spec_version() < 2 ==> (r matches Err(e) && unsupported_err(
                e,
                "Save profiles"@,
                2,
                self.spec_version(),
            )),
            self.spec_version() >= 2 ==> match r {
                Ok(p) => {
                    &&& !name.enc_err(self.spec_version())
                    &&& p.device_id == 0
                    &&& p.packet_id == PacketId::RequestSaveProfile
                    &&& p.payload@ == name.enc(self.spec_version())
                },
                Err(e) => name.enc_err(self.spec_version()) && e is ProtocolError,
            },
    {
        self.check_protocol_version(2, "Save profiles")?;
        let payload = self.payload_of(name)?;
        Ok(RequestPacket { device_id: 0, packet_id: PacketId::RequestSaveProfile, payload })
    }

    /// Delete a profile; needs protocol version 2.  The name is written
    /// length-prefixed.
    pub fn delete_profile_request(&self, name: &String) -> (r: Result<RequestPacket, OpenRgbError>)
        ensures
            self.spec_version() < 2 ==> (r matches Err(e) && unsupported_err(
                e,
                "Delete profiles"@,
                2,
                self.spec_version(),
            )),
            self.spec_version() >= 2 ==> match r {
                Ok(p) => {
                    &&& !name.enc_err(self.spec_version())
                    &&& p.device_id == 0
                    &&& p.packet_id == PacketId::RequestDeleteProfile
                    &&& p.payload@ == name.enc(self.spec_version())
                },
                Err(e) => name.enc_err(self.spec_version()) && e is ProtocolError,
            },
    {
        self.check_protocol_version(2, "Delete profiles")?;
        let payload = self.payload_of(name)?;
        Ok(RequestPacket { device_id: 0, packet_id: PacketId::RequestDeleteProfile, payload })
    }

    /// Ask for the plugin list; needs protocol version 4.
    pub fn get_plugins_request(&self) -> (r: Result<RequestPacket, OpenRgbError>)
        ensures
            self.spec_version() < 4 ==> (r matches Err(e) && unsupported_err(
                e,
                "Request Plugin List"@,
                4,
                self.spec_version(),
            )),
            self.spec_version() >= 4 ==> (r matches Ok(p) && p.device_id == 0 && p.packet_id
                == PacketId::RequestPluginList && p.payload@ == Seq::<u8>::empty()),
    {
        self.check_protocol_version(4, "Request Plugin List")?;
        Ok(RequestPacket {
            device_id: 0,
            packet_id: PacketId::RequestPluginList,
            payload: Vec::new(),
        })
    }

    /// The plugin list from the response payload: a leading data size,
    /// read and dropped, then the counted list of plugins.
    pub fn parse_plugins_response(&self, payload: &[u8]) -> (r: Result<
        Vec<PluginData>,
        OpenRgbError,
    >)
        ensures
            match r {
                Ok(plugins) => {
                    &&& <u32 as DeserFromBuf>::dec(payload@, self.spec_version()) matches Some(p)
                    &&& <Vec<PluginData> as DeserFromBuf>::dec(
                        payload@.skip(4),
                        self.spec_version(),
                    ) matches Some(q)
                        && plugins.deep_view() == q.0
                },
                Err(_) => <u32 as DeserFromBuf>::dec(payload@, self.spec_version()) is None || <Vec<
                    PluginData,
                > as DeserFromBuf>::dec(payload@.skip(4), self.spec_version()) is None,
            },
    {
        let mut msg = ReceivedMessage::new(payload, self.protocol_id);
        let _data_size = msg.read_u32()?;
        let plugins: Vec<PluginData> = msg.read_value()?;
        Ok(plugins)
    }

    /// A plugin-specific command, addressed to the plugin's id; needs
    /// protocol version 4.  What it does depends on the plugin.
    pub fn plugin_specific_request<I: SerToBuf>(&self, plugin_id: u32, data: &I) -> (r: Result<
        RequestPacket,
        OpenRgbError,
    >)
        ensures
            self.spec_version() < 4 ==> (r matches Err(e) && unsupported_err(
                e,
                "Plugin Specific Command"@,
                4,
                self.spec_version(),
            )),
            self.spec_version() >= 4 ==> match r {
                Ok(p) => {
                    &&& !data.enc_err(self.spec_version())
                    &&& p.device_id == plugin_id
                    &&& p.packet_id == PacketId::PluginSpecific
                    &&& p.payload@ == data.enc(self.spec_version())
                },
                Err(e) => data.enc_err(self.spec_version()) && e is ProtocolError,
            },
    {
        self.check_protocol_version(4, "Plugin Specific Command")?;
        let payload = self.payload_of(data)?;
        Ok(RequestPacket { device_id: plugin_id, packet_id: PacketId::PluginSpecific, payload })
    }

    /// Add a segment to a zone; needs protocol version 5 even though
    /// segment data itself appears at 4.  The payload embeds its own length
    /// before the zone id and segment.
    pub fn add_segment_request(
        &self,
        controller_id: u32,
        zone_id: u32,
        segment: &SegmentData,
    ) -> (r: Result<RequestPacket, OpenRgbError>)
        ensures
            self.spec_version() < 5 ==> (r matches Err(e) && unsupported_err(
                e,
                "Add Segment"@,
                5,
                self.spec_version(),
            )),
            self.spec_version() >= 5 ==> match r {
                Ok(p) => {
                    &&& !(OpenRgbPacket { contents: (zone_id, segment) }).enc_err(
                        self.spec_version(),
                    )
                    &&& p.device_id == controller_id
                    &&& p.packet_id == PacketId::RGBControllerAddSegment
                    &&& p.payload@ == enc_len_prefixed(
                        spec_u32_to_le_bytes(zone_id) + segment.enc(self.spec_version()),
                    )
                },
                Err(e) => (OpenRgbPacket { contents: (zone_id, segment) }).enc_err(
                    self.spec_version(),
                ) && e is ProtocolError,
            },
    {
        self.check_protocol_version(5, "Add Segment")?;
        let packet = OpenRgbPacket::new((zone_id, segment));
        let payload = self.payload_of(&packet)?;
        Ok(RequestPacket {
            device_id: controller_id,
            packet_id: PacketId::RGBControllerAddSegment,
            payload,
        })
    }

    /// Clear a zone's segments; needs protocol version 5.
    pub fn clear_segments_request(&self, controller_id: u32) -> (r: Result<
        RequestPacket,
        OpenRgbError,
    >)
        ensures
            self.spec_version() < 5 ==> (r matches Err(e) && unsupported_err(
                e,
                "Clear segment"@,
                5,
                self.spec_version(),
            )),
            self.spec_version() >= 5 ==> (r matches Ok(p) && p.device_id == controller_id
                && p.packet_id == PacketId::RgbControllerClearSegments && p.payload@ == Seq::<
                u8,
            >::empty()),
    {
        self.check_protocol_version(5, "Clear segment")?;
        Ok(RequestPacket {
            device_id: controller_id,
            packet_id: PacketId::RgbControllerClearSegments,
            payload: Vec::new(),
        })
    }

    /// Ask the server to rescan for devices; needs protocol version 5.
    pub fn rescan_devices_request(&self) -> (r: Result<RequestPacket, OpenRgbError>)
        ensures
            self.spec_version() < 5 ==> (r matches Err(e) && unsupported_err(
                e,
                "Rescan devices"@,
                5,
                self.spec_version(),
            )),
            self.spec_version() >= 5 ==> (r matches Ok(p) && p.device_id == 0 && p.packet_id
                == PacketId::RequestDeviceRescan && p.payload@ == Seq::<u8>::empty()),
    {
        self.check_protocol_version(5, "Rescan devices")?;
        Ok(RequestPacket {
            device_id: 0,
            packet_id: PacketId::RequestDeviceRescan,
            payload: Vec::new(),
        })
    }
}

} // verus!
