//! Packet framing: the fixed 16-byte header (`ORGB` magic, device id,
//! packet-type id, payload length) and the embedded-length helper for
//! payloads that carry their own size before their body.

use vstd::prelude::*;
use vstd::bytes::{
    spec_u32_to_le_bytes, spec_u32_from_le_bytes, lemma_auto_spec_u32_to_from_le_bytes,
};

use crate::codec::SerToBuf;
use crate::error::{OpenRgbError, ProtocolErrorKind};
use crate::message::{ReceivedMessage, WriteMessage};
use crate::packet_id::{packet_id_from, packet_id_value, PacketId};

verus! {

/// The 4 magic bytes `ORGB` that open every packet header.
pub open spec fn spec_magic() -> Seq<u8> {
    seq![0x4fu8, 0x52u8, 0x47u8, 0x42u8]
}

/// The 16 header bytes: magic, device id, packet-type id, payload length,
/// each number little-endian.
pub open spec fn enc_header(device_id: u32, packet_id: PacketId, packet_size: u32) -> Seq<u8> {
    spec_magic() + spec_u32_to_le_bytes(device_id) + spec_u32_to_le_bytes(
        packet_id_value(packet_id),
    ) + spec_u32_to_le_bytes(packet_size)
}

/// The header read from the front of `bytes`: 16 bytes opening with the
/// magic and naming a known packet type, or nothing.
pub open spec fn dec_header(bytes: Seq<u8>) -> Option<OpenRgbMessageHeader> {
    if bytes.len() < 16 {
        None
    } else if bytes.take(4) != spec_magic() {
        None
    } else {
        match packet_id_from(spec_u32_from_le_bytes(bytes.subrange(8, 12))) {
            Option::Some(packet_id) => Some(
                OpenRgbMessageHeader {
                    device_id: spec_u32_from_le_bytes(bytes.subrange(4, 8)),
                    packet_id,
                    packet_size: spec_u32_from_le_bytes(bytes.subrange(12, 16)),
                },
            ),
            Option::None => None,
        }
    }
}

/// A packet header: who the packet addresses, what it carries, and how
/// long the payload that follows it is.
#[derive(Debug, Clone, Copy, PartialEq, Eq, Structural)]
pub struct OpenRgbMessageHeader {
    /// Device (controller) id; 0 when no specific device is addressed.
    pub device_id: u32,
    /// Packet type.
    pub packet_id: PacketId,
    /// Payload length in bytes, not counting the header itself.
    pub packet_size: u32,
}

impl OpenRgbMessageHeader {
    /// The exact 16 header bytes.
    pub fn to_bytes(&self) -> (r: Vec<u8>)
        ensures
            r@ == enc_header(self.device_id, self.packet_id, self.packet_size),
            r@.len() == 16,
    {
        proof {
            lemma_auto_spec_u32_to_from_le_bytes();
        }
        let mut msg = WriteMessage::with_capacity(0, 16);
        msg.write_u8(0x4f);
        msg.write_u8(0x52);
        msg.write_u8(0x47);
        msg.write_u8(0x42);
        msg.write_u32(self.device_id);
        msg.write_u32(self.packet_id.to_u32());
        msg.write_u32(self.packet_size);
        let r = msg.into_bytes();
        proof {
            assert(r@ =~= enc_header(self.device_id, self.packet_id, self.packet_size));
        }
        r
    }

    /// Parses the 16-byte header from the front of `bytes`, validating the
    /// magic and the packet-type id.
    pub fn parse(bytes: &[u8]) -> (r: Result<Self, OpenRgbError>)
        ensures
            match r {
                Ok(h) => dec_header(bytes@) == Some(h),
                Err(_) => dec_header(bytes@) is None,
            },
            bytes@.len() < 16 ==> r == Err::<Self, _>(
                OpenRgbError::ProtocolError(ProtocolErrorKind::ShortRead),
            ),
            bytes@.len() >= 16 && bytes@.take(4) != spec_magic() ==> r == Err::<Self, _>(
                OpenRgbError::ProtocolError(ProtocolErrorKind::BadMagic),
            ),
            (bytes@.len() >= 16 && bytes@.take(4) == spec_magic() && packet_id_from(
                spec_u32_from_le_bytes(bytes@.subrange(8, 12)),
            ) is None) ==> r == Err::<Self, _>(
                OpenRgbError::ProtocolError(
                    ProtocolErrorKind::UnknownPacketId {
                        value: spec_u32_from_le_bytes(bytes@.subrange(8, 12)),
                    },
                ),
            ),
    {
        let mut msg = ReceivedMessage::new(bytes, 0);
        if bytes.len() < 16 {
            return Err(OpenRgbError::ProtocolError(ProtocolErrorKind::ShortRead));
        }
        let m0 = match msg.read_u8() {
            Ok(b) => b,
            Err(e) => {
                return Err(e);
            },
        };
        let m1 = match msg.read_u8() {
            Ok(b) => b,
            Err(e) => {
                return Err(e);
            },
        };
        let m2 = match msg.read_u8() {
            Ok(b) => b,
            Err(e) => {
                return Err(e);
            },
        };
        let m3 = match msg.read_u8() {
            Ok(b) => b,
            Err(e) => {
                return Err(e);
            },
        };
        if !(m0 == 0x4f && m1 == 0x52 && m2 == 0x47 && m3 == 0x42) {
            proof {
                assert(bytes@.take(4) != spec_magic());
            }
            return Err(OpenRgbError::ProtocolError(ProtocolErrorKind::BadMagic));
        }
        proof {
            assert(bytes@.take(4) =~= spec_magic());
            assert(bytes@.skip(1).skip(1).skip(1).skip(1).take(4) =~= bytes@.subrange(4, 8));
            assert(bytes@.skip(1).skip(1).skip(1).skip(1).skip(4).take(4) =~= bytes@.subrange(
                8,
                12,
            ));
            assert(bytes@.skip(1).skip(1).skip(1).skip(1).skip(4).skip(4).take(4)
                =~= bytes@.subrange(12, 16));
        }
        let device_id = match msg.read_u32() {
            Ok(v) => v,
            Err(e) => {
                return Err(e);
            },
        };
        let raw_packet_id = match msg.read_u32() {
            Ok(v) => v,
            Err(e) => {
                return Err(e);
            },
        };
        let packet_id = match PacketId::from_u32(raw_packet_id) {
            Some(p) => p,
            None => {
                return Err(OpenRgbError::ProtocolError(ProtocolErrorKind::UnknownPacketId {
                    value: raw_packet_id,
                }));
            },
        };
        let packet_size = match msg.read_u32() {
            Ok(v) => v,
            Err(e) => {
                return Err(e);
            },
        };
        Ok(OpenRgbMessageHeader { device_id, packet_id, packet_size })
    }

    /// Validates this header against the exchange it answers: the packet
    /// type is checked first, then the device id; on success the payload
    /// length is returned.
    pub fn check_expected(&self, expected_device_id: u32, expected_packet_id: PacketId) -> (r:
        Result<u32, OpenRgbError>)
        ensures
            match r {
                Ok(n) => {
                    &&& self.packet_id == expected_packet_id
                    &&& self.device_id == expected_device_id
                    &&& n == self.packet_size
                },
                Err(e) => {
                    &&& (self.packet_id != expected_packet_id || self.device_id
                        != expected_device_id)
                    &&& (self.packet_id != expected_packet_id ==> e == OpenRgbError::ProtocolError(
                        ProtocolErrorKind::UnexpectedPacketId {
                            expected: packet_id_value(expected_packet_id),
                            got: packet_id_value(self.packet_id),
                        },
                    ))
                    &&& (self.packet_id == expected_packet_id && self.device_id
                        != expected_device_id ==> e == OpenRgbError::ProtocolError(
                        ProtocolErrorKind::UnexpectedDeviceId {
                            expected: expected_device_id,
                            got: self.device_id,
                        },
                    ))
                },
            },
    {
        if self.packet_id.to_u32() != expected_packet_id.to_u32() {
            proof {
                assert(packet_id_value(self.packet_id) == packet_id_value(expected_packet_id)
                    ==> self.packet_id == expected_packet_id);
            }
            return Err(OpenRgbError::ProtocolError(ProtocolErrorKind::UnexpectedPacketId {
                expected: expected_packet_id.to_u32(),
                got: self.packet_id.to_u32(),
            }));
        }
        if self.device_id != expected_device_id {
            return Err(OpenRgbError::ProtocolError(ProtocolErrorKind::UnexpectedDeviceId {
                expected: expected_device_id,
                got: self.device_id,
            }));
        }
        Ok(self.packet_size)
    }
}

/// Law: a header's 16 encoded bytes, with any payload appended, parse back
/// to exactly that header.
pub proof fn lemma_header_round_trip(h: OpenRgbMessageHeader, rest: Seq<u8>)
    ensures
        dec_header(enc_header(h.device_id, h.packet_id, h.packet_size) + rest) == Some(h),
{
    lemma_auto_spec_u32_to_from_le_bytes();
    let e = enc_header(h.device_id, h.packet_id, h.packet_size);
    let total = e + rest;
    assert(total.take(4) =~= spec_magic());
    assert(total.subrange(4, 8) =~= spec_u32_to_le_bytes(h.device_id));
    assert(total.subrange(8, 12) =~= spec_u32_to_le_bytes(packet_id_value(h.packet_id)));
    assert(total.subrange(12, 16) =~= spec_u32_to_le_bytes(h.packet_size));
    assert(packet_id_from(packet_id_value(h.packet_id)) == Some(h.packet_id));
}

/// The embedded-length form some payloads need: a `u32` equal to the inner
/// byte count plus 4 (the length field counts itself), then the inner bytes.
pub open spec fn enc_len_prefixed(inner: Seq<u8>) -> Seq<u8> {
    spec_u32_to_le_bytes((inner.len() + 4) as u32) + inner
}

/// Wraps an encodable value so that its serialized form is prefixed by its
/// own byte length plus 4; required by operations whose payload embeds a
/// redundant size field.
pub struct OpenRgbPacket<T: SerToBuf> {
    /// The wrapped value.
    pub contents: T,
}

impl<T: SerToBuf> OpenRgbPacket<T> {
    /// Wraps `contents`.
    pub fn new(contents: T) -> (r: OpenRgbPacket<T>)
        ensures
            r.contents == contents,
    {
        OpenRgbPacket { contents }
    }
}

impl<T: SerToBuf> SerToBuf for OpenRgbPacket<T> {
    open spec fn enc(&self, ver: u32) -> Seq<u8> {
        enc_len_prefixed(self.contents.enc(ver))
    }

    open spec fn enc_err(&self, ver: u32) -> bool {
        self.contents.enc_err(ver) || self.contents.enc(ver).len() + 4 > u32::MAX
    }

    open spec fn wf(&self, ver: u32) -> bool {
        self.contents.wf(ver)
    }

    fn serialize(&self, buf: &mut WriteMessage) -> (r: Result<(), OpenRgbError>) {
        let mut inner = WriteMessage::new(buf.protocol_version());
        self.contents.serialize(&mut inner)?;
        let n = inner.len();
        if (n as u64) > 0xffff_fffbu64 {
            return Err(OpenRgbError::ProtocolError(ProtocolErrorKind::Oversize));
        }
        buf.write_u32((n as u32) + 4);
        buf.extend_from_slice(inner.bytes());
        proof {
            assert(buf@.bytes =~= old(buf)@.bytes + self.enc(old(buf)@.version));
        }
        Ok(())
    }

    fn size(&self, ver: u32) -> (r: usize) {
        proof {
            lemma_auto_spec_u32_to_from_le_bytes();
        }
        4 + self.contents.size(ver)
    }
}

} // verus!
