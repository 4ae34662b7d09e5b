//! Segments: named sub-ranges within a zone.  Segment data exists on the
//! wire only from protocol version 4 on; encoding or decoding one below
//! that version is a hard error, not a default.

use vstd::prelude::*;

use crate::codec::{DeserFromBuf, SerToBuf, WireCodec};
use crate::error::{OpenRgbError, ProtocolErrorKind};
use crate::message::{ReceivedMessage, WriteMessage};
use crate::strings::{enc_str, enc_str_err};

verus! {

broadcast use vstd::seq_lib::lemma_seq_skip_of_skip;

/// One segment of a zone.
#[derive(Debug, Clone, PartialEq, Eq)]
pub struct SegmentData {
    /// Segment name.
    pub name: String,
    /// Segment type.
    pub seg_type: i32,
    /// Index of the first LED of the segment within its zone.
    pub start_idx: u32,
    /// Number of LEDs in the segment.
    pub led_count: u32,
}

/// Abstract value of a [`SegmentData`].
pub struct SegmentDataV {
    /// Segment name.
    pub name: Seq<char>,
    /// Segment type.
    pub seg_type: i32,
    /// Index of the first LED of the segment within its zone.
    pub start_idx: u32,
    /// Number of LEDs in the segment.
    pub led_count: u32,
}

impl DeepView for SegmentData {
    type V = SegmentDataV;

    open spec fn deep_view(&self) -> SegmentDataV {
        SegmentDataV {
            name: self.name.deep_view(),
            seg_type: self.seg_type,
            start_idx: self.start_idx,
            led_count: self.led_count,
        }
    }
}

impl SerToBuf for SegmentData {
    /// Name, type, start index, LED count, in order.
    open spec fn enc(&self, ver: u32) -> Seq<u8> {
        enc_str(self.name@) + self.seg_type.enc(ver) + self.start_idx.enc(ver)
            + self.led_count.enc(ver)
    }

    /// Below protocol version 4 segments cannot be written at all.
    open spec fn enc_err(&self, ver: u32) -> bool {
        ver < 4 || enc_str_err(self.name@)
    }

    open spec fn wf(&self, ver: u32) -> bool {
        true
    }

    fn serialize(&self, buf: &mut WriteMessage) -> (r: Result<(), OpenRgbError>) {
        if buf.protocol_version() < 4 {
            return Err(OpenRgbError::ProtocolError(ProtocolErrorKind::SegmentsUnsupported {
                version: buf.protocol_version(),
            }));
        }
        self.name.serialize(buf)?;
        self.seg_type.serialize(buf)?;
        self.start_idx.serialize(buf)?;
        self.led_count.serialize(buf)?;
        proof {
            assert(buf@.bytes =~= old(buf)@.bytes + self.enc(old(buf)@.version));
        }
        Ok(())
    }

    fn size(&self, ver: u32) -> (r: usize) {
        proof {
            vstd::bytes::lemma_auto_spec_u32_to_from_le_bytes();
        }
        let n = self.name.size(ver);
        n + 12
    }
}

impl DeserFromBuf for SegmentData {
    /// Name, type, start index, LED count; nothing parses below protocol
    /// version 4.
    open spec fn dec(bytes: Seq<u8>, ver: u32) -> Option<(SegmentDataV, int)> {
        if ver < 4 {
            None
        } else {
            match <String as DeserFromBuf>::dec(bytes, ver) {
                Option::None => None,
                Option::Some((name, n1)) => match <i32 as DeserFromBuf>::dec(
                    bytes.skip(n1),
                    ver,
                ) {
                    Option::None => None,
                    Option::Some((seg_type, n2)) => match <u32 as DeserFromBuf>::dec(
                        bytes.skip(n1 + n2),
                        ver,
                    ) {
                        Option::None => None,
                        Option::Some((start_idx, n3)) => match <u32 as DeserFromBuf>::dec(
                            bytes.skip(n1 + n2 + n3),
                            ver,
                        ) {
                            Option::None => None,
                            Option::Some((led_count, n4)) => Some(
                                (
                                    SegmentDataV { name, seg_type, start_idx, led_count },
                                    n1 + n2 + n3 + n4,
                                ),
                            ),
                        },
                    },
                },
            }
        }
    }

    fn deserialize(buf: &mut ReceivedMessage<'_>) -> (r: Result<Self, OpenRgbError>) {
        if buf.protocol_version() < 4 {
            return Err(OpenRgbError::ProtocolError(ProtocolErrorKind::SegmentsUnsupported {
                version: buf.protocol_version(),
            }));
        }
        let name: String = buf.read_value()?;
        let seg_type: i32 = buf.read_value()?;
        let start_idx: u32 = buf.read_value()?;
        let led_count: u32 = buf.read_value()?;
        Ok(SegmentData { name, seg_type, start_idx, led_count })
    }
}

impl WireCodec for SegmentData {
    proof fn lemma_round_trip(&self, ver: u32, rest: Seq<u8>) {
        let e1 = enc_str(self.name@);
        let e2 = self.seg_type.enc(ver);
        let e3 = self.start_idx.enc(ver);
        let e4 = self.led_count.enc(ver);
        let total = self.enc(ver) + rest;
        assert(total =~= e1 + (e2 + e3 + e4 + rest));
        self.name.lemma_round_trip(ver, e2 + e3 + e4 + rest);
        assert(total.skip(e1.len() as int) =~= e2 + (e3 + e4 + rest));
        self.seg_type.lemma_round_trip(ver, e3 + e4 + rest);
        assert(total.skip(e1.len() + e2.len() as int) =~= e3 + (e4 + rest));
        self.start_idx.lemma_round_trip(ver, e4 + rest);
        assert(total.skip(e1.len() + e2.len() + e3.len() as int) =~= e4 + rest);
        self.led_count.lemma_round_trip(ver, rest);
    }
}

} // verus!
