//! Zones: named sub-ranges of a controller's LEDs, optionally with a 2-D
//! spatial layout.  A zone is read from controller data, never written as a
//! whole; its id is its position in the controller's list, assigned after
//! decoding.

use vstd::prelude::*;

use crate::codec::{dec_n, DeserFromBuf};
use crate::error::{OpenRgbError, ProtocolErrorKind};
use crate::message::ReceivedMessage;
use crate::protocol_option::ProtocolOption;
use crate::segment::{SegmentData, SegmentDataV};
use crate::zone_type::ZoneType;

verus! {

broadcast use vstd::seq_lib::lemma_seq_skip_of_skip;

/// The 2-D layout of a matrix zone: `height * width` LED indices in
/// row-major order, where `u32::MAX` marks a position with no LED.
#[derive(Debug, Clone, PartialEq, Eq)]
pub struct LedMatrix {
    /// Number of rows.
    pub height: u32,
    /// Number of columns.
    pub width: u32,
    /// Row-major cells; the value is the LED id at that position, or
    /// `u32::MAX` for none.
    pub cells: Vec<u32>,
}

/// Abstract value of a [`LedMatrix`].
pub struct LedMatrixV {
    /// Number of rows.
    pub height: u32,
    /// Number of columns.
    pub width: u32,
    /// Row-major cells.
    pub cells: Seq<u32>,
}

impl DeepView for LedMatrix {
    type V = LedMatrixV;

    open spec fn deep_view(&self) -> LedMatrixV {
        LedMatrixV { height: self.height, width: self.width, cells: self.cells.deep_view() }
    }
}

impl LedMatrix {
    /// A matrix is well formed when it holds exactly one cell per position.
    pub open spec fn wf(&self) -> bool {
        self.cells@.len() == self.height * self.width
    }

    /// The cell at row `row`, column `col`.
    pub fn get(&self, row: u32, col: u32) -> (r: u32)
        requires
            self.wf(),
            row < self.height,
            col < self.width,
        ensures
            r == self.cells@[row * self.width + col],
    {
        let n = self.cells.len();
        proof {
            let r = row as int;
            let w = self.width as int;
            let h = self.height as int;
            let c = col as int;
            assert(r * w + w == (r + 1) * w) by (nonlinear_arith);
            vstd::arithmetic::mul::lemma_mul_inequality(r + 1, h, w);
            assert(r * w + c < n as int);
        }
        let idx = (row as usize) * (self.width as usize) + (col as usize);
        self.cells[idx]
    }
}

/// Decoding `n` consecutive `u32` cells consumes exactly `4 * n` bytes, so
/// it cannot succeed when fewer are available.
proof fn lemma_dec_n_u32_consumed(bytes: Seq<u8>, ver: u32, n: nat)
    ensures
        dec_n::<u32>(bytes, ver, n) matches Some(p) ==> p.1 == 4 * n && 4 * n <= bytes.len(),
    decreases n,
{
    if n > 0 {
        if bytes.len() >= 4 {
            lemma_dec_n_u32_consumed(bytes.skip(4), ver, (n - 1) as nat);
        }
    }
}

/// The matrix block of a zone: a `u16` byte length (zero means no matrix),
/// then height, width, and `height * width` row-major cells.
pub open spec fn dec_matrix(bytes: Seq<u8>, ver: u32) -> Option<(Option<LedMatrixV>, int)> {
    match <u16 as DeserFromBuf>::dec(bytes, ver) {
        Option::None => None,
        Option::Some((matrix_len, n1)) => {
            if matrix_len == 0 {
                Some((None, n1))
            } else {
                match <u32 as DeserFromBuf>::dec(bytes.skip(n1), ver) {
                    Option::None => None,
                    Option::Some((height, n2)) => match <u32 as DeserFromBuf>::dec(
                        bytes.skip(n1 + n2),
                        ver,
                    ) {
                        Option::None => None,
                        Option::Some((width, n3)) => match dec_n::<u32>(
                            bytes.skip(n1 + n2 + n3),
                            ver,
                            (height * width) as nat,
                        ) {
                            Option::None => None,
                            Option::Some((cells, m)) => Some(
                                (Some(LedMatrixV { height, width, cells }), n1 + n2 + n3 + m),
                            ),
                        },
                    },
                }
            }
        },
    }
}

/// One zone of a controller.
#[derive(Debug, Clone, PartialEq, Eq)]
pub struct ZoneData {
    /// Position of this zone in its controller's list; not on the wire,
    /// assigned after decoding.
    pub id: u32,
    /// Zone name.
    pub name: String,
    /// Spatial layout kind.
    pub zone_type: ZoneType,
    /// Minimum number of LEDs the zone can hold.
    pub leds_min: u32,
    /// Maximum number of LEDs the zone can hold.
    pub leds_max: u32,
    /// Current number of LEDs in the zone.
    pub leds_count: u32,
    /// The 2-D layout, present only when the wire carried a non-zero
    /// matrix byte length.
    pub matrix: Option<LedMatrix>,
    /// Segments of the zone; carried only from protocol version 4.
    pub segments: ProtocolOption<4, Vec<SegmentData>>,
    /// Zone flags; carried only from protocol version 5.
    pub flags: ProtocolOption<5, u32>,
}

/// Abstract value of a [`ZoneData`].
pub struct ZoneDataV {
    /// Position of this zone in its controller's list.
    pub id: u32,
    /// Zone name.
    pub name: Seq<char>,
    /// Spatial layout kind.
    pub zone_type: ZoneType,
    /// Minimum number of LEDs the zone can hold.
    pub leds_min: u32,
    /// Maximum number of LEDs the zone can hold.
    pub leds_max: u32,
    /// Current number of LEDs in the zone.
    pub leds_count: u32,
    /// The 2-D layout, if any.
    pub matrix: Option<LedMatrixV>,
    /// Segments of the zone.
    pub segments: ProtocolOption<4, Seq<SegmentDataV>>,
    /// Zone flags.
    pub flags: ProtocolOption<5, u32>,
}

impl DeepView for ZoneData {
    type V = ZoneDataV;

    open spec fn deep_view(&self) -> ZoneDataV {
        ZoneDataV {
            id: self.id,
            name: self.name.deep_view(),
            zone_type: self.zone_type,
            leds_min: self.leds_min,
            leds_max: self.leds_max,
            leds_count: self.leds_count,
            matrix: self.matrix.deep_view(),
            segments: self.segments.deep_view(),
            flags: self.flags.deep_view(),
        }
    }
}

impl DeserFromBuf for ZoneData {
    /// Name, type, LED bounds and count, the matrix block, then the
    /// version-gated segments and flags; the id decodes as `u32::MAX` until
    /// its controller assigns the position.
    open spec fn dec(bytes: Seq<u8>, ver: u32) -> Option<(ZoneDataV, int)> {
        match <String as DeserFromBuf>::dec(bytes, ver) {
            Option::None => None,
            Option::Some((name, n1)) => match <ZoneType as DeserFromBuf>::dec(
                bytes.skip(n1),
                ver,
            ) {
                Option::None => None,
                Option::Some((zone_type, n2)) => match <u32 as DeserFromBuf>::dec(
                    bytes.skip(n1 + n2),
                    ver,
                ) {
                    Option::None => None,
                    Option::Some((leds_min, n3)) => match <u32 as DeserFromBuf>::dec(
                        bytes.skip(n1 + n2 + n3),
                        ver,
                    ) {
                        Option::None => None,
                        Option::Some((leds_max, n4)) => match <u32 as DeserFromBuf>::dec(
                            bytes.skip(n1 + n2 + n3 + n4),
                            ver,
                        ) {
                            Option::None => None,
                            Option::Some((leds_count, n5)) => match dec_matrix(
                                bytes.skip(n1 + n2 + n3 + n4 + n5),
                                ver,
                            ) {
                                Option::None => None,
                                Option::Some((matrix, n6)) => match <ProtocolOption<
                                    4,
                                    Vec<SegmentData>,
                                > as DeserFromBuf>::dec(
                                    bytes.skip(n1 + n2 + n3 + n4 + n5 + n6),
                                    ver,
                                ) {
                                    Option::None => None,
                                    Option::Some((segments, n7)) => match <ProtocolOption<
                                        5,
                                        u32,
                                    > as DeserFromBuf>::dec(
                                        bytes.skip(n1 + n2 + n3 + n4 + n5 + n6 + n7),
                                        ver,
                                    ) {
                                        Option::None => None,
                                        Option::Some((flags, n8)) => Some(
                                            (
                                                ZoneDataV {
                                                    id: u32::MAX,
                                                    name,
                                                    zone_type,
                                                    leds_min,
                                                    leds_max,
                                                    leds_count,
                                                    matrix,
                                                    segments,
                                                    flags,
                                                },
                                                n1 + n2 + n3 + n4 + n5 + n6 + n7 + n8,
                                            ),
                                        ),
                                    },
                                },
                            },
                        },
                    },
                },
            },
        }
    }

    #[verifier::rlimit(100)]
    #[verifier::spinoff_prover]
    fn deserialize(buf: &mut ReceivedMessage<'_>) -> (r: Result<Self, OpenRgbError>) {
        let name: String = buf.read_value()?;
        let zone_type: ZoneType = buf.read_value()?;
        let leds_min: u32 = buf.read_value()?;
        let leds_max: u32 = buf.read_value()?;
        let leds_count: u32 = buf.read_value()?;
        let ghost rem_m = buf@.rem;
        let matrix_len = buf.read_u16()?;
        let matrix: Option<LedMatrix> = if matrix_len == 0 {
            None
        } else {
            let height = buf.read_u32()?;
            let width = buf.read_u32()?;
            proof {
                vstd::arithmetic::mul::lemma_mul_upper_bound(
                    height as int,
                    0xffff_ffff,
                    width as int,
                    0xffff_ffff,
                );
            }
            let total: u64 = (height as u64) * (width as u64);
            let avail = buf.available_buf().len();
            if total > (avail as u64) {
                proof {
                    lemma_dec_n_u32_consumed(buf@.rem, buf@.version, (height * width) as nat);
                }
                return Err(OpenRgbError::ProtocolError(ProtocolErrorKind::ShortRead));
            }
            let cells: Vec<u32> = buf.read_n_values::<u32>(total as usize)?;
            Some(LedMatrix { height, width, cells })
        };
        proof {
            assert(<u16 as DeserFromBuf>::dec(rem_m, buf@.version).unwrap().0 == matrix_len);
        }
        let segments: ProtocolOption<4, Vec<SegmentData>> = buf.read_value()?;
        let flags: ProtocolOption<5, u32> = buf.read_value()?;
        Ok(ZoneData {
            id: u32::MAX,
            name,
            zone_type,
            leds_min,
            leds_max,
            leds_count,
            matrix,
            segments,
            flags,
        })
    }
}

} // verus!
