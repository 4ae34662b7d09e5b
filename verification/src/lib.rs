//! Client-side core of the OpenRGB network protocol: a length-framed,
//! versioned binary TCP protocol for discovering and controlling RGB-lighting
//! hardware.
//!
//! The crate covers the wire codec (fixed-width integers, length-prefixed
//! strings, counted sequences, bit-flag sets), packet framing (the fixed
//! 16-byte `ORGB` header plus the embedded-length helper), protocol-version
//! negotiation and gating, and the domain data model (controllers, zones,
//! segments, modes, LEDs, colors).  Transport I/O is left to the caller:
//! every operation is expressed as "build these request bytes" and "parse
//! this response payload".

use vstd::prelude::*;

mod codec;
mod color;
mod color_mode;
mod controller;
mod device_type;
mod direction;
mod error;
mod led;
mod message;
mod mode;
mod mode_flag;
mod packet;
mod packet_id;
mod plugin;
mod protocol_option;
mod segment;
mod sequences;
mod session;
mod strings;
mod zone;
mod zone_type;

pub use codec::dec_n;
pub use codec::DeserFromBuf;
pub use codec::SerToBuf;
pub use codec::WireCodec;
pub use color::Color;
pub use color_mode::color_mode_from;
pub use color_mode::color_mode_value;
pub use color_mode::ColorMode;
pub use controller::dec_controller_head;
pub use controller::with_mode_indices;
pub use controller::with_zone_ids;
pub use controller::ControllerData;
pub use controller::ControllerDataV;
pub use device_type::device_type_from;
pub use device_type::device_type_value;
pub use device_type::DeviceType;
pub use direction::direction_from;
pub use direction::direction_value;
pub use direction::Direction;
pub use error::OpenRgbError;
pub use error::ProtocolErrorKind;
pub use led::Led;
pub use led::LedV;
pub use message::ReceivedMessage;
pub use message::ReceivedMessageV;
pub use message::WriteMessage;
pub use message::WriteMessageV;
pub use mode::ModeData;
pub use mode::ModeDataV;
pub use mode_flag::mode_flag_bits;
pub use mode_flag::ModeFlag;
pub use mode_flag::ModeFlags;
pub use mode_flag::MODE_FLAG_MASK;
pub use packet::dec_header;
pub use packet::enc_header;
pub use packet::enc_len_prefixed;
pub use packet::lemma_header_round_trip;
pub use packet::spec_magic;
pub use packet::OpenRgbMessageHeader;
pub use packet::OpenRgbPacket;
pub use packet_id::packet_id_from;
pub use packet_id::packet_id_value;
pub use packet_id::PacketId;
pub use plugin::PluginData;
pub use plugin::PluginDataV;
pub use protocol_option::lemma_version_gating;
pub use protocol_option::version_supported;
pub use protocol_option::ProtocolOption;
pub use segment::SegmentData;
pub use segment::SegmentDataV;
pub use sequences::enc_seq;
pub use sequences::lemma_dec_n_enc_seq;
pub use sequences::lemma_enc_seq_concat;
pub use sequences::lemma_enc_seq_snoc;
pub use session::negotiated_version;
pub use session::unsupported_err;
pub use session::OpenRgbProtocol;
pub use session::RequestPacket;
pub use strings::enc_str;
pub use strings::enc_str_err;
pub use strings::RawString;
pub use zone::dec_matrix;
pub use zone::LedMatrix;
pub use zone::LedMatrixV;
pub use zone::ZoneData;
pub use zone::ZoneDataV;
pub use zone_type::zone_type_from;
pub use zone_type::zone_type_value;
pub use zone_type::ZoneType;

verus! {

/// Highest protocol version this implementation speaks; the negotiated
/// session version is the minimum of this and the server's advertised one.
pub const DEFAULT_PROTOCOL: u32 = 5;

/// Result alias used throughout the crate.
pub type OpenRgbResult<T> = Result<T, OpenRgbError>;

} // verus!
