//! Strings on the wire: a `u16` length that counts a trailing null
//! terminator, then the UTF-8 bytes, then a literal `0x00`.  Decoding reads
//! that many bytes, drops the trailing byte, and fails when the rest is not
//! valid UTF-8.  [`RawString`] writes the bytes and terminator without the
//! length prefix.

use vstd::prelude::*;
use vstd::bytes::{
    spec_u16_to_le_bytes, spec_u16_from_le_bytes, lemma_auto_spec_u16_to_from_le_bytes,
};
use vstd::string::StrSliceExecFns;
use vstd::utf8::{
    decode_utf8, encode_utf8, valid_utf8, encode_utf8_decode_utf8, encode_utf8_valid_utf8,
};

use crate::codec::{DeserFromBuf, SerToBuf, WireCodec, MAX_LEN_PREFIX};
use crate::error::{OpenRgbError, ProtocolErrorKind};
use crate::message::{ReceivedMessage, WriteMessage};

verus! {

/// Relies on `String::from_utf8`: it returns `Ok` exactly when the bytes
/// are valid UTF-8, and then yields the string those bytes encode.
#[verifier::external_body]
fn string_from_utf8(bytes: Vec<u8>) -> (r: Option<String>)
    ensures
        r is Some <==> valid_utf8(bytes@),
        r matches Some(s) ==> s@ == decode_utf8(bytes@),
{
    String::from_utf8(bytes).ok()
}

/// The wire form of a string with character sequence `s`: length prefix
/// (UTF-8 byte count plus one for the terminator), UTF-8 bytes, terminator.
pub open spec fn enc_str(s: Seq<char>) -> Seq<u8> {
    spec_u16_to_le_bytes((encode_utf8(s).len() + 1) as u16) + encode_utf8(s) + seq![0u8]
}

/// A string too long for its `u16` length prefix cannot be encoded.
pub open spec fn enc_str_err(s: Seq<char>) -> bool {
    encode_utf8(s).len() + 1 > MAX_LEN_PREFIX
}

impl SerToBuf for String {
    open spec fn enc(&self, ver: u32) -> Seq<u8> {
        enc_str(self@)
    }

    open spec fn enc_err(&self, ver: u32) -> bool {
        enc_str_err(self@)
    }

    open spec fn wf(&self, ver: u32) -> bool {
        true
    }

    fn serialize(&self, buf: &mut WriteMessage) -> (r: Result<(), OpenRgbError>) {
        let bs = self.as_str().as_bytes_vec();
        if bs.len() >= MAX_LEN_PREFIX {
            return Err(OpenRgbError::ProtocolError(ProtocolErrorKind::Oversize));
        }
        buf.write_u16((bs.len() + 1) as u16);
        buf.extend_from_slice(bs.as_slice());
        buf.write_u8(0);
        proof {
            assert(buf@.bytes =~= old(buf)@.bytes + enc_str(self@));
        }
        Ok(())
    }

    fn size(&self, ver: u32) -> (r: usize) {
        proof {
            lemma_auto_spec_u16_to_from_le_bytes();
            assert(self.enc(ver).len() == 2 + encode_utf8(self@).len() + 1);
        }
        self.as_str().len() + 3
    }
}

/// The value a string decode yields from the front of `bytes`: the length
/// prefix is read, that many bytes are taken, the trailing byte is dropped,
/// and the rest must be valid UTF-8.
impl DeserFromBuf for String {
    open spec fn dec(bytes: Seq<u8>, ver: u32) -> Option<(Seq<char>, int)> {
        if bytes.len() < 2 {
            None
        } else {
            let len = spec_u16_from_le_bytes(bytes.take(2)) as int;
            if bytes.len() < 2 + len {
                None
            } else {
                let body = if len == 0 {
                    Seq::<u8>::empty()
                } else {
                    bytes.subrange(2, 2 + len - 1)
                };
                if valid_utf8(body) {
                    Some((decode_utf8(body), 2 + len))
                } else {
                    None
                }
            }
        }
    }

    fn deserialize(buf: &mut ReceivedMessage<'_>) -> (r: Result<Self, OpenRgbError>) {
        let ghost rem0 = buf@.rem;
        let len = buf.read_u16()?;
        let mut bytes = buf.read_bytes(len as usize)?;
        if bytes.len() > 0 {
            let _ = bytes.pop();
        }
        proof {
            if len > 0 {
                assert(bytes@ =~= rem0.subrange(2, 2 + len - 1));
            } else {
                assert(bytes@ =~= Seq::<u8>::empty());
            }
            assert(rem0.skip(2).skip(len as int) =~= rem0.skip(2 + len as int));
        }
        match string_from_utf8(bytes) {
            Some(s) => Ok(s),
            None => Err(OpenRgbError::ProtocolError(ProtocolErrorKind::InvalidUtf8)),
        }
    }
}

impl WireCodec for String {
    proof fn lemma_round_trip(&self, ver: u32, rest: Seq<u8>) {
        lemma_auto_spec_u16_to_from_le_bytes();
        encode_utf8_valid_utf8(self@);
        encode_utf8_decode_utf8(self@);
        let body = encode_utf8(self@);
        let len = (body.len() + 1) as int;
        let total = self.enc(ver) + rest;
        assert(total.take(2) =~= spec_u16_to_le_bytes(len as u16));
        assert(spec_u16_from_le_bytes(spec_u16_to_le_bytes(len as u16)) == len as u16);
        assert(total.len() >= 2 + len);
        assert(total.subrange(2, 2 + len - 1) =~= body);
        if body.len() == 0 {
            assert(body =~= Seq::<u8>::empty());
        }
    }
}

/// A string written without the length prefix: the UTF-8 bytes and the
/// null terminator only.  Used where the protocol sends a bare name.
pub struct RawString<'a>(pub &'a str);

impl<'a> SerToBuf for RawString<'a> {
    open spec fn enc(&self, ver: u32) -> Seq<u8> {
        encode_utf8(self.0@) + seq![0u8]
    }

    open spec fn enc_err(&self, ver: u32) -> bool {
        false
    }

    open spec fn wf(&self, ver: u32) -> bool {
        true
    }

    fn serialize(&self, buf: &mut WriteMessage) -> (r: Result<(), OpenRgbError>) {
        let bs = self.0.as_bytes_vec();
        buf.extend_from_slice(bs.as_slice());
        buf.write_u8(0);
        proof {
            assert(buf@.bytes =~= old(buf)@.bytes + (encode_utf8(self.0@) + seq![0u8]));
        }
        Ok(())
    }

    fn size(&self, ver: u32) -> (r: usize) {
        self.0.len() + 1
    }
}

} // verus!
