//! Message buffers: a write-side accumulating byte buffer and a read-side
//! cursor over a received byte slice.  Both carry the protocol version in
//! effect so nested values encode and decode consistently.

use vstd::prelude::*;
use vstd::bytes::{
    spec_u16_to_le_bytes, spec_u16_from_le_bytes, spec_u32_to_le_bytes, spec_u32_from_le_bytes,
    u16_to_le_bytes, u16_from_le_bytes, u32_to_le_bytes, u32_from_le_bytes,
};
use vstd::slice::slice_subrange;

use crate::error::{OpenRgbError, ProtocolErrorKind};

verus! {

/// Abstract state of a [`WriteMessage`]: the protocol version in effect and
/// the bytes written so far.
pub struct WriteMessageV {
    pub version: u32,
    pub bytes: Seq<u8>,
}

/// Growable byte accumulator for building packet payloads, tagged with the
/// protocol version in effect.
pub struct WriteMessage {
    protocol_version: u32,
    buf: Vec<u8>,
}

impl View for WriteMessage {
    type V = WriteMessageV;

    closed spec fn view(&self) -> WriteMessageV {
        WriteMessageV { version: self.protocol_version, bytes: self.buf@ }
    }
}

impl WriteMessage {
    /// Fresh empty buffer for the given protocol version.
    pub fn new(protocol_version: u32) -> (r: Self)
        ensures
            r@.version == protocol_version,
            r@.bytes.len() == 0,
    {
        Self::with_capacity(protocol_version, 8)
    }

    /// Fresh empty buffer with room reserved for `capacity` bytes.
    pub fn with_capacity(protocol_version: u32, capacity: usize) -> (r: Self)
        ensures
            r@.version == protocol_version,
            r@.bytes.len() == 0,
    {
        WriteMessage { protocol_version, buf: Vec::with_capacity(capacity) }
    }

    /// Number of bytes written so far.
    pub fn len(&self) -> (r: usize)
        ensures
            r == self@.bytes.len(),
    {
        self.buf.len()
    }

    /// The bytes written so far.
    pub fn bytes(&self) -> (r: &[u8])
        ensures
            r@ == self@.bytes,
    {
        self.buf.as_slice()
    }

    /// The protocol version this buffer encodes for.
    pub fn protocol_version(&self) -> (r: u32)
        ensures
            r == self@.version,
    {
        self.protocol_version
    }

    /// Appends one byte.
    pub fn write_u8(&mut self, value: u8)
        ensures
            final(self)@.version == old(self)@.version,
            final(self)@.bytes == old(self)@.bytes.push(value),
    {
        self.buf.push(value);
    }

    /// Appends a `u16` in little-endian order.
    pub fn write_u16(&mut self, value: u16)
        ensures
            final(self)@.version == old(self)@.version,
            final(self)@.bytes == old(self)@.bytes + spec_u16_to_le_bytes(value),
    {
        let bs = u16_to_le_bytes(value);
        self.buf.push(bs[0]);
        self.buf.push(bs[1]);
        proof {
            assert(self.buf@ =~= old(self)@.bytes + spec_u16_to_le_bytes(value));
        }
    }

    /// Appends a `u32` in little-endian order.
    pub fn write_u32(&mut self, value: u32)
        ensures
            final(self)@.version == old(self)@.version,
            final(self)@.bytes == old(self)@.bytes + spec_u32_to_le_bytes(value),
    {
        let bs = u32_to_le_bytes(value);
        self.buf.push(bs[0]);
        self.buf.push(bs[1]);
        self.buf.push(bs[2]);
        self.buf.push(bs[3]);
        proof {
            assert(self.buf@ =~= old(self)@.bytes + spec_u32_to_le_bytes(value));
        }
    }

    /// Gives up the buffer, yielding the accumulated bytes.
    pub fn into_bytes(self) -> (r: Vec<u8>)
        ensures
            r@ == self@.bytes,
    {
        self.buf
    }

    /// Appends raw bytes unchanged.
    pub fn extend_from_slice(&mut self, slice: &[u8])
        ensures
            final(self)@.version == old(self)@.version,
            final(self)@.bytes == old(self)@.bytes + slice@,
    {
        let n = slice.len();
        let mut i: usize = 0;
        while i < n
            invariant
                n == slice@.len(),
                i <= n,
                self.protocol_version == old(self)@.version,
                self.buf@ == old(self)@.bytes + slice@.take(i as int),
            decreases n - i,
        {
            let b = *vstd::slice::slice_index_get(slice, i);
            self.buf.push(b);
            proof {
                assert(self.buf@ =~= old(self)@.bytes + slice@.take(i + 1));
            }
            i = i + 1;
        }
        proof {
            assert(slice@.take(n as int) =~= slice@);
        }
    }
}

/// Abstract state of a [`ReceivedMessage`]: the protocol version in effect
/// and the bytes not yet consumed.
pub struct ReceivedMessageV {
    pub version: u32,
    pub rem: Seq<u8>,
}

/// Read-side cursor over a received byte slice, tagged with the protocol
/// version in effect.  Reading past the end is a decode error, never a panic.
pub struct ReceivedMessage<'a> {
    protocol_version: u32,
    buf: &'a [u8],
    idx: usize,
}

impl<'a> View for ReceivedMessage<'a> {
    type V = ReceivedMessageV;

    closed spec fn view(&self) -> ReceivedMessageV {
        ReceivedMessageV {
            version: self.protocol_version,
            rem: if self.idx <= self.buf@.len() {
                self.buf@.skip(self.idx as int)
            } else {
                Seq::empty()
            },
        }
    }
}

impl<'a> ReceivedMessage<'a> {
    /// Fresh cursor at the start of `buf`.
    pub fn new(buf: &'a [u8], protocol_version: u32) -> (r: Self)
        ensures
            r@.version == protocol_version,
            r@.rem == buf@,
    {
        let r = ReceivedMessage { protocol_version, buf, idx: 0 };
        proof {
            assert(buf@.skip(0) =~= buf@);
        }
        r
    }

    /// The protocol version this cursor decodes for.
    pub fn protocol_version(&self) -> (r: u32)
        ensures
            r == self@.version,
    {
        self.protocol_version
    }

    /// The bytes not yet consumed.
    pub fn available_buf(&self) -> (r: &[u8])
        ensures
            r@ == self@.rem,
    {
        if self.idx <= self.buf.len() {
            slice_subrange(self.buf, self.idx, self.buf.len())
        } else {
            slice_subrange(self.buf, self.buf.len(), self.buf.len())
        }
    }

    /// Reads one byte, or fails if none is left.
    pub fn read_u8(&mut self) -> (r: Result<u8, OpenRgbError>)
        ensures
            final(self)@.version == old(self)@.version,
            match r {
                Ok(b) => {
                    &&& old(self)@.rem.len() >= 1
                    &&& b == old(self)@.rem[0]
                    &&& final(self)@.rem == old(self)@.rem.skip(1)
                },
                Err(e) => {
                    &&& old(self)@.rem.len() == 0
                    &&& final(self)@ == old(self)@
                    &&& e == OpenRgbError::ProtocolError(ProtocolErrorKind::ShortRead)
                },
            },
    {
        if self.idx >= self.buf.len() {
            return Err(OpenRgbError::ProtocolError(ProtocolErrorKind::ShortRead));
        }
        let b = *vstd::slice::slice_index_get(self.buf, self.idx);
        self.idx = self.idx + 1;
        proof {
            assert(self.buf@.skip(self.idx as int) =~= old(self)@.rem.skip(1));
        }
        Ok(b)
    }

    /// Reads a little-endian `u16`, or fails if fewer than 2 bytes are left.
    pub fn read_u16(&mut self) -> (r: Result<u16, OpenRgbError>)
        ensures
            final(self)@.version == old(self)@.version,
            match r {
                Ok(v) => {
                    &&& old(self)@.rem.len() >= 2
                    &&& v == spec_u16_from_le_bytes(old(self)@.rem.take(2))
                    &&& final(self)@.rem == old(self)@.rem.skip(2)
                },
                Err(e) => {
                    &&& old(self)@.rem.len() < 2
                    &&& final(self)@ == old(self)@
                    &&& e == OpenRgbError::ProtocolError(ProtocolErrorKind::ShortRead)
                },
            },
    {
        if self.idx >= self.buf.len() || self.buf.len() - self.idx < 2 {
            return Err(OpenRgbError::ProtocolError(ProtocolErrorKind::ShortRead));
        }
        let sub = slice_subrange(self.buf, self.idx, self.idx + 2);
        let v = u16_from_le_bytes(sub);
        proof {
            assert(sub@ =~= old(self)@.rem.take(2));
        }
        self.idx = self.idx + 2;
        proof {
            assert(self.buf@.skip(self.idx as int) =~= old(self)@.rem.skip(2));
        }
        Ok(v)
    }

    /// Reads a little-endian `u32`, or fails if fewer than 4 bytes are left.
    pub fn read_u32(&mut self) -> (r: Result<u32, OpenRgbError>)
        ensures
            final(self)@.version == old(self)@.version,
            match r {
                Ok(v) => {
                    &&& old(self)@.rem.len() >= 4
                    &&& v == spec_u32_from_le_bytes(old(self)@.rem.take(4))
                    &&& final(self)@.rem == old(self)@.rem.skip(4)
                },
                Err(e) => {
                    &&& old(self)@.rem.len() < 4
                    &&& final(self)@ == old(self)@
                    &&& e == OpenRgbError::ProtocolError(ProtocolErrorKind::ShortRead)
                },
            },
    {
        if self.idx >= self.buf.len() || self.buf.len() - self.idx < 4 {
            return Err(OpenRgbError::ProtocolError(ProtocolErrorKind::ShortRead));
        }
        let sub = slice_subrange(self.buf, self.idx, self.idx + 4);
        let v = u32_from_le_bytes(sub);
        proof {
            assert(sub@ =~= old(self)@.rem.take(4));
        }
        self.idx = self.idx + 4;
        proof {
            assert(self.buf@.skip(self.idx as int) =~= old(self)@.rem.skip(4));
        }
        Ok(v)
    }

    /// Reads `n` raw bytes, or fails if fewer are left.
    pub fn read_bytes(&mut self, n: usize) -> (r: Result<Vec<u8>, OpenRgbError>)
        ensures
            final(self)@.version == old(self)@.version,
            match r {
                Ok(v) => {
                    &&& old(self)@.rem.len() >= n
                    &&& v@ == old(self)@.rem.take(n as int)
                    &&& final(self)@.rem == old(self)@.rem.skip(n as int)
                },
                Err(e) => {
                    &&& old(self)@.rem.len() < n
                    &&& final(self)@ == old(self)@
                    &&& e == OpenRgbError::ProtocolError(ProtocolErrorKind::ShortRead)
                },
            },
    {
        let len = self.buf.len();
        let start: usize = if self.idx <= len { self.idx } else { len };
        if len - start < n {
            return Err(OpenRgbError::ProtocolError(ProtocolErrorKind::ShortRead));
        }
        let sub = slice_subrange(self.buf, start, start + n);
        let v = vstd::slice::slice_to_vec(sub);
        proof {
            assert(sub@ =~= old(self)@.rem.take(n as int));
        }
        self.idx = start + n;
        proof {
            assert(self.buf@.skip(self.idx as int) =~= old(self)@.rem.skip(n as int));
        }
        Ok(v)
    }
}

} // verus!
