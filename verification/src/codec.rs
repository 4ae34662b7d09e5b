//! The wire codec: every encodable type states the exact byte sequence it
//! encodes to, every decodable type the exact value read from the front of a
//! byte sequence, and types that do both prove that decoding inverts
//! encoding.

use vstd::prelude::*;
use vstd::bytes::{
    spec_u16_to_le_bytes, spec_u16_from_le_bytes, spec_u32_to_le_bytes, spec_u32_from_le_bytes,
    lemma_auto_spec_u16_to_from_le_bytes, lemma_auto_spec_u32_to_from_le_bytes,
};

use crate::error::{OpenRgbError, ProtocolErrorKind};
use crate::message::{ReceivedMessage, WriteMessage};

verus! {

broadcast use vstd::seq_lib::lemma_seq_skip_of_skip;

/// Largest element count or string length that fits the `u16` length prefix.
pub const MAX_LEN_PREFIX: usize = 65535;

/// Serialize a value to a byte buffer.
///
/// `enc` is the mathematical encoding; `serialize` appends exactly those
/// bytes when it succeeds, and fails exactly on `enc_err` values (a length
/// that does not fit its prefix).  `wf` singles out the canonical values:
/// those that decoding can give back (see [`WireCodec`]).
pub trait SerToBuf {
    /// The exact bytes this value encodes to at protocol version `ver`.
    spec fn enc(&self, ver: u32) -> Seq<u8>;

    /// Whether serialization reports an error for this value at `ver`.
    spec fn enc_err(&self, ver: u32) -> bool;

    /// Whether this value is in canonical wire form at `ver`, so that it
    /// survives a round trip through the codec unchanged.
    spec fn wf(&self, ver: u32) -> bool;

    /// Appends the encoding of this value to `buf`.
    ///
    /// On error the bytes already appended are unspecified; callers discard
    /// the buffer.
    fn serialize(&self, buf: &mut WriteMessage) -> (r: Result<(), OpenRgbError>)
        ensures
            final(buf)@.version == old(buf)@.version,
            r is Ok <==> !self.enc_err(old(buf)@.version),
            r is Ok ==> final(buf)@.bytes == old(buf)@.bytes + self.enc(old(buf)@.version),
            r matches Err(e) ==> e is ProtocolError,
    ;

    /// The exact encoded byte length, computed without encoding.
    fn size(&self, ver: u32) -> (r: usize)
        requires
            !self.enc_err(ver),
            self.enc(ver).len() <= usize::MAX,
        ensures
            r == self.enc(ver).len(),
    ;
}

/// Deserialize a value from the front of a byte buffer.
///
/// `dec` is the mathematical decoder: the abstract value read from the front
/// of `bytes` together with the count of bytes consumed, or `None` when the
/// bytes do not parse.  `deserialize` agrees with it exactly, succeeding if
/// and only if `dec` does.
pub trait DeserFromBuf: DeepView + Sized {
    /// Spec-level decoder at protocol version `ver`.
    spec fn dec(bytes: Seq<u8>, ver: u32) -> Option<(Self::V, int)>;

    /// Reads one value from the cursor.
    ///
    /// On error the cursor position is unspecified; callers abort the
    /// current exchange.
    fn deserialize(buf: &mut ReceivedMessage<'_>) -> (r: Result<Self, OpenRgbError>)
        ensures
            final(buf)@.version == old(buf)@.version,
            match r {
                Ok(v) => {
                    &&& Self::dec(old(buf)@.rem, old(buf)@.version) matches Some(p)
                        && v.deep_view() == p.0
                        && 0 <= p.1 <= old(buf)@.rem.len()
                        && final(buf)@.rem == old(buf)@.rem.skip(p.1)
                },
                Err(_) => Self::dec(old(buf)@.rem, old(buf)@.version) is None,
            },
    ;
}

/// Types that both encode and decode.
///
/// The law each implementation proves: decoding an encoding, with any bytes
/// at all appended after it, yields the original value back and consumes
/// exactly the encoding.  Together with the exact `serialize`/`deserialize`
/// contracts this is the round-trip property of the codec.
pub trait WireCodec: SerToBuf + DeserFromBuf {
    /// Law: `dec(enc(v) + rest) == Some((v, enc(v).len()))` for canonical `v`.
    proof fn lemma_round_trip(&self, ver: u32, rest: Seq<u8>)
        requires
            self.wf(ver),
            !self.enc_err(ver),
        ensures
            Self::dec(self.enc(ver) + rest, ver) matches Some(p)
                && p.0 == self.deep_view()
                && p.1 == self.enc(ver).len(),
    ;
}

impl WriteMessage {
    /// Appends any encodable value, dispatching to its codec.
    pub fn write_value<T: SerToBuf>(&mut self, value: &T) -> (r: Result<(), OpenRgbError>)
        ensures
            final(self)@.version == old(self)@.version,
            r is Ok <==> !value.enc_err(old(self)@.version),
            r is Ok ==> final(self)@.bytes == old(self)@.bytes + value.enc(old(self)@.version),
            r matches Err(e) ==> e is ProtocolError,
    {
        value.serialize(self)
    }

    /// Appends any encodable value; alias of [`WriteMessage::write_value`]
    /// kept for callers that write several values in sequence.
    pub fn push_value<T: SerToBuf>(&mut self, value: &T) -> (r: Result<(), OpenRgbError>)
        ensures
            final(self)@.version == old(self)@.version,
            r is Ok <==> !value.enc_err(old(self)@.version),
            r is Ok ==> final(self)@.bytes == old(self)@.bytes + value.enc(old(self)@.version),
            r matches Err(e) ==> e is ProtocolError,
    {
        self.write_value(value)
    }
}

/// The value read by decoding `n` consecutive values of one type, with the
/// total count of bytes consumed; used where an element count was already
/// consumed separately.
pub open spec fn dec_n<T: DeserFromBuf>(bytes: Seq<u8>, ver: u32, n: nat) -> Option<
    (Seq<T::V>, int),
>
    decreases n,
{
    if n == 0 {
        Some((Seq::empty(), 0))
    } else {
        match T::dec(bytes, ver) {
            Option::None => None,
            Option::Some(p) => match dec_n::<T>(bytes.skip(p.1), ver, (n - 1) as nat) {
                Option::None => None,
                Option::Some(q) => Some((seq![p.0] + q.0, p.1 + q.1)),
            },
        }
    }
}

impl<'a> ReceivedMessage<'a> {
    /// Reads one decoded value, dispatching to its codec.
    pub fn read_value<T: DeserFromBuf>(&mut self) -> (r: Result<T, OpenRgbError>)
        ensures
            final(self)@.version == old(self)@.version,
            match r {
                Ok(v) => {
                    &&& T::dec(old(self)@.rem, old(self)@.version) matches Some(p)
                        && v.deep_view() == p.0
                        && 0 <= p.1 <= old(self)@.rem.len()
                        && final(self)@.rem == old(self)@.rem.skip(p.1)
                },
                Err(_) => T::dec(old(self)@.rem, old(self)@.version) is None,
            },
    {
        T::deserialize(self)
    }

    /// Reads the next `n` values of one type, for callers that already read
    /// a count prefix separately.
    pub fn read_n_values<T: DeserFromBuf>(&mut self, n: usize) -> (r: Result<
        Vec<T>,
        OpenRgbError,
    >)
        ensures
            final(self)@.version == old(self)@.version,
            match r {
                Ok(vs) => {
                    &&& dec_n::<T>(old(self)@.rem, old(self)@.version, n as nat) matches Some(p)
                        && vs.deep_view() == p.0
                        && 0 <= p.1 <= old(self)@.rem.len()
                        && final(self)@.rem == old(self)@.rem.skip(p.1)
                        && vs@.len() == n
                },
                Err(_) => dec_n::<T>(old(self)@.rem, old(self)@.version, n as nat) is None,
            },
    {
        let ghost ver = self@.version;
        let ghost rem0 = self@.rem;
        let mut values: Vec<T> = Vec::new();
        let ghost mut consumed: int = 0;
        let mut i: usize = 0;
        proof {
            assert(values.deep_view() =~= Seq::<T::V>::empty());
            assert(rem0.skip(0) =~= rem0);
        }
        while i < n
            invariant
                i <= n,
                ver == old(self)@.version,
                rem0 == old(self)@.rem,
                self@.version == ver,
                values.deep_view().len() == i,
                values@.len() == i,
                0 <= consumed <= rem0.len(),
                self@.rem == rem0.skip(consumed),
                dec_n::<T>(rem0, ver, n as nat) == (match dec_n::<T>(
                    self@.rem,
                    ver,
                    (n - i) as nat,
                ) {
                    Option::None => None::<(Seq<T::V>, int)>,
                    Option::Some(q) => Some((values.deep_view() + q.0, consumed + q.1)),
                }),
            decreases n - i,
        {
            let ghost rem_pre = self@.rem;
            match T::deserialize(self) {
                Ok(v) => {
                    proof {
                        let p = T::dec(rem_pre, ver).unwrap();
                        assert(rem0.skip(consumed + p.1) =~= rem_pre.skip(p.1));
                        let vdeep = v.deep_view();
                        let old_deep = values.deep_view();
                        assert forall|q0: Seq<T::V>| #[trigger] (old_deep + (seq![vdeep] + q0))
                            =~= (old_deep + seq![vdeep]) + q0 by {}
                        consumed = consumed + p.1;
                    }
                    let ghost old_values = values;
                    values.push(v);
                    proof {
                        assert(values.deep_view() =~= old_values.deep_view() + seq![
                            v.deep_view(),
                        ]);
                    }
                    i = i + 1;
                },
                Err(e) => {
                    return Err(e);
                },
            }
        }
        proof {
            assert(dec_n::<T>(self@.rem, ver, 0) == Some((Seq::<T::V>::empty(), 0int)));
            assert(values.deep_view() + Seq::<T::V>::empty() =~= values.deep_view());
        }
        Ok(values)
    }
}

impl<T: SerToBuf> SerToBuf for &T {
    open spec fn enc(&self, ver: u32) -> Seq<u8> {
        (**self).enc(ver)
    }

    open spec fn enc_err(&self, ver: u32) -> bool {
        (**self).enc_err(ver)
    }

    open spec fn wf(&self, ver: u32) -> bool {
        (**self).wf(ver)
    }

    fn serialize(&self, buf: &mut WriteMessage) -> (r: Result<(), OpenRgbError>) {
        (*self).serialize(buf)
    }

    fn size(&self, ver: u32) -> (r: usize) {
        (*self).size(ver)
    }
}

impl<A: SerToBuf, B: SerToBuf> SerToBuf for (A, B) {
    /// The two components' encodings, concatenated; a product type adds no
    /// bytes of its own.
    open spec fn enc(&self, ver: u32) -> Seq<u8> {
        self.0.enc(ver) + self.1.enc(ver)
    }

    open spec fn enc_err(&self, ver: u32) -> bool {
        self.0.enc_err(ver) || self.1.enc_err(ver)
    }

    open spec fn wf(&self, ver: u32) -> bool {
        self.0.wf(ver) && self.1.wf(ver)
    }

    fn serialize(&self, buf: &mut WriteMessage) -> (r: Result<(), OpenRgbError>) {
        self.0.serialize(buf)?;
        self.1.serialize(buf)?;
        proof {
            assert(buf@.bytes =~= old(buf)@.bytes + self.enc(old(buf)@.version));
        }
        Ok(())
    }

    fn size(&self, ver: u32) -> (r: usize) {
        let a = self.0.size(ver);
        let b = self.1.size(ver);
        a + b
    }
}


impl<A: DeserFromBuf, B: DeserFromBuf> DeserFromBuf for (A, B) {
    /// The two components decoded in order; a product type adds no bytes of
    /// its own.
    open spec fn dec(bytes: Seq<u8>, ver: u32) -> Option<((A::V, B::V), int)> {
        match A::dec(bytes, ver) {
            Option::None => None,
            Option::Some((a, n1)) => match B::dec(bytes.skip(n1), ver) {
                Option::None => None,
                Option::Some((b, n2)) => Some(((a, b), n1 + n2)),
            },
        }
    }

    fn deserialize(buf: &mut ReceivedMessage<'_>) -> (r: Result<Self, OpenRgbError>) {
        let a = A::deserialize(buf)?;
        let b = B::deserialize(buf)?;
        Ok((a, b))
    }
}

impl<A: WireCodec, B: WireCodec> WireCodec for (A, B) {
    proof fn lemma_round_trip(&self, ver: u32, rest: Seq<u8>) {
        let ea = self.0.enc(ver);
        let eb = self.1.enc(ver);
        let total = self.enc(ver) + rest;
        self.0.lemma_round_trip(ver, eb + rest);
        assert(total =~= ea + (eb + rest));
        self.1.lemma_round_trip(ver, rest);
        assert(total.skip(ea.len() as int) =~= eb + rest);
    }
}

impl<A: SerToBuf, B: SerToBuf, C: SerToBuf, D: SerToBuf> SerToBuf for (A, B, C, D) {
    /// The four components' encodings, concatenated.
    open spec fn enc(&self, ver: u32) -> Seq<u8> {
        self.0.enc(ver) + self.1.enc(ver) + self.2.enc(ver) + self.3.enc(ver)
    }

    open spec fn enc_err(&self, ver: u32) -> bool {
        self.0.enc_err(ver) || self.1.enc_err(ver) || self.2.enc_err(ver) || self.3.enc_err(ver)
    }

    open spec fn wf(&self, ver: u32) -> bool {
        self.0.wf(ver) && self.1.wf(ver) && self.2.wf(ver) && self.3.wf(ver)
    }

    fn serialize(&self, buf: &mut WriteMessage) -> (r: Result<(), OpenRgbError>) {
        self.0.serialize(buf)?;
        self.1.serialize(buf)?;
        self.2.serialize(buf)?;
        self.3.serialize(buf)?;
        proof {
            assert(buf@.bytes =~= old(buf)@.bytes + self.enc(old(buf)@.version));
        }
        Ok(())
    }

    fn size(&self, ver: u32) -> (r: usize) {
        let a = self.0.size(ver);
        let b = self.1.size(ver);
        let c = self.2.size(ver);
        let d = self.3.size(ver);
        a + b + c + d
    }
}

impl<A: DeserFromBuf, B: DeserFromBuf, C: DeserFromBuf, D: DeserFromBuf> DeserFromBuf for (
    A,
    B,
    C,
    D,
) {
    /// The four components decoded in order.
    open spec fn dec(bytes: Seq<u8>, ver: u32) -> Option<((A::V, B::V, C::V, D::V), int)> {
        match A::dec(bytes, ver) {
            Option::None => None,
            Option::Some((a, n1)) => match B::dec(bytes.skip(n1), ver) {
                Option::None => None,
                Option::Some((b, n2)) => match C::dec(bytes.skip(n1 + n2), ver) {
                    Option::None => None,
                    Option::Some((c, n3)) => match D::dec(bytes.skip(n1 + n2 + n3), ver) {
                        Option::None => None,
                        Option::Some((d, n4)) => Some(((a, b, c, d), n1 + n2 + n3 + n4)),
                    },
                },
            },
        }
    }

    fn deserialize(buf: &mut ReceivedMessage<'_>) -> (r: Result<Self, OpenRgbError>) {
        let a = A::deserialize(buf)?;
        let b = B::deserialize(buf)?;
        let c = C::deserialize(buf)?;
        let d = D::deserialize(buf)?;
        Ok((a, b, c, d))
    }
}

impl<A: WireCodec, B: WireCodec, C: WireCodec, D: WireCodec> WireCodec for (A, B, C, D) {
    proof fn lemma_round_trip(&self, ver: u32, rest: Seq<u8>) {
        let e1 = self.0.enc(ver);
        let e2 = self.1.enc(ver);
        let e3 = self.2.enc(ver);
        let e4 = self.3.enc(ver);
        let total = self.enc(ver) + rest;
        assert(total =~= e1 + (e2 + e3 + e4 + rest));
        self.0.lemma_round_trip(ver, e2 + e3 + e4 + rest);
        assert(total.skip(e1.len() as int) =~= e2 + (e3 + e4 + rest));
        self.1.lemma_round_trip(ver, e3 + e4 + rest);
        assert(total.skip(e1.len() + e2.len() as int) =~= e3 + (e4 + rest));
        self.2.lemma_round_trip(ver, e4 + rest);
        assert(total.skip(e1.len() + e2.len() + e3.len() as int) =~= e4 + rest);
        self.3.lemma_round_trip(ver, rest);
    }
}

impl SerToBuf for u8 {
    open spec fn enc(&self, ver: u32) -> Seq<u8> {
        seq![*self]
    }

    open spec fn enc_err(&self, ver: u32) -> bool {
        false
    }

    open spec fn wf(&self, ver: u32) -> bool {
        true
    }

    fn serialize(&self, buf: &mut WriteMessage) -> (r: Result<(), OpenRgbError>) {
        buf.write_u8(*self);
        proof {
            assert(buf@.bytes =~= old(buf)@.bytes + seq![*self]);
        }
        Ok(())
    }

    fn size(&self, ver: u32) -> (r: usize) {
        1
    }
}

impl DeserFromBuf for u8 {
    open spec fn dec(bytes: Seq<u8>, ver: u32) -> Option<(u8, int)> {
        if bytes.len() >= 1 {
            Some((bytes[0], 1int))
        } else {
            None
        }
    }

    fn deserialize(buf: &mut ReceivedMessage<'_>) -> (r: Result<Self, OpenRgbError>) {
        buf.read_u8()
    }
}

impl WireCodec for u8 {
    proof fn lemma_round_trip(&self, ver: u32, rest: Seq<u8>) {
        assert((self.enc(ver) + rest)[0] == *self);
    }
}

impl SerToBuf for u16 {
    open spec fn enc(&self, ver: u32) -> Seq<u8> {
        spec_u16_to_le_bytes(*self)
    }

    open spec fn enc_err(&self, ver: u32) -> bool {
        false
    }

    open spec fn wf(&self, ver: u32) -> bool {
        true
    }

    fn serialize(&self, buf: &mut WriteMessage) -> (r: Result<(), OpenRgbError>) {
        buf.write_u16(*self);
        Ok(())
    }

    fn size(&self, ver: u32) -> (r: usize) {
        proof {
            lemma_auto_spec_u16_to_from_le_bytes();
        }
        2
    }
}

impl DeserFromBuf for u16 {
    open spec fn dec(bytes: Seq<u8>, ver: u32) -> Option<(u16, int)> {
        if bytes.len() >= 2 {
            Some((spec_u16_from_le_bytes(bytes.take(2)), 2int))
        } else {
            None
        }
    }

    fn deserialize(buf: &mut ReceivedMessage<'_>) -> (r: Result<Self, OpenRgbError>) {
        buf.read_u16()
    }
}

impl WireCodec for u16 {
    proof fn lemma_round_trip(&self, ver: u32, rest: Seq<u8>) {
        lemma_auto_spec_u16_to_from_le_bytes();
        assert((self.enc(ver) + rest).take(2) =~= self.enc(ver));
    }
}

impl SerToBuf for u32 {
    open spec fn enc(&self, ver: u32) -> Seq<u8> {
        spec_u32_to_le_bytes(*self)
    }

    open spec fn enc_err(&self, ver: u32) -> bool {
        false
    }

    open spec fn wf(&self, ver: u32) -> bool {
        true
    }

    fn serialize(&self, buf: &mut WriteMessage) -> (r: Result<(), OpenRgbError>) {
        buf.write_u32(*self);
        Ok(())
    }

    fn size(&self, ver: u32) -> (r: usize) {
        proof {
            lemma_auto_spec_u32_to_from_le_bytes();
        }
        4
    }
}

impl DeserFromBuf for u32 {
    open spec fn dec(bytes: Seq<u8>, ver: u32) -> Option<(u32, int)> {
        if bytes.len() >= 4 {
            Some((spec_u32_from_le_bytes(bytes.take(4)), 4int))
        } else {
            None
        }
    }

    fn deserialize(buf: &mut ReceivedMessage<'_>) -> (r: Result<Self, OpenRgbError>) {
        buf.read_u32()
    }
}

impl WireCodec for u32 {
    proof fn lemma_round_trip(&self, ver: u32, rest: Seq<u8>) {
        lemma_auto_spec_u32_to_from_le_bytes();
        assert((self.enc(ver) + rest).take(4) =~= self.enc(ver));
    }
}

impl SerToBuf for i32 {
    open spec fn enc(&self, ver: u32) -> Seq<u8> {
        spec_u32_to_le_bytes(*self as u32)
    }

    open spec fn enc_err(&self, ver: u32) -> bool {
        false
    }

    open spec fn wf(&self, ver: u32) -> bool {
        true
    }

    fn serialize(&self, buf: &mut WriteMessage) -> (r: Result<(), OpenRgbError>) {
        buf.write_u32(*self as u32);
        Ok(())
    }

    fn size(&self, ver: u32) -> (r: usize) {
        proof {
            lemma_auto_spec_u32_to_from_le_bytes();
        }
        4
    }
}

impl DeserFromBuf for i32 {
    open spec fn dec(bytes: Seq<u8>, ver: u32) -> Option<(i32, int)> {
        if bytes.len() >= 4 {
            Some((spec_u32_from_le_bytes(bytes.take(4)) as i32, 4int))
        } else {
            None
        }
    }

    fn deserialize(buf: &mut ReceivedMessage<'_>) -> (r: Result<Self, OpenRgbError>) {
        let x = buf.read_u32()?;
        Ok(x as i32)
    }
}

impl WireCodec for i32 {
    proof fn lemma_round_trip(&self, ver: u32, rest: Seq<u8>) {
        lemma_auto_spec_u32_to_from_le_bytes();
        assert((self.enc(ver) + rest).take(4) =~= self.enc(ver));
        let x = *self;
        assert((x as u32) as i32 == x) by (bit_vector);
    }
}

impl SerToBuf for () {
    open spec fn enc(&self, ver: u32) -> Seq<u8> {
        Seq::empty()
    }

    open spec fn enc_err(&self, ver: u32) -> bool {
        false
    }

    open spec fn wf(&self, ver: u32) -> bool {
        true
    }

    fn serialize(&self, buf: &mut WriteMessage) -> (r: Result<(), OpenRgbError>) {
        proof {
            assert(buf@.bytes =~= buf@.bytes + Seq::<u8>::empty());
        }
        Ok(())
    }

    fn size(&self, ver: u32) -> (r: usize) {
        0
    }
}

impl DeserFromBuf for () {
    open spec fn dec(bytes: Seq<u8>, ver: u32) -> Option<((), int)> {
        Some(((), 0int))
    }

    fn deserialize(buf: &mut ReceivedMessage<'_>) -> (r: Result<Self, OpenRgbError>) {
        proof {
            assert(buf@.rem.skip(0) =~= buf@.rem);
        }
        Ok(())
    }
}

impl WireCodec for () {
    proof fn lemma_round_trip(&self, ver: u32, rest: Seq<u8>) {
    }
}

impl DeserFromBuf for [u8; 3] {
    /// Three raw bytes; fixed-size arrays read no count prefix.
    open spec fn dec(bytes: Seq<u8>, ver: u32) -> Option<(Seq<u8>, int)> {
        if bytes.len() >= 3 {
            Some((bytes.take(3), 3int))
        } else {
            None
        }
    }

    fn deserialize(buf: &mut ReceivedMessage<'_>) -> (r: Result<Self, OpenRgbError>) {
        let ghost rem0 = buf@.rem;
        let b0 = buf.read_u8()?;
        let b1 = buf.read_u8()?;
        let b2 = buf.read_u8()?;
        let arr = [b0, b1, b2];
        proof {
            assert(rem0.skip(1)[0] == rem0[1]);
            assert(rem0.skip(1).skip(1)[0] == rem0[2]);
            assert(rem0.skip(1).skip(1).skip(1) =~= rem0.skip(3));
            assert(arr.deep_view() =~= rem0.take(3));
        }
        Ok(arr)
    }
}

impl DeserFromBuf for [u8; 4] {
    /// Four raw bytes; fixed-size arrays read no count prefix.
    open spec fn dec(bytes: Seq<u8>, ver: u32) -> Option<(Seq<u8>, int)> {
        if bytes.len() >= 4 {
            Some((bytes.take(4), 4int))
        } else {
            None
        }
    }

    fn deserialize(buf: &mut ReceivedMessage<'_>) -> (r: Result<Self, OpenRgbError>) {
        let ghost rem0 = buf@.rem;
        let b0 = buf.read_u8()?;
        let b1 = buf.read_u8()?;
        let b2 = buf.read_u8()?;
        let b3 = buf.read_u8()?;
        let arr = [b0, b1, b2, b3];
        proof {
            assert(rem0.skip(1)[0] == rem0[1]);
            assert(rem0.skip(1).skip(1)[0] == rem0[2]);
            assert(rem0.skip(1).skip(1).skip(1)[0] == rem0[3]);
            assert(rem0.skip(1).skip(1).skip(1).skip(1) =~= rem0.skip(4));
            assert(arr.deep_view() =~= rem0.take(4));
        }
        Ok(arr)
    }
}

impl SerToBuf for usize {
    /// Sizes travel as `u32`; a value beyond that range cannot be encoded.
    open spec fn enc(&self, ver: u32) -> Seq<u8> {
        spec_u32_to_le_bytes(*self as u32)
    }

    open spec fn enc_err(&self, ver: u32) -> bool {
        *self > u32::MAX
    }

    open spec fn wf(&self, ver: u32) -> bool {
        *self <= u32::MAX
    }

    fn serialize(&self, buf: &mut WriteMessage) -> (r: Result<(), OpenRgbError>) {
        if (*self as u64) > (u32::MAX as u64) {
            return Err(OpenRgbError::ProtocolError(ProtocolErrorKind::Oversize));
        }
        buf.write_u32(*self as u32);
        Ok(())
    }

    fn size(&self, ver: u32) -> (r: usize) {
        proof {
            lemma_auto_spec_u32_to_from_le_bytes();
        }
        4
    }
}

impl DeserFromBuf for usize {
    open spec fn dec(bytes: Seq<u8>, ver: u32) -> Option<(usize, int)> {
        if bytes.len() >= 4 {
            Some((spec_u32_from_le_bytes(bytes.take(4)) as usize, 4int))
        } else {
            None
        }
    }

    fn deserialize(buf: &mut ReceivedMessage<'_>) -> (r: Result<Self, OpenRgbError>) {
        let x = buf.read_u32()?;
        Ok(x as usize)
    }
}

impl WireCodec for usize {
    proof fn lemma_round_trip(&self, ver: u32, rest: Seq<u8>) {
        lemma_auto_spec_u32_to_from_le_bytes();
        assert((self.enc(ver) + rest).take(4) =~= self.enc(ver));
    }
}

} // verus!
