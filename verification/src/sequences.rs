//! Dynamic sequences on the wire: a `u16` element count followed by the
//! elements in order.  Encoding fails when the count does not fit the
//! prefix; decoding fails when the count exceeds the bytes available.

use vstd::prelude::*;
use vstd::bytes::{
    spec_u16_to_le_bytes, spec_u16_from_le_bytes, lemma_auto_spec_u16_to_from_le_bytes,
};

use crate::codec::{dec_n, DeserFromBuf, SerToBuf, WireCodec, MAX_LEN_PREFIX};
use crate::error::{OpenRgbError, ProtocolErrorKind};
use crate::message::{ReceivedMessage, WriteMessage};

verus! {

/// The concatenated encodings of the elements of `s`, in order.
pub open spec fn enc_seq<T: SerToBuf>(s: Seq<T>, ver: u32) -> Seq<u8>
    decreases s.len(),
{
    if s.len() == 0 {
        Seq::empty()
    } else {
        s[0].enc(ver) + enc_seq(s.drop_first(), ver)
    }
}

/// Concatenation distributes over [`enc_seq`].
pub proof fn lemma_enc_seq_concat<T: SerToBuf>(s1: Seq<T>, s2: Seq<T>, ver: u32)
    ensures
        enc_seq(s1 + s2, ver) == enc_seq(s1, ver) + enc_seq(s2, ver),
    decreases s1.len(),
{
    if s1.len() == 0 {
        assert(s1 + s2 =~= s2);
        assert(enc_seq(s1, ver) + enc_seq(s2, ver) =~= enc_seq(s2, ver));
    } else {
        assert((s1 + s2).drop_first() =~= s1.drop_first() + s2);
        lemma_enc_seq_concat(s1.drop_first(), s2, ver);
        assert((s1 + s2)[0] == s1[0]);
        assert(enc_seq(s1 + s2, ver) =~= enc_seq(s1, ver) + enc_seq(s2, ver));
    }
}

/// One more element extends [`enc_seq`] by that element's encoding.
pub proof fn lemma_enc_seq_snoc<T: SerToBuf>(s: Seq<T>, i: int, ver: u32)
    requires
        0 <= i < s.len(),
    ensures
        enc_seq(s.take(i + 1), ver) == enc_seq(s.take(i), ver) + s[i].enc(ver),
{
    assert(s.take(i + 1) =~= s.take(i) + seq![s[i]]);
    lemma_enc_seq_concat(s.take(i), seq![s[i]], ver);
    assert(seq![s[i]].drop_first() =~= Seq::<T>::empty());
    assert(enc_seq(Seq::<T>::empty(), ver) =~= Seq::<u8>::empty());
    assert(enc_seq(seq![s[i]], ver) =~= s[i].enc(ver));
}

/// Decoding `s.len()` values from the front of `enc_seq(s) + rest` gives
/// back exactly the elements of `s` and consumes exactly `enc_seq(s)`.
pub proof fn lemma_dec_n_enc_seq<T: WireCodec>(s: Seq<T>, ver: u32, rest: Seq<u8>)
    requires
        forall|i: int|
            0 <= i < s.len() ==> (#[trigger] s[i]).wf(ver) && !s[i].enc_err(ver),
    ensures
        dec_n::<T>(enc_seq(s, ver) + rest, ver, s.len() as nat) matches Some(q)
            && q.0 == Seq::new(s.len(), |i: int| s[i].deep_view())
            && q.1 == enc_seq(s, ver).len(),
    decreases s.len(),
{
    if s.len() == 0 {
        assert(dec_n::<T>(enc_seq(s, ver) + rest, ver, 0) == Some((Seq::<T::V>::empty(), 0int)));
        assert(Seq::new(0, |i: int| s[i].deep_view()) =~= Seq::<T::V>::empty());
    } else {
        let h = s[0];
        let t = s.drop_first();
        let total = enc_seq(s, ver) + rest;
        h.lemma_round_trip(ver, enc_seq(t, ver) + rest);
        assert(total =~= h.enc(ver) + (enc_seq(t, ver) + rest));
        let hl = h.enc(ver).len() as int;
        assert(total.skip(hl) =~= enc_seq(t, ver) + rest);
        assert(forall|i: int|
            0 <= i < t.len() ==> (#[trigger] t[i]).wf(ver) && !t[i].enc_err(ver)) by {
            assert(forall|i: int| 0 <= i < t.len() ==> t[i] == s[i + 1]);
        }
        lemma_dec_n_enc_seq(t, ver, rest);
        let q = dec_n::<T>(enc_seq(t, ver) + rest, ver, t.len() as nat).unwrap();
        assert(seq![h.deep_view()] + q.0 =~= Seq::new(s.len(), |i: int| s[i].deep_view()));
    }
}

impl<T: SerToBuf> SerToBuf for Vec<T> {
    /// A `u16` element count, then each element's encoding in order.
    open spec fn enc(&self, ver: u32) -> Seq<u8> {
        spec_u16_to_le_bytes(self@.len() as u16) + enc_seq(self@, ver)
    }

    open spec fn enc_err(&self, ver: u32) -> bool {
        self@.len() > MAX_LEN_PREFIX || exists|i: int|
            0 <= i < self@.len() && (#[trigger] self@[i]).enc_err(ver)
    }

    open spec fn wf(&self, ver: u32) -> bool {
        self@.len() <= MAX_LEN_PREFIX && forall|i: int|
            0 <= i < self@.len() ==> (#[trigger] self@[i]).wf(ver)
    }

    fn serialize(&self, buf: &mut WriteMessage) -> (r: Result<(), OpenRgbError>) {
        let ghost ver = buf@.version;
        let n = self.len();
        if n > MAX_LEN_PREFIX {
            return Err(OpenRgbError::ProtocolError(ProtocolErrorKind::Oversize));
        }
        buf.write_u16(n as u16);
        let ghost prefix = old(buf)@.bytes + spec_u16_to_le_bytes(n as u16);
        let mut i: usize = 0;
        proof {
            assert(enc_seq(self@.take(0), ver) =~= Seq::<u8>::empty());
            assert(buf@.bytes =~= prefix + enc_seq(self@.take(0), ver));
        }
        while i < n
            invariant
                i <= n,
                n == self@.len(),
                n <= MAX_LEN_PREFIX,
                ver == old(buf)@.version,
                prefix == old(buf)@.bytes + spec_u16_to_le_bytes(n as u16),
                buf@.version == ver,
                buf@.bytes == prefix + enc_seq(self@.take(i as int), ver),
                forall|j: int| 0 <= j < i ==> !(#[trigger] self@[j]).enc_err(ver),
            decreases n - i,
        {
            let elem = &self[i];
            match elem.serialize(buf) {
                Ok(()) => {
                    proof {
                        lemma_enc_seq_snoc(self@, i as int, ver);
                        assert(buf@.bytes =~= prefix + enc_seq(self@.take(i + 1), ver));
                    }
                    i = i + 1;
                },
                Err(e) => {
                    return Err(e);
                },
            }
        }
        proof {
            assert(self@.take(n as int) =~= self@);
        }
        Ok(())
    }

    fn size(&self, ver: u32) -> (r: usize) {
        proof {
            lemma_auto_spec_u16_to_from_le_bytes();
        }
        let n = self.len();
        let mut acc: usize = 2;
        let mut i: usize = 0;
        proof {
            assert(enc_seq(self@.take(0), ver) =~= Seq::<u8>::empty());
        }
        while i < n
            invariant
                i <= n,
                n == self@.len(),
                !self.enc_err(ver),
                self.enc(ver).len() <= usize::MAX,
                spec_u16_to_le_bytes(self@.len() as u16).len() == 2,
                acc == 2 + enc_seq(self@.take(i as int), ver).len(),
            decreases n - i,
        {
            proof {
                lemma_enc_seq_snoc(self@, i as int, ver);
                assert(self@.take(n as int) =~= self@);
                lemma_enc_seq_concat(self@.take(i + 1), self@.skip(i + 1), ver);
                assert(self@.take(i + 1) + self@.skip(i + 1) =~= self@);
                assert(enc_seq(self@.take(i + 1), ver).len() <= enc_seq(self@, ver).len());
            }
            let elem = &self[i];
            let es = elem.size(ver);
            acc = acc + es;
            i = i + 1;
        }
        proof {
            assert(self@.take(n as int) =~= self@);
        }
        acc
    }
}

impl<T: DeserFromBuf> DeserFromBuf for Vec<T> {
    /// A `u16` element count, then that many decoded values.
    open spec fn dec(bytes: Seq<u8>, ver: u32) -> Option<(Seq<T::V>, int)> {
        if bytes.len() < 2 {
            None
        } else {
            let count = spec_u16_from_le_bytes(bytes.take(2));
            match dec_n::<T>(bytes.skip(2), ver, count as nat) {
                Option::None => None,
                Option::Some(q) => Some((q.0, 2 + q.1)),
            }
        }
    }

    fn deserialize(buf: &mut ReceivedMessage<'_>) -> (r: Result<Self, OpenRgbError>) {
        let ghost rem0 = buf@.rem;
        let count = buf.read_u16()?;
        let values = buf.read_n_values::<T>(count as usize)?;
        proof {
            let q = dec_n::<T>(rem0.skip(2), buf@.version, count as nat).unwrap();
            assert(rem0.skip(2).skip(q.1) =~= rem0.skip(2 + q.1));
        }
        Ok(values)
    }
}

impl<T: WireCodec> WireCodec for Vec<T> {
    proof fn lemma_round_trip(&self, ver: u32, rest: Seq<u8>) {
        lemma_auto_spec_u16_to_from_le_bytes();
        let s = self@;
        let len_b = spec_u16_to_le_bytes(s.len() as u16);
        let body = enc_seq(s, ver);
        let total = self.enc(ver) + rest;
        assert(total.take(2) =~= len_b);
        assert(spec_u16_from_le_bytes(len_b) == s.len() as u16);
        assert(total.skip(2) =~= body + rest);
        lemma_dec_n_enc_seq::<T>(s, ver, rest);
        assert(self.deep_view() =~= Seq::new(s.len(), |i: int| s[i].deep_view()));
    }
}

} // verus!
