//! The version-gated field wrapper: a value that only exists on the wire
//! from protocol version `VER` on.  Below that version it encodes to zero
//! bytes and decodes to an explicit unsupported marker; from it on, the
//! wrapper behaves exactly as the wrapped type.

use vstd::prelude::*;

use crate::codec::{DeserFromBuf, SerToBuf, WireCodec};
use crate::error::OpenRgbError;
use crate::message::{ReceivedMessage, WriteMessage};

verus! {

/// Whether protocol version `ver` is at or above the minimum `min_version`.
pub open spec fn version_supported(ver: u32, min_version: usize) -> bool {
    min_version as int <= ver as int
}

/// A value of type `T` that the wire carries only from protocol version
/// `VER` on.
///
/// Distinguishing "absent because the server predates the field" from a
/// plain optional keeps struct shapes identical across protocol revisions.
#[derive(Debug, Clone, PartialEq, Eq)]
pub enum ProtocolOption<const VER: usize, T> {
    /// The value, supported at the version in effect.
    Present(T),
    /// The version in effect predates this field.
    UnsupportedVersion,
}

impl<const VER: usize, T: DeepView> DeepView for ProtocolOption<VER, T> {
    type V = ProtocolOption<VER, T::V>;

    open spec fn deep_view(&self) -> ProtocolOption<VER, T::V> {
        match self {
            ProtocolOption::Present(v) => ProtocolOption::Present(v.deep_view()),
            ProtocolOption::UnsupportedVersion => ProtocolOption::UnsupportedVersion,
        }
    }
}

impl<const VER: usize, T> ProtocolOption<VER, T> {
    /// Wraps `val`, or marks it unsupported when `version` is below `VER`.
    pub fn new(val: T, version: usize) -> (r: Self)
        ensures
            version < VER ==> r is UnsupportedVersion,
            version >= VER ==> (r matches ProtocolOption::Present(v) && v == val),
    {
        if version < VER {
            return ProtocolOption::UnsupportedVersion;
        }
        ProtocolOption::Present(val)
    }

    /// Wraps `val` unconditionally.
    pub fn some(val: T) -> (r: Self)
        ensures
            r matches ProtocolOption::Present(v) && v == val,
    {
        ProtocolOption::Present(val)
    }

    /// Replaces a present value; an unsupported marker stays as it is.
    pub fn replace(&mut self, val: T)
        ensures
            *old(self) is Present ==> (*final(self) matches ProtocolOption::Present(v) && v
                == val),
            *old(self) is UnsupportedVersion ==> *final(self) == *old(self),
    {
        match self {
            ProtocolOption::Present(_) => {
                *self = ProtocolOption::Present(val);
            },
            ProtocolOption::UnsupportedVersion => (),
        }
    }

    /// The wrapped value, or `None` for an unsupported marker.
    pub fn value(&self) -> (r: Option<&T>)
        ensures
            match r {
                Some(v) => *self matches ProtocolOption::Present(x) && x == *v,
                None => *self is UnsupportedVersion,
            },
    {
        match self {
            ProtocolOption::Present(v) => Some(v),
            ProtocolOption::UnsupportedVersion => None,
        }
    }
}

impl<const VER: usize, T: SerToBuf> SerToBuf for ProtocolOption<VER, T> {
    /// Nothing below `VER` or for an unsupported marker; the wrapped
    /// value's encoding otherwise.
    open spec fn enc(&self, ver: u32) -> Seq<u8> {
        if !version_supported(ver, VER) {
            Seq::empty()
        } else {
            match self {
                ProtocolOption::Present(v) => v.enc(ver),
                ProtocolOption::UnsupportedVersion => Seq::empty(),
            }
        }
    }

    open spec fn enc_err(&self, ver: u32) -> bool {
        version_supported(ver, VER) && (match self {
            ProtocolOption::Present(v) => v.enc_err(ver),
            ProtocolOption::UnsupportedVersion => false,
        })
    }

    open spec fn wf(&self, ver: u32) -> bool {
        if version_supported(ver, VER) {
            match self {
                ProtocolOption::Present(v) => v.wf(ver),
                ProtocolOption::UnsupportedVersion => false,
            }
        } else {
            self is UnsupportedVersion
        }
    }

    fn serialize(&self, buf: &mut WriteMessage) -> (r: Result<(), OpenRgbError>) {
        if (buf.protocol_version() as usize) < VER {
            proof {
                assert(buf@.bytes =~= buf@.bytes + Seq::<u8>::empty());
            }
            return Ok(());
        }
        match self {
            ProtocolOption::Present(v) => v.serialize(buf),
            ProtocolOption::UnsupportedVersion => {
                proof {
                    assert(buf@.bytes =~= buf@.bytes + Seq::<u8>::empty());
                }
                Ok(())
            },
        }
    }

    fn size(&self, ver: u32) -> (r: usize) {
        if (ver as usize) < VER {
            return 0;
        }
        match self {
            ProtocolOption::Present(v) => v.size(ver),
            ProtocolOption::UnsupportedVersion => 0,
        }
    }
}

impl<const VER: usize, T: DeserFromBuf> DeserFromBuf for ProtocolOption<VER, T> {
    /// The unsupported marker, consuming nothing, below `VER`; the
    /// wrapped type's decode otherwise.
    open spec fn dec(bytes: Seq<u8>, ver: u32) -> Option<(ProtocolOption<VER, T::V>, int)> {
        if !version_supported(ver, VER) {
            Some((ProtocolOption::UnsupportedVersion, 0int))
        } else {
            match T::dec(bytes, ver) {
                Option::Some(p) => Some((ProtocolOption::Present(p.0), p.1)),
                Option::None => None,
            }
        }
    }

    fn deserialize(buf: &mut ReceivedMessage<'_>) -> (r: Result<Self, OpenRgbError>) {
        if (buf.protocol_version() as usize) < VER {
            proof {
                assert(buf@.rem.skip(0) =~= buf@.rem);
            }
            return Ok(ProtocolOption::UnsupportedVersion);
        }
        let v = T::deserialize(buf)?;
        Ok(ProtocolOption::Present(v))
    }
}

impl<const VER: usize, T: WireCodec> WireCodec for ProtocolOption<VER, T> {
    proof fn lemma_round_trip(&self, ver: u32, rest: Seq<u8>) {
        if version_supported(ver, VER) {
            match self {
                ProtocolOption::Present(v) => {
                    v.lemma_round_trip(ver, rest);
                },
                ProtocolOption::UnsupportedVersion => (),
            }
        } else {
            assert(self.enc(ver) + rest =~= rest);
        }
    }
}

/// Law: below its minimum version, a version-gated field encodes to zero
/// bytes and decodes to the unsupported marker without consuming anything;
/// from that version on, it encodes and decodes exactly as the wrapped
/// type does.
pub proof fn lemma_version_gating<const VER: usize, T: WireCodec>(
    x: ProtocolOption<VER, T>,
    ver: u32,
    bytes: Seq<u8>,
)
    ensures
        !version_supported(ver, VER) ==> x.enc(ver) == Seq::<u8>::empty(),
        !version_supported(ver, VER) ==> ProtocolOption::<VER, T>::dec(bytes, ver) == Some(
            (ProtocolOption::<VER, T::V>::UnsupportedVersion, 0int),
        ),
        version_supported(ver, VER) ==> x.enc(ver) == (match x {
            ProtocolOption::Present(v) => v.enc(ver),
            ProtocolOption::UnsupportedVersion => Seq::<u8>::empty(),
        }),
        version_supported(ver, VER) ==> ProtocolOption::<VER, T>::dec(bytes, ver) == (match T::dec(
            bytes,
            ver,
        ) {
            Option::Some(p) => Some((ProtocolOption::<VER, T::V>::Present(p.0), p.1)),
            Option::None => None,
        }),
{
}

} // verus!
