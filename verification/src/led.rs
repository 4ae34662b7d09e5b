//! A single LED: a name and an opaque numeric value with no defined
//! client-side meaning.  LEDs are read from controller data, never written.

use vstd::prelude::*;

use crate::codec::DeserFromBuf;
use crate::error::OpenRgbError;
use crate::message::ReceivedMessage;

verus! {

broadcast use vstd::seq_lib::lemma_seq_skip_of_skip;

/// One LED of a controller.
#[derive(Debug, Clone, PartialEq, Eq)]
pub struct Led {
    /// LED name.
    pub name: String,
    /// Opaque device-internal value.
    pub value: u32,
}

/// Abstract value of a [`Led`].
pub struct LedV {
    /// LED name.
    pub name: Seq<char>,
    /// Opaque device-internal value.
    pub value: u32,
}

impl DeepView for Led {
    type V = LedV;

    open spec fn deep_view(&self) -> LedV {
        LedV { name: self.name.deep_view(), value: self.value }
    }
}

impl DeserFromBuf for Led {
    /// A length-prefixed name, then the value.
    open spec fn dec(bytes: Seq<u8>, ver: u32) -> Option<(LedV, int)> {
        match <String as DeserFromBuf>::dec(bytes, ver) {
            Option::None => None,
            Option::Some((name, n1)) => match <u32 as DeserFromBuf>::dec(bytes.skip(n1), ver) {
                Option::None => None,
                Option::Some((value, n2)) => Some((LedV { name, value }, n1 + n2)),
            },
        }
    }

    fn deserialize(buf: &mut ReceivedMessage<'_>) -> (r: Result<Self, OpenRgbError>) {
        let name: String = buf.read_value()?;
        let value: u32 = buf.read_value()?;
        Ok(Led { name, value })
    }
}

} // verus!
