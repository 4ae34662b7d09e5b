//! Mode directions.  An unrecognized discriminant on the wire is a hard
//! decode error.

use vstd::prelude::*;
use vstd::bytes::{
    spec_u32_to_le_bytes, spec_u32_from_le_bytes, lemma_auto_spec_u32_to_from_le_bytes,
};

use crate::codec::{DeserFromBuf, SerToBuf, WireCodec};
use crate::error::{OpenRgbError, ProtocolErrorKind};
use crate::message::{ReceivedMessage, WriteMessage};

verus! {

/// Direction a mode effect moves in.
#[derive(Debug, Clone, Copy, PartialEq, Eq, Structural)]
pub enum Direction {
    /// Leftward.
    Left,
    /// Rightward.
    Right,
    /// Upward.
    Up,
    /// Downward.
    Down,
    /// Along the horizontal axis.
    Horizontal,
    /// Along the vertical axis.
    Vertical,
}

/// The wire discriminant of each direction.
pub open spec fn direction_value(x: Direction) -> u32 {
    match x {
        Direction::Left => 0,
        Direction::Right => 1,
        Direction::Up => 2,
        Direction::Down => 3,
        Direction::Horizontal => 4,
        Direction::Vertical => 5,
    }
}

/// The direction a wire discriminant names, if any.
pub open spec fn direction_from(v: u32) -> Option<Direction> {
    if v == 0 {
        Some(Direction::Left)
    } else if v == 1 {
        Some(Direction::Right)
    } else if v == 2 {
        Some(Direction::Up)
    } else if v == 3 {
        Some(Direction::Down)
    } else if v == 4 {
        Some(Direction::Horizontal)
    } else if v == 5 {
        Some(Direction::Vertical)
    } else {
        None
    }
}

impl DeepView for Direction {
    type V = Direction;

    open spec fn deep_view(&self) -> Direction {
        *self
    }
}

impl Direction {
    /// The wire discriminant of this direction.
    pub fn to_u32(self) -> (r: u32)
        ensures
            r == direction_value(self),
    {
        match self {
            Direction::Left => 0,
            Direction::Right => 1,
            Direction::Up => 2,
            Direction::Down => 3,
            Direction::Horizontal => 4,
            Direction::Vertical => 5,
        }
    }

    /// The direction named by a wire discriminant, if any.
    pub fn from_u32(v: u32) -> (r: Option<Direction>)
        ensures
            r == direction_from(v),
    {
        if v == 0 {
            Some(Direction::Left)
        } else if v == 1 {
            Some(Direction::Right)
        } else if v == 2 {
            Some(Direction::Up)
        } else if v == 3 {
            Some(Direction::Down)
        } else if v == 4 {
            Some(Direction::Horizontal)
        } else if v == 5 {
            Some(Direction::Vertical)
        } else {
            None
        }
    }
}

impl SerToBuf for Direction {
    open spec fn enc(&self, ver: u32) -> Seq<u8> {
        spec_u32_to_le_bytes(direction_value(*self))
    }

    open spec fn enc_err(&self, ver: u32) -> bool {
        false
    }

    open spec fn wf(&self, ver: u32) -> bool {
        true
    }

    fn serialize(&self, buf: &mut WriteMessage) -> (r: Result<(), OpenRgbError>) {
        buf.write_u32(self.to_u32());
        Ok(())
    }

    fn size(&self, ver: u32) -> (r: usize) {
        proof {
            lemma_auto_spec_u32_to_from_le_bytes();
        }
        4
    }
}

impl DeserFromBuf for Direction {
    open spec fn dec(bytes: Seq<u8>, ver: u32) -> Option<(Direction, int)> {
        if bytes.len() >= 4 {
            match direction_from(spec_u32_from_le_bytes(bytes.take(4))) {
                Option::Some(x) => Some((x, 4int)),
                Option::None => None,
            }
        } else {
            None
        }
    }

    fn deserialize(buf: &mut ReceivedMessage<'_>) -> (r: Result<Self, OpenRgbError>) {
        let raw = buf.read_u32()?;
        match Direction::from_u32(raw) {
            Some(x) => Ok(x),
            None => Err(OpenRgbError::ProtocolError(ProtocolErrorKind::UnknownDirection {
                value: raw,
            })),
        }
    }
}

impl WireCodec for Direction {
    proof fn lemma_round_trip(&self, ver: u32, rest: Seq<u8>) {
        lemma_auto_spec_u32_to_from_le_bytes();
        assert((self.enc(ver) + rest).take(4) =~= self.enc(ver));
    }
}

} // verus!
