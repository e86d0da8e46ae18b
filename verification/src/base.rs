use vstd::prelude::*;

use crate::consts::{in_vendor_range, EXT_PUT_CHAR};
use crate::ecall::{frame_of, EcallMessage};
use crate::error::Error;

verus! {

/// The base (non-vendor) call catalogue.  The full base catalogue is owned by
/// the SBI standard; this one carries the single legacy call the crate needs,
/// and rejects every other base extension id as not supported.
#[derive(Clone, Copy, Debug, PartialEq, Eq, Structural)]
pub enum SbiMessage {
    /// Legacy console putchar: writes the character carried in slot 0.
    PutChar(u64),
}

/// What decoding an 8-slot frame yields for the base catalogue.
pub open spec fn sbi_message_decode_spec(args: Seq<u64>) -> Result<SbiMessage, Error> {
    if args[7] == EXT_PUT_CHAR {
        Ok(SbiMessage::PutChar(args[0]))
    } else {
        Err(Error::NotSupported)
    }
}

impl SbiMessage {
    /// Attempts to parse `Self` from the passed in registers `a0`-`a7`.
    pub fn from_regs(args: &[u64]) -> (r: Result<Self, Error>)
        requires
            args@.len() == 8,
        ensures
            r == sbi_message_decode_spec(args@),
    {
        if args[7] == EXT_PUT_CHAR {
            Ok(SbiMessage::PutChar(args[0]))
        } else {
            Err(Error::NotSupported)
        }
    }
}

impl EcallMessage for SbiMessage {
    open spec fn a7_spec(&self) -> u64 {
        match self {
            SbiMessage::PutChar(_) => EXT_PUT_CHAR,
        }
    }

    open spec fn a6_spec(&self) -> u64 {
        0
    }

    open spec fn a5_spec(&self) -> u64 {
        0
    }

    open spec fn a4_spec(&self) -> u64 {
        0
    }

    open spec fn a3_spec(&self) -> u64 {
        0
    }

    open spec fn a2_spec(&self) -> u64 {
        0
    }

    open spec fn a1_spec(&self) -> u64 {
        0
    }

    open spec fn a0_spec(&self) -> u64 {
        match self {
            SbiMessage::PutChar(c) => *c,
        }
    }

    fn a7(&self) -> u64 {
        match self {
            SbiMessage::PutChar(_) => EXT_PUT_CHAR,
        }
    }

    fn a6(&self) -> u64 {
        0
    }

    fn a5(&self) -> u64 {
        0
    }

    fn a4(&self) -> u64 {
        0
    }

    fn a3(&self) -> u64 {
        0
    }

    fn a2(&self) -> u64 {
        0
    }

    fn a1(&self) -> u64 {
        0
    }

    fn a0(&self) -> u64 {
        match self {
            SbiMessage::PutChar(c) => *c,
        }
    }
}

/// Round-trip law of the base catalogue: decoding the frame that a base
/// message encodes to yields the message back.
pub proof fn lemma_sbi_decode_encode(m: SbiMessage)
    ensures
        sbi_message_decode_spec(frame_of(m)) == Ok::<SbiMessage, Error>(m),
{
}

/// Every base-catalogue message claims an extension id outside the reserved
/// vendor range.
pub proof fn lemma_sbi_outside_vendor_range(m: SbiMessage)
    ensures
        !in_vendor_range(m.a7_spec()),
{
}

} // verus!
