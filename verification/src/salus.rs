use vstd::prelude::*;

use crate::ecall::EcallMessage;
use crate::error::Error;
use crate::vendor::{composed_decode_spec, VendorExtension, VendorSbiMessage};

verus! {

/// Extension id claimed by the Salus test extension; it lies inside the
/// reserved vendor range.
pub const EXT_SALUS_TEST: u64 = 0x09FF_FFFF;

/// An SBI message containing Salus vendor extensions.
pub type SalusSbiMessage = VendorSbiMessage<SalusExtension>;

/// Salus vendor extension messages.
#[derive(Clone, Copy, Debug, PartialEq, Eq, Structural)]
pub enum SalusExtension {
    /// Salus test, used internally to test Salus.
    SalusTest(SalusTestFunction),
}

/// What decoding an 8-slot frame yields for the Salus catalogue: only the
/// Salus test extension id is recognized.
pub open spec fn salus_decode_spec(args: Seq<u64>) -> Result<SalusExtension, Error> {
    if args[7] == EXT_SALUS_TEST {
        match salus_test_decode_spec(args) {
            Ok(f) => Ok(SalusExtension::SalusTest(f)),
            Err(e) => Err(e),
        }
    } else {
        Err(Error::NotSupported)
    }
}

impl VendorExtension for SalusExtension {
    open spec fn decode_spec(args: Seq<u64>) -> Result<Self, Error> {
        salus_decode_spec(args)
    }

    proof fn lemma_decode_encode(v: Self) {
    }

    proof fn lemma_claims_vendor_range(v: Self) {
    }

    fn from_regs(args: &[u64]) -> (r: Result<Self, Error>) {
        if args[7] == EXT_SALUS_TEST {
            match SalusTestFunction::from_regs(args) {
                Ok(f) => Ok(SalusExtension::SalusTest(f)),
                Err(e) => Err(e),
            }
        } else {
            Err(Error::NotSupported)
        }
    }
}

impl EcallMessage for SalusExtension {
    open spec fn a7_spec(&self) -> u64 {
        match self {
            SalusExtension::SalusTest(_) => EXT_SALUS_TEST,
        }
    }

    open spec fn a6_spec(&self) -> u64 {
        match self {
            SalusExtension::SalusTest(m) => m.a6_spec(),
        }
    }

    open spec fn a5_spec(&self) -> u64 {
        0
    }

    open spec fn a4_spec(&self) -> u64 {
        0
    }

    open spec fn a3_spec(&self) -> u64 {
        0
    }

    open spec fn a2_spec(&self) -> u64 {
        match self {
            SalusExtension::SalusTest(m) => m.a2_spec(),
        }
    }

    open spec fn a1_spec(&self) -> u64 {
        match self {
            SalusExtension::SalusTest(m) => m.a1_spec(),
        }
    }

    open spec fn a0_spec(&self) -> u64 {
        match self {
            SalusExtension::SalusTest(m) => m.a0_spec(),
        }
    }

    fn a7(&self) -> u64 {
        match self {
            SalusExtension::SalusTest(_) => EXT_SALUS_TEST,
        }
    }

    fn a6(&self) -> u64 {
        match self {
            SalusExtension::SalusTest(m) => m.a6(),
        }
    }

    fn a5(&self) -> u64 {
        0
    }

    fn a4(&self) -> u64 {
        0
    }

    fn a3(&self) -> u64 {
        0
    }

    fn a2(&self) -> u64 {
        match self {
            SalusExtension::SalusTest(m) => m.a2(),
        }
    }

    fn a1(&self) -> u64 {
        match self {
            SalusExtension::SalusTest(m) => m.a1(),
        }
    }

    fn a0(&self) -> u64 {
        match self {
            SalusExtension::SalusTest(m) => m.a0(),
        }
    }
}

/// Functions defined for the Salus test extension.
#[derive(Clone, Copy, Debug, PartialEq, Eq, Structural)]
pub enum SalusTestFunction {
    /// Copies memory from a source to a destination address.
    MemCopy(MemCopyArgs),
}

/// What decoding an 8-slot frame yields for the Salus test extension: function
/// id 0 in slot 6 is the memory copy, whose three arguments occupy slots 0-2.
pub open spec fn salus_test_decode_spec(args: Seq<u64>) -> Result<SalusTestFunction, Error> {
    if args[6] == 0 {
        Ok(
            SalusTestFunction::MemCopy(
                MemCopyArgs { to: args[0], from: args[1], len: args[2] },
            ),
        )
    } else {
        Err(Error::NotSupported)
    }
}

impl SalusTestFunction {
    /// Attempts to parse `Self` from the passed in registers `a0`-`a7`.
    pub fn from_regs(args: &[u64]) -> (r: Result<Self, Error>)
        requires
            args@.len() == 8,
        ensures
            r == salus_test_decode_spec(args@),
    {
        if args[6] == 0 {
            Ok(SalusTestFunction::MemCopy(MemCopyArgs { to: args[0], from: args[1], len: args[2] }))
        } else {
            Err(Error::NotSupported)
        }
    }

    /// The value this function places in register a6 (the function id).
    pub open spec fn a6_spec(&self) -> u64 {
        match self {
            SalusTestFunction::MemCopy(_) => 0,
        }
    }

    /// The value this function places in register a2.
    pub open spec fn a2_spec(&self) -> u64 {
        match self {
            SalusTestFunction::MemCopy(args) => args.len,
        }
    }

    /// The value this function places in register a1.
    pub open spec fn a1_spec(&self) -> u64 {
        match self {
            SalusTestFunction::MemCopy(args) => args.from,
        }
    }

    /// The value this function places in register a0.
    pub open spec fn a0_spec(&self) -> u64 {
        match self {
            SalusTestFunction::MemCopy(args) => args.to,
        }
    }

    /// Returns the register value of a6.
    pub fn a6(&self) -> (r: u64)
        ensures
            r == self.a6_spec(),
    {
        match self {
            SalusTestFunction::MemCopy(_) => 0,
        }
    }

    /// Returns the register value of a2.
    pub fn a2(&self) -> (r: u64)
        ensures
            r == self.a2_spec(),
    {
        match self {
            SalusTestFunction::MemCopy(args) => args.len,
        }
    }

    /// Returns the register value of a1.
    pub fn a1(&self) -> (r: u64)
        ensures
            r == self.a1_spec(),
    {
        match self {
            SalusTestFunction::MemCopy(args) => args.from,
        }
    }

    /// Returns the register value of a0.
    pub fn a0(&self) -> (r: u64)
        ensures
            r == self.a0_spec(),
    {
        match self {
            SalusTestFunction::MemCopy(args) => args.to,
        }
    }
}

/// Arguments to the memory copy test function.
#[derive(Clone, Copy, Debug, PartialEq, Eq, Structural)]
pub struct MemCopyArgs {
    /// Destination address.
    pub to: u64,
    /// Source address.
    pub from: u64,
    /// Length in bytes of the copy.
    pub len: u64,
}

/// Totality law of the composed Salus catalogue: decoding any 8-slot frame
/// yields either a message or the explicit not-supported error, never any
/// third outcome.
pub proof fn lemma_salus_decode_total(args: Seq<u64>)
    ensures
        composed_decode_spec::<SalusExtension>(args) is Ok || composed_decode_spec::<
            SalusExtension,
        >(args) == Err::<SalusSbiMessage, Error>(Error::NotSupported),
{
}

} // verus!
