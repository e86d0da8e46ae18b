use vstd::prelude::*;

use crate::base::{lemma_sbi_decode_encode, lemma_sbi_outside_vendor_range, sbi_message_decode_spec, SbiMessage};
use crate::consts::{in_vendor_range, EXT_VENDOR_RANGE_END, EXT_VENDOR_RANGE_START};
use crate::ecall::{frame_of, EcallMessage};
use crate::error::Error;

verus! {

/// Trait to be implemented to specify a vendor extension catalogue.  It is an
/// extension to `EcallMessage` that allows construction from a register set,
/// together with the two laws the composition layer relies on: decoding a
/// message's own frame yields the message back, and every message of the
/// catalogue claims an extension id inside the reserved vendor range.
pub trait VendorExtension: EcallMessage + Sized {
    /// What decoding an 8-slot frame yields for this vendor catalogue.
    spec fn decode_spec(args: Seq<u64>) -> Result<Self, Error>;

    /// Round-trip law: decoding the frame that a message of this catalogue
    /// encodes to yields the message back.
    proof fn lemma_decode_encode(v: Self)
        ensures
            Self::decode_spec(frame_of(v)) == Ok::<Self, Error>(v),
    ;

    /// Every message of this catalogue claims an extension id inside the
    /// reserved vendor range.
    proof fn lemma_claims_vendor_range(v: Self)
        ensures
            in_vendor_range(v.a7_spec()),
    ;

    /// Reconstructs a `VendorExtension` from a register set.
    fn from_regs(args: &[u64]) -> (r: Result<Self, Error>)
        requires
            args@.len() == 8,
        ensures
            r == Self::decode_spec(args@),
    ;
}

/// An `SbiMessage` that supports the vendor extension catalogue specified in `V`.
#[derive(Debug, PartialEq, Eq)]
pub enum VendorSbiMessage<V: VendorExtension> {
    /// A standard SBI message.
    Sbi(SbiMessage),
    /// A message containing a vendor extension.
    Vendor(V),
}

/// What decoding an 8-slot frame yields for the composed catalogue: a frame
/// whose slot 7 lies in the reserved vendor range is decoded by the vendor
/// catalogue alone, any other frame by the base catalogue alone; neither
/// failure ever falls through to the other catalogue.
pub open spec fn composed_decode_spec<V: VendorExtension>(args: Seq<u64>) -> Result<
    VendorSbiMessage<V>,
    Error,
> {
    if in_vendor_range(args[7]) {
        match V::decode_spec(args) {
            Ok(v) => Ok(VendorSbiMessage::Vendor(v)),
            Err(e) => Err(e),
        }
    } else {
        match sbi_message_decode_spec(args) {
            Ok(m) => Ok(VendorSbiMessage::Sbi(m)),
            Err(e) => Err(e),
        }
    }
}

impl<V: VendorExtension> VendorSbiMessage<V> {
    /// Same as `SbiMessage::from_regs` but supporting vendor extensions: the
    /// frame is routed by slot 7 to the vendor or the base catalogue.
    pub fn from_regs(args: &[u64]) -> (r: Result<Self, Error>)
        requires
            args@.len() == 8,
        ensures
            r == composed_decode_spec::<V>(args@),
    {
        let ext = args[7];
        if EXT_VENDOR_RANGE_START <= ext && ext <= EXT_VENDOR_RANGE_END {
            match V::from_regs(args) {
                Ok(v) => Ok(VendorSbiMessage::Vendor(v)),
                Err(e) => Err(e),
            }
        } else {
            match SbiMessage::from_regs(args) {
                Ok(m) => Ok(VendorSbiMessage::Sbi(m)),
                Err(e) => Err(e),
            }
        }
    }
}

impl<V: VendorExtension> EcallMessage for VendorSbiMessage<V> {
    open spec fn a7_spec(&self) -> u64 {
        match self {
            VendorSbiMessage::Sbi(m) => m.a7_spec(),
            VendorSbiMessage::Vendor(m) => m.a7_spec(),
        }
    }

    open spec fn a6_spec(&self) -> u64 {
        match self {
            VendorSbiMessage::Sbi(m) => m.a6_spec(),
            VendorSbiMessage::Vendor(m) => m.a6_spec(),
        }
    }

    open spec fn a5_spec(&self) -> u64 {
        match self {
            VendorSbiMessage::Sbi(m) => m.a5_spec(),
            VendorSbiMessage::Vendor(m) => m.a5_spec(),
        }
    }

    open spec fn a4_spec(&self) -> u64 {
        match self {
            VendorSbiMessage::Sbi(m) => m.a4_spec(),
            VendorSbiMessage::Vendor(m) => m.a4_spec(),
        }
    }

    open spec fn a3_spec(&self) -> u64 {
        match self {
            VendorSbiMessage::Sbi(m) => m.a3_spec(),
            VendorSbiMessage::Vendor(m) => m.a3_spec(),
        }
    }

    open spec fn a2_spec(&self) -> u64 {
        match self {
            VendorSbiMessage::Sbi(m) => m.a2_spec(),
            VendorSbiMessage::Vendor(m) => m.a2_spec(),
        }
    }

    open spec fn a1_spec(&self) -> u64 {
        match self {
            VendorSbiMessage::Sbi(m) => m.a1_spec(),
            VendorSbiMessage::Vendor(m) => m.a1_spec(),
        }
    }

    open spec fn a0_spec(&self) -> u64 {
        match self {
            VendorSbiMessage::Sbi(m) => m.a0_spec(),
            VendorSbiMessage::Vendor(m) => m.a0_spec(),
        }
    }

    /// Returns the register value for this `SbiMessage`.
    fn a7(&self) -> u64 {
        match self {
            VendorSbiMessage::Sbi(m) => m.a7(),
            VendorSbiMessage::Vendor(m) => m.a7(),
        }
    }

    /// Returns the register value for this `SbiMessage`.
    fn a6(&self) -> u64 {
        match self {
            VendorSbiMessage::Sbi(m) => m.a6(),
            VendorSbiMessage::Vendor(m) => m.a6(),
        }
    }

    /// Returns the register value for this `SbiMessage`.
    fn a5(&self) -> u64 {
        match self {
            VendorSbiMessage::Sbi(m) => m.a5(),
            VendorSbiMessage::Vendor(m) => m.a5(),
        }
    }

    /// Returns the register value for this `SbiMessage`.
    fn a4(&self) -> u64 {
        match self {
            VendorSbiMessage::Sbi(m) => m.a4(),
            VendorSbiMessage::Vendor(m) => m.a4(),
        }
    }

    /// Returns the register value for this `SbiMessage`.
    fn a3(&self) -> u64 {
        match self {
            VendorSbiMessage::Sbi(m) => m.a3(),
            VendorSbiMessage::Vendor(m) => m.a3(),
        }
    }

    /// Returns the register value for this `SbiMessage`.
    fn a2(&self) -> u64 {
        match self {
            VendorSbiMessage::Sbi(m) => m.a2(),
            VendorSbiMessage::Vendor(m) => m.a2(),
        }
    }

    /// Returns the register value for this `SbiMessage`.
    fn a1(&self) -> u64 {
        match self {
            VendorSbiMessage::Sbi(m) => m.a1(),
            VendorSbiMessage::Vendor(m) => m.a1(),
        }
    }

    /// Returns the register value for this `SbiMessage`.
    fn a0(&self) -> u64 {
        match self {
            VendorSbiMessage::Sbi(m) => m.a0(),
            VendorSbiMessage::Vendor(m) => m.a0(),
        }
    }
}

/// Round-trip law of the composed catalogue: decoding the frame that any
/// composed message encodes to yields the message back, for base-catalogue
/// and vendor-catalogue variants alike.
pub proof fn lemma_composed_decode_encode<V: VendorExtension>(v: VendorSbiMessage<V>)
    ensures
        composed_decode_spec::<V>(frame_of(v)) == Ok::<VendorSbiMessage<V>, Error>(v),
{
    match v {
        VendorSbiMessage::Sbi(m) => {
            lemma_sbi_decode_encode(m);
            lemma_sbi_outside_vendor_range(m);
            assert(frame_of(v) =~= frame_of(m));
        }
        VendorSbiMessage::Vendor(m) => {
            V::lemma_decode_encode(m);
            V::lemma_claims_vendor_range(m);
            assert(frame_of(v) =~= frame_of(m));
        }
    }
}

/// Range disjointness law: a frame whose slot 7 lies outside the reserved
/// vendor range is decoded by the base catalogue alone, and one whose slot 7
/// lies inside it by the vendor catalogue alone.
pub proof fn lemma_range_disjointness<V: VendorExtension>(args: Seq<u64>)
    ensures
        !in_vendor_range(args[7]) ==> composed_decode_spec::<V>(args) == (
        match sbi_message_decode_spec(args) {
            Ok(m) => Ok::<VendorSbiMessage<V>, Error>(VendorSbiMessage::Sbi(m)),
            Err(e) => Err::<VendorSbiMessage<V>, Error>(e),
        }),
        in_vendor_range(args[7]) ==> composed_decode_spec::<V>(args) == (
        match V::decode_spec(args) {
            Ok(m) => Ok::<VendorSbiMessage<V>, Error>(VendorSbiMessage::Vendor(m)),
            Err(e) => Err::<VendorSbiMessage<V>, Error>(e),
        }),
{
}

} // verus!
