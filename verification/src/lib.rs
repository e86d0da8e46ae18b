//! Typed, extensible encoding of SBI ecall messages.
//!
//! A logical call (extension id, function id, arguments) is packed into and
//! unpacked from a frame of eight 64-bit register slots.  Slot 7 carries the
//! extension id and, by convention, slot 6 the function id within that
//! extension.  The 64-bit extension id space is split into the base range and
//! a reserved, contiguous vendor range: a composed message type routes frames
//! whose slot 7 lies in the vendor range to a pluggable vendor catalogue and
//! all other frames to the base catalogue.  The two-register result of an
//! ecall decodes to success exactly when its signed error code is zero.

pub mod base;
pub mod consts;
pub mod ecall;
pub mod error;
pub mod salus;
pub mod vendor;

pub use base::SbiMessage;
pub use consts::{EXT_PUT_CHAR, EXT_VENDOR_RANGE_END, EXT_VENDOR_RANGE_START};
pub use ecall::{EcallMessage, SbiReturn};
pub use error::Error;
pub use salus::{MemCopyArgs, SalusExtension, SalusSbiMessage, SalusTestFunction};
pub use vendor::{VendorExtension, VendorSbiMessage};
