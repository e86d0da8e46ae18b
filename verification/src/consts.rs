use vstd::prelude::*;

verus! {

/// First extension id of the reserved vendor-specific extension range.
pub const EXT_VENDOR_RANGE_START: u64 = 0x0900_0000;

/// Last extension id of the reserved vendor-specific extension range.
pub const EXT_VENDOR_RANGE_END: u64 = 0x09FF_FFFF;

/// Extension id of the legacy console putchar call of the base catalogue.
pub const EXT_PUT_CHAR: u64 = 0x01;

/// True when `ext` lies in the reserved vendor extension id range.
pub open spec fn in_vendor_range(ext: u64) -> bool {
    EXT_VENDOR_RANGE_START <= ext <= EXT_VENDOR_RANGE_END
}

} // verus!
