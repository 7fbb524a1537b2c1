//! Argument fix-ups between the compiled module's calling convention and
//! the hostcalls.
use vstd::prelude::*;

verus! {

/// The open flags for `path_open` with the access mode that the C library
/// put in the rights: write access gives bit 4 (write only) or, with read
/// access too, bit 5 (read and write).
pub fn adjust_oflags(oflags: u32, fs_rights_base: u64) -> (r: u32)
    ensures
        r == (if fs_rights_base & 0x40 != 0 {
            if fs_rights_base & 0x2 != 0 {
                oflags | 0x20
            } else {
                oflags | 0x10
            }
        } else {
            oflags
        }),
{
    assert((1u64 << 6u64) == 0x40u64 && (1u64 << 1u64) == 0x2u64) by (bit_vector);
    assert((1u32 << 5u32) == 0x20u32 && (1u32 << 4u32) == 0x10u32) by (bit_vector);
    if fs_rights_base & (1 << 6) != 0 {
        if fs_rights_base & (1 << 1) != 0 {
            return oflags | (1 << 5);
        }
        return oflags | (1 << 4);
    }
    oflags
}

} // verus!
