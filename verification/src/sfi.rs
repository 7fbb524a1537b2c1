//! Pointer translation for a sandbox whose linear memory is mapped at a
//! fixed host address: sandbox pointers are offsets from `MEMBASE`, and a
//! buffer may be handed to the host only if it lies in the mapped region.
use vstd::prelude::*;
use crate::types::PATH_MAX;

verus! {

/// The host address of linear memory.
pub const MEMBASE: u64 = 0x40000000;
/// The size of linear memory.
pub const MEMLEN: u64 = 0x10000000;

/// The check that needs nothing.
pub fn empty_predicate() -> (r: bool)
    ensures
        r,
{
    true
}

/// The sandbox pointer for the host address `buf`.
pub fn ptr_to_sandbox(buf: u64) -> (r: u32)
    requires
        MEMBASE <= buf < MEMBASE + 0x1_0000_0000,
    ensures
        r == buf - MEMBASE,
{
    (buf - MEMBASE) as u32
}

/// The host address of the sandbox pointer `buf`.
pub fn ptr_from_sandbox(buf: u32) -> (r: u64)
    ensures
        r == buf + MEMBASE,
{
    buf as u64 + MEMBASE
}

/// Whether a host address lies in the mapped region, its end included.
pub open spec fn in_bounds(ptr: int) -> bool {
    MEMBASE <= ptr <= MEMBASE + MEMLEN
}

/// Whether the host address `ptr` lies in the mapped region, its end
/// included.
#[allow(non_snake_case)]
pub fn inBounds(ptr: u64) -> (r: bool)
    ensures
        r == in_bounds(ptr as int),
{
    (ptr >= MEMBASE) && (ptr <= (MEMBASE + MEMLEN))
}

/// The sandbox pointer for a host buffer of `size_v` bytes at `buf`.
pub fn sized_buf_to_sandbox(buf: u64, size_v: u64) -> (r: u32)
    requires
        MEMBASE <= buf < MEMBASE + 0x1_0000_0000,
    ensures
        r == buf - MEMBASE,
{
    ptr_to_sandbox(buf)
}

/// The host address of the sandbox buffer of `size_v` bytes at `buf`, or
/// null (0) if the buffer does not lie in the mapped region.
pub fn sized_buf_from_sandbox(buf: u32, size_v: u64) -> (r: u64)
    ensures
        r == (if in_bounds(MEMBASE + buf) && in_bounds(MEMBASE + buf + size_v) {
            MEMBASE + buf
        } else {
            0
        }),
{
    let start = MEMBASE + buf as u64;
    if !inBounds(start) {
        return 0;
    }
    match start.checked_add(size_v) {
        Some(end) => {
            if inBounds(end) {
                ptr_from_sandbox(buf)
            } else {
                0
            }
        },
        None => 0,
    }
}

/// The sandbox pointer for a host path buffer at `buf`.
pub fn path_to_sandbox(buf: u64) -> (r: u32)
    requires
        MEMBASE <= buf < MEMBASE + 0x1_0000_0000,
    ensures
        r == buf - MEMBASE,
{
    sized_buf_to_sandbox(buf, PATH_MAX as u64)
}

/// The host address of the sandbox path buffer at `buf`, or null (0) if
/// a whole path buffer there does not lie in the mapped region.
pub fn path_from_sandbox(buf: u32) -> (r: u64)
    ensures
        r == (if in_bounds(MEMBASE + buf) && in_bounds(MEMBASE + buf + PATH_MAX) {
            MEMBASE + buf
        } else {
            0
        }),
{
    sized_buf_from_sandbox(buf, PATH_MAX as u64)
}

/// A sandbox pointer translated to the host and back is unchanged.
pub proof fn lemma_sandbox_round_trip(buf: u32)
    ensures
        MEMBASE <= buf + MEMBASE < MEMBASE + 0x1_0000_0000,
        (buf + MEMBASE) - MEMBASE == buf,
{
}

/// A buffer that the translation lets through lies, from its first byte
/// to its end, in the mapped region.
pub proof fn lemma_translated_buf_in_region(buf: u32, size_v: u64)
    requires
        in_bounds(MEMBASE + buf) && in_bounds(MEMBASE + buf + size_v),
    ensures
        forall|a: int| MEMBASE + buf <= a <= MEMBASE + buf + size_v ==> in_bounds(a),
{
}

} // verus!
