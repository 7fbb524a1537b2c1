//! Turning hostcall results into the return code and the out-parameters
//! that WASI expects.
use vstd::prelude::*;
use vstd::bytes::{spec_u16_to_le_bytes, spec_u32_to_le_bytes, spec_u64_to_le_bytes};
use crate::error::{as_u32, wasi_errno, RuntimeError, RuntimeResult};
use crate::flags::FdStat;
use crate::runtime::{write_bytes, VmCtx};
use crate::types::{filetype_wasi, FileStat, Timestamp};

verus! {

/// The WASI return code of a result: 0 on success, else the error number.
pub open spec fn marshal_code<T>(res: RuntimeResult<T>) -> u32 {
    match res {
        Ok(_) => 0,
        Err(e) => wasi_errno(e) as u32,
    }
}

pub fn wasm2c_marshal<T>(res: RuntimeResult<T>) -> (r: u32)
    ensures
        r == marshal_code(res),
{
    match res {
        Ok(_) => 0,
        Err(err) => as_u32(err),
    }
}

/// Writes a `u32` result to `addr` and returns the WASI return code; fails
/// with `Eoverflow` (writing nothing) if `addr` does not hold four bytes.
pub fn wasm2c_marshal_and_writeback_u32(ctx: &mut VmCtx, addr: usize, res: RuntimeResult<u32>) -> (r: u32)
    requires
        old(ctx).wf(),
    ensures
        final(ctx).wf(),
        final(ctx).same_but_mem(old(ctx)),
        !old(ctx).fits(addr as int, 4) ==> r == wasi_errno(RuntimeError::Eoverflow) && final(ctx).mem == old(ctx).mem,
        old(ctx).fits(addr as int, 4) ==> r == marshal_code(res) && final(ctx).mem@ == (match res {
            Ok(v) => write_bytes(old(ctx).mem@, addr as int, spec_u32_to_le_bytes(v)),
            Err(_) => old(ctx).mem@,
        }),
{
    if !ctx.fits_in_lin_mem_usize(addr, 4) {
        return as_u32(RuntimeError::Eoverflow);
    }
    match res {
        Ok(r) => {
            ctx.write_u32(addr, r);
            0
        },
        Err(err) => as_u32(err),
    }
}

/// Writes the `prestat` of the home directory (tag 0, then the name
/// length) to `addr`; fails with `Eoverflow` if `addr` does not hold
/// twelve bytes.
pub fn wasm2c_marshal_and_writeback_prestat(ctx: &mut VmCtx, addr: usize, res: RuntimeResult<u32>) -> (r: u32)
    requires
        old(ctx).wf(),
    ensures
        final(ctx).wf(),
        final(ctx).same_but_mem(old(ctx)),
        !old(ctx).fits(addr as int, 12) ==> r == wasi_errno(RuntimeError::Eoverflow) && final(ctx).mem == old(ctx).mem,
        old(ctx).fits(addr as int, 12) ==> r == marshal_code(res) && final(ctx).mem@ == (match res {
            Ok(v) => write_bytes(
                write_bytes(old(ctx).mem@, addr as int, spec_u32_to_le_bytes(0)),
                addr + 4,
                spec_u64_to_le_bytes(v as u64),
            ),
            Err(_) => old(ctx).mem@,
        }),
{
    if !ctx.fits_in_lin_mem_usize(addr, 12) {
        return as_u32(RuntimeError::Eoverflow);
    }
    match res {
        Ok(r) => {
            ctx.write_u32(addr, 0);
            ctx.write_u64(addr + 4, r as u64);
            0
        },
        Err(err) => as_u32(err),
    }
}

/// Writes a `u64` result to `addr`; fails with `Eoverflow` if `addr` does
/// not hold eight bytes.
pub fn wasm2c_marshal_and_writeback_u64(ctx: &mut VmCtx, addr: usize, res: RuntimeResult<u64>) -> (r: u32)
    requires
        old(ctx).wf(),
    ensures
        final(ctx).wf(),
        final(ctx).same_but_mem(old(ctx)),
        !old(ctx).fits(addr as int, 8) ==> r == wasi_errno(RuntimeError::Eoverflow) && final(ctx).mem == old(ctx).mem,
        old(ctx).fits(addr as int, 8) ==> r == marshal_code(res) && final(ctx).mem@ == (match res {
            Ok(v) => write_bytes(old(ctx).mem@, addr as int, spec_u64_to_le_bytes(v)),
            Err(_) => old(ctx).mem@,
        }),
{
    if !ctx.fits_in_lin_mem_usize(addr, 8) {
        return as_u32(RuntimeError::Eoverflow);
    }
    match res {
        Ok(r) => {
            ctx.write_u64(addr, r);
            0
        },
        Err(err) => as_u32(err),
    }
}

/// Writes a timestamp result, in nanoseconds, to `addr`; fails with
/// `Eoverflow` if `addr` does not hold eight bytes.
pub fn wasm2c_marshal_and_writeback_timestamp(ctx: &mut VmCtx, addr: usize, res: RuntimeResult<Timestamp>) -> (r: u32)
    requires
        old(ctx).wf(),
    ensures
        final(ctx).wf(),
        final(ctx).same_but_mem(old(ctx)),
        !old(ctx).fits(addr as int, 8) ==> r == wasi_errno(RuntimeError::Eoverflow) && final(ctx).mem == old(ctx).mem,
        old(ctx).fits(addr as int, 8) ==> r == marshal_code(res) && final(ctx).mem@ == (match res {
            Ok(t) => write_bytes(old(ctx).mem@, addr as int, spec_u64_to_le_bytes(t.0)),
            Err(_) => old(ctx).mem@,
        }),
{
    if !ctx.fits_in_lin_mem_usize(addr, 8) {
        return as_u32(RuntimeError::Eoverflow);
    }
    match res {
        Ok(r) => {
            ctx.write_u64(addr, r.nsec());
            0
        },
        Err(err) => as_u32(err),
    }
}

/// Linear memory after an `fdstat` is written at `addr`: the file type,
/// the WASI descriptor flags and the two rights words.
pub open spec fn fdstat_written(mem: Seq<u8>, addr: int, st: FdStat) -> Seq<u8> {
    write_bytes(
        write_bytes(
            write_bytes(
                write_bytes(mem, addr, spec_u16_to_le_bytes(filetype_wasi(st.fs_filetype) as u16)),
                addr + 2,
                spec_u16_to_le_bytes(st.fs_flags.0),
            ),
            addr + 8,
            spec_u64_to_le_bytes(st.fs_rights_base),
        ),
        addr + 16,
        spec_u64_to_le_bytes(st.fs_rights_inheriting),
    )
}

/// Writes an `fdstat` result to `addr`; fails with `Eoverflow` if `addr`
/// does not hold 24 bytes.
pub fn wasm2c_marshal_and_writeback_fdstat(ctx: &mut VmCtx, addr: usize, res: RuntimeResult<FdStat>) -> (r: u32)
    requires
        old(ctx).wf(),
    ensures
        final(ctx).wf(),
        final(ctx).same_but_mem(old(ctx)),
        !old(ctx).fits(addr as int, 24) ==> r == wasi_errno(RuntimeError::Eoverflow) && final(ctx).mem == old(ctx).mem,
        old(ctx).fits(addr as int, 24) ==> r == marshal_code(res) && final(ctx).mem@ == (match res {
            Ok(st) => fdstat_written(old(ctx).mem@, addr as int, st),
            Err(_) => old(ctx).mem@,
        }),
{
    if !ctx.fits_in_lin_mem_usize(addr, 24) {
        return as_u32(RuntimeError::Eoverflow);
    }
    match res {
        Ok(r) => {
            ctx.write_u16(addr, r.fs_filetype.to_wasi() as u16);
            ctx.write_u16(addr + 2, r.fs_flags.0);
            ctx.write_u64(addr + 8, r.fs_rights_base);
            ctx.write_u64(addr + 16, r.fs_rights_inheriting);
            0
        },
        Err(err) => as_u32(err),
    }
}

/// Linear memory after a `filestat` is written at `addr`: eight 64-bit
/// fields.
pub open spec fn filestat_written(mem: Seq<u8>, addr: int, st: FileStat) -> Seq<u8> {
    let m1 = write_bytes(mem, addr, spec_u64_to_le_bytes(st.dev));
    let m2 = write_bytes(m1, addr + 8, spec_u64_to_le_bytes(st.ino));
    let m3 = write_bytes(m2, addr + 16, spec_u64_to_le_bytes(filetype_wasi(st.filetype) as u64));
    let m4 = write_bytes(m3, addr + 24, spec_u64_to_le_bytes(st.nlink));
    let m5 = write_bytes(m4, addr + 32, spec_u64_to_le_bytes(st.size));
    let m6 = write_bytes(m5, addr + 40, spec_u64_to_le_bytes(st.atim.0));
    let m7 = write_bytes(m6, addr + 48, spec_u64_to_le_bytes(st.mtim.0));
    write_bytes(m7, addr + 56, spec_u64_to_le_bytes(st.ctim.0))
}

/// Writes a `filestat` result to `addr`; fails with `Eoverflow` if `addr`
/// does not hold 64 bytes.
pub fn wasm2c_marshal_and_writeback_filestat(ctx: &mut VmCtx, addr: usize, res: RuntimeResult<FileStat>) -> (r: u32)
    requires
        old(ctx).wf(),
    ensures
        final(ctx).wf(),
        final(ctx).same_but_mem(old(ctx)),
        !old(ctx).fits(addr as int, 64) ==> r == wasi_errno(RuntimeError::Eoverflow) && final(ctx).mem == old(ctx).mem,
        old(ctx).fits(addr as int, 64) ==> r == marshal_code(res) && final(ctx).mem@ == (match res {
            Ok(st) => filestat_written(old(ctx).mem@, addr as int, st),
            Err(_) => old(ctx).mem@,
        }),
{
    if !ctx.fits_in_lin_mem_usize(addr, 64) {
        return as_u32(RuntimeError::Eoverflow);
    }
    match res {
        Ok(r) => {
            ctx.write_u64(addr, r.dev);
            ctx.write_u64(addr + 8, r.ino);
            ctx.write_u64(addr + 16, r.filetype.to_wasi() as u64);
            ctx.write_u64(addr + 24, r.nlink);
            ctx.write_u64(addr + 32, r.size);
            ctx.write_u64(addr + 40, r.atim.nsec());
            ctx.write_u64(addr + 48, r.mtim.nsec());
            ctx.write_u64(addr + 56, r.ctim.nsec());
            0
        },
        Err(err) => as_u32(err),
    }
}

/// Writes a pair of `u32` results to `addr0` and `addr1`; fails with
/// `Eoverflow` if either does not hold four bytes.
pub fn wasm2c_marshal_and_writeback_u32_pair(
    ctx: &mut VmCtx,
    addr0: usize,
    addr1: usize,
    res: RuntimeResult<(u32, u32)>,
) -> (r: u32)
    requires
        old(ctx).wf(),
    ensures
        final(ctx).wf(),
        final(ctx).same_but_mem(old(ctx)),
        !(old(ctx).fits(addr0 as int, 4) && old(ctx).fits(addr1 as int, 4)) ==> r == wasi_errno(
            RuntimeError::Eoverflow,
        ) && final(ctx).mem == old(ctx).mem,
        old(ctx).fits(addr0 as int, 4) && old(ctx).fits(addr1 as int, 4) ==> r == marshal_code(res)
            && final(ctx).mem@ == (match res {
            Ok((v0, v1)) => write_bytes(
                write_bytes(old(ctx).mem@, addr0 as int, spec_u32_to_le_bytes(v0)),
                addr1 as int,
                spec_u32_to_le_bytes(v1),
            ),
            Err(_) => old(ctx).mem@,
        }),
{
    if !ctx.fits_in_lin_mem_usize(addr0, 4) {
        return as_u32(RuntimeError::Eoverflow);
    }
    if !ctx.fits_in_lin_mem_usize(addr1, 4) {
        return as_u32(RuntimeError::Eoverflow);
    }
    match res {
        Ok((v0, v1)) => {
            ctx.write_u32(addr0, v0);
            ctx.write_u32(addr1, v1);
            0
        },
        Err(err) => as_u32(err),
    }
}

} // verus!
