//! A minimal sandbox context: linear memory at `membase`, and a pair of
//! tables that seal host descriptors to sandbox descriptors in both
//! directions. The sandbox-to-host table has `MAX_SANDBOX_FDS` entries and
//! the host-to-sandbox table `MAX_HOST_FDS`; an entry of -1 is empty.
use vstd::prelude::*;

verus! {

pub const MAX_SANDBOX_FDS: i32 = 8;
pub const MAX_HOST_FDS: i32 = 1024;

pub type HostPtr = usize;
pub type SboxPtr = u32;
pub type HostFd = i32;
pub type SboxFd = i32;

pub struct VmCtx {
    pub membase: usize,
    pub memlen: usize,
    pub fd_sbox_to_host: [HostFd; 8],
    pub fd_host_to_sbox: [SboxFd; 1024],
    pub counter: i32,
}

/// The end of linear memory fits in a host address.
pub open spec fn valid_ctx(ctx: VmCtx) -> bool {
    ctx.membase + ctx.memlen <= usize::MAX
}

/// Whether a host address lies in linear memory, its end included.
pub open spec fn in_region(ctx: VmCtx, ptr: int) -> bool {
    ctx.membase <= ptr <= ctx.membase + ctx.memlen
}

/// Every mapped sandbox descriptor maps to a host descriptor below
/// `MAX_HOST_FDS`, and every mapped host descriptor maps back to a sandbox
/// descriptor below `MAX_SANDBOX_FDS`.
pub open spec fn fd_safe(ctx: VmCtx) -> bool {
    &&& forall|s: int|
        0 <= s < MAX_SANDBOX_FDS && #[trigger] ctx.fd_sbox_to_host[s] != -1 ==> 0
            <= ctx.fd_sbox_to_host[s] < MAX_HOST_FDS
    &&& forall|h: int|
        0 <= h < MAX_HOST_FDS && #[trigger] ctx.fd_host_to_sbox[h] != -1 ==> 0
            <= ctx.fd_host_to_sbox[h] < MAX_SANDBOX_FDS
}

/// `after` is `before` with the host descriptor `h` sealed to the sandbox
/// descriptor `v` in both tables.
pub open spec fn sealed(before: VmCtx, after: VmCtx, h: HostFd, v: SboxFd) -> bool {
    &&& after.fd_sbox_to_host@ == before.fd_sbox_to_host@.update(v as int, h)
    &&& after.fd_host_to_sbox@ == before.fd_host_to_sbox@.update(h as int, v)
    &&& after.membase == before.membase
    &&& after.memlen == before.memlen
    &&& after.counter == before.counter
}

/// `after` is `before` with the seal of the host descriptor `h` to the
/// sandbox descriptor `v` emptied in both tables.
pub open spec fn unsealed(before: VmCtx, after: VmCtx, h: HostFd, v: SboxFd) -> bool {
    &&& after.fd_sbox_to_host@ == before.fd_sbox_to_host@.update(v as int, -1i32)
    &&& after.fd_host_to_sbox@ == before.fd_host_to_sbox@.update(h as int, -1i32)
    &&& after.membase == before.membase
    &&& after.memlen == before.memlen
    &&& after.counter == before.counter
}

/// A context over the linear memory of `memlen` bytes at `membase`, with
/// no descriptor sealed.
pub fn fresh_ctx(membase: usize, memlen: usize) -> (r: VmCtx)
    ensures
        r.membase == membase,
        r.memlen == memlen,
        r.counter == 0,
        forall|i: int| 0 <= i < MAX_SANDBOX_FDS ==> #[trigger] r.fd_sbox_to_host[i] == -1,
        forall|i: int| 0 <= i < MAX_HOST_FDS ==> #[trigger] r.fd_host_to_sbox[i] == -1,
        fd_safe(r),
{
    let fd_sbox_to_host: [HostFd; 8] = [-1; 8];
    let fd_host_to_sbox: [SboxFd; 1024] = [-1; 1024];
    VmCtx { membase, memlen, fd_sbox_to_host, fd_host_to_sbox, counter: 0 }
}

/// Whether the host address `ptr` lies in linear memory, its end included.
pub fn in_mem_region(ctx: &VmCtx, ptr: usize) -> (r: bool)
    requires
        valid_ctx(*ctx),
    ensures
        r == in_region(*ctx, ptr as int),
{
    (ptr >= ctx.membase) && (ptr <= (ctx.membase + ctx.memlen))
}

/// Whether `cnt` bytes from the host address `buf` end before the end of
/// linear memory.
pub fn fits_in_mem_region(ctx: &VmCtx, buf: usize, cnt: usize) -> (r: bool)
    requires
        valid_ctx(*ctx),
        buf + cnt <= usize::MAX,
    ensures
        r == (buf + cnt < ctx.membase + ctx.memlen),
{
    (buf + cnt) < (ctx.membase + ctx.memlen)
}

/// The host address of the sandbox pointer `ptr`.
pub fn swizzle(ctx: &VmCtx, ptr: SboxPtr) -> (r: HostPtr)
    requires
        ctx.membase + ptr <= usize::MAX,
    ensures
        r == ctx.membase + ptr,
{
    ctx.membase + (ptr as usize)
}

/// Whether the sandbox descriptor `v_fd` is sealed to a host descriptor.
pub fn in_fd_map(ctx: &VmCtx, v_fd: SboxFd) -> (r: bool)
    requires
        0 <= v_fd < MAX_SANDBOX_FDS,
    ensures
        r == (ctx.fd_sbox_to_host[v_fd as int] != -1),
{
    ctx.fd_sbox_to_host[v_fd as usize] != -1
}

/// Whether the host descriptor `h_fd` is sealed to a sandbox descriptor.
pub fn in_rev_fd_map(ctx: &VmCtx, h_fd: HostFd) -> (r: bool)
    requires
        0 <= h_fd < MAX_HOST_FDS,
    ensures
        r == (ctx.fd_host_to_sbox[h_fd as int] != -1),
{
    ctx.fd_host_to_sbox[h_fd as usize] != -1
}

/// Seals the host descriptor `h_fd` to the sandbox descriptor `v_fd` in
/// both tables and returns `v_fd`; returns -1 and changes nothing if
/// `h_fd` lies outside `0..MAX_HOST_FDS` or `v_fd` outside
/// `0..MAX_SANDBOX_FDS`. Sealing keeps `fd_safe`.
pub fn create_seal(ctx: &mut VmCtx, h_fd: HostFd, v_fd: SboxFd) -> (r: SboxFd)
    ensures
        (0 <= h_fd < MAX_HOST_FDS && 0 <= v_fd < MAX_SANDBOX_FDS) ==> r == v_fd && sealed(
            *old(ctx),
            *final(ctx),
            h_fd,
            v_fd,
        ),
        !(0 <= h_fd < MAX_HOST_FDS && 0 <= v_fd < MAX_SANDBOX_FDS) ==> r == -1 && *final(ctx)
            == *old(ctx),
        fd_safe(*old(ctx)) ==> fd_safe(*final(ctx)),
{
    if h_fd < 0 || h_fd >= MAX_HOST_FDS {
        return -1;
    }
    if v_fd < 0 || v_fd >= MAX_SANDBOX_FDS {
        return -1;
    }
    ctx.fd_sbox_to_host[v_fd as usize] = h_fd;
    ctx.fd_host_to_sbox[h_fd as usize] = v_fd;
    v_fd
}

/// Unseals the sandbox descriptor `v_fd`: if it is sealed to a host
/// descriptor in `0..MAX_HOST_FDS`, both entries become empty; otherwise
/// nothing changes. Unsealing keeps `fd_safe`.
pub fn delete_seal(ctx: &mut VmCtx, v_fd: SboxFd)
    requires
        0 <= v_fd < MAX_SANDBOX_FDS,
    ensures
        ({
            let h = old(ctx).fd_sbox_to_host[v_fd as int];
            if 0 <= h < MAX_HOST_FDS {
                unsealed(*old(ctx), *final(ctx), h, v_fd)
            } else {
                *final(ctx) == *old(ctx)
            }
        }),
        fd_safe(*old(ctx)) ==> fd_safe(*final(ctx)),
{
    let h_fd = ctx.fd_sbox_to_host[v_fd as usize];
    if (h_fd >= 0) && (h_fd < MAX_HOST_FDS) {
        ctx.fd_sbox_to_host[v_fd as usize] = -1;
        ctx.fd_host_to_sbox[h_fd as usize] = -1;
    }
}

/// The sandbox descriptor sealed to the host descriptor `h_fd`, or -1.
pub fn reverse_translate(ctx: &VmCtx, h_fd: HostFd) -> (r: SboxFd)
    requires
        0 <= h_fd < MAX_HOST_FDS,
    ensures
        r == ctx.fd_host_to_sbox[h_fd as int],
{
    ctx.fd_host_to_sbox[h_fd as usize]
}

/// The host descriptor sealed to the sandbox descriptor `sbox_fd`, or -1.
pub fn translate_fd(ctx: &VmCtx, sbox_fd: SboxFd) -> (r: HostFd)
    requires
        0 <= sbox_fd < MAX_SANDBOX_FDS,
    ensures
        r == ctx.fd_sbox_to_host[sbox_fd as int],
{
    ctx.fd_sbox_to_host[sbox_fd as usize]
}

/// Checks the tables at the sandbox descriptor `sbox_fd` and the host
/// descriptor `h_fd`: a sealed sandbox descriptor must translate to a host
/// descriptor below `MAX_HOST_FDS`, a sealed host descriptor back to a
/// sandbox descriptor below `MAX_SANDBOX_FDS`. It never fails on a context
/// that is `fd_safe`.
pub fn assert_safe(ctx: &VmCtx, sbox_fd: SboxFd, h_fd: HostFd) -> (r: bool)
    requires
        0 <= sbox_fd < MAX_SANDBOX_FDS,
        0 <= h_fd < MAX_HOST_FDS,
    ensures
        r == ((ctx.fd_sbox_to_host[sbox_fd as int] != -1 ==> 0 <= ctx.fd_sbox_to_host[sbox_fd as int]
            < MAX_HOST_FDS) && (ctx.fd_host_to_sbox[h_fd as int] != -1 ==> 0
            <= ctx.fd_host_to_sbox[h_fd as int] < MAX_SANDBOX_FDS)),
        fd_safe(*ctx) ==> r,
{
    let mut ok = true;
    if in_fd_map(ctx, sbox_fd) {
        let dummy_h_fd = translate_fd(ctx, sbox_fd);
        ok = ok && dummy_h_fd >= 0 && dummy_h_fd < MAX_HOST_FDS;
    }
    if in_rev_fd_map(ctx, h_fd) {
        let dummy_sbox_fd = reverse_translate(ctx, h_fd);
        ok = ok && dummy_sbox_fd >= 0 && dummy_sbox_fd < MAX_SANDBOX_FDS;
    }
    ok
}

/// What the opening request ends with, once the host has opened the
/// resolved path as `fd`: the counter advances and `fd` is sealed to it.
/// The result is the new sandbox descriptor, or -1, with the tables
/// unchanged, if `fd` lies outside `0..MAX_HOST_FDS` or the counter
/// outside `0..MAX_SANDBOX_FDS` (the table is full). The tables stay
/// `fd_safe`.
pub fn wasi_open(ctx: &mut VmCtx, fd: HostFd) -> (r: isize)
    requires
        old(ctx).counter < i32::MAX,
    ensures
        final(ctx).counter == old(ctx).counter + 1,
        final(ctx).membase == old(ctx).membase,
        final(ctx).memlen == old(ctx).memlen,
        ({
            let v = old(ctx).counter + 1;
            if 0 <= fd < MAX_HOST_FDS && 0 <= v < MAX_SANDBOX_FDS {
                &&& r == v
                &&& final(ctx).fd_sbox_to_host@ == old(ctx).fd_sbox_to_host@.update(v, fd)
                &&& final(ctx).fd_host_to_sbox@ == old(ctx).fd_host_to_sbox@.update(fd as int, v as i32)
            } else {
                &&& r == -1
                &&& final(ctx).fd_sbox_to_host == old(ctx).fd_sbox_to_host
                &&& final(ctx).fd_host_to_sbox == old(ctx).fd_host_to_sbox
            }
        }),
        fd_safe(*old(ctx)) ==> fd_safe(*final(ctx)),
{
    ctx.counter += 1;
    let counter = ctx.counter;
    let sbox_fd = create_seal(ctx, fd, counter);
    sbox_fd as isize
}

/// The closing request: `None` (the request fails with -1) unless
/// `v_fd` lies in `0..MAX_SANDBOX_FDS` and is sealed; otherwise the seal
/// is deleted and the host descriptor it held is returned for closing.
pub fn wasi_close(ctx: &mut VmCtx, v_fd: SboxFd) -> (r: Option<HostFd>)
    ensures
        ({
            if 0 <= v_fd < MAX_SANDBOX_FDS && old(ctx).fd_sbox_to_host[v_fd as int] != -1 {
                let h = old(ctx).fd_sbox_to_host[v_fd as int];
                &&& r == Some(h)
                &&& 0 <= h < MAX_HOST_FDS ==> unsealed(*old(ctx), *final(ctx), h, v_fd)
                &&& !(0 <= h < MAX_HOST_FDS) ==> *final(ctx) == *old(ctx)
            } else {
                r is None && *final(ctx) == *old(ctx)
            }
        }),
        fd_safe(*old(ctx)) ==> fd_safe(*final(ctx)),
{
    if (v_fd < 0) || (v_fd >= MAX_SANDBOX_FDS) || !in_fd_map(ctx, v_fd) {
        return None;
    }
    let fd = translate_fd(ctx, v_fd);
    delete_seal(ctx, v_fd);
    Some(fd)
}

/// The checks on a transfer of `v_cnt` bytes at the sandbox pointer `v_buf`
/// for the sandbox descriptor `v_fd`: the buffer must start in linear
/// memory, be shorter than it and end before its end, and `v_fd` must lie
/// in `0..MAX_SANDBOX_FDS` and be sealed. The result is the host
/// descriptor, host address and count to hand to the host, or `None`
/// (the request fails with -1).
pub open spec fn transfer_checks(ctx: VmCtx, v_fd: SboxFd, v_buf: SboxPtr, v_cnt: usize) -> Option<
    (HostFd, HostPtr, usize),
> {
    let buf = ctx.membase + v_buf;
    if !in_region(ctx, buf) || v_cnt >= ctx.memlen || !(buf + v_cnt < ctx.membase + ctx.memlen) {
        None
    } else if v_fd < 0 || v_fd >= MAX_SANDBOX_FDS || ctx.fd_sbox_to_host[v_fd as int] == -1 {
        None
    } else {
        Some((ctx.fd_sbox_to_host[v_fd as int], buf as usize, v_cnt))
    }
}

/// Shared body of the reading and writing requests.
fn transfer_request(ctx: &VmCtx, v_fd: SboxFd, v_buf: SboxPtr, v_cnt: usize) -> (r: Option<
    (HostFd, HostPtr, usize),
>)
    requires
        valid_ctx(*ctx),
        ctx.membase + v_buf <= usize::MAX,
        in_region(*ctx, ctx.membase + v_buf) && v_cnt < ctx.memlen ==> ctx.membase + v_buf + v_cnt
            <= usize::MAX,
    ensures
        r == transfer_checks(*ctx, v_fd, v_buf, v_cnt),
{
    let buf = swizzle(ctx, v_buf);
    if !in_mem_region(ctx, buf) || v_cnt >= ctx.memlen || !fits_in_mem_region(ctx, buf, v_cnt) {
        return None;
    }
    if v_fd < 0 || v_fd >= MAX_SANDBOX_FDS || !in_fd_map(ctx, v_fd) {
        return None;
    }
    let fd = translate_fd(ctx, v_fd);
    Some((fd, buf, v_cnt))
}

/// The reading request: the host descriptor, host address and count the
/// host reads with, or `None` (the request fails with -1). What is handed
/// on lies wholly inside linear memory.
pub fn wasi_read(ctx: &VmCtx, v_fd: SboxFd, v_buf: SboxPtr, v_cnt: usize) -> (r: Option<
    (HostFd, HostPtr, usize),
>)
    requires
        valid_ctx(*ctx),
        ctx.membase + v_buf <= usize::MAX,
        in_region(*ctx, ctx.membase + v_buf) && v_cnt < ctx.memlen ==> ctx.membase + v_buf + v_cnt
            <= usize::MAX,
    ensures
        r == transfer_checks(*ctx, v_fd, v_buf, v_cnt),
        r matches Some((fd, buf, cnt)) ==> ctx.membase <= buf && buf + cnt < ctx.membase
            + ctx.memlen && fd != -1,
{
    transfer_request(ctx, v_fd, v_buf, v_cnt)
}

/// The writing request: the host descriptor, host address and count the
/// host writes with, or `None` (the request fails with -1). What is handed
/// on lies wholly inside linear memory.
pub fn wasi_write(ctx: &VmCtx, v_fd: SboxFd, v_buf: SboxPtr, v_cnt: usize) -> (r: Option<
    (HostFd, HostPtr, usize),
>)
    requires
        valid_ctx(*ctx),
        ctx.membase + v_buf <= usize::MAX,
        in_region(*ctx, ctx.membase + v_buf) && v_cnt < ctx.memlen ==> ctx.membase + v_buf + v_cnt
            <= usize::MAX,
    ensures
        r == transfer_checks(*ctx, v_fd, v_buf, v_cnt),
        r matches Some((fd, buf, cnt)) ==> ctx.membase <= buf && buf + cnt < ctx.membase
            + ctx.memlen && fd != -1,
{
    transfer_request(ctx, v_fd, v_buf, v_cnt)
}

/// Sealing a host descriptor to a sandbox descriptor, neither of them
/// sealed before, and then unsealing the sandbox descriptor gives back the
/// context as it was.
pub proof fn lemma_seal_then_unseal(before: VmCtx, mid: VmCtx, after: VmCtx, h: HostFd, v: SboxFd)
    requires
        0 <= h < MAX_HOST_FDS,
        0 <= v < MAX_SANDBOX_FDS,
        before.fd_sbox_to_host[v as int] == -1,
        before.fd_host_to_sbox[h as int] == -1,
        sealed(before, mid, h, v),
        unsealed(mid, after, mid.fd_sbox_to_host[v as int], v),
    ensures
        after == before,
{
    assert(mid.fd_sbox_to_host[v as int] == h);
    assert(after.fd_sbox_to_host@ =~= before.fd_sbox_to_host@);
    assert(after.fd_host_to_sbox@ =~= before.fd_host_to_sbox@);
    assert(after.fd_sbox_to_host =~= before.fd_sbox_to_host);
    assert(after.fd_host_to_sbox =~= before.fd_host_to_sbox);
}

} // verus!
