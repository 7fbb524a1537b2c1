//! The WASI hostcalls. Each one checks the sandbox's arguments and decides
//! the system call to make (a `HostCall`), which the embedder performs;
//! where the result needs more work, a second function takes the host's
//! answer. Hostcalls that need no system call are done here entirely.
use vstd::prelude::*;
use crate::error::{RuntimeError, RuntimeResult};
use crate::bits::bit16;
use crate::flags::{FdFlags, FdStat, FstFlags, SdFlags, fdflags_from_posix, fdflags_to_posix};
use crate::hostcall::{HostCall, call_permitted};
use crate::iov::{IoKind, IovLoop, WasmIoVec, iov_entries_ok, iov_entry, iov_entry_status, parse_iovs};
use crate::hostcall::fd_open;
use crate::flags::RiFlags;
use crate::flags::or_if;
use crate::posix;
use crate::runtime::VmCtx;
use crate::runtime::{translated, write_bytes};
use crate::bits::{bit32, bitwise_or, flag_set};
use crate::flags::{LookupFlags, OFlags, lemma_path_open_nofollow, path_open_flags};
use crate::path::{PathExpander, SandboxedPath};
use crate::types::{
    Advice, ClockId, Filetype, HostFd, HostStat, Timespec, Timestamp, Whence, WasiProto, filetype_of_mode,
    sock_domain_to_posix, sock_type_to_posix, HOMEDIR_FD, MAX_SBOX_FDS,
};
use vstd::bytes::{spec_u16_from_le_bytes, spec_u32_from_le_bytes};

verus! {

/// The request that needs only the host descriptor of `v_fd`.
pub open spec fn on_fd(ctx: &VmCtx, v_fd: u32, f: spec_fn(HostFd) -> HostCall) -> RuntimeResult<HostCall> {
    match ctx.fdmap.lookup(v_fd) {
        Ok(fd) => Ok(f(fd)),
        Err(e) => Err(e),
    }
}

/// The `lseek` origin that a WASI `whence` names.
pub open spec fn seek_whence(v: u32) -> Option<i32> {
    if v == 0 {
        Some(posix::SEEK_SET)
    } else if v == 1 {
        Some(posix::SEEK_CUR)
    } else if v == 2 {
        Some(posix::SEEK_END)
    } else {
        None
    }
}

/// Whether `a` is a `posix_fadvise` advice.
pub open spec fn valid_advice(a: i32) -> bool {
    a == posix::POSIX_FADV_NORMAL || a == posix::POSIX_FADV_SEQUENTIAL || a == posix::POSIX_FADV_RANDOM
        || a == posix::POSIX_FADV_WILLNEED || a == posix::POSIX_FADV_DONTNEED || a
        == posix::POSIX_FADV_NOREUSE
}

/// The `timespec` that sets a time to `t` nanoseconds (`use_ts`), to the
/// current time (`use_now`), or leaves it alone.
pub open spec fn utime_spec(t: u64, use_ts: bool, use_now: bool) -> Timespec {
    if use_ts {
        Timestamp(t).spec_to_timespec()
    } else if use_now {
        Timespec { tv_sec: 0, tv_nsec: posix::UTIME_NOW }
    } else {
        Timespec { tv_sec: 0, tv_nsec: posix::UTIME_OMIT }
    }
}

/// `fd_seek`: moves the offset of `v_fd` by `v_filedelta` from the origin
/// `v_whence` (`Einval` if it names none).
pub fn fd_seek_request(ctx: &VmCtx, v_fd: u32, v_filedelta: i64, v_whence: u32) -> (r: RuntimeResult<HostCall>)
    requires
        ctx.wf(),
    ensures
        r == (match seek_whence(v_whence) {
            None => Err(RuntimeError::Einval),
            Some(w) => on_fd(ctx, v_fd, |fd: HostFd| HostCall::Seek { fd, offset: v_filedelta, whence: w }),
        }),
        r matches Ok(c) ==> call_permitted(ctx, c),
{
    let whence = match Whence::from_u32(v_whence) {
        Some(w) => w,
        None => return Err(RuntimeError::Einval),
    };
    let fd = ctx.fdmap.fd_to_native(v_fd)?;
    Ok(HostCall::Seek { fd, offset: v_filedelta, whence: whence.to_posix() })
}

/// `fd_tell`: the offset of `v_fd`, as a seek by nothing from the current
/// offset.
pub fn fd_tell_request(ctx: &VmCtx, v_fd: u32) -> (r: RuntimeResult<HostCall>)
    requires
        ctx.wf(),
    ensures
        r == on_fd(ctx, v_fd, |fd: HostFd| HostCall::Seek { fd, offset: 0, whence: posix::SEEK_CUR }),
        r matches Ok(c) ==> call_permitted(ctx, c),
{
    fd_seek_request(ctx, v_fd, 0, 1)
}

/// `fd_advise`: passes the advice `v_advice` (`Einval` if it is none).
pub fn fd_advise_request(ctx: &VmCtx, v_fd: u32, offset: u64, len: u64, v_advice: u32) -> (r: RuntimeResult<HostCall>)
    requires
        ctx.wf(),
    ensures
        r == (if !valid_advice(v_advice as i32) {
            Err(RuntimeError::Einval)
        } else {
            on_fd(
                ctx,
                v_fd,
                |fd: HostFd|
                    HostCall::Advise { fd, offset: offset as i64, len: len as i64, advice: v_advice as i32 },
            )
        }),
        r matches Ok(c) ==> call_permitted(ctx, c),
{
    let advice = Advice::try_from_i32(v_advice as i32)?;
    let fd = ctx.fdmap.fd_to_native(v_fd)?;
    Ok(HostCall::Advise { fd, offset: offset as i64, len: len as i64, advice: advice.to_posix() })
}

/// `fd_allocate`: reserves `len` bytes at `offset`.
pub fn fd_allocate_request(ctx: &VmCtx, v_fd: u32, offset: u64, len: u64) -> (r: RuntimeResult<HostCall>)
    requires
        ctx.wf(),
    ensures
        r == on_fd(ctx, v_fd, |fd: HostFd| HostCall::Allocate { fd, offset: offset as i64, len: len as i64 }),
        r matches Ok(c) ==> call_permitted(ctx, c),
{
    let fd = ctx.fdmap.fd_to_native(v_fd)?;
    Ok(HostCall::Allocate { fd, offset: offset as i64, len: len as i64 })
}

/// `fd_sync`.
pub fn fd_sync_request(ctx: &VmCtx, v_fd: u32) -> (r: RuntimeResult<HostCall>)
    requires
        ctx.wf(),
    ensures
        r == on_fd(ctx, v_fd, |fd: HostFd| HostCall::Sync { fd }),
        r matches Ok(c) ==> call_permitted(ctx, c),
{
    let fd = ctx.fdmap.fd_to_native(v_fd)?;
    Ok(HostCall::Sync { fd })
}

/// `fd_datasync`.
pub fn fd_datasync_request(ctx: &VmCtx, v_fd: u32) -> (r: RuntimeResult<HostCall>)
    requires
        ctx.wf(),
    ensures
        r == on_fd(ctx, v_fd, |fd: HostFd| HostCall::Datasync { fd }),
        r matches Ok(c) ==> call_permitted(ctx, c),
{
    let fd = ctx.fdmap.fd_to_native(v_fd)?;
    Ok(HostCall::Datasync { fd })
}

/// `fd_fdstat_get`: the `fstat` and then the `fcntl(F_GETFL)` to make.
pub fn fd_fdstat_get_request(ctx: &VmCtx, v_fd: u32) -> (r: RuntimeResult<(HostCall, HostCall)>)
    requires
        ctx.wf(),
    ensures
        r == (match ctx.fdmap.lookup(v_fd) {
            Ok(fd) => Ok((HostCall::Fstat { fd }, HostCall::Fgetfl { fd })),
            Err(e) => Err(e),
        }),
        r matches Ok(cs) ==> call_permitted(ctx, cs.0) && call_permitted(ctx, cs.1),
{
    let fd = ctx.fdmap.fd_to_native(v_fd)?;
    Ok((HostCall::Fstat { fd }, HostCall::Fgetfl { fd }))
}

/// `fd_fdstat_get`, from the host's `stat` and descriptor flags: the file
/// type, the descriptor flags, no rights and every inheritable right.
pub fn fdstat_from_host(stat: HostStat, mode_flags: usize) -> (r: FdStat)
    ensures
        r.fs_filetype == filetype_of_mode(stat.st_mode),
        r.fs_flags.0 == fdflags_from_posix(mode_flags as i32),
        r.fs_rights_base == 0,
        r.fs_rights_inheriting == u64::MAX,
{
    FdStat {
        fs_filetype: Filetype::from_mode(stat.st_mode),
        fs_flags: FdFlags::from_posix(mode_flags as i32),
        fs_rights_base: 0,
        fs_rights_inheriting: u64::MAX,
    }
}

/// `fd_fdstat_set_flags`: sets the descriptor flags of `v_flags`.
pub fn fd_fdstat_set_flags_request(ctx: &VmCtx, v_fd: u32, v_flags: u32) -> (r: RuntimeResult<HostCall>)
    requires
        ctx.wf(),
    ensures
        r == on_fd(
            ctx,
            v_fd,
            |fd: HostFd| HostCall::Fsetfl { fd, flags: fdflags_to_posix((v_flags as i32) as u16) },
        ),
        r matches Ok(c) ==> call_permitted(ctx, c),
{
    let flags = FdFlags::from_c_int(v_flags as i32);
    let fd = ctx.fdmap.fd_to_native(v_fd)?;
    Ok(HostCall::Fsetfl { fd, flags: flags.to_posix() })
}

/// `fd_filestat_get`: the `fstat` to make.
pub fn fd_filestat_get_request(ctx: &VmCtx, v_fd: u32) -> (r: RuntimeResult<HostCall>)
    requires
        ctx.wf(),
    ensures
        r == on_fd(ctx, v_fd, |fd: HostFd| HostCall::Fstat { fd }),
        r matches Ok(c) ==> call_permitted(ctx, c),
{
    let fd = ctx.fdmap.fd_to_native(v_fd)?;
    Ok(HostCall::Fstat { fd })
}

/// `fd_filestat_set_size`: truncates or extends to `size` bytes.
pub fn fd_filestat_set_size_request(ctx: &VmCtx, v_fd: u32, size: i64) -> (r: RuntimeResult<HostCall>)
    requires
        ctx.wf(),
    ensures
        r == on_fd(ctx, v_fd, |fd: HostFd| HostCall::Ftruncate { fd, length: size }),
        r matches Ok(c) ==> call_permitted(ctx, c),
{
    let fd = ctx.fdmap.fd_to_native(v_fd)?;
    Ok(HostCall::Ftruncate { fd, length: size })
}

/// `fd_filestat_set_times`: sets the access and modification times as
/// the flags say (`Einval` if a time is both given and asked to be now).
pub fn fd_filestat_set_times_request(
    ctx: &VmCtx,
    v_fd: u32,
    v_atim: u64,
    v_mtim: u64,
    v_fst_flags: u32,
) -> (r: RuntimeResult<HostCall>)
    requires
        ctx.wf(),
    ensures
        ({
            let f = v_fst_flags as u16;
            r == (if (bit16(f, 0) && bit16(f, 1)) || (bit16(f, 2) && bit16(f, 3)) {
                Err(RuntimeError::Einval)
            } else {
                on_fd(
                    ctx,
                    v_fd,
                    |fd: HostFd|
                        HostCall::Futimens {
                            fd,
                            atime: utime_spec(v_atim, bit16(f, 0), bit16(f, 1)),
                            mtime: utime_spec(v_mtim, bit16(f, 2), bit16(f, 3)),
                        },
                )
            })
        }),
        r matches Ok(c) ==> call_permitted(ctx, c),
{
    let atim = Timestamp::new(v_atim);
    let mtim = Timestamp::new(v_mtim);
    let fst_flags = FstFlags::try_from_u16(v_fst_flags as u16)?;
    let fd = ctx.fdmap.fd_to_native(v_fd)?;
    let atim_spec = atim.ts_to_native(fst_flags.atim(), fst_flags.atim_now());
    let mtim_spec = mtim.ts_to_native(fst_flags.mtim(), fst_flags.mtim_now());
    Ok(HostCall::Futimens { fd, atime: atim_spec, mtime: mtim_spec })
}

/// Everything but the descriptor table is as in `other`.
pub open spec fn same_but_fdmap(a: &VmCtx, b: &VmCtx) -> bool {
    &&& a.mem == b.mem
    &&& a.memlen == b.memlen
    &&& a.homedir == b.homedir
    &&& a.homedir_host_fd == b.homedir_host_fd
    &&& a.arg_buffer == b.arg_buffer
    &&& a.argc == b.argc
    &&& a.env_buffer == b.env_buffer
    &&& a.envc == b.envc
    &&& a.netlist == b.netlist
}

/// `fd_close`: frees the sandbox descriptor `v_fd` and gives the `close`
/// of its host descriptor; the table entry is freed before the host closes
/// the descriptor.
pub fn fd_close_request(ctx: &mut VmCtx, v_fd: u32) -> (r: RuntimeResult<HostCall>)
    requires
        old(ctx).wf(),
    ensures
        final(ctx).wf(),
        same_but_fdmap(final(ctx), old(ctx)),
        match old(ctx).fdmap.lookup(v_fd) {
            Ok(fd) => {
                &&& r == Ok::<HostCall, RuntimeError>(HostCall::Close { fd })
                &&& final(ctx).fdmap.m@ == old(ctx).fdmap.m@.update(v_fd as int, Err(RuntimeError::Ebadf))
                &&& final(ctx).fdmap.reserve@ == old(ctx).fdmap.reserve@.push(v_fd)
                &&& final(ctx).fdmap.sockinfo == old(ctx).fdmap.sockinfo
                &&& final(ctx).fdmap.counter == old(ctx).fdmap.counter
            },
            Err(e) => r == Err::<HostCall, RuntimeError>(e) && *final(ctx) == *old(ctx),
        },
        r matches Ok(c) ==> call_permitted(old(ctx), c),
        old(ctx).fdmap.slots_sound() ==> final(ctx).fdmap.slots_sound(),
{
    if v_fd >= MAX_SBOX_FDS {
        return Err(RuntimeError::Ebadf);
    }
    let fd = ctx.fdmap.m[v_fd as usize]?;
    ctx.fdmap.delete(v_fd);
    Ok(HostCall::Close { fd })
}

/// `random_get`: fills the `len` bytes at `ptr` with random bytes
/// (`Efault` if they do not lie in linear memory).
pub fn random_get_request(ctx: &VmCtx, ptr: u32, len: u32) -> (r: RuntimeResult<HostCall>)
    requires
        ctx.wf(),
    ensures
        r == (if ctx.fits(ptr as int, len as int) {
            Ok(HostCall::Getrandom { buf: WasmIoVec { iov_base: ptr, iov_len: len }, flags: 0 })
        } else {
            Err(RuntimeError::Efault)
        }),
        r matches Ok(c) ==> call_permitted(ctx, c),
{
    if !ctx.fits_in_lin_mem(ptr, len) {
        return Err(RuntimeError::Efault);
    }
    Ok(HostCall::Getrandom { buf: WasmIoVec { iov_base: ptr, iov_len: len }, flags: 0 })
}

/// The host's number for the WASI clock `id`, if it names one.
pub open spec fn clock_posix(id: u32) -> Option<i32> {
    if id == 0 {
        Some(posix::CLOCK_REALTIME)
    } else if id == 1 {
        Some(posix::CLOCK_MONOTONIC)
    } else if id == 2 {
        Some(posix::CLOCK_PROCESS_CPUTIME_ID)
    } else if id == 3 {
        Some(posix::CLOCK_THREAD_CPUTIME_ID)
    } else {
        None
    }
}

/// `clock_res_get`: the resolution of the clock `clock_id` (`Einval` if
/// it names none).
pub fn clock_res_get_request(clock_id: u32) -> (r: RuntimeResult<HostCall>)
    ensures
        r == (match clock_posix(clock_id) {
            Some(c) => Ok(HostCall::ClockGetRes { clock: c }),
            None => Err(RuntimeError::Einval),
        }),
{
    let id = ClockId::try_from_u32(clock_id)?;
    Ok(HostCall::ClockGetRes { clock: id.to_posix() })
}

/// `clock_time_get`: the time of the clock `clock_id` (`Einval` if it
/// names none); the precision is ignored.
pub fn clock_time_get_request(clock_id: u32, _precision: u64) -> (r: RuntimeResult<HostCall>)
    ensures
        r == (match clock_posix(clock_id) {
            Some(c) => Ok(HostCall::ClockGetTime { clock: c }),
            None => Err(RuntimeError::Einval),
        }),
{
    let id = ClockId::try_from_u32(clock_id)?;
    Ok(HostCall::ClockGetTime { clock: id.to_posix() })
}

/// The `shutdown` mode for WASI `sdflags`, if they ask for one.
pub open spec fn shutdown_how(v_how: u32) -> Option<i32> {
    let f = (v_how as u8) as u16;
    if bit16(f, 0) && bit16(f, 1) {
        Some(posix::SHUT_RDWR)
    } else if bit16(f, 0) {
        Some(posix::SHUT_RD)
    } else if bit16(f, 1) {
        Some(posix::SHUT_WR)
    } else {
        None
    }
}

/// `sock_shutdown`: shuts down reading, writing or both (`Einval` if the
/// flags ask for neither).
pub fn sock_shutdown_request(ctx: &VmCtx, v_fd: u32, v_how: u32) -> (r: RuntimeResult<HostCall>)
    requires
        ctx.wf(),
    ensures
        r == (match ctx.fdmap.lookup(v_fd) {
            Err(e) => Err(e),
            Ok(fd) => match shutdown_how(v_how) {
                Some(how) => Ok(HostCall::Shutdown { fd, how }),
                None => Err(RuntimeError::Einval),
            },
        }),
        r matches Ok(c) ==> call_permitted(ctx, c),
{
    let fd = ctx.fdmap.fd_to_native(v_fd)?;
    let how = SdFlags::new(v_how);
    let posix_how = how.try_to_posix()?;
    Ok(HostCall::Shutdown { fd, how: posix_how })
}

/// The protocol a WASI socket of this domain and type uses, if it is one
/// the sandbox may open.
pub open spec fn socket_proto(domain: u32, ty: u32) -> Option<(i32, WasiProto)> {
    if domain != 1 {
        None
    } else if ty == 6 {
        Some((posix::SOCK_STREAM, WasiProto::Tcp))
    } else if ty == 5 {
        Some((posix::SOCK_DGRAM, WasiProto::Udp))
    } else {
        None
    }
}

/// Opens an IPv4 stream or datagram socket: the protocol must be 0
/// (`Einval`), the domain IPv4 and the type stream or datagram
/// (`Enotsup`). Gives the `socket` to make and the protocol to record.
pub fn socket_request(domain: u32, ty: u32, protocol: u32) -> (r: RuntimeResult<(HostCall, WasiProto)>)
    ensures
        r == (if protocol != 0 {
            Err(RuntimeError::Einval)
        } else {
            match socket_proto(domain, ty) {
                Some((t, p)) => Ok((HostCall::Socket { domain: posix::AF_INET, ty: t, protocol: 0 }, p)),
                None => Err(RuntimeError::Enotsup),
            }
        }),
        r matches Ok(cp) ==> cp.1 != WasiProto::Unknown,
{
    if protocol != 0 {
        return Err(RuntimeError::Einval);
    }
    let protocol = protocol as i32;
    let domain = sock_domain_to_posix(domain)?;
    let ty = sock_type_to_posix(ty)?;
    let wasi_proto = WasiProto::new(domain, ty, protocol);
    if matches!(wasi_proto, WasiProto::Unknown) {
        return Err(RuntimeError::Einval);
    }
    if !(domain == posix::AF_INET && (ty == posix::SOCK_STREAM || ty == posix::SOCK_DGRAM)) {
        return Err(RuntimeError::Einval);
    }
    Ok((HostCall::Socket { domain, ty, protocol }, wasi_proto))
}

/// Gives the host socket `sock` a sandbox descriptor and records its
/// protocol.
pub fn socket_reply(ctx: &mut VmCtx, proto: WasiProto, sock: usize) -> (r: RuntimeResult<u32>)
    requires
        old(ctx).wf(),
    ensures
        final(ctx).wf(),
        same_but_fdmap(final(ctx), old(ctx)),
        r == (match old(ctx).fdmap.next_slot() {
            Some(s) => Ok(s),
            None => Err(RuntimeError::Emfile),
        }),
        match r {
            Ok(s) => {
                &&& final(ctx).fdmap.m@ == old(ctx).fdmap.m@.update(s as int, Ok(HostFd(sock)))
                &&& final(ctx).fdmap.sockinfo@ == old(ctx).fdmap.sockinfo@.update(s as int, Ok(proto))
            },
            Err(_) => *final(ctx) == *old(ctx),
        },
        old(ctx).fdmap.slots_sound() ==> final(ctx).fdmap.slots_sound() && (r matches Ok(s) ==> old(
            ctx,
        ).fdmap.m@[s as int] is Err),
{
    ctx.fdmap.create_sock(HostFd::from_raw(sock), proto)
}

/// `sock_connect`: connects to the IPv4 endpoint in the `sockaddr_in` at
/// `addr`. The address must be 16 bytes long (`Einval`) and lie in linear
/// memory (`Eoverflow`), its family must be IPv4 (`Enotsup`), the socket
/// must have a known protocol and the endpoint must be on the allow-list
/// (`Enotcapable`); the protocol is the one recorded for the sandbox
/// descriptor `sockfd`.
pub fn sock_connect_request(ctx: &VmCtx, sockfd: u32, addr: u32, addrlen: u32) -> (r: RuntimeResult<HostCall>)
    requires
        ctx.wf(),
    ensures
        r == (match ctx.fdmap.lookup(sockfd) {
            Err(e) => Err(e),
            Ok(fd) => if addrlen != 16 {
                Err(RuntimeError::Einval)
            } else if !ctx.fits(addr as int, 16) {
                Err(RuntimeError::Eoverflow)
            } else if spec_u16_from_le_bytes(ctx.bytes_at(addr as int, 2)) != 1 {
                Err(RuntimeError::Enotsup)
            } else {
                let port = spec_u16_from_le_bytes(ctx.bytes_at(addr + 2, 2));
                let ip = spec_u32_from_le_bytes(ctx.bytes_at(addr + 4, 4));
                match ctx.fdmap.sockinfo@[sockfd as int] {
                    Err(e) => Err(e),
                    Ok(p) => if p == WasiProto::Unknown || !crate::types::spec_addr_in_netlist(
                        ctx.netlist,
                        ip,
                        port as u32,
                    ) {
                        Err(RuntimeError::Enotcapable)
                    } else {
                        Ok(HostCall::Connect { fd, family: posix::AF_INET, port, addr: ip })
                    },
                }
            },
        }),
        r matches Ok(c) ==> call_permitted(ctx, c),
{
    let fd = ctx.fdmap.fd_to_native(sockfd)?;
    if addrlen != 16 {
        return Err(RuntimeError::Einval);
    }
    if !ctx.fits_in_lin_mem(addr, addrlen) {
        return Err(RuntimeError::Eoverflow);
    }
    let sin_family = ctx.read_u16(addr as usize);
    let sin_port = ctx.read_u16(addr as usize + 2);
    let sin_addr_in = ctx.read_u32(addr as usize + 4);
    let sin_family = sock_domain_to_posix(sin_family as u32)?;
    let protocol = ctx.fdmap.sockinfo[sockfd as usize]?;
    if matches!(protocol, WasiProto::Unknown) {
        return Err(RuntimeError::Enotcapable);
    }
    if !ctx.addr_in_netlist(sin_addr_in, sin_port as u32) {
        return Err(RuntimeError::Enotcapable);
    }
    Ok(HostCall::Connect { fd, family: sin_family, port: sin_port, addr: sin_addr_in })
}

/// `fd_readdir`: the `getdents64` that reads up to `buf_len` bytes of
/// directory entries.
pub fn fd_readdir_request(ctx: &VmCtx, v_fd: u32, buf_len: usize) -> (r: RuntimeResult<HostCall>)
    requires
        ctx.wf(),
    ensures
        r == on_fd(ctx, v_fd, |fd: HostFd| HostCall::Getdents64 { fd, count: buf_len }),
        r matches Ok(c) ==> call_permitted(ctx, c),
{
    let fd = ctx.fdmap.fd_to_native(v_fd)?;
    Ok(HostCall::Getdents64 { fd, count: buf_len })
}

/// `fd_prestat_get`: the home directory is the one preopened directory;
/// gives the length of its name.
pub fn wasi_fd_prestat_get(ctx: &VmCtx, v_fd: u32) -> (r: RuntimeResult<u32>)
    ensures
        r == (if v_fd == HOMEDIR_FD {
            Ok((vstd::utf8::encode_utf8(ctx.homedir@).len() as usize) as u32)
        } else {
            Err(RuntimeError::Ebadf)
        }),
{
    if v_fd == HOMEDIR_FD {
        return Ok(ctx.homedir.as_str().len() as u32);
    }
    Err(RuntimeError::Ebadf)
}

/// `fd_prestat_dir_name`: writes the home directory's name at `path`. Any
/// descriptor of the table's range is accepted (`Ebadf` otherwise); the
/// name must lie in linear memory (`Efault`); `path_len` is not consulted.
pub fn wasi_prestat_dirname(ctx: &mut VmCtx, v_fd: u32, path: u32, path_len: u32) -> (r: RuntimeResult<()>)
    requires
        old(ctx).wf(),
    ensures
        final(ctx).wf(),
        final(ctx).same_but_mem(old(ctx)),
        ({
            let name = vstd::utf8::encode_utf8(old(ctx).homedir@);
            let n = name.len() as u32;
            if v_fd >= MAX_SBOX_FDS {
                r == Err::<(), RuntimeError>(RuntimeError::Ebadf) && final(ctx).mem == old(ctx).mem
            } else if !old(ctx).fits(path as int, n as int) {
                r == Err::<(), RuntimeError>(RuntimeError::Efault) && final(ctx).mem == old(ctx).mem
            } else {
                r == Ok::<(), RuntimeError>(()) && final(ctx).mem@ == write_bytes(
                    old(ctx).mem@,
                    path as int,
                    name.subrange(0, n as int),
                )
            }
        }),
{
    if v_fd >= MAX_SBOX_FDS {
        return Err(RuntimeError::Ebadf);
    }
    let dirname = ctx.get_homedir();
    let dirname_len = dirname.len() as u32;
    if !ctx.fits_in_lin_mem(path, dirname_len) {
        return Err(RuntimeError::Efault);
    }
    match ctx.copy_buf_to_sandbox(path, &dirname, dirname_len) {
        Some(()) => Ok(()),
        None => Err(RuntimeError::Efault),
    }
}

/// `fd_renumber`: moves the host descriptor of `v_from` to `v_to`; both
/// must be in the table's range (`Ebadf`).
pub fn wasi_fd_renumber(ctx: &mut VmCtx, v_from: u32, v_to: u32) -> (r: RuntimeResult<()>)
    requires
        old(ctx).wf(),
    ensures
        final(ctx).wf(),
        same_but_fdmap(final(ctx), old(ctx)),
        if v_from >= MAX_SBOX_FDS || v_to >= MAX_SBOX_FDS {
            r == Err::<(), RuntimeError>(RuntimeError::Ebadf) && *final(ctx) == *old(ctx)
        } else {
            &&& r == Ok::<(), RuntimeError>(())
            &&& final(ctx).fdmap.m@ == (match old(ctx).fdmap.m@[v_from as int] {
                Ok(h) => old(ctx).fdmap.m@.update(v_to as int, Ok(h)),
                Err(_) => old(ctx).fdmap.m@,
            }).update(v_from as int, Err(RuntimeError::Ebadf))
            &&& final(ctx).fdmap.sockinfo == old(ctx).fdmap.sockinfo
            &&& final(ctx).fdmap.reserve == old(ctx).fdmap.reserve
            &&& final(ctx).fdmap.counter == old(ctx).fdmap.counter
        },
{
    if v_from >= MAX_SBOX_FDS || v_to >= MAX_SBOX_FDS {
        return Err(RuntimeError::Ebadf);
    }
    ctx.fdmap.shift(v_from, v_to);
    Ok(())
}

/// `proc_exit`: nothing to do here; the embedder ends the sandbox.
pub fn wasi_proc_exit(ctx: &VmCtx, rval: u32) -> (r: RuntimeResult<()>)
    ensures
        r == Ok::<(), RuntimeError>(()),
{
    Ok(())
}

/// `proc_raise`: signals are not delivered.
pub fn wasi_proc_raise(ctx: &VmCtx, signal: u32) -> (r: RuntimeResult<()>)
    ensures
        r == Ok::<(), RuntimeError>(()),
{
    Ok(())
}

/// `sched_yield`: nothing to do.
pub fn wasi_sched_yield(ctx: &VmCtx) -> (r: RuntimeResult<()>)
    ensures
        r == Ok::<(), RuntimeError>(()),
{
    Ok(())
}

/// `args_sizes_get`: the number of arguments and the length of the
/// argument buffer.
pub fn wasi_args_sizes_get(ctx: &VmCtx) -> (r: RuntimeResult<(u32, u32)>)
    ensures
        r == Ok::<(u32, u32), RuntimeError>((ctx.argc as u32, ctx.arg_buffer@.len() as u32)),
{
    Ok((ctx.argc as u32, ctx.arg_buffer.len() as u32))
}

/// `environ_sizes_get`: the number of environment variables and the length
/// of the environment buffer.
pub fn wasi_environ_sizes_get(ctx: &VmCtx) -> (r: RuntimeResult<(u32, u32)>)
    ensures
        r == Ok::<(u32, u32), RuntimeError>((ctx.envc as u32, ctx.env_buffer@.len() as u32)),
{
    Ok((ctx.envc as u32, ctx.env_buffer.len() as u32))
}

/// Starts resolving a path relative to the descriptor `v_fd`, which must
/// be the home directory (`Enotcapable`).
pub fn path_begin(ctx: &VmCtx, v_fd: u32, pathname: u32, path_len: u32, should_follow: bool) -> (r: RuntimeResult<PathExpander>)
    requires
        ctx.wf(),
    ensures
        v_fd != HOMEDIR_FD ==> r == Err::<PathExpander, RuntimeError>(RuntimeError::Enotcapable),
        v_fd == HOMEDIR_FD ==> translated(ctx, pathname, path_len, should_follow, r),
{
    if v_fd != HOMEDIR_FD {
        return Err(RuntimeError::Enotcapable);
    }
    ctx.translate_path(pathname, path_len, should_follow)
}

/// `path_open`, first step: resolves the path, following a final symbolic
/// link if the lookup flags say so.
pub fn path_open_begin(ctx: &VmCtx, v_dir_fd: u32, dirflags: u32, pathname: u32, path_len: u32) -> (r: RuntimeResult<PathExpander>)
    requires
        ctx.wf(),
    ensures
        v_dir_fd != HOMEDIR_FD ==> r == Err::<PathExpander, RuntimeError>(RuntimeError::Enotcapable),
        v_dir_fd == HOMEDIR_FD ==> translated(ctx, pathname, path_len, bit32(dirflags, 0), r),
{
    let dirflags = LookupFlags::new(dirflags);
    path_begin(ctx, v_dir_fd, pathname, path_len, dirflags.should_follow())
}

/// `path_open`: the `openat` of the resolved path, with the lookup, open
/// and descriptor flags combined.
pub fn path_open_request(ctx: &VmCtx, dirflags: u32, oflags: u32, fdflags: i32, path: SandboxedPath) -> (r: RuntimeResult<HostCall>)
    ensures
        r == Ok::<HostCall, RuntimeError>(
            HostCall::Openat { dirfd: ctx.homedir_host_fd, path, flags: path_open_flags(dirflags, oflags, fdflags) },
        ),
        r matches Ok(c) ==> call_permitted(ctx, c),
{
    proof {
        use_type_invariant(&path);
        lemma_path_open_nofollow(dirflags, oflags, fdflags);
    }
    let dirflags = LookupFlags::new(dirflags);
    let oflags = OFlags::new(oflags);
    let fdflags = FdFlags::from_c_int(fdflags);
    let should_follow = dirflags.should_follow();
    let fd = ctx.homedir_host_fd;
    let dflags = dirflags.to_openat_posix();
    let flags = bitwise_or(bitwise_or(dflags, oflags.to_posix()), fdflags.to_posix());
    if flag_set(flags, posix::O_NOFOLLOW) == should_follow {
        return Err(RuntimeError::Einval);
    }
    Ok(HostCall::Openat { dirfd: fd, path, flags })
}

/// `path_open`, last step: gives the opened host descriptor a sandbox
/// descriptor.
pub fn path_open_reply(ctx: &mut VmCtx, fd: usize) -> (r: RuntimeResult<u32>)
    requires
        old(ctx).wf(),
    ensures
        final(ctx).wf(),
        same_but_fdmap(final(ctx), old(ctx)),
        final(ctx).fdmap.sockinfo == old(ctx).fdmap.sockinfo,
        r == (match old(ctx).fdmap.next_slot() {
            Some(s) => Ok(s),
            None => Err(RuntimeError::Emfile),
        }),
        match r {
            Ok(s) => final(ctx).fdmap.m@ == old(ctx).fdmap.m@.update(s as int, Ok(HostFd(fd))),
            Err(_) => *final(ctx) == *old(ctx),
        },
        old(ctx).fdmap.slots_sound() ==> final(ctx).fdmap.slots_sound() && (r matches Ok(s) ==> old(
            ctx,
        ).fdmap.m@[s as int] is Err),
{
    ctx.fdmap.create(HostFd::from_raw(fd))
}

/// `path_create_directory`, first step: creating follows symbolic links.
pub fn path_create_directory_begin(ctx: &VmCtx, v_fd: u32, pathname: u32, path_len: u32) -> (r: RuntimeResult<PathExpander>)
    requires
        ctx.wf(),
    ensures
        v_fd != HOMEDIR_FD ==> r == Err::<PathExpander, RuntimeError>(RuntimeError::Enotcapable),
        v_fd == HOMEDIR_FD ==> translated(ctx, pathname, path_len, true, r),
{
    path_begin(ctx, v_fd, pathname, path_len, true)
}

/// `path_create_directory`: the `mkdirat`, with permissions `rwxrw-rw-`.
pub fn path_create_directory_request(ctx: &VmCtx, path: SandboxedPath) -> (r: RuntimeResult<HostCall>)
    ensures
        r == Ok::<HostCall, RuntimeError>(HostCall::Mkdirat { dirfd: ctx.homedir_host_fd, path, mode: 0o766 }),
        r matches Ok(c) ==> call_permitted(ctx, c),
{
    proof {
        use_type_invariant(&path);
    }
    Ok(HostCall::Mkdirat { dirfd: ctx.homedir_host_fd, path, mode: 0o766 })
}

/// `path_filestat_get`, first step: `v_fd` must be open (its table error
/// otherwise) and be the home directory (`Enotcapable`).
pub fn path_filestat_get_begin(ctx: &VmCtx, v_fd: u32, flags: u32, pathname: u32, path_len: u32) -> (r: RuntimeResult<PathExpander>)
    requires
        ctx.wf(),
    ensures
        match ctx.fdmap.lookup(v_fd) {
            Err(e) => r == Err::<PathExpander, RuntimeError>(e),
            Ok(_) => if v_fd != HOMEDIR_FD {
                r == Err::<PathExpander, RuntimeError>(RuntimeError::Enotcapable)
            } else {
                translated(ctx, pathname, path_len, bit32(flags, 0), r)
            },
        },
{
    let flags = LookupFlags::new(flags);
    let _fd = ctx.fdmap.fd_to_native(v_fd)?;
    path_begin(ctx, v_fd, pathname, path_len, flags.should_follow())
}

/// The `fstatat`/`utimensat` flags for WASI lookup flags.
pub open spec fn stat_flags(flags: u32) -> i32 {
    if bit32(flags, 0) {
        0
    } else {
        posix::AT_SYMLINK_NOFOLLOW
    }
}

/// `path_filestat_get`: the `fstatat` of the resolved path.
pub fn path_filestat_get_request(ctx: &VmCtx, flags: u32, path: SandboxedPath) -> (r: RuntimeResult<HostCall>)
    ensures
        r == Ok::<HostCall, RuntimeError>(
            HostCall::Fstatat { dirfd: ctx.homedir_host_fd, path, flags: stat_flags(flags) },
        ),
        r matches Ok(c) ==> call_permitted(ctx, c),
{
    proof {
        use_type_invariant(&path);
        assert(posix::AT_SYMLINK_NOFOLLOW & posix::AT_SYMLINK_NOFOLLOW == posix::AT_SYMLINK_NOFOLLOW)
            by (bit_vector);
        assert(0i32 & posix::AT_SYMLINK_NOFOLLOW != posix::AT_SYMLINK_NOFOLLOW) by (bit_vector);
    }
    let flags = LookupFlags::new(flags);
    let fd = ctx.homedir_host_fd;
    let should_follow = flags.should_follow();
    let n_flags = flags.to_stat_posix();
    if flag_set(n_flags, posix::AT_SYMLINK_NOFOLLOW) == should_follow {
        return Err(RuntimeError::Einval);
    }
    Ok(HostCall::Fstatat { dirfd: fd, path, flags: n_flags })
}

/// Whether WASI `fstflags` both give a time and ask for it to be now.
pub open spec fn fst_conflict(v_fst_flags: u32) -> bool {
    let f = v_fst_flags as u16;
    (bit16(f, 0) && bit16(f, 1)) || (bit16(f, 2) && bit16(f, 3))
}

/// `path_filestat_set_times`, first step: the flags must not conflict
/// (`Einval`) and `v_fd` must be the home directory (`Enotcapable`).
pub fn path_filestat_set_times_begin(
    ctx: &VmCtx,
    v_fd: u32,
    flags: u32,
    pathname: u32,
    path_len: u32,
    v_fst_flags: u32,
) -> (r: RuntimeResult<PathExpander>)
    requires
        ctx.wf(),
    ensures
        if fst_conflict(v_fst_flags) {
            r == Err::<PathExpander, RuntimeError>(RuntimeError::Einval)
        } else if v_fd != HOMEDIR_FD {
            r == Err::<PathExpander, RuntimeError>(RuntimeError::Enotcapable)
        } else {
            translated(ctx, pathname, path_len, bit32(flags, 0), r)
        },
{
    let fst_flags = FstFlags::try_from_u16(v_fst_flags as u16)?;
    let flags = LookupFlags::new(flags);
    if fst_flags.atim() && fst_flags.atim_now() || fst_flags.mtim() && fst_flags.mtim_now() {
        return Err(RuntimeError::Einval);
    }
    path_begin(ctx, v_fd, pathname, path_len, flags.should_follow())
}

/// `path_filestat_set_times`: the `utimensat` of the resolved path
/// (`Einval` if the flags conflict).
pub fn path_filestat_set_times_request(
    ctx: &VmCtx,
    flags: u32,
    path: SandboxedPath,
    atim: u64,
    mtim: u64,
    v_fst_flags: u32,
) -> (r: RuntimeResult<HostCall>)
    ensures
        ({
            let f = v_fst_flags as u16;
            r == (if fst_conflict(v_fst_flags) {
                Err(RuntimeError::Einval)
            } else {
                Ok(
                    HostCall::Utimensat {
                        dirfd: ctx.homedir_host_fd,
                        path,
                        atime: utime_spec(atim, bit16(f, 0), bit16(f, 1)),
                        mtime: utime_spec(mtim, bit16(f, 2), bit16(f, 3)),
                        flags: stat_flags(flags),
                    },
                )
            })
        }),
        r matches Ok(c) ==> call_permitted(ctx, c),
{
    proof {
        use_type_invariant(&path);
        assert(posix::AT_SYMLINK_NOFOLLOW & posix::AT_SYMLINK_NOFOLLOW == posix::AT_SYMLINK_NOFOLLOW)
            by (bit_vector);
        assert(0i32 & posix::AT_SYMLINK_NOFOLLOW != posix::AT_SYMLINK_NOFOLLOW) by (bit_vector);
    }
    let fst_flags = FstFlags::try_from_u16(v_fst_flags as u16)?;
    let atim = Timestamp::new(atim);
    let mtim = Timestamp::new(mtim);
    let flags = LookupFlags::new(flags);
    let should_follow = flags.should_follow();
    let atim_spec = atim.ts_to_native(fst_flags.atim(), fst_flags.atim_now());
    let mtim_spec = mtim.ts_to_native(fst_flags.mtim(), fst_flags.mtim_now());
    let n_flags = flags.to_stat_posix();
    if flag_set(n_flags, posix::AT_SYMLINK_NOFOLLOW) == should_follow {
        return Err(RuntimeError::Einval);
    }
    Ok(
        HostCall::Utimensat {
            dirfd: ctx.homedir_host_fd,
            path,
            atime: atim_spec,
            mtime: mtim_spec,
            flags: n_flags,
        },
    )
}

/// `path_link`, first step: both descriptors must be the home directory
/// (`Enotcapable`); resolves the old path.
pub fn path_link_begin(
    ctx: &VmCtx,
    v_old_fd: u32,
    flags: u32,
    old_pathname: u32,
    old_path_len: u32,
    v_new_fd: u32,
) -> (r: RuntimeResult<PathExpander>)
    requires
        ctx.wf(),
    ensures
        if v_old_fd != HOMEDIR_FD || v_new_fd != HOMEDIR_FD {
            r == Err::<PathExpander, RuntimeError>(RuntimeError::Enotcapable)
        } else {
            translated(ctx, old_pathname, old_path_len, bit32(flags, 0), r)
        },
{
    let flags = LookupFlags::new(flags);
    if v_old_fd != HOMEDIR_FD {
        return Err(RuntimeError::Enotcapable);
    }
    if v_new_fd != HOMEDIR_FD {
        return Err(RuntimeError::Enotcapable);
    }
    ctx.translate_path(old_pathname, old_path_len, flags.should_follow())
}

/// `path_link`, second step: resolves the new path the same way.
pub fn path_link_second(ctx: &VmCtx, flags: u32, new_pathname: u32, new_path_len: u32) -> (r: RuntimeResult<PathExpander>)
    requires
        ctx.wf(),
    ensures
        translated(ctx, new_pathname, new_path_len, bit32(flags, 0), r),
{
    let flags = LookupFlags::new(flags);
    ctx.translate_path(new_pathname, new_path_len, flags.should_follow())
}

/// The `linkat` flags for WASI lookup flags.
pub open spec fn link_flags(flags: u32) -> i32 {
    if bit32(flags, 0) {
        posix::AT_SYMLINK_FOLLOW
    } else {
        0
    }
}

/// `path_link`: the `linkat` of the two resolved paths.
pub fn path_link_request(ctx: &VmCtx, flags: u32, old_path: SandboxedPath, new_path: SandboxedPath) -> (r: RuntimeResult<HostCall>)
    ensures
        r == Ok::<HostCall, RuntimeError>(
            HostCall::Linkat {
                old_dirfd: ctx.homedir_host_fd,
                old_path,
                new_dirfd: ctx.homedir_host_fd,
                new_path,
                flags: link_flags(flags),
            },
        ),
        r matches Ok(c) ==> call_permitted(ctx, c),
{
    proof {
        use_type_invariant(&old_path);
        use_type_invariant(&new_path);
        assert(posix::AT_SYMLINK_FOLLOW & posix::AT_SYMLINK_FOLLOW == posix::AT_SYMLINK_FOLLOW) by (bit_vector);
        assert(0i32 & posix::AT_SYMLINK_FOLLOW != posix::AT_SYMLINK_FOLLOW) by (bit_vector);
    }
    let flags = LookupFlags::new(flags);
    let should_follow = flags.should_follow();
    let n_flags = flags.to_linkat_posix();
    if flag_set(n_flags, posix::AT_SYMLINK_FOLLOW) != should_follow {
        return Err(RuntimeError::Einval);
    }
    Ok(
        HostCall::Linkat {
            old_dirfd: ctx.homedir_host_fd,
            old_path,
            new_dirfd: ctx.homedir_host_fd,
            new_path,
            flags: n_flags,
        },
    )
}

/// `path_readlink`, first step: reading a link never follows it.
pub fn path_readlink_begin(ctx: &VmCtx, v_fd: u32, pathname: u32, path_len: u32) -> (r: RuntimeResult<PathExpander>)
    requires
        ctx.wf(),
    ensures
        v_fd != HOMEDIR_FD ==> r == Err::<PathExpander, RuntimeError>(RuntimeError::Enotcapable),
        v_fd == HOMEDIR_FD ==> translated(ctx, pathname, path_len, false, r),
{
    path_begin(ctx, v_fd, pathname, path_len, false)
}

/// `path_readlink`: the `readlinkat` into the `len` bytes at `ptr`
/// (`Efault` if they do not lie in linear memory).
pub fn path_readlink_request(ctx: &VmCtx, path: SandboxedPath, ptr: u32, len: u32) -> (r: RuntimeResult<HostCall>)
    requires
        ctx.wf(),
    ensures
        r == (if ctx.fits(ptr as int, len as int) {
            Ok(
                HostCall::Readlinkat {
                    dirfd: ctx.homedir_host_fd,
                    path,
                    buf: WasmIoVec { iov_base: ptr, iov_len: len },
                },
            )
        } else {
            Err(RuntimeError::Efault)
        }),
        r matches Ok(c) ==> call_permitted(ctx, c),
{
    proof {
        use_type_invariant(&path);
    }
    if !ctx.fits_in_lin_mem(ptr, len) {
        return Err(RuntimeError::Efault);
    }
    Ok(
        HostCall::Readlinkat {
            dirfd: ctx.homedir_host_fd,
            path,
            buf: WasmIoVec { iov_base: ptr, iov_len: len },
        },
    )
}

/// `path_remove_directory`, first step: removing does not follow a final
/// symbolic link.
pub fn path_remove_directory_begin(ctx: &VmCtx, v_fd: u32, pathname: u32, path_len: u32) -> (r: RuntimeResult<PathExpander>)
    requires
        ctx.wf(),
    ensures
        v_fd != HOMEDIR_FD ==> r == Err::<PathExpander, RuntimeError>(RuntimeError::Enotcapable),
        v_fd == HOMEDIR_FD ==> translated(ctx, pathname, path_len, false, r),
{
    path_begin(ctx, v_fd, pathname, path_len, false)
}

/// `path_remove_directory`: the `unlinkat` that removes a directory.
pub fn path_remove_directory_request(ctx: &VmCtx, path: SandboxedPath) -> (r: RuntimeResult<HostCall>)
    ensures
        r == Ok::<HostCall, RuntimeError>(
            HostCall::Unlinkat { dirfd: ctx.homedir_host_fd, path, flags: posix::AT_REMOVEDIR },
        ),
        r matches Ok(c) ==> call_permitted(ctx, c),
{
    proof {
        use_type_invariant(&path);
    }
    Ok(HostCall::Unlinkat { dirfd: ctx.homedir_host_fd, path, flags: posix::AT_REMOVEDIR })
}

/// `path_remove_directory`, last step: WASI reports a directory that is
/// not empty as `Enotempty` where the host may say `Eexist`.
pub fn path_remove_directory_reply(res: RuntimeResult<usize>) -> (r: RuntimeResult<()>)
    ensures
        r == (match res {
            Ok(_) => Ok(()),
            Err(RuntimeError::Eexist) => Err(RuntimeError::Enotempty),
            Err(e) => Err(e),
        }),
{
    if let Err(RuntimeError::Eexist) = res {
        return Err(RuntimeError::Enotempty);
    }
    res?;
    Ok(())
}

/// `path_rename`, first step: both descriptors must be the home directory
/// (`Enotcapable`); renaming does not follow a final symbolic link.
pub fn path_rename_begin(ctx: &VmCtx, v_old_fd: u32, old_pathname: u32, old_path_len: u32, v_new_fd: u32) -> (r: RuntimeResult<PathExpander>)
    requires
        ctx.wf(),
    ensures
        if v_old_fd != HOMEDIR_FD || v_new_fd != HOMEDIR_FD {
            r == Err::<PathExpander, RuntimeError>(RuntimeError::Enotcapable)
        } else {
            translated(ctx, old_pathname, old_path_len, false, r)
        },
{
    if v_old_fd != HOMEDIR_FD {
        return Err(RuntimeError::Enotcapable);
    }
    if v_new_fd != HOMEDIR_FD {
        return Err(RuntimeError::Enotcapable);
    }
    ctx.translate_path(old_pathname, old_path_len, false)
}

/// `path_rename`, second step: resolves the new path the same way.
pub fn path_rename_second(ctx: &VmCtx, new_pathname: u32, new_path_len: u32) -> (r: RuntimeResult<PathExpander>)
    requires
        ctx.wf(),
    ensures
        translated(ctx, new_pathname, new_path_len, false, r),
{
    ctx.translate_path(new_pathname, new_path_len, false)
}

/// `path_rename`: the `renameat` of the two resolved paths.
pub fn path_rename_request(ctx: &VmCtx, old_path: SandboxedPath, new_path: SandboxedPath) -> (r: RuntimeResult<HostCall>)
    ensures
        r == Ok::<HostCall, RuntimeError>(
            HostCall::Renameat {
                old_dirfd: ctx.homedir_host_fd,
                old_path,
                new_dirfd: ctx.homedir_host_fd,
                new_path,
            },
        ),
        r matches Ok(c) ==> call_permitted(ctx, c),
{
    proof {
        use_type_invariant(&old_path);
        use_type_invariant(&new_path);
    }
    Ok(
        HostCall::Renameat {
            old_dirfd: ctx.homedir_host_fd,
            old_path,
            new_dirfd: ctx.homedir_host_fd,
            new_path,
        },
    )
}

/// `path_symlink`, first step: `v_fd` must be the home directory
/// (`Enotcapable`); both paths are resolved following symbolic links.
pub fn path_symlink_begin(ctx: &VmCtx, old_pathname: u32, old_path_len: u32, v_fd: u32) -> (r: RuntimeResult<PathExpander>)
    requires
        ctx.wf(),
    ensures
        v_fd != HOMEDIR_FD ==> r == Err::<PathExpander, RuntimeError>(RuntimeError::Enotcapable),
        v_fd == HOMEDIR_FD ==> translated(ctx, old_pathname, old_path_len, true, r),
{
    path_begin(ctx, v_fd, old_pathname, old_path_len, true)
}

/// `path_symlink`, second step: resolves the new path the same way.
pub fn path_symlink_second(ctx: &VmCtx, new_pathname: u32, new_path_len: u32) -> (r: RuntimeResult<PathExpander>)
    requires
        ctx.wf(),
    ensures
        translated(ctx, new_pathname, new_path_len, true, r),
{
    ctx.translate_path(new_pathname, new_path_len, true)
}

/// `path_symlink`: the `symlinkat` that makes the new path a link to the
/// old one.
pub fn path_symlink_request(ctx: &VmCtx, old_path: SandboxedPath, new_path: SandboxedPath) -> (r: RuntimeResult<HostCall>)
    ensures
        r == Ok::<HostCall, RuntimeError>(
            HostCall::Symlinkat { old_path, dirfd: ctx.homedir_host_fd, new_path },
        ),
        r matches Ok(c) ==> call_permitted(ctx, c),
{
    proof {
        use_type_invariant(&old_path);
        use_type_invariant(&new_path);
    }
    Ok(HostCall::Symlinkat { old_path, dirfd: ctx.homedir_host_fd, new_path })
}

/// `path_unlink_file`, first step: unlinking does not follow a final
/// symbolic link (it is how links are removed).
pub fn path_unlink_file_begin(ctx: &VmCtx, v_fd: u32, pathname: u32, path_len: u32) -> (r: RuntimeResult<PathExpander>)
    requires
        ctx.wf(),
    ensures
        v_fd != HOMEDIR_FD ==> r == Err::<PathExpander, RuntimeError>(RuntimeError::Enotcapable),
        v_fd == HOMEDIR_FD ==> translated(ctx, pathname, path_len, false, r),
{
    path_begin(ctx, v_fd, pathname, path_len, false)
}

/// `path_unlink_file`: the `unlinkat` of the resolved path.
pub fn path_unlink_file_request(ctx: &VmCtx, path: SandboxedPath) -> (r: RuntimeResult<HostCall>)
    ensures
        r == Ok::<HostCall, RuntimeError>(HostCall::Unlinkat { dirfd: ctx.homedir_host_fd, path, flags: 0 }),
        r matches Ok(c) ==> call_permitted(ctx, c),
{
    proof {
        use_type_invariant(&path);
    }
    Ok(HostCall::Unlinkat { dirfd: ctx.homedir_host_fd, path, flags: 0 })
}

/// The outcome of starting an `IovLoop` on `v_fd`.
pub open spec fn loop_started(ctx: &VmCtx, kind: IoKind, v_fd: u32, iovs: u32, iovcnt: u32, r: RuntimeResult<IovLoop>) -> bool {
    match ctx.fdmap.lookup(v_fd) {
        Ok(fd) => r matches Ok(l) && l.fresh(kind, fd, iovs, iovcnt) && fd_open(ctx, fd),
        Err(e) => r == Err::<IovLoop, RuntimeError>(e),
    }
}

/// `fd_read`: one `read` per buffer of the `iovec` array.
pub fn fd_read_begin(ctx: &VmCtx, v_fd: u32, iovs: u32, iovcnt: u32) -> (r: RuntimeResult<IovLoop>)
    requires
        ctx.wf(),
    ensures
        loop_started(ctx, IoKind::Read, v_fd, iovs, iovcnt, r),
{
    IovLoop::start(ctx, IoKind::Read, v_fd, iovs, iovcnt)
}

/// `fd_write`: one `write` per buffer of the `ciovec` array.
pub fn fd_write_begin(ctx: &VmCtx, v_fd: u32, iovs: u32, iovcnt: u32) -> (r: RuntimeResult<IovLoop>)
    requires
        ctx.wf(),
    ensures
        loop_started(ctx, IoKind::Write, v_fd, iovs, iovcnt, r),
{
    IovLoop::start(ctx, IoKind::Write, v_fd, iovs, iovcnt)
}

/// `fd_pread`: one `pread` per buffer, each at the same file offset.
pub fn fd_pread_begin(ctx: &VmCtx, v_fd: u32, iovs: u32, iovcnt: u32, offset: u64) -> (r: RuntimeResult<IovLoop>)
    requires
        ctx.wf(),
    ensures
        loop_started(ctx, IoKind::Pread(offset), v_fd, iovs, iovcnt, r),
{
    IovLoop::start(ctx, IoKind::Pread(offset), v_fd, iovs, iovcnt)
}

/// `fd_pwrite`: one `pwrite` per buffer, each at the same file offset.
pub fn fd_pwrite_begin(ctx: &VmCtx, v_fd: u32, iovs: u32, iovcnt: u32, offset: u64) -> (r: RuntimeResult<IovLoop>)
    requires
        ctx.wf(),
    ensures
        loop_started(ctx, IoKind::Pwrite(offset), v_fd, iovs, iovcnt, r),
{
    IovLoop::start(ctx, IoKind::Pwrite(offset), v_fd, iovs, iovcnt)
}

/// `sock_send`: one `send` per buffer, with no flags (WASI defines none).
pub fn sock_send_begin(ctx: &VmCtx, v_fd: u32, si_data: u32, si_data_count: u32) -> (r: RuntimeResult<IovLoop>)
    requires
        ctx.wf(),
    ensures
        loop_started(ctx, IoKind::Send, v_fd, si_data, si_data_count, r),
{
    IovLoop::start(ctx, IoKind::Send, v_fd, si_data, si_data_count)
}

/// The `recv` flags for valid WASI `riflags`.
pub open spec fn recv_flags(ri_flags: u32) -> i32 {
    let f = ri_flags as u16;
    or_if(or_if(0, bit16(f, 0), posix::MSG_PEEK), bit16(f, 1), posix::MSG_WAITALL)
}

/// `sock_recv`: one `recv` per buffer; the flags may only ask to peek or
/// to wait for all the data (`Einval`).
pub fn sock_recv_begin(ctx: &VmCtx, v_fd: u32, ri_data: u32, ri_data_count: u32, ri_flags: u32) -> (r: RuntimeResult<IovLoop>)
    requires
        ctx.wf(),
    ensures
        match ctx.fdmap.lookup(v_fd) {
            Err(e) => r == Err::<IovLoop, RuntimeError>(e),
            Ok(_) => if ri_flags & (u32::MAX - 3) as u32 != 0 {
                r == Err::<IovLoop, RuntimeError>(RuntimeError::Einval)
            } else {
                loop_started(ctx, IoKind::Recv(recv_flags(ri_flags)), v_fd, ri_data, ri_data_count, r)
            },
        },
{
    let _fd = ctx.fdmap.fd_to_native(v_fd)?;
    let ri_flags = RiFlags::try_from_u32(ri_flags)?;
    IovLoop::start(ctx, IoKind::Recv(ri_flags.to_posix()), v_fd, ri_data, ri_data_count)
}

/// `fd_readv`-style read: all entries of the `iovec` array are checked
/// first, then read by one `readv`.
pub fn fd_readv_request(ctx: &VmCtx, v_fd: u32, iovs: u32, iovcnt: u32) -> (r: RuntimeResult<HostCall>)
    requires
        ctx.wf(),
    ensures
        match ctx.fdmap.lookup(v_fd) {
            Err(e) => r == Err::<HostCall, RuntimeError>(e),
            Ok(fd) => match r {
                Ok(c) => c matches HostCall::Readv { fd: f, iovs: v } && f == fd && v@.len() == iovcnt
                    && iov_entries_ok(ctx, iovs, iovcnt as int) && forall|j: int|
                    0 <= j < iovcnt ==> #[trigger] v@[j] == iov_entry(ctx, iovs, j),
                Err(e) => exists|k: int|
                    0 <= k < iovcnt && iov_entries_ok(ctx, iovs, k) && #[trigger] iov_entry_status(ctx, iovs, k)
                        == Err::<(), RuntimeError>(e),
            },
        },
        r matches Ok(c) ==> call_permitted(ctx, c),
{
    let fd = ctx.fdmap.fd_to_native(v_fd)?;
    let wasm_iov = parse_iovs(ctx, iovs, iovcnt)?;
    proof {
        assert forall|i: int| 0 <= i < wasm_iov.iovs@.len() implies crate::hostcall::buf_in_mem(ctx, #[trigger] wasm_iov.iovs@[i]) by {
            assert(iov_entry_status(ctx, iovs, i) is Ok);
        }
    }
    Ok(HostCall::Readv { fd, iovs: wasm_iov.iovs })
}

} // verus!
