//! The system calls that the runtime asks the host to make on behalf of a
//! sandbox, and the rule that every one of them must obey.
use vstd::prelude::*;
use crate::error::RuntimeError;
use crate::iov::WasmIoVec;
use crate::path::SandboxedPath;
use crate::posix;
use crate::runtime::VmCtx;
use crate::types::{HostFd, Timespec, spec_addr_in_netlist};

verus! {

/// One system call, with the host's arguments. Buffers are given as
/// sandbox addresses and lengths; the host adds the base of linear memory.
pub enum HostCall {
    Openat { dirfd: HostFd, path: SandboxedPath, flags: i32 },
    Close { fd: HostFd },
    Read { fd: HostFd, buf: WasmIoVec },
    Write { fd: HostFd, buf: WasmIoVec },
    Pread { fd: HostFd, buf: WasmIoVec, at: u64 },
    Pwrite { fd: HostFd, buf: WasmIoVec, at: u64 },
    Readv { fd: HostFd, iovs: Vec<WasmIoVec> },
    Seek { fd: HostFd, offset: i64, whence: i32 },
    Advise { fd: HostFd, offset: i64, len: i64, advice: i32 },
    Allocate { fd: HostFd, offset: i64, len: i64 },
    Sync { fd: HostFd },
    Datasync { fd: HostFd },
    Fstat { fd: HostFd },
    Fgetfl { fd: HostFd },
    Fsetfl { fd: HostFd, flags: i32 },
    Ftruncate { fd: HostFd, length: i64 },
    Futimens { fd: HostFd, atime: Timespec, mtime: Timespec },
    Fstatat { dirfd: HostFd, path: SandboxedPath, flags: i32 },
    Utimensat { dirfd: HostFd, path: SandboxedPath, atime: Timespec, mtime: Timespec, flags: i32 },
    Mkdirat { dirfd: HostFd, path: SandboxedPath, mode: u32 },
    Readlinkat { dirfd: HostFd, path: SandboxedPath, buf: WasmIoVec },
    Unlinkat { dirfd: HostFd, path: SandboxedPath, flags: i32 },
    Linkat {
        old_dirfd: HostFd,
        old_path: SandboxedPath,
        new_dirfd: HostFd,
        new_path: SandboxedPath,
        flags: i32,
    },
    Renameat { old_dirfd: HostFd, old_path: SandboxedPath, new_dirfd: HostFd, new_path: SandboxedPath },
    Symlinkat { old_path: SandboxedPath, dirfd: HostFd, new_path: SandboxedPath },
    ClockGetRes { clock: i32 },
    ClockGetTime { clock: i32 },
    Getrandom { buf: WasmIoVec, flags: i32 },
    Recv { fd: HostFd, buf: WasmIoVec, flags: i32 },
    Send { fd: HostFd, buf: WasmIoVec, flags: i32 },
    Shutdown { fd: HostFd, how: i32 },
    Socket { domain: i32, ty: i32, protocol: i32 },
    Connect { fd: HostFd, family: i32, port: u16, addr: u32 },
    Getdents64 { fd: HostFd, count: usize },
}

/// The host descriptor is one that the sandbox's descriptor table holds.
pub open spec fn fd_open(ctx: &VmCtx, fd: HostFd) -> bool {
    exists|v: u32| #[trigger] ctx.fdmap.lookup(v) == Ok::<HostFd, RuntimeError>(fd)
}

/// The buffer lies in linear memory.
pub open spec fn buf_in_mem(ctx: &VmCtx, b: WasmIoVec) -> bool {
    ctx.fits(b.iov_base as int, b.iov_len as int)
}

/// The path is taken relative to the home directory and stays inside it.
pub open spec fn home_path(ctx: &VmCtx, dirfd: HostFd, p: SandboxedPath) -> bool {
    dirfd == ctx.homedir_host_fd && p.sandboxed()
}

/// What a system call made for the sandbox may touch: only descriptors
/// of its table, only buffers inside its linear memory, only paths inside
/// its home directory, only IPv4 stream or datagram sockets, and only the
/// endpoints of its allow-list.
pub open spec fn call_permitted(ctx: &VmCtx, c: HostCall) -> bool {
    match c {
        HostCall::Openat { dirfd, path, .. } => home_path(ctx, dirfd, path),
        HostCall::Close { fd } => fd_open(ctx, fd),
        HostCall::Read { fd, buf } => fd_open(ctx, fd) && buf_in_mem(ctx, buf),
        HostCall::Write { fd, buf } => fd_open(ctx, fd) && buf_in_mem(ctx, buf),
        HostCall::Pread { fd, buf, .. } => fd_open(ctx, fd) && buf_in_mem(ctx, buf),
        HostCall::Pwrite { fd, buf, .. } => fd_open(ctx, fd) && buf_in_mem(ctx, buf),
        HostCall::Readv { fd, iovs } => fd_open(ctx, fd) && forall|i: int|
            0 <= i < iovs@.len() ==> buf_in_mem(ctx, #[trigger] iovs@[i]),
        HostCall::Seek { fd, .. } => fd_open(ctx, fd),
        HostCall::Advise { fd, .. } => fd_open(ctx, fd),
        HostCall::Allocate { fd, .. } => fd_open(ctx, fd),
        HostCall::Sync { fd } => fd_open(ctx, fd),
        HostCall::Datasync { fd } => fd_open(ctx, fd),
        HostCall::Fstat { fd } => fd_open(ctx, fd),
        HostCall::Fgetfl { fd } => fd_open(ctx, fd),
        HostCall::Fsetfl { fd, .. } => fd_open(ctx, fd),
        HostCall::Ftruncate { fd, .. } => fd_open(ctx, fd),
        HostCall::Futimens { fd, .. } => fd_open(ctx, fd),
        HostCall::Fstatat { dirfd, path, .. } => home_path(ctx, dirfd, path),
        HostCall::Utimensat { dirfd, path, .. } => home_path(ctx, dirfd, path),
        HostCall::Mkdirat { dirfd, path, .. } => home_path(ctx, dirfd, path),
        HostCall::Readlinkat { dirfd, path, buf } => home_path(ctx, dirfd, path) && buf_in_mem(ctx, buf),
        HostCall::Unlinkat { dirfd, path, .. } => home_path(ctx, dirfd, path),
        HostCall::Linkat { old_dirfd, old_path, new_dirfd, new_path, .. } => home_path(ctx, old_dirfd, old_path)
            && home_path(ctx, new_dirfd, new_path),
        HostCall::Renameat { old_dirfd, old_path, new_dirfd, new_path } => home_path(ctx, old_dirfd, old_path)
            && home_path(ctx, new_dirfd, new_path),
        HostCall::Symlinkat { old_path, dirfd, new_path } => old_path.sandboxed() && home_path(
            ctx,
            dirfd,
            new_path,
        ),
        HostCall::ClockGetRes { .. } => true,
        HostCall::ClockGetTime { .. } => true,
        HostCall::Getrandom { buf, .. } => buf_in_mem(ctx, buf),
        HostCall::Recv { fd, buf, .. } => fd_open(ctx, fd) && buf_in_mem(ctx, buf),
        HostCall::Send { fd, buf, .. } => fd_open(ctx, fd) && buf_in_mem(ctx, buf),
        HostCall::Shutdown { fd, .. } => fd_open(ctx, fd),
        HostCall::Socket { domain, ty, .. } => domain == posix::AF_INET && (ty == posix::SOCK_STREAM || ty
            == posix::SOCK_DGRAM),
        HostCall::Connect { fd, addr, port, .. } => fd_open(ctx, fd) && spec_addr_in_netlist(
            ctx.netlist,
            addr,
            port as u32,
        ),
        HostCall::Getdents64 { fd, .. } => fd_open(ctx, fd),
    }
}

} // verus!
