use wave::argv::{wasi_args_get, wasi_environ_get};
use wave::error::RuntimeError;
use wave::hostcall::HostCall;
use wave::iov::{IoKind, IovLoop};
use wave::path::{finish_path, get_components};
use wave::runtime::{add_arg, create_ctx, VmCtx};
use wave::types::{empty_netlist, HostFd, NetEndpoint, WasiProto};
use wave::wasi::{
    clock_res_get_request, clock_time_get_request, fd_advise_request, fd_close_request,
    fd_filestat_set_times_request, fd_pwrite_begin, fd_read_begin, fd_readv_request, fd_seek_request,
    fd_tell_request, fd_write_begin, fdstat_from_host, path_filestat_get_begin, path_filestat_get_request,
    path_filestat_set_times_begin, path_link_begin, path_link_request, path_open_begin, path_open_reply,
    path_open_request, path_readlink_request, path_remove_directory_reply, random_get_request,
    sock_connect_request, sock_recv_begin, sock_shutdown_request, socket_reply, socket_request,
    wasi_args_sizes_get, wasi_environ_sizes_get, wasi_fd_prestat_get, wasi_fd_renumber, wasi_prestat_dirname,
    wasi_proc_exit, wasi_proc_raise, wasi_sched_yield,
};

fn ctx_with(args: &[u8], argc: usize, env: &[u8], envc: usize) -> VmCtx {
    create_ctx(
        vec![0u8; 65536],
        String::from("/tmp/home"),
        9,
        (0, 1, 2),
        args.to_vec(),
        argc,
        env.to_vec(),
        envc,
        empty_netlist(),
    )
}

fn small_ctx() -> VmCtx {
    ctx_with(b"", 0, b"", 0)
}

#[test]
fn seek_translates_whence() {
    let ctx = small_ctx();
    let c = fd_seek_request(&ctx, 1, -5, 2).unwrap();
    assert!(matches!(c, HostCall::Seek { fd: HostFd(1), offset: -5, whence: 2 }));
    assert_eq!(fd_seek_request(&ctx, 1, 0, 3).err(), Some(RuntimeError::Einval));
    assert_eq!(fd_seek_request(&ctx, 6, 0, 0).err(), Some(RuntimeError::Ebadf));
    assert_eq!(fd_seek_request(&ctx, 100, 0, 0).err(), Some(RuntimeError::Ebadf));
    let t = fd_tell_request(&ctx, 0).unwrap();
    assert!(matches!(t, HostCall::Seek { fd: HostFd(0), offset: 0, whence: 1 }));
}

#[test]
fn advise_checks_the_advice() {
    let ctx = small_ctx();
    let c = fd_advise_request(&ctx, 3, 10, 20, 4).unwrap();
    assert!(matches!(c, HostCall::Advise { fd: HostFd(9), offset: 10, len: 20, advice: 4 }));
    assert_eq!(fd_advise_request(&ctx, 3, 0, 0, 6).err(), Some(RuntimeError::Einval));
    assert_eq!(fd_advise_request(&ctx, 7, 0, 0, 0).err(), Some(RuntimeError::Ebadf));
}

#[test]
fn close_frees_the_slot_first() {
    let mut ctx = small_ctx();
    let c = fd_close_request(&mut ctx, 1).unwrap();
    assert!(matches!(c, HostCall::Close { fd: HostFd(1) }));
    assert_eq!(ctx.fdmap.fd_to_native(1), Err(RuntimeError::Ebadf));
    assert_eq!(ctx.fdmap.reserve, vec![1]);
    assert_eq!(fd_close_request(&mut ctx, 1).err(), Some(RuntimeError::Ebadf));
    assert_eq!(fd_close_request(&mut ctx, 8).err(), Some(RuntimeError::Ebadf));
}

#[test]
fn random_get_needs_memory() {
    let ctx = small_ctx();
    let c = random_get_request(&ctx, 16, 32).unwrap();
    assert!(matches!(c, HostCall::Getrandom { buf, flags: 0 } if buf.iov_base == 16 && buf.iov_len == 32));
    assert_eq!(random_get_request(&ctx, 65530, 32).err(), Some(RuntimeError::Efault));
}

#[test]
fn clocks_are_named() {
    assert!(matches!(clock_time_get_request(1, 0).unwrap(), HostCall::ClockGetTime { clock: 1 }));
    assert!(matches!(clock_res_get_request(3).unwrap(), HostCall::ClockGetRes { clock: 3 }));
    assert_eq!(clock_time_get_request(4, 0).err(), Some(RuntimeError::Einval));
}

#[test]
fn fdstat_from_host_values() {
    let mut stat = wave::types::fresh_stat();
    stat.st_mode = libc::S_IFDIR as u32 | 0o755;
    let st = fdstat_from_host(stat, (libc::O_APPEND | libc::O_NONBLOCK) as usize);
    assert_eq!(st.fs_filetype, wave::types::Filetype::Directory);
    assert_eq!(st.fs_flags.0, 0b101);
    assert_eq!(st.fs_rights_base, 0);
    assert_eq!(st.fs_rights_inheriting, u64::MAX);
}

#[test]
fn set_times_rejects_conflicting_flags() {
    let ctx = small_ctx();
    assert_eq!(fd_filestat_set_times_request(&ctx, 1, 0, 0, 0b11).err(), Some(RuntimeError::Einval));
    let c = fd_filestat_set_times_request(&ctx, 1, 3_000_000_001, 0, 0b1001).unwrap();
    match c {
        HostCall::Futimens { fd, atime, mtime } => {
            assert_eq!(fd, HostFd(1));
            assert_eq!((atime.tv_sec, atime.tv_nsec), (3, 1));
            assert_eq!(mtime.tv_nsec, libc::UTIME_NOW as i64);
        },
        _ => panic!("expected futimens"),
    }
}

#[test]
fn shutdown_needs_a_direction() {
    let ctx = small_ctx();
    assert!(matches!(sock_shutdown_request(&ctx, 1, 3).unwrap(), HostCall::Shutdown { how: 2, .. }));
    assert!(matches!(sock_shutdown_request(&ctx, 1, 1).unwrap(), HostCall::Shutdown { how: 0, .. }));
    assert_eq!(sock_shutdown_request(&ctx, 1, 0).err(), Some(RuntimeError::Einval));
}

#[test]
fn sockets_are_ipv4_tcp_or_udp() {
    let (c, p) = socket_request(1, 6, 0).unwrap();
    assert!(matches!(c, HostCall::Socket { domain: 2, ty: 1, protocol: 0 }));
    assert_eq!(p, WasiProto::Tcp);
    assert_eq!(socket_request(1, 5, 0).unwrap().1, WasiProto::Udp);
    assert_eq!(socket_request(1, 6, 1).err(), Some(RuntimeError::Einval));
    assert_eq!(socket_request(2, 6, 0).err(), Some(RuntimeError::Enotsup));
    assert_eq!(socket_request(1, 4, 0).err(), Some(RuntimeError::Enotsup));
    let mut ctx = small_ctx();
    assert_eq!(socket_reply(&mut ctx, WasiProto::Udp, 55), Ok(4));
    assert_eq!(ctx.fdmap.sockinfo[4], Ok(WasiProto::Udp));
}

#[test]
fn connect_only_to_allowed_endpoints() {
    let mut netlist = empty_netlist();
    netlist[0] = NetEndpoint { protocol: WasiProto::Tcp, addr: 0x0100007f, port: 0x5000 };
    let mut ctx = create_ctx(vec![0u8; 4096], String::from("h"), 3, (0, 1, 2), Vec::new(), 0, Vec::new(), 0, netlist);
    let s = socket_reply(&mut ctx, WasiProto::Tcp, 4).unwrap();
    assert_eq!(s, 4);
    ctx.write_u16(100, 1);
    ctx.write_u16(102, 0x5000);
    ctx.write_u32(104, 0x0100007f);
    let c = sock_connect_request(&ctx, s, 100, 16).unwrap();
    assert!(matches!(c, HostCall::Connect { fd: HostFd(4), family: 2, port: 0x5000, addr: 0x0100007f }));
    ctx.write_u16(102, 0x5001);
    assert_eq!(sock_connect_request(&ctx, s, 100, 16).err(), Some(RuntimeError::Enotcapable));
    assert_eq!(sock_connect_request(&ctx, s, 100, 8).err(), Some(RuntimeError::Einval));
    assert_eq!(sock_connect_request(&ctx, s, 4090, 16).err(), Some(RuntimeError::Eoverflow));
    ctx.write_u16(100, 2);
    assert_eq!(sock_connect_request(&ctx, s, 100, 16).err(), Some(RuntimeError::Enotsup));
}

#[test]
fn prestat_reports_the_home_directory() {
    let mut ctx = small_ctx();
    assert_eq!(wasi_fd_prestat_get(&ctx, 3), Ok(9));
    assert_eq!(wasi_fd_prestat_get(&ctx, 4), Err(RuntimeError::Ebadf));
    assert_eq!(wasi_prestat_dirname(&mut ctx, 3, 500, 9), Ok(()));
    assert_eq!(&ctx.mem[500..509], b"/tmp/home");
    assert_eq!(wasi_prestat_dirname(&mut ctx, 8, 500, 9), Err(RuntimeError::Ebadf));
    assert_eq!(wasi_prestat_dirname(&mut ctx, 3, 65530, 9), Err(RuntimeError::Efault));
}

#[test]
fn renumber_moves_descriptors() {
    let mut ctx = small_ctx();
    assert_eq!(wasi_fd_renumber(&mut ctx, 1, 6), Ok(()));
    assert_eq!(ctx.fdmap.fd_to_native(6), Ok(HostFd(1)));
    assert_eq!(ctx.fdmap.fd_to_native(1), Err(RuntimeError::Ebadf));
    assert_eq!(wasi_fd_renumber(&mut ctx, 1, 8), Err(RuntimeError::Ebadf));
}

#[test]
fn sizes_and_no_op_calls() {
    let ctx = ctx_with(b"prog x", 2, b"A=1", 1);
    assert_eq!(wasi_args_sizes_get(&ctx), Ok((2, 6)));
    assert_eq!(wasi_environ_sizes_get(&ctx), Ok((1, 3)));
    assert_eq!(wasi_proc_exit(&ctx, 0), Ok(()));
    assert_eq!(wasi_proc_raise(&ctx, 9), Ok(()));
    assert_eq!(wasi_sched_yield(&ctx), Ok(()));
}

#[test]
fn args_get_writes_buffer_and_pointers() {
    let mut ctx = ctx_with(b"prog x", 2, b"", 0);
    assert_eq!(wasi_args_get(&mut ctx, 1000, 2000), Ok(()));
    assert_eq!(&ctx.mem[2000..2006], b"prog\0x");
    assert_eq!(ctx.read_u32(1000), 2000);
    assert_eq!(ctx.read_u32(1004), 2005);
    assert_eq!(ctx.read_u32(1008), 0);
}

#[test]
fn args_get_single_argument() {
    let mut ctx = ctx_with(b"abc", 1, b"", 0);
    ctx.write_u32(104, 77);
    assert_eq!(wasi_args_get(&mut ctx, 100, 200), Ok(()));
    assert_eq!(ctx.read_u32(100), 200);
    assert_eq!(ctx.read_u32(104), 0);
}

#[test]
fn args_get_faults() {
    let mut ctx = ctx_with(b"prog x", 2, b"", 0);
    assert_eq!(wasi_args_get(&mut ctx, 1000, 65533), Err(RuntimeError::Efault));
    assert_eq!(wasi_args_get(&mut ctx, 65530, 2000), Err(RuntimeError::Eoverflow));
}

#[test]
fn environ_get_writes_buffer_and_pointers() {
    let mut ctx = ctx_with(b"p", 1, b"A=1 B=2", 2);
    assert_eq!(wasi_environ_get(&mut ctx, 3000, 4000), Ok(()));
    assert_eq!(&ctx.mem[4000..4007], b"A=1\0B=2");
    assert_eq!(ctx.read_u32(3000), 4000);
    assert_eq!(ctx.read_u32(3004), 4004);
    assert_eq!(ctx.read_u32(3008), 0);
}

#[test]
fn path_requests_use_the_home_directory() {
    let ctx = small_ctx();
    assert_eq!(path_open_begin(&ctx, 4, 1, 0, 1).err(), Some(RuntimeError::Enotcapable));
    assert!(path_open_begin(&ctx, 3, 1, 0, 1).is_ok());
    assert_eq!(path_open_begin(&ctx, 3, 1, 65535, 10).err(), Some(RuntimeError::Eoverflow));
    let p = finish_path(get_components(b"f")).ok().unwrap();
    let c = path_open_request(&ctx, 0, 1, 1, p).unwrap();
    match c {
        HostCall::Openat { dirfd, flags, .. } => {
            assert_eq!(dirfd, HostFd(9));
            assert_eq!(flags, libc::O_NOFOLLOW | libc::O_CREAT | libc::O_APPEND);
        },
        _ => panic!("expected openat"),
    }
}

#[test]
fn path_open_reply_installs_descriptor() {
    let mut ctx = small_ctx();
    assert_eq!(path_open_reply(&mut ctx, 77), Ok(4));
    assert_eq!(ctx.fdmap.fd_to_native(4), Ok(HostFd(77)));
}

#[test]
fn remove_directory_reports_not_empty() {
    assert_eq!(path_remove_directory_reply(Err(RuntimeError::Eexist)), Err(RuntimeError::Enotempty));
    assert_eq!(path_remove_directory_reply(Err(RuntimeError::Eacces)), Err(RuntimeError::Eacces));
    assert_eq!(path_remove_directory_reply(Ok(0)), Ok(()));
}

#[test]
fn link_and_stat_flags() {
    let ctx = small_ctx();
    let a = finish_path(get_components(b"a")).ok().unwrap();
    let b = finish_path(get_components(b"b")).ok().unwrap();
    assert!(matches!(path_link_request(&ctx, 1, a, b).unwrap(), HostCall::Linkat { flags: 0x400, .. }));
    let a = finish_path(get_components(b"a")).ok().unwrap();
    assert!(matches!(
        path_filestat_get_request(&ctx, 0, a).unwrap(),
        HostCall::Fstatat { flags: 0x100, .. }
    ));
    assert_eq!(path_filestat_get_begin(&ctx, 5, 0, 0, 1).err(), Some(RuntimeError::Ebadf));
    assert_eq!(path_filestat_get_begin(&ctx, 0, 0, 0, 1).err(), Some(RuntimeError::Enotcapable));
    assert_eq!(path_link_begin(&ctx, 3, 0, 0, 1, 2).err(), Some(RuntimeError::Enotcapable));
    assert_eq!(path_filestat_set_times_begin(&ctx, 3, 0, 0, 1, 0b1100).err(), Some(RuntimeError::Einval));
}

#[test]
fn readlink_needs_memory() {
    let ctx = small_ctx();
    let a = finish_path(get_components(b"a")).ok().unwrap();
    assert_eq!(path_readlink_request(&ctx, a, 65535, 10).err(), Some(RuntimeError::Efault));
}

#[test]
fn iov_loop_transfers_each_buffer() {
    let mut ctx = small_ctx();
    ctx.write_u32(0, 100);
    ctx.write_u32(4, 10);
    ctx.write_u32(8, 200);
    ctx.write_u32(12, 20);
    let mut l = fd_read_begin(&ctx, 0, 0, 2).unwrap();
    let c = l.next(&ctx).unwrap().unwrap();
    assert!(matches!(c, HostCall::Read { fd: HostFd(0), buf } if buf.iov_base == 100 && buf.iov_len == 10));
    l.record(10);
    let c = l.next(&ctx).unwrap().unwrap();
    assert!(matches!(c, HostCall::Read { buf, .. } if buf.iov_base == 200 && buf.iov_len == 20));
    l.record(5);
    assert!(l.next(&ctx).unwrap().is_none());
    assert_eq!(l.total(), 15);
}

#[test]
fn iov_loop_stops_at_a_bad_entry() {
    let mut ctx = small_ctx();
    ctx.write_u32(0, 65530);
    ctx.write_u32(4, 100);
    let mut l = IovLoop::start(&ctx, IoKind::Write, 1, 0, 1).ok().unwrap();
    assert_eq!(l.next(&ctx).err(), Some(RuntimeError::Efault));
    let mut l2 = fd_pwrite_begin(&ctx, 1, 65532, 1, 7).ok().unwrap();
    assert_eq!(l2.next(&ctx).err(), Some(RuntimeError::Eoverflow));
    assert_eq!(fd_write_begin(&ctx, 5, 0, 1).err(), Some(RuntimeError::Ebadf));
}

#[test]
fn recv_checks_flags() {
    let ctx = small_ctx();
    assert_eq!(sock_recv_begin(&ctx, 1, 0, 1, 4).err(), Some(RuntimeError::Einval));
    assert!(sock_recv_begin(&ctx, 1, 0, 1, 3).is_ok());
}

#[test]
fn readv_checks_every_entry_first() {
    let mut ctx = small_ctx();
    ctx.write_u32(0, 100);
    ctx.write_u32(4, 10);
    ctx.write_u32(8, 65535);
    ctx.write_u32(12, 20);
    assert_eq!(fd_readv_request(&ctx, 0, 0, 2).err(), Some(RuntimeError::Efault));
    match fd_readv_request(&ctx, 0, 0, 1).unwrap() {
        HostCall::Readv { fd, iovs } => {
            assert_eq!(fd, HostFd(0));
            assert_eq!(iovs.len(), 1);
            assert_eq!((iovs[0].iov_base, iovs[0].iov_len), (100, 10));
        },
        _ => panic!("expected readv"),
    }
}

#[test]
fn args_built_by_add_arg_get_their_pointers() {
    let mut ctx = ctx_with(b"", 0, b"", 0);
    add_arg(&mut ctx, String::from("ls"));
    add_arg(&mut ctx, String::from("-l"));
    add_arg(&mut ctx, String::from("dir"));
    assert_eq!(ctx.argc, 3);
    assert_eq!(wasi_args_get(&mut ctx, 100, 200), Ok(()));
    assert_eq!(&ctx.mem[200..209], b"ls\0-l\0dir");
    assert_eq!(ctx.read_u32(100), 200);
    assert_eq!(ctx.read_u32(104), 203);
    assert_eq!(ctx.read_u32(108), 206);
    assert_eq!(ctx.read_u32(112), 0);
}

#[test]
fn environ_get_ignores_argument_length() {
    let mut ctx = ctx_with(b"abcdefghijklmnopqrst", 1, b"A=1 B=2", 2);
    assert_eq!(wasi_environ_get(&mut ctx, 3000, 4000), Ok(()));
    assert_eq!(&ctx.mem[4000..4007], b"A=1\0B=2");
    assert_eq!(ctx.read_u32(3000), 4000);
    assert_eq!(ctx.read_u32(3004), 4004);
    assert_eq!(ctx.read_u32(3008), 0);
}

#[test]
fn connect_reads_the_protocol_of_the_sandbox_descriptor() {
    let mut netlist = empty_netlist();
    netlist[0] = NetEndpoint { protocol: WasiProto::Tcp, addr: 0x0100007f, port: 0x5000 };
    let mut ctx = create_ctx(vec![0u8; 4096], String::from("h"), 3, (0, 1, 2), Vec::new(), 0, Vec::new(), 0, netlist);
    let s = socket_reply(&mut ctx, WasiProto::Tcp, 300).unwrap();
    assert_eq!(s, 4);
    ctx.write_u16(100, 1);
    ctx.write_u16(102, 0x5000);
    ctx.write_u32(104, 0x0100007f);
    let c = sock_connect_request(&ctx, s, 100, 16).unwrap();
    assert!(matches!(c, HostCall::Connect { fd: HostFd(300), family: 2, port: 0x5000, addr: 0x0100007f }));
}
