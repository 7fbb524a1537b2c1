use wave::error::RuntimeError;
use wave::flags::{FdFlags, FdStat};
use wave::iov::{NativeIoVec, WasmIoVec};
use wave::types::Filetype;
use wave::writeback::wasm2c_marshal_and_writeback_fdstat;
use wave::runtime::{create_ctx, space_to_nul, VmCtx};
use wave::types::{empty_netlist, HostFd};

fn small_ctx() -> VmCtx {
    create_ctx(
        vec![0u8; 65536],
        String::from("/tmp/home"),
        9,
        (0, 1, 2),
        Vec::new(),
        0,
        Vec::new(),
        0,
        empty_netlist(),
    )
}

#[test]
fn context_maps_std_streams_and_home() {
    let ctx = small_ctx();
    assert_eq!(ctx.memlen, 65536);
    assert_eq!(ctx.fdmap.fd_to_native(0), Ok(HostFd(0)));
    assert_eq!(ctx.fdmap.fd_to_native(3), Ok(HostFd(9)));
    assert_eq!(ctx.homedir_host_fd, HostFd(9));
}

#[test]
fn u32_write_then_read() {
    let mut ctx = small_ctx();
    ctx.write_u32(100, 0xdeadbeef);
    assert_eq!(ctx.read_u32(100), 0xdeadbeef);
    assert_eq!(&ctx.mem[100..104], &[0xef, 0xbe, 0xad, 0xde]);
    assert_eq!(ctx.mem[99], 0);
    assert_eq!(ctx.mem[104], 0);
}

#[test]
fn u16_and_u64_write_then_read() {
    let mut ctx = small_ctx();
    ctx.write_u16(10, 0x1234);
    assert_eq!(ctx.read_u16(10), 0x1234);
    ctx.write_u64(16, 0x0102030405060708);
    assert_eq!(ctx.read_u64(16), 0x0102030405060708);
    assert_eq!(ctx.mem[16], 0x08);
}

#[test]
fn fits_in_lin_mem_checks_both_ends() {
    let ctx = small_ctx();
    assert!(ctx.fits_in_lin_mem(0, 10));
    assert!(ctx.fits_in_lin_mem(65526, 10));
    assert!(!ctx.fits_in_lin_mem(65527, 10));
    assert!(!ctx.fits_in_lin_mem(65536, 0));
    assert!(!ctx.fits_in_lin_mem(0, 65536));
    assert!(!ctx.fits_in_lin_mem(u32::MAX, 2));
    assert!(!ctx.fits_in_lin_mem_usize(usize::MAX, 2));
}

#[test]
fn read_u32_pair_reads_an_iovec() {
    let mut ctx = small_ctx();
    ctx.write_u32(200, 7);
    ctx.write_u32(204, 9);
    assert_eq!(ctx.read_u32_pair(200), Ok((7, 9)));
    assert_eq!(ctx.read_u32_pair(65530), Err(RuntimeError::Eoverflow));
}

#[test]
fn copy_buffers_in_and_out() {
    let mut ctx = small_ctx();
    let data = vec![1u8, 2, 3, 4, 5];
    assert_eq!(ctx.copy_buf_to_sandbox(300, &data, 3), Some(()));
    assert_eq!(ctx.copy_buf_from_sandbox(300, 4), vec![1, 2, 3, 0]);
    assert_eq!(ctx.copy_buf_to_sandbox(300, &data, 6), None);
    assert_eq!(ctx.copy_buf_to_sandbox(65535, &data, 2), None);
}

#[test]
fn spaces_become_separators() {
    let mut buf = b"a b  c".to_vec();
    space_to_nul(&mut buf);
    assert_eq!(buf, b"a\0b\0\0c".to_vec());
}

#[test]
fn homedir_bytes() {
    let ctx = small_ctx();
    assert_eq!(ctx.get_homedir(), b"/tmp/home".to_vec());
}

#[test]
fn arguments_are_zero_separated() {
    let mut ctx = small_ctx();
    wave::runtime::add_arg(&mut ctx, String::from("prog"));
    wave::runtime::add_arg(&mut ctx, String::from("x"));
    assert_eq!(ctx.argc, 2);
    assert_eq!(ctx.arg_buffer, b"prog\0x".to_vec());
    wave::runtime::add_env_var(&mut ctx, String::from("A=1"));
    assert_eq!(ctx.envc, 1);
    assert_eq!(ctx.env_buffer, b"A=1".to_vec());
}

#[test]
fn translate_path_checks_memory() {
    let mut ctx = small_ctx();
    let p = b"a/b".to_vec();
    assert_eq!(ctx.copy_buf_to_sandbox(400, &p, 3), Some(()));
    assert!(ctx.translate_path(400, 3, true).is_ok());
    assert_eq!(ctx.translate_path(65535, 3, true).err(), Some(RuntimeError::Eoverflow));
}

#[test]
fn memcpy_round_trip() {
    let mut ctx = small_ctx();
    let src = vec![1u8, 2, 3, 4, 5];
    ctx.memcpy_to_sandbox(200, &src, 3);
    assert_eq!(&ctx.mem[199..204], &[0, 1, 2, 3, 0]);
    let mut dst = vec![9u8; 10];
    ctx.memcpy_from_sandbox(&mut dst, 200, 4);
    assert_eq!(dst, vec![1, 2, 3, 0]);
}

#[test]
fn iovs_translate_by_base() {
    let ctx = small_ctx();
    let one = ctx.translate_iov(0x1000, WasmIoVec { iov_base: 16, iov_len: 4 });
    assert_eq!(one, NativeIoVec { iov_base: 0x1010, iov_len: 4 });
    let iovs = vec![WasmIoVec { iov_base: 0, iov_len: 8 }, WasmIoVec { iov_base: 100, iov_len: 2 }];
    let native = ctx.translate_iovs(0x2000, &iovs);
    assert_eq!(native.len(), 2);
    assert_eq!(native.lookup(0), NativeIoVec { iov_base: 0x2000, iov_len: 8 });
    assert_eq!(native.lookup(1), NativeIoVec { iov_base: 0x2064, iov_len: 2 });
}

#[test]
fn fdstat_is_written_in_wasi_layout() {
    let mut ctx = small_ctx();
    let st = FdStat {
        fs_filetype: Filetype::RegularFile,
        fs_flags: FdFlags(1 | 4),
        fs_rights_base: 7,
        fs_rights_inheriting: u64::MAX,
    };
    assert_eq!(wasm2c_marshal_and_writeback_fdstat(&mut ctx, 64, Ok(st)), 0);
    assert_eq!(ctx.mem[64], Filetype::RegularFile.to_wasi());
    assert_eq!(ctx.read_u16(66), 5);
    assert_eq!(ctx.read_u64(72), 7);
    assert_eq!(ctx.read_u64(80), u64::MAX);
}
