use wave::error::RuntimeError;
use wave::fdmap::FdMap;
use wave::types::{HostFd, WasiProto, MAX_SBOX_FDS};

#[test]
fn new_table_is_empty() {
    let m = FdMap::new();
    for v in 0..MAX_SBOX_FDS + 2 {
        assert_eq!(m.fd_to_native(v), Err(RuntimeError::Ebadf));
    }
    assert_eq!(m.counter, 0);
    assert!(m.reserve.is_empty());
}

#[test]
fn created_descriptor_looks_up_its_host_descriptor() {
    let mut m = FdMap::new();
    let s = m.create(HostFd::from_raw(42)).unwrap();
    assert_eq!(s, 0);
    assert_eq!(m.fd_to_native(s), Ok(HostFd(42)));
    let t = m.create(HostFd::from_raw(43)).unwrap();
    assert_eq!(t, 1);
    assert_eq!(m.fd_to_native(t), Ok(HostFd(43)));
}

#[test]
fn deleted_descriptor_is_bad_and_reused() {
    let mut m = FdMap::new();
    let s = m.create(HostFd(10)).unwrap();
    let _ = m.create(HostFd(11)).unwrap();
    m.delete(s);
    assert_eq!(m.fd_to_native(s), Err(RuntimeError::Ebadf));
    assert_eq!(m.reserve, vec![s]);
    let again = m.create(HostFd(12)).unwrap();
    assert_eq!(again, s);
    assert_eq!(m.fd_to_native(again), Ok(HostFd(12)));
}

#[test]
fn deleting_a_free_slot_keeps_the_reserve() {
    let mut m = FdMap::new();
    m.delete(5);
    assert!(m.reserve.is_empty());
    assert_eq!(m.fd_to_native(5), Err(RuntimeError::Ebadf));
}

#[test]
fn table_is_bounded() {
    let mut m = FdMap::new();
    for i in 0..MAX_SBOX_FDS {
        assert_eq!(m.create(HostFd(100 + i as usize)), Ok(i));
    }
    assert_eq!(m.create(HostFd(999)), Err(RuntimeError::Emfile));
}

#[test]
fn std_fds_take_the_first_slots() {
    let mut m = FdMap::new();
    assert_eq!(m.init_std_fds(0, 1, 2), Ok(()));
    assert_eq!(m.fd_to_native(0), Ok(HostFd(0)));
    assert_eq!(m.fd_to_native(1), Ok(HostFd(1)));
    assert_eq!(m.fd_to_native(2), Ok(HostFd(2)));
    let mut m2 = FdMap::new();
    assert_eq!(m2.init_std_fds(0, -1, 2), Err(RuntimeError::Emfile));
    assert_eq!(m2.fd_to_native(0), Err(RuntimeError::Ebadf));
}

#[test]
fn shift_moves_a_descriptor() {
    let mut m = FdMap::new();
    let s = m.create(HostFd(7)).unwrap();
    m.shift(s, 5);
    assert_eq!(m.fd_to_native(5), Ok(HostFd(7)));
    assert_eq!(m.fd_to_native(s), Err(RuntimeError::Ebadf));
}

#[test]
fn sockets_record_their_protocol() {
    let mut m = FdMap::new();
    let s = m.create_sock(HostFd(30), WasiProto::Tcp).unwrap();
    assert_eq!(m.sockinfo[s as usize], Ok(WasiProto::Tcp));
    assert_eq!(m.fd_to_native(s), Ok(HostFd(30)));
}
