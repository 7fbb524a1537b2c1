use wave::error::{as_u16, as_u32, RuntimeError};

#[test]
fn syscall_ret_non_negative_is_success() {
    assert_eq!(RuntimeError::from_syscall_ret(0), Ok(0));
    assert_eq!(RuntimeError::from_syscall_ret(17), Ok(17));
}

#[test]
fn syscall_ret_negative_errno_maps_to_error() {
    assert_eq!(RuntimeError::from_syscall_ret(-(libc::ENOENT as isize)), Err(RuntimeError::Enoent));
    assert_eq!(RuntimeError::from_syscall_ret(-(libc::EBADF as isize)), Err(RuntimeError::Ebadf));
    assert_eq!(RuntimeError::from_syscall_ret(-(libc::EEXIST as isize)), Err(RuntimeError::Eexist));
    assert_eq!(RuntimeError::from_syscall_ret(-(libc::ELOOP as isize)), Err(RuntimeError::Eloop));
}

#[test]
fn syscall_ret_out_of_errno_range_is_einval() {
    assert_eq!(RuntimeError::from_syscall_ret(-4096), Err(RuntimeError::Einval));
    assert_eq!(RuntimeError::from_syscall_ret(isize::MIN), Err(RuntimeError::Einval));
}

#[test]
fn unknown_errno_is_einval() {
    assert_eq!(RuntimeError::from_errno(4000), RuntimeError::Einval);
    assert_eq!(RuntimeError::from_errno(libc::EACCES), RuntimeError::Eacces);
}

#[test]
fn wasi_error_numbers() {
    assert_eq!(as_u16(RuntimeError::Success), 0);
    assert_eq!(as_u16(RuntimeError::Ebadf), 8);
    assert_eq!(as_u16(RuntimeError::Einval), 28);
    assert_eq!(as_u16(RuntimeError::Enotcapable), 76);
    assert_eq!(as_u32(RuntimeError::Eoverflow), 61);
}

#[test]
fn poll_revents_errors() {
    assert_eq!(RuntimeError::from_poll_revents(libc::POLLNVAL), RuntimeError::Ebadf);
    assert_eq!(RuntimeError::from_poll_revents(libc::POLLERR), RuntimeError::Eio);
    assert_eq!(RuntimeError::from_poll_revents(libc::POLLIN), RuntimeError::Success);
    assert_eq!(RuntimeError::from_poll_revents(libc::POLLNVAL | libc::POLLERR), RuntimeError::Ebadf);
}
