//! The runtime's error codes, numbered as WASI numbers its `errno` values.
use vstd::prelude::*;
use crate::posix;

verus! {

/// A WASI error code. The variants are listed in WASI's order, so the
/// position of a variant is its WASI number (`Success` is 0).
#[derive(PartialEq, Eq, Structural, Clone, Copy, Debug)]
pub enum RuntimeError {
    Success,
    Etoobig,
    Eacces,
    Eaddrinuse,
    Eaddrnotavail,
    Eafnosupport,
    Eagain,
    Ealready,
    Ebadf,
    Ebadmsg,
    Ebusy,
    Ecanceled,
    Echild,
    Econnaborted,
    Econnrefused,
    Econnreset,
    Edeadlk,
    Edestaddrreq,
    Edomain,
    Edquot,
    Eexist,
    Efault,
    Efbig,
    Ehostunreach,
    Eidrm,
    Eilseq,
    Einprogress,
    Eintr,
    Einval,
    Eio,
    Eisconn,
    Eisdir,
    Eloop,
    Emfile,
    Emlink,
    Emsgsize,
    Emultihop,
    Enametoolong,
    Enetdown,
    Enetreset,
    Enetunreach,
    Enfile,
    Enobufs,
    Enodev,
    Enoent,
    Enoexec,
    Enolck,
    Enolink,
    Enomem,
    Enomsg,
    Enoprotoopt,
    Enospc,
    Enosys,
    Enotconn,
    Enotdir,
    Enotempty,
    Enotrecoverable,
    Enotsock,
    Enotsup,
    Enotty,
    Enxio,
    Eoverflow,
    Eownerdead,
    Eperm,
    Epipe,
    Eproto,
    Eprotonosupport,
    Eprototype,
    Erange,
    Erofs,
    Espipe,
    Esrch,
    Estale,
    Etimedout,
    Etxtbsy,
    Exdev,
    Enotcapable,
}

pub type RuntimeResult<T> = Result<T, RuntimeError>;

/// The WASI number of an error code: its position in the list of variants.
pub open spec fn wasi_errno(e: RuntimeError) -> u16 {
    match e {
        RuntimeError::Success => 0u16,
        RuntimeError::Etoobig => 1u16,
        RuntimeError::Eacces => 2u16,
        RuntimeError::Eaddrinuse => 3u16,
        RuntimeError::Eaddrnotavail => 4u16,
        RuntimeError::Eafnosupport => 5u16,
        RuntimeError::Eagain => 6u16,
        RuntimeError::Ealready => 7u16,
        RuntimeError::Ebadf => 8u16,
        RuntimeError::Ebadmsg => 9u16,
        RuntimeError::Ebusy => 10u16,
        RuntimeError::Ecanceled => 11u16,
        RuntimeError::Echild => 12u16,
        RuntimeError::Econnaborted => 13u16,
        RuntimeError::Econnrefused => 14u16,
        RuntimeError::Econnreset => 15u16,
        RuntimeError::Edeadlk => 16u16,
        RuntimeError::Edestaddrreq => 17u16,
        RuntimeError::Edomain => 18u16,
        RuntimeError::Edquot => 19u16,
        RuntimeError::Eexist => 20u16,
        RuntimeError::Efault => 21u16,
        RuntimeError::Efbig => 22u16,
        RuntimeError::Ehostunreach => 23u16,
        RuntimeError::Eidrm => 24u16,
        RuntimeError::Eilseq => 25u16,
        RuntimeError::Einprogress => 26u16,
        RuntimeError::Eintr => 27u16,
        RuntimeError::Einval => 28u16,
        RuntimeError::Eio => 29u16,
        RuntimeError::Eisconn => 30u16,
        RuntimeError::Eisdir => 31u16,
        RuntimeError::Eloop => 32u16,
        RuntimeError::Emfile => 33u16,
        RuntimeError::Emlink => 34u16,
        RuntimeError::Emsgsize => 35u16,
        RuntimeError::Emultihop => 36u16,
        RuntimeError::Enametoolong => 37u16,
        RuntimeError::Enetdown => 38u16,
        RuntimeError::Enetreset => 39u16,
        RuntimeError::Enetunreach => 40u16,
        RuntimeError::Enfile => 41u16,
        RuntimeError::Enobufs => 42u16,
        RuntimeError::Enodev => 43u16,
        RuntimeError::Enoent => 44u16,
        RuntimeError::Enoexec => 45u16,
        RuntimeError::Enolck => 46u16,
        RuntimeError::Enolink => 47u16,
        RuntimeError::Enomem => 48u16,
        RuntimeError::Enomsg => 49u16,
        RuntimeError::Enoprotoopt => 50u16,
        RuntimeError::Enospc => 51u16,
        RuntimeError::Enosys => 52u16,
        RuntimeError::Enotconn => 53u16,
        RuntimeError::Enotdir => 54u16,
        RuntimeError::Enotempty => 55u16,
        RuntimeError::Enotrecoverable => 56u16,
        RuntimeError::Enotsock => 57u16,
        RuntimeError::Enotsup => 58u16,
        RuntimeError::Enotty => 59u16,
        RuntimeError::Enxio => 60u16,
        RuntimeError::Eoverflow => 61u16,
        RuntimeError::Eownerdead => 62u16,
        RuntimeError::Eperm => 63u16,
        RuntimeError::Epipe => 64u16,
        RuntimeError::Eproto => 65u16,
        RuntimeError::Eprotonosupport => 66u16,
        RuntimeError::Eprototype => 67u16,
        RuntimeError::Erange => 68u16,
        RuntimeError::Erofs => 69u16,
        RuntimeError::Espipe => 70u16,
        RuntimeError::Esrch => 71u16,
        RuntimeError::Estale => 72u16,
        RuntimeError::Etimedout => 73u16,
        RuntimeError::Etxtbsy => 74u16,
        RuntimeError::Exdev => 75u16,
        RuntimeError::Enotcapable => 76u16,
    }
}

/// The error code that a host `errno` value stands for; values with no
/// WASI counterpart become `Einval`.
pub open spec fn errno_to_error(errno: i32) -> RuntimeError {
    if errno == posix::E2BIG {
        RuntimeError::Etoobig
    } else if errno == posix::EACCES {
        RuntimeError::Eacces
    } else if errno == posix::EADDRINUSE {
        RuntimeError::Eaddrinuse
    } else if errno == posix::EADDRNOTAVAIL {
        RuntimeError::Eaddrnotavail
    } else if errno == posix::EAFNOSUPPORT {
        RuntimeError::Eafnosupport
    } else if errno == posix::EAGAIN {
        RuntimeError::Eagain
    } else if errno == posix::EALREADY {
        RuntimeError::Ealready
    } else if errno == posix::EBADF {
        RuntimeError::Ebadf
    } else if errno == posix::EBADMSG {
        RuntimeError::Ebadmsg
    } else if errno == posix::EBUSY {
        RuntimeError::Ebusy
    } else if errno == posix::ECANCELED {
        RuntimeError::Ecanceled
    } else if errno == posix::ECHILD {
        RuntimeError::Echild
    } else if errno == posix::ECONNABORTED {
        RuntimeError::Econnaborted
    } else if errno == posix::ECONNREFUSED {
        RuntimeError::Econnrefused
    } else if errno == posix::ECONNRESET {
        RuntimeError::Econnreset
    } else if errno == posix::EDEADLK {
        RuntimeError::Edeadlk
    } else if errno == posix::EDESTADDRREQ {
        RuntimeError::Edestaddrreq
    } else if errno == posix::EDQUOT {
        RuntimeError::Edquot
    } else if errno == posix::EEXIST {
        RuntimeError::Eexist
    } else if errno == posix::EFAULT {
        RuntimeError::Efault
    } else if errno == posix::EFBIG {
        RuntimeError::Efbig
    } else if errno == posix::EHOSTUNREACH {
        RuntimeError::Ehostunreach
    } else if errno == posix::EIDRM {
        RuntimeError::Eidrm
    } else if errno == posix::EILSEQ {
        RuntimeError::Eilseq
    } else if errno == posix::EINPROGRESS {
        RuntimeError::Einprogress
    } else if errno == posix::EINTR {
        RuntimeError::Eintr
    } else if errno == posix::EINVAL {
        RuntimeError::Einval
    } else if errno == posix::EIO {
        RuntimeError::Eio
    } else if errno == posix::EISCONN {
        RuntimeError::Eisconn
    } else if errno == posix::EISDIR {
        RuntimeError::Eisdir
    } else if errno == posix::ELOOP {
        RuntimeError::Eloop
    } else if errno == posix::EMFILE {
        RuntimeError::Emfile
    } else if errno == posix::EMLINK {
        RuntimeError::Emlink
    } else if errno == posix::EMSGSIZE {
        RuntimeError::Emsgsize
    } else if errno == posix::EMULTIHOP {
        RuntimeError::Emultihop
    } else if errno == posix::ENAMETOOLONG {
        RuntimeError::Enametoolong
    } else if errno == posix::ENETDOWN {
        RuntimeError::Enetdown
    } else if errno == posix::ENETRESET {
        RuntimeError::Enetreset
    } else if errno == posix::ENETUNREACH {
        RuntimeError::Enetunreach
    } else if errno == posix::ENFILE {
        RuntimeError::Enfile
    } else if errno == posix::ENOBUFS {
        RuntimeError::Enobufs
    } else if errno == posix::ENODEV {
        RuntimeError::Enodev
    } else if errno == posix::ENOENT {
        RuntimeError::Enoent
    } else if errno == posix::ENOEXEC {
        RuntimeError::Enoexec
    } else if errno == posix::ENOLCK {
        RuntimeError::Enolck
    } else if errno == posix::ENOLINK {
        RuntimeError::Enolink
    } else if errno == posix::ENOMEM {
        RuntimeError::Enomem
    } else if errno == posix::ENOMSG {
        RuntimeError::Enomsg
    } else if errno == posix::ENOPROTOOPT {
        RuntimeError::Enoprotoopt
    } else if errno == posix::ENOSPC {
        RuntimeError::Enospc
    } else if errno == posix::ENOSYS {
        RuntimeError::Enosys
    } else if errno == posix::ENOTCONN {
        RuntimeError::Enotconn
    } else if errno == posix::ENOTDIR {
        RuntimeError::Enotdir
    } else if errno == posix::ENOTEMPTY {
        RuntimeError::Enotempty
    } else if errno == posix::ENOTRECOVERABLE {
        RuntimeError::Enotrecoverable
    } else if errno == posix::ENOTSOCK {
        RuntimeError::Enotsock
    } else if errno == posix::ENOTSUP {
        RuntimeError::Enotsup
    } else if errno == posix::ENOTTY {
        RuntimeError::Enotty
    } else if errno == posix::ENXIO {
        RuntimeError::Enxio
    } else if errno == posix::EOVERFLOW {
        RuntimeError::Eoverflow
    } else if errno == posix::EOWNERDEAD {
        RuntimeError::Eownerdead
    } else if errno == posix::EPERM {
        RuntimeError::Eperm
    } else if errno == posix::EPIPE {
        RuntimeError::Epipe
    } else if errno == posix::EPROTO {
        RuntimeError::Eproto
    } else if errno == posix::EPROTONOSUPPORT {
        RuntimeError::Eprotonosupport
    } else if errno == posix::EPROTOTYPE {
        RuntimeError::Eprototype
    } else if errno == posix::ERANGE {
        RuntimeError::Erange
    } else if errno == posix::EROFS {
        RuntimeError::Erofs
    } else if errno == posix::ESPIPE {
        RuntimeError::Espipe
    } else if errno == posix::ESRCH {
        RuntimeError::Esrch
    } else if errno == posix::ESTALE {
        RuntimeError::Estale
    } else if errno == posix::ETIMEDOUT {
        RuntimeError::Etimedout
    } else if errno == posix::ETXTBSY {
        RuntimeError::Etxtbsy
    } else if errno == posix::EXDEV {
        RuntimeError::Exdev
    } else {
        RuntimeError::Einval
    }
}

/// The result that a raw system-call return value stands for: a
/// non-negative value is a success carrying that value, a value in
/// `-4095..=-1` is the negated `errno`, anything below is `Einval`.
pub open spec fn syscall_result(ret: isize) -> RuntimeResult<usize> {
    if ret >= 0 {
        Ok(ret as usize)
    } else if ret <= -4096 {
        Err(RuntimeError::Einval)
    } else {
        Err(errno_to_error((-ret) as i32))
    }
}

/// The WASI number of an error code as a 32-bit value.
pub fn as_u32(e: RuntimeError) -> (r: u32)
    ensures
        r == wasi_errno(e),
{
    as_u16(e) as u32
}

/// The WASI number of an error code as a 16-bit value.
pub fn as_u16(e: RuntimeError) -> (r: u16)
    ensures
        r == wasi_errno(e),
{
    match e {
        RuntimeError::Success => 0,
        RuntimeError::Etoobig => 1,
        RuntimeError::Eacces => 2,
        RuntimeError::Eaddrinuse => 3,
        RuntimeError::Eaddrnotavail => 4,
        RuntimeError::Eafnosupport => 5,
        RuntimeError::Eagain => 6,
        RuntimeError::Ealready => 7,
        RuntimeError::Ebadf => 8,
        RuntimeError::Ebadmsg => 9,
        RuntimeError::Ebusy => 10,
        RuntimeError::Ecanceled => 11,
        RuntimeError::Echild => 12,
        RuntimeError::Econnaborted => 13,
        RuntimeError::Econnrefused => 14,
        RuntimeError::Econnreset => 15,
        RuntimeError::Edeadlk => 16,
        RuntimeError::Edestaddrreq => 17,
        RuntimeError::Edomain => 18,
        RuntimeError::Edquot => 19,
        RuntimeError::Eexist => 20,
        RuntimeError::Efault => 21,
        RuntimeError::Efbig => 22,
        RuntimeError::Ehostunreach => 23,
        RuntimeError::Eidrm => 24,
        RuntimeError::Eilseq => 25,
        RuntimeError::Einprogress => 26,
        RuntimeError::Eintr => 27,
        RuntimeError::Einval => 28,
        RuntimeError::Eio => 29,
        RuntimeError::Eisconn => 30,
        RuntimeError::Eisdir => 31,
        RuntimeError::Eloop => 32,
        RuntimeError::Emfile => 33,
        RuntimeError::Emlink => 34,
        RuntimeError::Emsgsize => 35,
        RuntimeError::Emultihop => 36,
        RuntimeError::Enametoolong => 37,
        RuntimeError::Enetdown => 38,
        RuntimeError::Enetreset => 39,
        RuntimeError::Enetunreach => 40,
        RuntimeError::Enfile => 41,
        RuntimeError::Enobufs => 42,
        RuntimeError::Enodev => 43,
        RuntimeError::Enoent => 44,
        RuntimeError::Enoexec => 45,
        RuntimeError::Enolck => 46,
        RuntimeError::Enolink => 47,
        RuntimeError::Enomem => 48,
        RuntimeError::Enomsg => 49,
        RuntimeError::Enoprotoopt => 50,
        RuntimeError::Enospc => 51,
        RuntimeError::Enosys => 52,
        RuntimeError::Enotconn => 53,
        RuntimeError::Enotdir => 54,
        RuntimeError::Enotempty => 55,
        RuntimeError::Enotrecoverable => 56,
        RuntimeError::Enotsock => 57,
        RuntimeError::Enotsup => 58,
        RuntimeError::Enotty => 59,
        RuntimeError::Enxio => 60,
        RuntimeError::Eoverflow => 61,
        RuntimeError::Eownerdead => 62,
        RuntimeError::Eperm => 63,
        RuntimeError::Epipe => 64,
        RuntimeError::Eproto => 65,
        RuntimeError::Eprotonosupport => 66,
        RuntimeError::Eprototype => 67,
        RuntimeError::Erange => 68,
        RuntimeError::Erofs => 69,
        RuntimeError::Espipe => 70,
        RuntimeError::Esrch => 71,
        RuntimeError::Estale => 72,
        RuntimeError::Etimedout => 73,
        RuntimeError::Etxtbsy => 74,
        RuntimeError::Exdev => 75,
        RuntimeError::Enotcapable => 76,
    }
}

impl RuntimeError {
    /// The error code that the host `errno` value `errno` stands for.
    pub fn from_errno(errno: i32) -> (r: RuntimeError)
        ensures
            r == errno_to_error(errno),
    {
        if errno == posix::E2BIG {
            RuntimeError::Etoobig
        } else if errno == posix::EACCES {
            RuntimeError::Eacces
        } else if errno == posix::EADDRINUSE {
            RuntimeError::Eaddrinuse
        } else if errno == posix::EADDRNOTAVAIL {
            RuntimeError::Eaddrnotavail
        } else if errno == posix::EAFNOSUPPORT {
            RuntimeError::Eafnosupport
        } else if errno == posix::EAGAIN {
            RuntimeError::Eagain
        } else if errno == posix::EALREADY {
            RuntimeError::Ealready
        } else if errno == posix::EBADF {
            RuntimeError::Ebadf
        } else if errno == posix::EBADMSG {
            RuntimeError::Ebadmsg
        } else if errno == posix::EBUSY {
            RuntimeError::Ebusy
        } else if errno == posix::ECANCELED {
            RuntimeError::Ecanceled
        } else if errno == posix::ECHILD {
            RuntimeError::Echild
        } else if errno == posix::ECONNABORTED {
            RuntimeError::Econnaborted
        } else if errno == posix::ECONNREFUSED {
            RuntimeError::Econnrefused
        } else if errno == posix::ECONNRESET {
            RuntimeError::Econnreset
        } else if errno == posix::EDEADLK {
            RuntimeError::Edeadlk
        } else if errno == posix::EDESTADDRREQ {
            RuntimeError::Edestaddrreq
        } else if errno == posix::EDQUOT {
            RuntimeError::Edquot
        } else if errno == posix::EEXIST {
            RuntimeError::Eexist
        } else if errno == posix::EFAULT {
            RuntimeError::Efault
        } else if errno == posix::EFBIG {
            RuntimeError::Efbig
        } else if errno == posix::EHOSTUNREACH {
            RuntimeError::Ehostunreach
        } else if errno == posix::EIDRM {
            RuntimeError::Eidrm
        } else if errno == posix::EILSEQ {
            RuntimeError::Eilseq
        } else if errno == posix::EINPROGRESS {
            RuntimeError::Einprogress
        } else if errno == posix::EINTR {
            RuntimeError::Eintr
        } else if errno == posix::EINVAL {
            RuntimeError::Einval
        } else if errno == posix::EIO {
            RuntimeError::Eio
        } else if errno == posix::EISCONN {
            RuntimeError::Eisconn
        } else if errno == posix::EISDIR {
            RuntimeError::Eisdir
        } else if errno == posix::ELOOP {
            RuntimeError::Eloop
        } else if errno == posix::EMFILE {
            RuntimeError::Emfile
        } else if errno == posix::EMLINK {
            RuntimeError::Emlink
        } else if errno == posix::EMSGSIZE {
            RuntimeError::Emsgsize
        } else if errno == posix::EMULTIHOP {
            RuntimeError::Emultihop
        } else if errno == posix::ENAMETOOLONG {
            RuntimeError::Enametoolong
        } else if errno == posix::ENETDOWN {
            RuntimeError::Enetdown
        } else if errno == posix::ENETRESET {
            RuntimeError::Enetreset
        } else if errno == posix::ENETUNREACH {
            RuntimeError::Enetunreach
        } else if errno == posix::ENFILE {
            RuntimeError::Enfile
        } else if errno == posix::ENOBUFS {
            RuntimeError::Enobufs
        } else if errno == posix::ENODEV {
            RuntimeError::Enodev
        } else if errno == posix::ENOENT {
            RuntimeError::Enoent
        } else if errno == posix::ENOEXEC {
            RuntimeError::Enoexec
        } else if errno == posix::ENOLCK {
            RuntimeError::Enolck
        } else if errno == posix::ENOLINK {
            RuntimeError::Enolink
        } else if errno == posix::ENOMEM {
            RuntimeError::Enomem
        } else if errno == posix::ENOMSG {
            RuntimeError::Enomsg
        } else if errno == posix::ENOPROTOOPT {
            RuntimeError::Enoprotoopt
        } else if errno == posix::ENOSPC {
            RuntimeError::Enospc
        } else if errno == posix::ENOSYS {
            RuntimeError::Enosys
        } else if errno == posix::ENOTCONN {
            RuntimeError::Enotconn
        } else if errno == posix::ENOTDIR {
            RuntimeError::Enotdir
        } else if errno == posix::ENOTEMPTY {
            RuntimeError::Enotempty
        } else if errno == posix::ENOTRECOVERABLE {
            RuntimeError::Enotrecoverable
        } else if errno == posix::ENOTSOCK {
            RuntimeError::Enotsock
        } else if errno == posix::ENOTSUP {
            RuntimeError::Enotsup
        } else if errno == posix::ENOTTY {
            RuntimeError::Enotty
        } else if errno == posix::ENXIO {
            RuntimeError::Enxio
        } else if errno == posix::EOVERFLOW {
            RuntimeError::Eoverflow
        } else if errno == posix::EOWNERDEAD {
            RuntimeError::Eownerdead
        } else if errno == posix::EPERM {
            RuntimeError::Eperm
        } else if errno == posix::EPIPE {
            RuntimeError::Epipe
        } else if errno == posix::EPROTO {
            RuntimeError::Eproto
        } else if errno == posix::EPROTONOSUPPORT {
            RuntimeError::Eprotonosupport
        } else if errno == posix::EPROTOTYPE {
            RuntimeError::Eprototype
        } else if errno == posix::ERANGE {
            RuntimeError::Erange
        } else if errno == posix::EROFS {
            RuntimeError::Erofs
        } else if errno == posix::ESPIPE {
            RuntimeError::Espipe
        } else if errno == posix::ESRCH {
            RuntimeError::Esrch
        } else if errno == posix::ESTALE {
            RuntimeError::Estale
        } else if errno == posix::ETIMEDOUT {
            RuntimeError::Etimedout
        } else if errno == posix::ETXTBSY {
            RuntimeError::Etxtbsy
        } else if errno == posix::EXDEV {
            RuntimeError::Exdev
        } else {
            RuntimeError::Einval
        }
    }

    /// Interprets the raw return value of a system call. No supported call
    /// returns a negative value on success.
    pub fn from_syscall_ret(ret: isize) -> (r: RuntimeResult<usize>)
        ensures
            r == syscall_result(ret),
    {
        if ret >= 0 {
            return Ok(ret as usize);
        }
        if ret <= -4096 {
            return Err(RuntimeError::Einval);
        }
        let errno = -ret;
        Err(RuntimeError::from_errno(errno as i32))
    }

    /// The error that the `revents` of a polled descriptor report.
    pub fn from_poll_revents(revents: i16) -> (r: RuntimeError)
        ensures
            r == (if revents & posix::POLLNVAL != 0 {
                RuntimeError::Ebadf
            } else if revents & posix::POLLERR != 0 {
                RuntimeError::Eio
            } else {
                RuntimeError::Success
            }),
    {
        if revents & posix::POLLNVAL != 0 {
            RuntimeError::Ebadf
        } else if revents & posix::POLLERR != 0 {
            RuntimeError::Eio
        } else {
            RuntimeError::Success
        }
    }
}

} // verus!
