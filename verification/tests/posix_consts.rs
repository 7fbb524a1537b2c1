use wave::posix;

#[test]
fn posix_constants_match_the_host() {
    assert_eq!(posix::EPERM, libc::EPERM as i32);
    assert_eq!(posix::ENOENT, libc::ENOENT as i32);
    assert_eq!(posix::ESRCH, libc::ESRCH as i32);
    assert_eq!(posix::EINTR, libc::EINTR as i32);
    assert_eq!(posix::EIO, libc::EIO as i32);
    assert_eq!(posix::ENXIO, libc::ENXIO as i32);
    assert_eq!(posix::E2BIG, libc::E2BIG as i32);
    assert_eq!(posix::ENOEXEC, libc::ENOEXEC as i32);
    assert_eq!(posix::EBADF, libc::EBADF as i32);
    assert_eq!(posix::ECHILD, libc::ECHILD as i32);
    assert_eq!(posix::EAGAIN, libc::EAGAIN as i32);
    assert_eq!(posix::ENOMEM, libc::ENOMEM as i32);
    assert_eq!(posix::EACCES, libc::EACCES as i32);
    assert_eq!(posix::EFAULT, libc::EFAULT as i32);
    assert_eq!(posix::EBUSY, libc::EBUSY as i32);
    assert_eq!(posix::EEXIST, libc::EEXIST as i32);
    assert_eq!(posix::EXDEV, libc::EXDEV as i32);
    assert_eq!(posix::ENODEV, libc::ENODEV as i32);
    assert_eq!(posix::ENOTDIR, libc::ENOTDIR as i32);
    assert_eq!(posix::EISDIR, libc::EISDIR as i32);
    assert_eq!(posix::EINVAL, libc::EINVAL as i32);
    assert_eq!(posix::ENFILE, libc::ENFILE as i32);
    assert_eq!(posix::EMFILE, libc::EMFILE as i32);
    assert_eq!(posix::ENOTTY, libc::ENOTTY as i32);
    assert_eq!(posix::ETXTBSY, libc::ETXTBSY as i32);
    assert_eq!(posix::EFBIG, libc::EFBIG as i32);
    assert_eq!(posix::ENOSPC, libc::ENOSPC as i32);
    assert_eq!(posix::ESPIPE, libc::ESPIPE as i32);
    assert_eq!(posix::EROFS, libc::EROFS as i32);
    assert_eq!(posix::EMLINK, libc::EMLINK as i32);
    assert_eq!(posix::EPIPE, libc::EPIPE as i32);
    assert_eq!(posix::ERANGE, libc::ERANGE as i32);
    assert_eq!(posix::EDEADLK, libc::EDEADLK as i32);
    assert_eq!(posix::ENAMETOOLONG, libc::ENAMETOOLONG as i32);
    assert_eq!(posix::ENOLCK, libc::ENOLCK as i32);
    assert_eq!(posix::ENOSYS, libc::ENOSYS as i32);
    assert_eq!(posix::ENOTEMPTY, libc::ENOTEMPTY as i32);
    assert_eq!(posix::ELOOP, libc::ELOOP as i32);
    assert_eq!(posix::ENOMSG, libc::ENOMSG as i32);
    assert_eq!(posix::EIDRM, libc::EIDRM as i32);
    assert_eq!(posix::ENOLINK, libc::ENOLINK as i32);
    assert_eq!(posix::EPROTO, libc::EPROTO as i32);
    assert_eq!(posix::EMULTIHOP, libc::EMULTIHOP as i32);
    assert_eq!(posix::EBADMSG, libc::EBADMSG as i32);
    assert_eq!(posix::EOVERFLOW, libc::EOVERFLOW as i32);
    assert_eq!(posix::EILSEQ, libc::EILSEQ as i32);
    assert_eq!(posix::ENOTSOCK, libc::ENOTSOCK as i32);
    assert_eq!(posix::EDESTADDRREQ, libc::EDESTADDRREQ as i32);
    assert_eq!(posix::EMSGSIZE, libc::EMSGSIZE as i32);
    assert_eq!(posix::EPROTOTYPE, libc::EPROTOTYPE as i32);
    assert_eq!(posix::ENOPROTOOPT, libc::ENOPROTOOPT as i32);
    assert_eq!(posix::EPROTONOSUPPORT, libc::EPROTONOSUPPORT as i32);
    assert_eq!(posix::ENOTSUP, libc::ENOTSUP as i32);
    assert_eq!(posix::EAFNOSUPPORT, libc::EAFNOSUPPORT as i32);
    assert_eq!(posix::EADDRINUSE, libc::EADDRINUSE as i32);
    assert_eq!(posix::EADDRNOTAVAIL, libc::EADDRNOTAVAIL as i32);
    assert_eq!(posix::ENETDOWN, libc::ENETDOWN as i32);
    assert_eq!(posix::ENETUNREACH, libc::ENETUNREACH as i32);
    assert_eq!(posix::ENETRESET, libc::ENETRESET as i32);
    assert_eq!(posix::ECONNABORTED, libc::ECONNABORTED as i32);
    assert_eq!(posix::ECONNRESET, libc::ECONNRESET as i32);
    assert_eq!(posix::ENOBUFS, libc::ENOBUFS as i32);
    assert_eq!(posix::EISCONN, libc::EISCONN as i32);
    assert_eq!(posix::ENOTCONN, libc::ENOTCONN as i32);
    assert_eq!(posix::ETIMEDOUT, libc::ETIMEDOUT as i32);
    assert_eq!(posix::ECONNREFUSED, libc::ECONNREFUSED as i32);
    assert_eq!(posix::EHOSTUNREACH, libc::EHOSTUNREACH as i32);
    assert_eq!(posix::EALREADY, libc::EALREADY as i32);
    assert_eq!(posix::EINPROGRESS, libc::EINPROGRESS as i32);
    assert_eq!(posix::ESTALE, libc::ESTALE as i32);
    assert_eq!(posix::EDQUOT, libc::EDQUOT as i32);
    assert_eq!(posix::ECANCELED, libc::ECANCELED as i32);
    assert_eq!(posix::EOWNERDEAD, libc::EOWNERDEAD as i32);
    assert_eq!(posix::ENOTRECOVERABLE, libc::ENOTRECOVERABLE as i32);
    assert_eq!(posix::O_WRONLY, libc::O_WRONLY as i32);
    assert_eq!(posix::O_RDWR, libc::O_RDWR as i32);
    assert_eq!(posix::O_CREAT, libc::O_CREAT as i32);
    assert_eq!(posix::O_EXCL, libc::O_EXCL as i32);
    assert_eq!(posix::O_TRUNC, libc::O_TRUNC as i32);
    assert_eq!(posix::O_APPEND, libc::O_APPEND as i32);
    assert_eq!(posix::O_NONBLOCK, libc::O_NONBLOCK as i32);
    assert_eq!(posix::O_DSYNC, libc::O_DSYNC as i32);
    assert_eq!(posix::O_DIRECTORY, libc::O_DIRECTORY as i32);
    assert_eq!(posix::O_NOFOLLOW, libc::O_NOFOLLOW as i32);
    assert_eq!(posix::O_SYNC, libc::O_SYNC as i32);
    assert_eq!(posix::O_RSYNC, libc::O_RSYNC as i32);
    assert_eq!(posix::AT_SYMLINK_NOFOLLOW, libc::AT_SYMLINK_NOFOLLOW as i32);
    assert_eq!(posix::AT_REMOVEDIR, libc::AT_REMOVEDIR as i32);
    assert_eq!(posix::AT_SYMLINK_FOLLOW, libc::AT_SYMLINK_FOLLOW as i32);
    assert_eq!(posix::SEEK_SET, libc::SEEK_SET as i32);
    assert_eq!(posix::SEEK_CUR, libc::SEEK_CUR as i32);
    assert_eq!(posix::SEEK_END, libc::SEEK_END as i32);
    assert_eq!(posix::CLOCK_REALTIME, libc::CLOCK_REALTIME as i32);
    assert_eq!(posix::CLOCK_MONOTONIC, libc::CLOCK_MONOTONIC as i32);
    assert_eq!(posix::CLOCK_PROCESS_CPUTIME_ID, libc::CLOCK_PROCESS_CPUTIME_ID as i32);
    assert_eq!(posix::CLOCK_THREAD_CPUTIME_ID, libc::CLOCK_THREAD_CPUTIME_ID as i32);
    assert_eq!(posix::UTIME_NOW, libc::UTIME_NOW as i64);
    assert_eq!(posix::UTIME_OMIT, libc::UTIME_OMIT as i64);
    assert_eq!(posix::POSIX_FADV_NORMAL, libc::POSIX_FADV_NORMAL as i32);
    assert_eq!(posix::POSIX_FADV_RANDOM, libc::POSIX_FADV_RANDOM as i32);
    assert_eq!(posix::POSIX_FADV_SEQUENTIAL, libc::POSIX_FADV_SEQUENTIAL as i32);
    assert_eq!(posix::POSIX_FADV_WILLNEED, libc::POSIX_FADV_WILLNEED as i32);
    assert_eq!(posix::POSIX_FADV_DONTNEED, libc::POSIX_FADV_DONTNEED as i32);
    assert_eq!(posix::POSIX_FADV_NOREUSE, libc::POSIX_FADV_NOREUSE as i32);
    assert_eq!(posix::S_IFMT, libc::S_IFMT as u32);
    assert_eq!(posix::S_IFSOCK, libc::S_IFSOCK as u32);
    assert_eq!(posix::S_IFLNK, libc::S_IFLNK as u32);
    assert_eq!(posix::S_IFREG, libc::S_IFREG as u32);
    assert_eq!(posix::S_IFBLK, libc::S_IFBLK as u32);
    assert_eq!(posix::S_IFDIR, libc::S_IFDIR as u32);
    assert_eq!(posix::S_IFCHR, libc::S_IFCHR as u32);
    assert_eq!(posix::POLLIN, libc::POLLIN as i16);
    assert_eq!(posix::POLLOUT, libc::POLLOUT as i16);
    assert_eq!(posix::POLLERR, libc::POLLERR as i16);
    assert_eq!(posix::POLLHUP, libc::POLLHUP as i16);
    assert_eq!(posix::POLLNVAL, libc::POLLNVAL as i16);
    assert_eq!(posix::AF_INET, libc::AF_INET as i32);
    assert_eq!(posix::SOCK_STREAM, libc::SOCK_STREAM as i32);
    assert_eq!(posix::SOCK_DGRAM, libc::SOCK_DGRAM as i32);
    assert_eq!(posix::SHUT_RD, libc::SHUT_RD as i32);
    assert_eq!(posix::SHUT_WR, libc::SHUT_WR as i32);
    assert_eq!(posix::SHUT_RDWR, libc::SHUT_RDWR as i32);
    assert_eq!(posix::MSG_PEEK, libc::MSG_PEEK as i32);
    assert_eq!(posix::MSG_WAITALL, libc::MSG_WAITALL as i32);
    assert_eq!(posix::F_GETFL, libc::F_GETFL as i32);
    assert_eq!(posix::F_SETFL, libc::F_SETFL as i32);
    assert_eq!(posix::FIONREAD, libc::FIONREAD as u64);
}
