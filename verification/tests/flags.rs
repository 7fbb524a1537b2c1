use wave::error::RuntimeError;
use wave::flags::{
    EventRwFlags, EventType, FdFlags, FstFlags, LookupFlags, OFlags, RiFlags, SdFlags, SubClockFlags,
    SubscriptionFdType,
};
use wave::types::{
    addr_in_netlist, addr_matches_netlist_entry, empty_netlist, fresh_stat, is_aligned, sock_domain_to_posix,
    sock_type_to_posix, Advice, Alignment, ClockId, FileStat, Filetype, NetEndpoint, Timestamp, WasiProto, Whence,
};

#[test]
fn fdflags_to_host() {
    assert_eq!(FdFlags(0b1).to_posix(), libc::O_APPEND);
    assert_eq!(FdFlags(0b100).to_posix(), libc::O_NONBLOCK);
    assert_eq!(FdFlags(0b10001).to_posix(), libc::O_APPEND | libc::O_SYNC);
    assert_eq!(FdFlags::from_posix(libc::O_APPEND | libc::O_DSYNC).0, 0b11011);
    assert_eq!(FdFlags::from_posix(libc::O_APPEND | libc::O_NONBLOCK).0, 0b101);
    assert_eq!(FdFlags::from_c_int(0x10001).0, 1);
    assert_eq!(FdFlags::empty().0, 0);
}

#[test]
fn lookup_flags() {
    let follow = LookupFlags::new(1);
    let nofollow = LookupFlags::new(0);
    assert!(follow.should_follow());
    assert!(!nofollow.should_follow());
    assert_eq!(follow.to_stat_posix(), 0);
    assert_eq!(nofollow.to_stat_posix(), libc::AT_SYMLINK_NOFOLLOW);
    assert_eq!(follow.to_linkat_posix(), libc::AT_SYMLINK_FOLLOW);
    assert_eq!(nofollow.to_linkat_posix(), 0);
    assert_eq!(nofollow.to_openat_posix(), libc::O_NOFOLLOW);
}

#[test]
fn oflags_to_host() {
    assert_eq!(OFlags::new(0b1).to_posix(), libc::O_CREAT);
    assert_eq!(OFlags::new(0b1110).to_posix(), libc::O_DIRECTORY | libc::O_EXCL | libc::O_TRUNC);
    assert_eq!(OFlags::new(0b110000).to_posix(), libc::O_WRONLY | libc::O_RDWR);
}

#[test]
fn nofollow_appears_exactly_when_not_following() {
    for dirflags in [0u32, 1, 2, 3] {
        for oflags in [0u32, 0b111111, 0b10101] {
            for fdflags in [0i32, 0b11111] {
                let flags = LookupFlags::new(dirflags).to_openat_posix()
                    | OFlags::new(oflags).to_posix()
                    | FdFlags::from_c_int(fdflags).to_posix();
                assert_eq!(flags & libc::O_NOFOLLOW != 0, dirflags & 1 == 0);
            }
        }
    }
}

#[test]
fn fst_flags() {
    assert_eq!(FstFlags::try_from_u16(0b11), Err(RuntimeError::Einval));
    assert_eq!(FstFlags::try_from_u16(0b1100), Err(RuntimeError::Einval));
    let f = FstFlags::try_from_u16(0b0110).unwrap();
    assert!(!f.atim() && f.atim_now() && f.mtim() && !f.mtim_now());
}

#[test]
fn shutdown_and_recv_flags() {
    assert_eq!(SdFlags::new(1).try_to_posix(), Ok(libc::SHUT_RD));
    assert_eq!(SdFlags::new(2).try_to_posix(), Ok(libc::SHUT_WR));
    assert_eq!(SdFlags::new(3).try_to_posix(), Ok(libc::SHUT_RDWR));
    assert_eq!(SdFlags::new(0).try_to_posix(), Err(RuntimeError::Einval));
    assert_eq!(RiFlags::try_from_u32(3).unwrap().to_posix(), libc::MSG_PEEK | libc::MSG_WAITALL);
    assert_eq!(RiFlags::try_from_u32(8), Err(RuntimeError::Einval));
}

#[test]
fn clock_flags_and_events() {
    assert!(SubClockFlags::try_from_u16(1).unwrap().subscription_clock_abstime());
    assert_eq!(SubClockFlags::try_from_u16(2), Err(RuntimeError::Einval));
    assert_eq!(EventType::Clock.to_u16(), 0);
    assert_eq!(EventType::FdRead.to_u16(), 1);
    assert_eq!(EventType::FdWrite.to_u16(), 2);
    assert_eq!(SubscriptionFdType::Read.to_posix(), libc::POLLIN);
    assert_eq!(SubscriptionFdType::Write.to_posix(), libc::POLLOUT);
    assert_eq!(EventRwFlags::from_posix(libc::POLLHUP).to_u16(), 1);
    assert_eq!(EventRwFlags::from_posix(libc::POLLIN).to_u16(), 0);
}

#[test]
fn whence_clock_and_advice() {
    assert_eq!(Whence::from_u32(0).map(|w| w.to_posix()), Some(libc::SEEK_SET));
    assert_eq!(Whence::from_u32(2).map(|w| w.to_posix()), Some(libc::SEEK_END));
    assert_eq!(Whence::from_u32(3), None);
    assert_eq!(ClockId::try_from_u32(2).map(|c| c.to_posix()), Ok(libc::CLOCK_PROCESS_CPUTIME_ID));
    assert_eq!(ClockId::try_from_u32(9), Err(RuntimeError::Einval));
    assert_eq!(Advice::try_from_i32(libc::POSIX_FADV_WILLNEED).map(|a| a.to_posix()), Ok(libc::POSIX_FADV_WILLNEED));
    assert_eq!(Advice::try_from_i32(42), Err(RuntimeError::Einval));
}

#[test]
fn timestamps() {
    let t = Timestamp::new(3_500_000_000);
    let ts = t.to_timespec();
    assert_eq!((ts.tv_sec, ts.tv_nsec), (3, 500_000_000));
    assert_eq!(Timestamp::from_timespec(ts), t);
    assert_eq!(t.to_millis(), 3500);
    assert_eq!(t.checked_sub(Timestamp(500_000_000)), Some(Timestamp(3_000_000_000)));
    assert_eq!(Timestamp(1).checked_sub(Timestamp(2)), None);
    let now = t.ts_to_native(false, true);
    assert_eq!(now.tv_nsec, libc::UTIME_NOW as i64);
    let omit = t.ts_to_native(false, false);
    assert_eq!(omit.tv_nsec, libc::UTIME_OMIT as i64);
    assert_eq!(Timestamp::max().0, u64::MAX);
}

#[test]
fn file_types() {
    assert_eq!(Filetype::from_mode(libc::S_IFREG as u32 | 0o644), Filetype::RegularFile);
    assert_eq!(Filetype::from_mode(libc::S_IFLNK as u32), Filetype::SymbolicLink);
    assert_eq!(Filetype::from_mode(libc::S_IFSOCK as u32), Filetype::Unknown);
    assert_eq!(Filetype::Directory.to_wasi(), 3);
    let mut st = fresh_stat();
    st.st_mode = libc::S_IFDIR as u32;
    st.st_size = 42;
    st.st_mtime = 2;
    st.st_mtime_nsec = 5;
    let fs = FileStat::from_stat(st);
    assert_eq!(fs.filetype, Filetype::Directory);
    assert_eq!(fs.size, 42);
    assert_eq!(fs.mtim, Timestamp(2_000_000_005));
    assert_eq!(FileStat::default().filetype, Filetype::Unknown);
}

#[test]
fn sockets_and_netlist() {
    assert_eq!(sock_domain_to_posix(1), Ok(libc::AF_INET));
    assert_eq!(sock_domain_to_posix(2), Err(RuntimeError::Enotsup));
    assert_eq!(sock_type_to_posix(6), Ok(libc::SOCK_STREAM));
    assert_eq!(sock_type_to_posix(5), Ok(libc::SOCK_DGRAM));
    assert_eq!(WasiProto::new(libc::AF_INET, libc::SOCK_DGRAM, 0), WasiProto::Udp);
    assert_eq!(WasiProto::new(10, libc::SOCK_DGRAM, 0), WasiProto::Unknown);
    let mut net = empty_netlist();
    assert!(!addr_in_netlist(&net, 1, 2));
    net[3] = NetEndpoint { protocol: WasiProto::Udp, addr: 1, port: 2 };
    assert!(addr_in_netlist(&net, 1, 2));
    assert!(addr_matches_netlist_entry(&net, 1, 2, 3));
    assert!(!addr_matches_netlist_entry(&net, 1, 2, 0));
}

#[test]
fn alignment() {
    assert!(is_aligned(Alignment::Eight, 16));
    assert!(!is_aligned(Alignment::Eight, 12));
    assert!(is_aligned(Alignment::Four, 12));
}
