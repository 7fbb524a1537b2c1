//! Basic runtime types: descriptors, time, file metadata and addresses.
use vstd::prelude::*;
use crate::error::{RuntimeError, RuntimeResult};
use crate::posix;

verus! {

/// Number of descriptors a sandbox may hold.
pub const MAX_SBOX_FDS: u32 = 8;
pub const MAX_HOST_FDS: usize = 1024;
/// Capacity of a host path buffer, terminating zero included.
pub const PATH_MAX: usize = 4096;
pub const PAGE_SIZE: usize = 4096;
/// Bound on the size of a sandbox's linear memory.
pub const LINEAR_MEM_SIZE: usize = 4294965096;
/// The sandbox descriptor of the preopened home directory.
pub const HOMEDIR_FD: u32 = 3;

/// An address inside the sandbox's linear memory.
pub type SboxPtr = u32;
/// An address in the host's address space.
pub type HostPtr = usize;
/// A descriptor as the sandbox sees it.
pub type SboxFd = u32;

/// A descriptor of the host.
#[derive(PartialEq, Eq, Structural, Clone, Copy, Debug)]
pub struct HostFd(pub usize);

impl HostFd {
    pub fn to_raw(&self) -> (r: usize)
        ensures
            r == self.0,
    {
        self.0
    }

    pub fn from_raw(w: usize) -> (r: HostFd)
        ensures
            r.0 == w,
    {
        HostFd(w)
    }
}

/// The origin of an `fd_seek`.
#[derive(PartialEq, Eq, Structural, Clone, Copy, Debug)]
pub enum Whence {
    Start,
    Cur,
    End,
}

impl Whence {
    pub fn from_u32(num: u32) -> (r: Option<Whence>)
        ensures
            r == (if num == 0 {
                Some(Whence::Start)
            } else if num == 1 {
                Some(Whence::Cur)
            } else if num == 2 {
                Some(Whence::End)
            } else {
                None
            }),
    {
        match num {
            0 => Some(Whence::Start),
            1 => Some(Whence::Cur),
            2 => Some(Whence::End),
            _ => None,
        }
    }

    /// The `lseek` constant for this origin.
    pub fn to_posix(self) -> (r: i32)
        ensures
            r == (match self {
                Whence::Start => posix::SEEK_SET,
                Whence::Cur => posix::SEEK_CUR,
                Whence::End => posix::SEEK_END,
            }),
    {
        match self {
            Whence::Start => posix::SEEK_SET,
            Whence::Cur => posix::SEEK_CUR,
            Whence::End => posix::SEEK_END,
        }
    }
}

#[derive(PartialEq, Eq, Structural, Clone, Copy, Debug)]
pub enum ClockId {
    Realtime,
    Monotonic,
    ProcessCpuTimeId,
    ThreadCpuTime,
}

impl ClockId {
    /// The clock that a WASI clock number names.
    pub fn try_from_u32(id: u32) -> (r: RuntimeResult<ClockId>)
        ensures
            r == (if id == 0 {
                Ok(ClockId::Realtime)
            } else if id == 1 {
                Ok(ClockId::Monotonic)
            } else if id == 2 {
                Ok(ClockId::ProcessCpuTimeId)
            } else if id == 3 {
                Ok(ClockId::ThreadCpuTime)
            } else {
                Err(RuntimeError::Einval)
            }),
    {
        match id {
            0 => Ok(ClockId::Realtime),
            1 => Ok(ClockId::Monotonic),
            2 => Ok(ClockId::ProcessCpuTimeId),
            3 => Ok(ClockId::ThreadCpuTime),
            _ => Err(RuntimeError::Einval),
        }
    }

    /// The host's `clockid_t` for this clock.
    pub fn to_posix(self) -> (r: i32)
        ensures
            r == (match self {
                ClockId::Realtime => posix::CLOCK_REALTIME,
                ClockId::Monotonic => posix::CLOCK_MONOTONIC,
                ClockId::ProcessCpuTimeId => posix::CLOCK_PROCESS_CPUTIME_ID,
                ClockId::ThreadCpuTime => posix::CLOCK_THREAD_CPUTIME_ID,
            }),
    {
        match self {
            ClockId::Realtime => posix::CLOCK_REALTIME,
            ClockId::Monotonic => posix::CLOCK_MONOTONIC,
            ClockId::ProcessCpuTimeId => posix::CLOCK_PROCESS_CPUTIME_ID,
            ClockId::ThreadCpuTime => posix::CLOCK_THREAD_CPUTIME_ID,
        }
    }
}

/// A host `timespec`: seconds and nanoseconds.
#[derive(PartialEq, Eq, Structural, Clone, Copy, Debug)]
pub struct Timespec {
    pub tv_sec: i64,
    pub tv_nsec: i64,
}

/// A zero `timespec`, to be filled in by the host.
pub fn fresh_libc_timespec() -> (r: Timespec)
    ensures
        r.tv_sec == 0 && r.tv_nsec == 0,
{
    Timespec { tv_sec: 0, tv_nsec: 0 }
}

pub const NSEC_PER_SEC: u64 = 1_000_000_000;

/// A WASI timestamp, in nanoseconds.
#[derive(PartialEq, Eq, Structural, Clone, Copy, Debug)]
pub struct Timestamp(pub u64);

impl Timestamp {
    pub fn new(nsec: u64) -> (r: Timestamp)
        ensures
            r.0 == nsec,
    {
        Timestamp(nsec)
    }

    pub fn max() -> (r: Timestamp)
        ensures
            r.0 == u64::MAX,
    {
        Timestamp(u64::MAX)
    }

    pub fn from_sec_nsec(sec: u64, nsec: u64) -> (r: Timestamp)
        requires
            sec * NSEC_PER_SEC + nsec <= u64::MAX,
        ensures
            r.0 == sec * NSEC_PER_SEC + nsec,
    {
        Timestamp(sec * NSEC_PER_SEC + nsec)
    }

    pub fn to_millis(&self) -> (r: u64)
        ensures
            r == self.0 / 1_000_000,
    {
        self.0 / 1_000_000
    }

    pub fn nsec(&self) -> (r: u64)
        ensures
            r == self.0,
    {
        self.0
    }

    pub fn checked_sub(self, rhs: Timestamp) -> (r: Option<Timestamp>)
        ensures
            r == (if self.0 >= rhs.0 {
                Some(Timestamp((self.0 - rhs.0) as u64))
            } else {
                None
            }),
    {
        if self.0 >= rhs.0 {
            Some(Timestamp(self.0 - rhs.0))
        } else {
            None
        }
    }

    pub fn sub(self, rhs: Timestamp) -> (r: Timestamp)
        requires
            self.0 >= rhs.0,
        ensures
            r.0 == self.0 - rhs.0,
    {
        Timestamp(self.0 - rhs.0)
    }

    /// The timestamp a host `timespec` stands for; the fields are read as
    /// unsigned, as the host's conversion does.
    pub fn from_timespec(spec: Timespec) -> (r: Timestamp)
        requires
            (spec.tv_sec as u64) * NSEC_PER_SEC + (spec.tv_nsec as u64) <= u64::MAX,
        ensures
            r.0 == (spec.tv_sec as u64) * NSEC_PER_SEC + (spec.tv_nsec as u64),
    {
        Timestamp::from_sec_nsec(spec.tv_sec as u64, spec.tv_nsec as u64)
    }

    /// The host `timespec` for this timestamp, with nanoseconds below one
    /// second.
    pub fn to_timespec(self) -> (r: Timespec)
        ensures
            r.tv_sec == self.0 / NSEC_PER_SEC,
            r.tv_nsec == self.0 % NSEC_PER_SEC,
    {
        let sec = self.0 / NSEC_PER_SEC;
        let nsec = self.0 % NSEC_PER_SEC;
        assert(sec <= u64::MAX / NSEC_PER_SEC);
        Timespec { tv_sec: sec as i64, tv_nsec: nsec as i64 }
    }

    /// The `timespec` that asks `utimensat` to set a time to this
    /// timestamp (`use_ts`), to the current time (`use_now`) or to leave it
    /// alone.
    pub fn ts_to_native(self, use_ts: bool, use_now: bool) -> (r: Timespec)
        ensures
            use_ts ==> r == self.spec_to_timespec(),
            !use_ts && use_now ==> r == (Timespec { tv_sec: 0, tv_nsec: posix::UTIME_NOW }),
            !use_ts && !use_now ==> r == (Timespec { tv_sec: 0, tv_nsec: posix::UTIME_OMIT }),
    {
        if use_ts {
            self.to_timespec()
        } else {
            let nsec = if use_now {
                posix::UTIME_NOW
            } else {
                posix::UTIME_OMIT
            };
            Timespec { tv_sec: 0, tv_nsec: nsec }
        }
    }

    pub open spec fn spec_to_timespec(self) -> Timespec {
        Timespec {
            tv_sec: (self.0 / NSEC_PER_SEC) as i64,
            tv_nsec: (self.0 % NSEC_PER_SEC) as i64,
        }
    }
}


/// Access-pattern advice for `fd_advise`.
#[derive(PartialEq, Eq, Structural, Clone, Copy, Debug)]
pub enum Advice {
    Normal,
    Sequential,
    Random,
    WillNeed,
    DontNeed,
    NoReuse,
}

impl Advice {
    /// The `posix_fadvise` constant for this advice.
    pub fn to_posix(self) -> (r: i32)
        ensures
            r == (match self {
                Advice::Normal => posix::POSIX_FADV_NORMAL,
                Advice::Sequential => posix::POSIX_FADV_SEQUENTIAL,
                Advice::Random => posix::POSIX_FADV_RANDOM,
                Advice::WillNeed => posix::POSIX_FADV_WILLNEED,
                Advice::DontNeed => posix::POSIX_FADV_DONTNEED,
                Advice::NoReuse => posix::POSIX_FADV_NOREUSE,
            }),
    {
        match self {
            Advice::Normal => posix::POSIX_FADV_NORMAL,
            Advice::Sequential => posix::POSIX_FADV_SEQUENTIAL,
            Advice::Random => posix::POSIX_FADV_RANDOM,
            Advice::WillNeed => posix::POSIX_FADV_WILLNEED,
            Advice::DontNeed => posix::POSIX_FADV_DONTNEED,
            Advice::NoReuse => posix::POSIX_FADV_NOREUSE,
        }
    }

    /// The advice that a `posix_fadvise` constant names.
    pub fn try_from_i32(advice: i32) -> (r: RuntimeResult<Advice>)
        ensures
            r == (if advice == posix::POSIX_FADV_NORMAL {
                Ok(Advice::Normal)
            } else if advice == posix::POSIX_FADV_SEQUENTIAL {
                Ok(Advice::Sequential)
            } else if advice == posix::POSIX_FADV_RANDOM {
                Ok(Advice::Random)
            } else if advice == posix::POSIX_FADV_WILLNEED {
                Ok(Advice::WillNeed)
            } else if advice == posix::POSIX_FADV_DONTNEED {
                Ok(Advice::DontNeed)
            } else if advice == posix::POSIX_FADV_NOREUSE {
                Ok(Advice::NoReuse)
            } else {
                Err(RuntimeError::Einval)
            }),
    {
        if advice == posix::POSIX_FADV_NORMAL {
            Ok(Advice::Normal)
        } else if advice == posix::POSIX_FADV_SEQUENTIAL {
            Ok(Advice::Sequential)
        } else if advice == posix::POSIX_FADV_RANDOM {
            Ok(Advice::Random)
        } else if advice == posix::POSIX_FADV_WILLNEED {
            Ok(Advice::WillNeed)
        } else if advice == posix::POSIX_FADV_DONTNEED {
            Ok(Advice::DontNeed)
        } else if advice == posix::POSIX_FADV_NOREUSE {
            Ok(Advice::NoReuse)
        } else {
            Err(RuntimeError::Einval)
        }
    }
}

#[derive(PartialEq, Eq, Structural, Clone, Copy, Debug)]
pub enum Filetype {
    Unknown,
    BlockDevice,
    CharacterDevice,
    Directory,
    RegularFile,
    SocketDgram,
    SocketStream,
    SymbolicLink,
}

/// The WASI number of a file type.
pub open spec fn filetype_wasi(t: Filetype) -> u8 {
    match t {
        Filetype::Unknown => 0,
        Filetype::BlockDevice => 1,
        Filetype::CharacterDevice => 2,
        Filetype::Directory => 3,
        Filetype::RegularFile => 4,
        Filetype::SocketDgram => 5,
        Filetype::SocketStream => 6,
        Filetype::SymbolicLink => 7,
    }
}

/// The file type that the type bits of a host `st_mode` give; sockets and
/// unknown kinds are `Unknown`.
pub open spec fn filetype_of_mode(mode: u32) -> Filetype {
    let t = mode & posix::S_IFMT;
    if t == posix::S_IFBLK {
        Filetype::BlockDevice
    } else if t == posix::S_IFCHR {
        Filetype::CharacterDevice
    } else if t == posix::S_IFDIR {
        Filetype::Directory
    } else if t == posix::S_IFREG {
        Filetype::RegularFile
    } else if t == posix::S_IFLNK {
        Filetype::SymbolicLink
    } else {
        Filetype::Unknown
    }
}

/// The WASI file-type numbering: unknown 0, block device 1, character
/// device 2, directory 3, regular file 4, datagram socket 5, stream socket
/// 6, symbolic link 7; distinct types get distinct numbers.
pub proof fn lemma_filetype_numbering()
    ensures
        filetype_wasi(Filetype::Unknown) == 0,
        filetype_wasi(Filetype::BlockDevice) == 1,
        filetype_wasi(Filetype::CharacterDevice) == 2,
        filetype_wasi(Filetype::Directory) == 3,
        filetype_wasi(Filetype::RegularFile) == 4,
        filetype_wasi(Filetype::SocketDgram) == 5,
        filetype_wasi(Filetype::SocketStream) == 6,
        filetype_wasi(Filetype::SymbolicLink) == 7,
        forall|a: Filetype, b: Filetype| #[trigger] filetype_wasi(a) == #[trigger] filetype_wasi(b) ==> a == b,
{
}

/// The WASI file type reported for a host `st_mode`: a regular file
/// (type bits 0o100000) is reported as 4, a directory (0o040000) as 3, a
/// symbolic link (0o120000) as 7, and nothing else as any of these.
pub proof fn lemma_mode_filetype(mode: u32)
    ensures
        (mode & 0o170000 == 0o100000) == (filetype_wasi(filetype_of_mode(mode)) == 4),
        (mode & 0o170000 == 0o040000) == (filetype_wasi(filetype_of_mode(mode)) == 3),
        (mode & 0o170000 == 0o120000) == (filetype_wasi(filetype_of_mode(mode)) == 7),
{
}

impl Filetype {
    /// The WASI number of the file type.
    pub fn to_wasi(&self) -> (r: u8)
        ensures
            r == filetype_wasi(*self),
            r == match *self {
                Filetype::Unknown => 0u8,
                Filetype::BlockDevice => 1u8,
                Filetype::CharacterDevice => 2u8,
                Filetype::Directory => 3u8,
                Filetype::RegularFile => 4u8,
                Filetype::SocketDgram => 5u8,
                Filetype::SocketStream => 6u8,
                Filetype::SymbolicLink => 7u8,
            },
    {
        match self {
            Filetype::Unknown => 0,
            Filetype::BlockDevice => 1,
            Filetype::CharacterDevice => 2,
            Filetype::Directory => 3,
            Filetype::RegularFile => 4,
            Filetype::SocketDgram => 5,
            Filetype::SocketStream => 6,
            Filetype::SymbolicLink => 7,
        }
    }

    pub fn from_mode(mode: u32) -> (r: Filetype)
        ensures
            r == filetype_of_mode(mode),
    {
        let t = mode & posix::S_IFMT;
        if t == posix::S_IFBLK {
            Filetype::BlockDevice
        } else if t == posix::S_IFCHR {
            Filetype::CharacterDevice
        } else if t == posix::S_IFDIR {
            Filetype::Directory
        } else if t == posix::S_IFREG {
            Filetype::RegularFile
        } else if t == posix::S_IFSOCK {
            Filetype::Unknown
        } else if t == posix::S_IFLNK {
            Filetype::SymbolicLink
        } else {
            Filetype::Unknown
        }
    }
}

/// The fields of a host `struct stat` that the runtime reads.
#[derive(PartialEq, Eq, Structural, Clone, Copy, Debug)]
pub struct HostStat {
    pub st_dev: u64,
    pub st_ino: u64,
    pub st_mode: u32,
    pub st_nlink: u64,
    pub st_size: i64,
    pub st_atime: i64,
    pub st_atime_nsec: i64,
    pub st_mtime: i64,
    pub st_mtime_nsec: i64,
    pub st_ctime: i64,
    pub st_ctime_nsec: i64,
}

/// A zeroed `struct stat`, to be filled in by the host.
pub fn fresh_stat() -> (r: HostStat)
    ensures
        r == (HostStat {
            st_dev: 0,
            st_ino: 0,
            st_mode: 0,
            st_nlink: 0,
            st_size: 0,
            st_atime: 0,
            st_atime_nsec: 0,
            st_mtime: 0,
            st_mtime_nsec: 0,
            st_ctime: 0,
            st_ctime_nsec: 0,
        }),
{
    HostStat {
        st_dev: 0,
        st_ino: 0,
        st_mode: 0,
        st_nlink: 0,
        st_size: 0,
        st_atime: 0,
        st_atime_nsec: 0,
        st_mtime: 0,
        st_mtime_nsec: 0,
        st_ctime: 0,
        st_ctime_nsec: 0,
    }
}

/// A (seconds, nanoseconds) pair of a `struct stat` as nanoseconds; the
/// fields are read as unsigned.
pub open spec fn stat_time(sec: i64, nsec: i64) -> int {
    (sec as u64) * NSEC_PER_SEC + (nsec as u64)
}

/// A `struct stat` whose times fit in a WASI timestamp.
pub open spec fn stat_times_fit(stat: HostStat) -> bool {
    &&& stat_time(stat.st_atime, stat.st_atime_nsec) <= u64::MAX
    &&& stat_time(stat.st_mtime, stat.st_mtime_nsec) <= u64::MAX
    &&& stat_time(stat.st_ctime, stat.st_ctime_nsec) <= u64::MAX
}

/// File metadata in WASI's `filestat` layout.
#[derive(PartialEq, Eq, Structural, Clone, Copy, Debug)]
pub struct FileStat {
    pub dev: u64,
    pub ino: u64,
    pub filetype: Filetype,
    pub nlink: u64,
    pub size: u64,
    pub atim: Timestamp,
    pub mtim: Timestamp,
    pub ctim: Timestamp,
}

impl FileStat {
    /// The WASI metadata of a host `struct stat`.
    pub fn from_stat(stat: HostStat) -> (r: FileStat)
        requires
            stat_times_fit(stat),
        ensures
            r.dev == stat.st_dev,
            r.ino == stat.st_ino,
            r.filetype == filetype_of_mode(stat.st_mode),
            r.nlink == stat.st_nlink,
            r.size == stat.st_size as u64,
            r.atim.0 == stat_time(stat.st_atime, stat.st_atime_nsec),
            r.mtim.0 == stat_time(stat.st_mtime, stat.st_mtime_nsec),
            r.ctim.0 == stat_time(stat.st_ctime, stat.st_ctime_nsec),
    {
        FileStat {
            dev: stat.st_dev,
            ino: stat.st_ino,
            filetype: Filetype::from_mode(stat.st_mode),
            nlink: stat.st_nlink,
            size: stat.st_size as u64,
            atim: Timestamp::from_sec_nsec(stat.st_atime as u64, stat.st_atime_nsec as u64),
            mtim: Timestamp::from_sec_nsec(stat.st_mtime as u64, stat.st_mtime_nsec as u64),
            ctim: Timestamp::from_sec_nsec(stat.st_ctime as u64, stat.st_ctime_nsec as u64),
        }
    }

    /// All-zero metadata of an unknown file.
    pub fn default() -> (r: FileStat)
        ensures
            r == (FileStat {
                dev: 0,
                ino: 0,
                filetype: Filetype::Unknown,
                nlink: 0,
                size: 0,
                atim: Timestamp(0),
                mtim: Timestamp(0),
                ctim: Timestamp(0),
            }),
    {
        FileStat {
            dev: 0,
            ino: 0,
            filetype: Filetype::Unknown,
            nlink: 0,
            size: 0,
            atim: Timestamp::new(0),
            mtim: Timestamp::new(0),
            ctim: Timestamp::new(0),
        }
    }
}

/// Translates a WASI address family to the host's; only IPv4 is offered.
pub fn sock_domain_to_posix(domain: u32) -> (r: RuntimeResult<i32>)
    ensures
        r == (if domain == 1 {
            Ok(posix::AF_INET)
        } else {
            Err(RuntimeError::Enotsup)
        }),
{
    if domain == 1 {
        return Ok(posix::AF_INET);
    }
    Err(RuntimeError::Enotsup)
}

/// Translates a WASI socket type to the host's; only stream and datagram
/// sockets are offered.
pub fn sock_type_to_posix(ty: u32) -> (r: RuntimeResult<i32>)
    ensures
        r == (if ty == 6 {
            Ok(posix::SOCK_STREAM)
        } else if ty == 5 {
            Ok(posix::SOCK_DGRAM)
        } else {
            Err(RuntimeError::Enotsup)
        }),
{
    if ty == 6 {
        return Ok(posix::SOCK_STREAM);
    }
    if ty == 5 {
        return Ok(posix::SOCK_DGRAM);
    }
    Err(RuntimeError::Enotsup)
}

/// The transport protocols a sandbox may use.
#[derive(PartialEq, Eq, Structural, Clone, Copy, Debug)]
pub enum WasiProto {
    Unknown,
    Tcp,
    Udp,
}

impl WasiProto {
    /// The protocol of a host socket of the given domain and type.
    pub fn new(domain: i32, ty: i32, family: i32) -> (r: WasiProto)
        ensures
            r == (if domain == posix::AF_INET && ty == posix::SOCK_STREAM {
                WasiProto::Tcp
            } else if domain == posix::AF_INET && ty == posix::SOCK_DGRAM {
                WasiProto::Udp
            } else {
                WasiProto::Unknown
            }),
    {
        if domain == posix::AF_INET && ty == posix::SOCK_STREAM {
            WasiProto::Tcp
        } else if domain == posix::AF_INET && ty == posix::SOCK_DGRAM {
            WasiProto::Udp
        } else {
            WasiProto::Unknown
        }
    }
}

/// An allowed network endpoint: IPv4 address and port, in network order.
#[derive(PartialEq, Eq, Structural, Clone, Copy, Debug)]
pub struct NetEndpoint {
    pub protocol: WasiProto,
    pub addr: u32,
    pub port: u32,
}

/// The network allow-list of a sandbox.
pub type Netlist = [NetEndpoint; 4];

/// Whether entry `n` of the allow-list is the endpoint (`addr`, `port`).
pub open spec fn netlist_entry_matches(netlist: Netlist, addr: u32, port: u32, n: int) -> bool {
    netlist@[n].addr == addr && netlist@[n].port == port
}

/// Whether (`addr`, `port`) is on the allow-list.
pub open spec fn spec_addr_in_netlist(netlist: Netlist, addr: u32, port: u32) -> bool {
    exists|n: int| 0 <= n < 4 && #[trigger] netlist_entry_matches(netlist, addr, port, n)
}

pub fn addr_matches_netlist_entry(netlist: &Netlist, addr: u32, port: u32, n: usize) -> (r: bool)
    requires
        n < 4,
    ensures
        r == netlist_entry_matches(*netlist, addr, port, n as int),
{
    netlist[n].addr == addr && netlist[n].port == port
}

/// Whether (`addr`, `port`) is one of the four endpoints of `netlist`.
pub fn addr_in_netlist(netlist: &Netlist, addr: u32, port: u32) -> (r: bool)
    ensures
        r == spec_addr_in_netlist(*netlist, addr, port),
{
    if addr_matches_netlist_entry(netlist, addr, port, 0) {
        return true;
    }
    if addr_matches_netlist_entry(netlist, addr, port, 1) {
        return true;
    }
    if addr_matches_netlist_entry(netlist, addr, port, 2) {
        return true;
    }
    if addr_matches_netlist_entry(netlist, addr, port, 3) {
        return true;
    }
    assert(forall|n: int| 0 <= n < 4 ==> !netlist_entry_matches(*netlist, addr, port, n));
    false
}

/// An allow-list of four unused entries: protocol unknown, address 0.0.0.0
/// and port 0. An entry is matched by address and port alone, so the
/// endpoint 0.0.0.0 port 0 is the one it admits.
pub fn empty_netlist() -> (r: Netlist)
    ensures
        forall|n: int| 0 <= n < 4 ==> r@[n] == (NetEndpoint { protocol: WasiProto::Unknown, addr: 0, port: 0 }),
{
    let empty = NetEndpoint { protocol: WasiProto::Unknown, addr: 0, port: 0 };
    [empty, empty, empty, empty]
}

/// Alignments that sandbox structures are read at.
#[derive(PartialEq, Eq, Structural, Clone, Copy, Debug)]
pub enum Alignment {
    One,
    Two,
    Four,
    Eight,
}

pub open spec fn alignment_bytes(a: Alignment) -> u32 {
    match a {
        Alignment::One => 1,
        Alignment::Two => 2,
        Alignment::Four => 4,
        Alignment::Eight => 8,
    }
}

impl Alignment {
    pub fn align_down_mask(&self) -> (r: u32)
        ensures
            r == 0xFFFF_FFFFu32 - (alignment_bytes(*self) - 1),
    {
        match self {
            Alignment::One => 0xFFFF_FFFF,
            Alignment::Two => 0xFFFF_FFFE,
            Alignment::Four => 0xFFFF_FFFC,
            Alignment::Eight => 0xFFFF_FFF8,
        }
    }

    pub fn remainder_mask(&self) -> (r: u32)
        ensures
            r == alignment_bytes(*self) - 1,
    {
        match self {
            Alignment::One => 0x0,
            Alignment::Two => 0x1,
            Alignment::Four => 0x3,
            Alignment::Eight => 0x7,
        }
    }
}

/// Whether `value` is a multiple of the alignment.
pub fn is_aligned(alignment: Alignment, value: u32) -> (r: bool)
    ensures
        r == (value % alignment_bytes(alignment) == 0),
{
    let mask = alignment.remainder_mask();
    let r = value & mask == 0;
    assert(r == (value % alignment_bytes(alignment) == 0)) by {
        assert(value & 0 == 0u32 && value % 1 == 0) by (bit_vector);
        assert((value & 1 == 0) == (value % 2 == 0)) by (bit_vector);
        assert((value & 3 == 0) == (value % 4 == 0)) by (bit_vector);
        assert((value & 7 == 0) == (value % 8 == 0)) by (bit_vector);
    }
    r
}

/// A timestamp turned into a host `timespec` and back is unchanged.
pub proof fn lemma_timespec_round_trip(t: Timestamp)
    ensures
        (t.spec_to_timespec().tv_sec as u64) * NSEC_PER_SEC + (t.spec_to_timespec().tv_nsec as u64) == t.0,
        0 <= t.spec_to_timespec().tv_nsec < NSEC_PER_SEC,
{
    let q = t.0 / NSEC_PER_SEC;
    let r = t.0 % NSEC_PER_SEC;
    assert(q * NSEC_PER_SEC + r == t.0 && r < NSEC_PER_SEC && q <= t.0) by (nonlinear_arith)
        requires
            q == t.0 / NSEC_PER_SEC,
            r == t.0 % NSEC_PER_SEC,
            NSEC_PER_SEC == 1_000_000_000,
    ;
    assert((q as i64) as u64 == q);
    assert((r as i64) as u64 == r);
}

} // verus!
