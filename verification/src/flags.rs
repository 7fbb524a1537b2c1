//! Translations between WASI flag words and their host counterparts.
use vstd::prelude::*;
use crate::bits::{bit16, bit32, nth_bit_set, nth_bit_set_u32, with_nth_bit_set};
use crate::error::{RuntimeError, RuntimeResult};
use crate::posix;
use crate::types::Filetype;

verus! {

/// `acc` with the bits of `c` added when `b` holds.
pub open spec fn or_if(acc: i32, b: bool, c: i32) -> i32 {
    if b {
        acc | c
    } else {
        acc
    }
}

/// `acc` with bit `n` added when `b` holds.
pub open spec fn set_bit_if(acc: u16, b: bool, n: u16) -> u16 {
    if b {
        acc | (1u16 << n)
    } else {
        acc
    }
}

/// Or-ing into zero gives the other operand.
pub proof fn lemma_or_zero(x: i32)
    ensures
        0i32 | x == x,
{
    assert(0i32 | x == x) by (bit_vector);
}

/// Flags of a descriptor, kept in WASI's `fdflags` layout.
#[derive(PartialEq, Eq, Structural, Clone, Copy, Debug)]
pub struct FdFlags(pub u16);

/// The host `open` flags for a WASI `fdflags` word.
pub open spec fn fdflags_to_posix(f: u16) -> i32 {
    or_if(
        or_if(
            or_if(
                or_if(or_if(0, bit16(f, 0), posix::O_APPEND), bit16(f, 1), posix::O_DSYNC),
                bit16(f, 2),
                posix::O_NONBLOCK,
            ),
            bit16(f, 3),
            posix::O_RSYNC,
        ),
        bit16(f, 4),
        posix::O_SYNC,
    )
}

/// The WASI `fdflags` word for host `open` flags: a WASI flag is set when
/// any bit of its host counterpart is.
pub open spec fn fdflags_from_posix(flags: i32) -> u16 {
    set_bit_if(
        set_bit_if(
            set_bit_if(
                set_bit_if(
                    set_bit_if(0, flags & posix::O_APPEND != 0, 0),
                    flags & posix::O_DSYNC != 0,
                    1,
                ),
                flags & posix::O_NONBLOCK != 0,
                2,
            ),
            flags & posix::O_RSYNC != 0,
            3,
        ),
        flags & posix::O_SYNC != 0,
        4,
    )
}

impl FdFlags {
    pub fn empty() -> (r: FdFlags)
        ensures
            r.0 == 0,
    {
        FdFlags(0)
    }

    /// Keeps the low 16 bits of a host `int`.
    pub fn from_c_int(flags: i32) -> (r: FdFlags)
        ensures
            r.0 == flags as u16,
    {
        FdFlags(flags as u16)
    }

    pub fn to_posix(&self) -> (r: i32)
        ensures
            r == fdflags_to_posix(self.0),
    {
        let mut flags: i32 = 0;
        if nth_bit_set(self.0, 0) {
            flags = flags | posix::O_APPEND;
        }
        if nth_bit_set(self.0, 1) {
            flags = flags | posix::O_DSYNC;
        }
        if nth_bit_set(self.0, 2) {
            flags = flags | posix::O_NONBLOCK;
        }
        if nth_bit_set(self.0, 3) {
            flags = flags | posix::O_RSYNC;
        }
        if nth_bit_set(self.0, 4) {
            flags = flags | posix::O_SYNC;
        }
        flags
    }

    pub fn from_posix(flags: i32) -> (r: FdFlags)
        ensures
            r.0 == fdflags_from_posix(flags),
    {
        let mut result = FdFlags(0);
        if flags & posix::O_APPEND != 0 {
            result.0 = with_nth_bit_set(result.0, 0);
        }
        if flags & posix::O_DSYNC != 0 {
            result.0 = with_nth_bit_set(result.0, 1);
        }
        if flags & posix::O_NONBLOCK != 0 {
            result.0 = with_nth_bit_set(result.0, 2);
        }
        if flags & posix::O_RSYNC != 0 {
            result.0 = with_nth_bit_set(result.0, 3);
        }
        if flags & posix::O_SYNC != 0 {
            result.0 = with_nth_bit_set(result.0, 4);
        }
        result
    }
}

/// WASI `lookupflags`: bit 0 asks to follow a final symbolic link.
#[derive(PartialEq, Eq, Structural, Clone, Copy, Debug)]
pub struct LookupFlags(pub u32);

impl LookupFlags {
    pub open spec fn follows(self) -> bool {
        bit32(self.0, 0)
    }

    pub fn new(flags: u32) -> (r: LookupFlags)
        ensures
            r.0 == flags,
    {
        LookupFlags(flags)
    }

    /// The `fstatat`/`utimensat` flags for this lookup.
    pub fn to_stat_posix(&self) -> (r: i32)
        ensures
            r == (if self.follows() { 0 } else { posix::AT_SYMLINK_NOFOLLOW }),
    {
        let mut flags: i32 = 0;
        if !nth_bit_set_u32(self.0, 0) {
            proof {
                lemma_or_zero(posix::AT_SYMLINK_NOFOLLOW);
            }
            flags = flags | posix::AT_SYMLINK_NOFOLLOW;
        }
        flags
    }

    /// The `linkat` flags for this lookup.
    pub fn to_linkat_posix(&self) -> (r: i32)
        ensures
            r == (if self.follows() { posix::AT_SYMLINK_FOLLOW } else { 0 }),
    {
        let mut flags: i32 = 0;
        if nth_bit_set_u32(self.0, 0) {
            proof {
                lemma_or_zero(posix::AT_SYMLINK_FOLLOW);
            }
            flags = flags | posix::AT_SYMLINK_FOLLOW;
        }
        flags
    }

    /// The `openat` flags for this lookup.
    pub fn to_openat_posix(&self) -> (r: i32)
        ensures
            r == (if self.follows() { 0 } else { posix::O_NOFOLLOW }),
    {
        let mut flags: i32 = 0;
        if !nth_bit_set_u32(self.0, 0) {
            proof {
                lemma_or_zero(posix::O_NOFOLLOW);
            }
            flags = flags | posix::O_NOFOLLOW;
        }
        flags
    }

    pub fn should_follow(&self) -> (r: bool)
        ensures
            r == self.follows(),
    {
        nth_bit_set_u32(self.0, 0)
    }
}

/// WASI `oflags` for `path_open`, with the access mode in bits 4 and 5.
#[derive(PartialEq, Eq, Structural, Clone, Copy, Debug)]
pub struct OFlags(pub u32);

/// The host `open` flags for a WASI `oflags` word.
pub open spec fn oflags_to_posix(f: u32) -> i32 {
    or_if(
        or_if(
            or_if(
                or_if(
                    or_if(or_if(0, bit32(f, 0), posix::O_CREAT), bit32(f, 1), posix::O_DIRECTORY),
                    bit32(f, 2),
                    posix::O_EXCL,
                ),
                bit32(f, 3),
                posix::O_TRUNC,
            ),
            bit32(f, 4),
            posix::O_WRONLY,
        ),
        bit32(f, 5),
        posix::O_RDWR,
    )
}

impl OFlags {
    pub fn new(flags: u32) -> (r: OFlags)
        ensures
            r.0 == flags,
    {
        OFlags(flags)
    }

    /// The host `open` flags: each WASI bit sets its own host flag, and no
    /// other flag is set.
    pub fn to_posix(&self) -> (r: i32)
        ensures
            r == oflags_to_posix(self.0),
            (self.0 & 1 != 0) == (r & 0o100 != 0),
            (self.0 & 2 != 0) == (r & 0o200000 != 0),
            (self.0 & 4 != 0) == (r & 0o200 != 0),
            (self.0 & 8 != 0) == (r & 0o1000 != 0),
            (self.0 & 16 != 0) == (r & 0o1 != 0),
            (self.0 & 32 != 0) == (r & 0o2 != 0),
            r & !(0o100i32 | 0o200000i32 | 0o200i32 | 0o1000i32 | 0o1i32 | 0o2i32) == 0,
    {
        proof {
            lemma_oflags_bits(self.0);
        }
        let mut flags: i32 = 0;
        if nth_bit_set_u32(self.0, 0) {
            flags = flags | posix::O_CREAT;
        }
        if nth_bit_set_u32(self.0, 1) {
            flags = flags | posix::O_DIRECTORY;
        }
        if nth_bit_set_u32(self.0, 2) {
            flags = flags | posix::O_EXCL;
        }
        if nth_bit_set_u32(self.0, 3) {
            flags = flags | posix::O_TRUNC;
        }
        if nth_bit_set_u32(self.0, 4) {
            flags = flags | posix::O_WRONLY;
        }
        if nth_bit_set_u32(self.0, 5) {
            flags = flags | posix::O_RDWR;
        }
        flags
    }
}

/// Each WASI `oflags` bit maps to its own host `open` flag: bit 0 to
/// `O_CREAT` (0o100), bit 1 to `O_DIRECTORY` (0o200000), bit 2 to
/// `O_EXCL` (0o200), bit 3 to `O_TRUNC` (0o1000), bit 4 to `O_WRONLY` (1)
/// and bit 5 to `O_RDWR` (2); no other host flag is ever set.
pub proof fn lemma_oflags_bits(f: u32)
    ensures
        (f & 1 != 0) == (oflags_to_posix(f) & 0o100 != 0),
        (f & 2 != 0) == (oflags_to_posix(f) & 0o200000 != 0),
        (f & 4 != 0) == (oflags_to_posix(f) & 0o200 != 0),
        (f & 8 != 0) == (oflags_to_posix(f) & 0o1000 != 0),
        (f & 16 != 0) == (oflags_to_posix(f) & 0o1 != 0),
        (f & 32 != 0) == (oflags_to_posix(f) & 0o2 != 0),
        oflags_to_posix(f) & !(0o100i32 | 0o200000i32 | 0o200i32 | 0o1000i32 | 0o1i32 | 0o2i32) == 0,
{
    let o = oflags_to_posix(f);
    assert({
        &&& (f & 1 != 0) == (o & 0o100 != 0)
        &&& (f & 2 != 0) == (o & 0o200000 != 0)
        &&& (f & 4 != 0) == (o & 0o200 != 0)
        &&& (f & 8 != 0) == (o & 0o1000 != 0)
        &&& (f & 16 != 0) == (o & 0o1 != 0)
        &&& (f & 32 != 0) == (o & 0o2 != 0)
        &&& o & !(0o100i32 | 0o200000i32 | 0o200i32 | 0o1000i32 | 0o1i32 | 0o2i32) == 0
    }) by (bit_vector)
        requires
            o == or_if(
                or_if(
                    or_if(
                        or_if(
                            or_if(
                                or_if(0, f & (1u32 << 0u32) != 0u32, posix::O_CREAT),
                                f & (1u32 << 1u32) != 0u32,
                                posix::O_DIRECTORY,
                            ),
                            f & (1u32 << 2u32) != 0u32,
                            posix::O_EXCL,
                        ),
                        f & (1u32 << 3u32) != 0u32,
                        posix::O_TRUNC,
                    ),
                    f & (1u32 << 4u32) != 0u32,
                    posix::O_WRONLY,
                ),
                f & (1u32 << 5u32) != 0u32,
                posix::O_RDWR,
            ),
    ;
}

/// The flags that `path_open` hands to `openat`: lookup, open and
/// descriptor flags combined.
pub open spec fn path_open_flags(dirflags: u32, oflags: u32, fdflags: i32) -> i32 {
    (if bit32(dirflags, 0) { 0 } else { posix::O_NOFOLLOW }) | oflags_to_posix(oflags)
        | fdflags_to_posix(fdflags as u16)
}

/// The combined `openat` flags carry `O_NOFOLLOW` exactly when the lookup
/// does not follow symbolic links: neither the open flags nor the
/// descriptor flags can add it.
pub proof fn lemma_path_open_nofollow(dirflags: u32, oflags: u32, fdflags: i32)
    ensures
        (path_open_flags(dirflags, oflags, fdflags) & posix::O_NOFOLLOW == posix::O_NOFOLLOW)
            == !bit32(dirflags, 0),
{
    let d = if bit32(dirflags, 0) { 0i32 } else { posix::O_NOFOLLOW };
    let o = oflags_to_posix(oflags);
    let f = fdflags_to_posix(fdflags as u16);
    let (o0, o1, o2, o3, o4, o5) = (bit32(oflags, 0), bit32(oflags, 1), bit32(oflags, 2),
        bit32(oflags, 3), bit32(oflags, 4), bit32(oflags, 5));
    assert(o & 0o400000i32 == 0) by (bit_vector)
        requires
            o == or_if(or_if(or_if(or_if(or_if(or_if(0, o0, 0o100i32), o1, 0o200000i32), o2,
                0o200i32), o3, 0o1000i32), o4, 0o1i32), o5, 0o2i32),
    ;
    let fw = fdflags as u16;
    let (f0, f1, f2, f3, f4) = (bit16(fw, 0), bit16(fw, 1), bit16(fw, 2), bit16(fw, 3), bit16(fw, 4));
    assert(f & 0o400000i32 == 0) by (bit_vector)
        requires
            f == or_if(or_if(or_if(or_if(or_if(0, f0, 0o2000i32), f1, 0o10000i32), f2, 0o4000i32),
                f3, 0o4010000i32), f4, 0o4010000i32),
    ;
    assert(((d | o | f) & 0o400000i32 == 0o400000i32) == (d == 0o400000i32)) by (bit_vector)
        requires
            d == 0 || d == 0o400000i32,
            o & 0o400000i32 == 0,
            f & 0o400000i32 == 0,
    ;
}

/// WASI `fstflags` of `*_filestat_set_times`.
#[derive(PartialEq, Eq, Structural, Clone, Copy, Debug)]
pub struct FstFlags(pub u16);

impl FstFlags {
    pub fn atim(&self) -> (r: bool)
        ensures
            r == bit16(self.0, 0),
    {
        nth_bit_set(self.0, 0)
    }

    pub fn atim_now(&self) -> (r: bool)
        ensures
            r == bit16(self.0, 1),
    {
        nth_bit_set(self.0, 1)
    }

    pub fn mtim(&self) -> (r: bool)
        ensures
            r == bit16(self.0, 2),
    {
        nth_bit_set(self.0, 2)
    }

    pub fn mtim_now(&self) -> (r: bool)
        ensures
            r == bit16(self.0, 3),
    {
        nth_bit_set(self.0, 3)
    }

    /// Accepts the flags unless a time is both given and asked to be now.
    pub fn try_from_u16(flags: u16) -> (r: RuntimeResult<FstFlags>)
        ensures
            r == (if (bit16(flags, 0) && bit16(flags, 1)) || (bit16(flags, 2) && bit16(flags, 3)) {
                Err(RuntimeError::Einval)
            } else {
                Ok(FstFlags(flags))
            }),
    {
        let fst_flags = FstFlags(flags);
        if fst_flags.atim() && fst_flags.atim_now() || fst_flags.mtim() && fst_flags.mtim_now() {
            return Err(RuntimeError::Einval);
        }
        Ok(fst_flags)
    }
}

/// WASI `sdflags` of `sock_shutdown`.
#[derive(PartialEq, Eq, Structural, Clone, Copy, Debug)]
pub struct SdFlags(pub u8);

impl SdFlags {
    pub fn new(num: u32) -> (r: SdFlags)
        ensures
            r.0 == num as u8,
    {
        SdFlags(num as u8)
    }

    pub fn rd(&self) -> (r: bool)
        ensures
            r == bit16(self.0 as u16, 0),
    {
        nth_bit_set(self.0 as u16, 0)
    }

    pub fn wr(&self) -> (r: bool)
        ensures
            r == bit16(self.0 as u16, 1),
    {
        nth_bit_set(self.0 as u16, 1)
    }

    /// The `shutdown` mode for these flags; shutting down nothing is refused.
    pub fn try_to_posix(self) -> (r: RuntimeResult<i32>)
        ensures
            r == (if bit16(self.0 as u16, 0) && bit16(self.0 as u16, 1) {
                Ok(posix::SHUT_RDWR)
            } else if bit16(self.0 as u16, 0) {
                Ok(posix::SHUT_RD)
            } else if bit16(self.0 as u16, 1) {
                Ok(posix::SHUT_WR)
            } else {
                Err(RuntimeError::Einval)
            }),
    {
        if self.rd() && self.wr() {
            Ok(posix::SHUT_RDWR)
        } else if self.rd() {
            Ok(posix::SHUT_RD)
        } else if self.wr() {
            Ok(posix::SHUT_WR)
        } else {
            Err(RuntimeError::Einval)
        }
    }
}

/// WASI `riflags` of `sock_recv`.
#[derive(PartialEq, Eq, Structural, Clone, Copy, Debug)]
pub struct RiFlags(pub u16);

impl RiFlags {
    pub fn recv_peek(&self) -> (r: bool)
        ensures
            r == bit16(self.0, 0),
    {
        nth_bit_set(self.0, 0)
    }

    pub fn recv_waitall(&self) -> (r: bool)
        ensures
            r == bit16(self.0, 1),
    {
        nth_bit_set(self.0, 1)
    }

    /// The `recv` flags for these flags.
    pub fn to_posix(&self) -> (r: i32)
        ensures
            r == or_if(or_if(0, bit16(self.0, 0), posix::MSG_PEEK), bit16(self.0, 1), posix::MSG_WAITALL),
    {
        let mut flags: i32 = 0;
        if self.recv_peek() {
            flags = flags | posix::MSG_PEEK;
        }
        if self.recv_waitall() {
            flags = flags | posix::MSG_WAITALL;
        }
        flags
    }

    /// Accepts a flag word with no bits beyond the two WASI defines.
    pub fn try_from_u32(flags: u32) -> (r: RuntimeResult<RiFlags>)
        ensures
            r == (if flags & (u32::MAX - 3) as u32 != 0 {
                Err(RuntimeError::Einval)
            } else {
                Ok(RiFlags(flags as u16))
            }),
    {
        if flags & (u32::MAX - 0b11) != 0 {
            Err(RuntimeError::Einval)
        } else {
            Ok(RiFlags(flags as u16))
        }
    }
}

/// WASI `subclockflags`: bit 0 marks an absolute timeout.
#[derive(PartialEq, Eq, Structural, Clone, Copy, Debug)]
pub struct SubClockFlags(pub u16);

impl SubClockFlags {
    pub fn subscription_clock_abstime(&self) -> (r: bool)
        ensures
            r == bit16(self.0, 0),
    {
        nth_bit_set(self.0, 0)
    }

    /// Accepts a flag word with no bit other than bit 0.
    pub fn try_from_u16(flags: u16) -> (r: RuntimeResult<SubClockFlags>)
        ensures
            r == (if flags & (u16::MAX - 1) as u16 != 0 {
                Err(RuntimeError::Einval)
            } else {
                Ok(SubClockFlags(flags))
            }),
    {
        if flags & (u16::MAX - 0x1) != 0 {
            Err(RuntimeError::Einval)
        } else {
            Ok(SubClockFlags(flags))
        }
    }

    /// Accepts a flag word with no bit other than bit 0.
    pub fn try_from_u64(flags: u64) -> (r: RuntimeResult<SubClockFlags>)
        ensures
            r == (if flags & (u64::MAX - 1) as u64 != 0 {
                Err(RuntimeError::Einval)
            } else {
                Ok(SubClockFlags(flags as u16))
            }),
    {
        if flags & (u64::MAX - 0x1) != 0 {
            Err(RuntimeError::Einval)
        } else {
            Ok(SubClockFlags(flags as u16))
        }
    }
}

/// The kind of event a poll result reports.
#[derive(PartialEq, Eq, Structural, Clone, Copy, Debug)]
pub enum EventType {
    Clock,
    FdRead,
    FdWrite,
}

pub open spec fn event_type_wasi(t: EventType) -> u16 {
    match t {
        EventType::Clock => 0,
        EventType::FdRead => 1,
        EventType::FdWrite => 2,
    }
}

impl EventType {
    /// The WASI number of the event type.
    pub fn to_u16(self) -> (r: u16)
        ensures
            r == event_type_wasi(self),
    {
        match self {
            EventType::Clock => 0,
            EventType::FdRead => 1,
            EventType::FdWrite => 2,
        }
    }
}

/// Whether a descriptor subscription waits to read or to write.
#[derive(PartialEq, Eq, Structural, Clone, Copy, Debug)]
pub enum SubscriptionFdType {
    Read,
    Write,
}

impl SubscriptionFdType {
    /// The `poll` event to wait for.
    pub fn to_posix(&self) -> (r: i16)
        ensures
            r == (match *self {
                SubscriptionFdType::Read => posix::POLLIN,
                SubscriptionFdType::Write => posix::POLLOUT,
            }),
    {
        match self {
            SubscriptionFdType::Read => posix::POLLIN,
            SubscriptionFdType::Write => posix::POLLOUT,
        }
    }

    pub fn to_event_type(&self) -> (r: EventType)
        ensures
            r == (match *self {
                SubscriptionFdType::Read => EventType::FdRead,
                SubscriptionFdType::Write => EventType::FdWrite,
            }),
    {
        match self {
            SubscriptionFdType::Read => EventType::FdRead,
            SubscriptionFdType::Write => EventType::FdWrite,
        }
    }
}

/// WASI `eventrwflags`: bit 0 (`fd_readwrite_hangup`) reports a hang-up.
#[derive(PartialEq, Eq, Structural, Clone, Copy, Debug)]
pub struct EventRwFlags(pub u16);

impl EventRwFlags {
    /// The event flags for the `revents` of a polled descriptor.
    pub fn from_posix(flags: i16) -> (r: EventRwFlags)
        ensures
            r.0 == (if flags & posix::POLLHUP != 0 { 1u16 } else { 0u16 }),
    {
        let mut result = EventRwFlags(0);
        if flags & posix::POLLHUP != 0 {
            result.0 = with_nth_bit_set(result.0, 0);
            assert(0u16 | (1u16 << 0u16) == 1u16) by (bit_vector);
        }
        result
    }

    pub fn to_u16(self) -> (r: u16)
        ensures
            r == self.0,
    {
        self.0
    }
}

/// The WASI `fdstat` of a descriptor.
#[derive(PartialEq, Eq, Structural, Clone, Copy, Debug)]
pub struct FdStat {
    pub fs_filetype: Filetype,
    pub fs_flags: FdFlags,
    pub fs_rights_base: u64,
    pub fs_rights_inheriting: u64,
}

/// Descriptor flags survive the trip to host flags and back, unless they
/// mix the synchronisation flags: the host spells `rsync` and `sync` with
/// the bits of `dsync`, so any of the three brings back all three.
pub proof fn lemma_fdflags_round_trip(f: u16)
    requires
        f < 32,
        f & 0x1a == 0 || f & 0x1a == 0x1a,
    ensures
        fdflags_from_posix(fdflags_to_posix(f)) == f,
{
    assert(fdflags_from_posix(fdflags_to_posix(f)) == f) by (bit_vector)
        requires
            f < 32,
            f & 0x1a == 0 || f & 0x1a == 0x1a,
    ;
}

} // verus!
