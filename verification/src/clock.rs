//! Clock readings on a host without `clock_gettime`: each clock is
//! computed from what the host offers instead (the time of day, the boot
//! time, the process's resource usage, the thread's usage in
//! nanoseconds). The clock ids are those of `posix`, that is Linux
//! x86-64's; a host that numbers its clocks otherwise must translate them
//! first.
use vstd::prelude::*;
use crate::error::{RuntimeError, RuntimeResult, syscall_result};
use crate::posix;
use crate::types::Timespec;

verus! {

pub const USEC_PER_SEC: i32 = 1_000_000;
pub const NSEC_PER_SEC_I64: i64 = 1_000_000_000;

/// A host `timeval`: seconds and microseconds.
#[derive(PartialEq, Eq, Structural, Clone, Copy, Debug)]
pub struct Timeval {
    pub tv_sec: i64,
    pub tv_usec: i32,
}

/// What the host is asked for to read a clock.
#[derive(PartialEq, Eq, Structural, Clone, Copy, Debug)]
pub enum ClockSource {
    /// The time of day.
    TimeOfDay,
    /// The boot time, then the time of day.
    SinceBoot,
    /// The process's resource usage.
    ProcessUsage,
    /// The calling thread's usage, in nanoseconds.
    ThreadUsage,
}

/// What the host answered, with the raw return values of its calls.
#[derive(PartialEq, Eq, Structural, Clone, Copy, Debug)]
pub enum ClockReading {
    TimeOfDay { ret: isize, now: Timeval },
    SinceBoot { boot_ret: isize, boot: Timeval, ret: isize, now: Timeval },
    ProcessUsage { ret: isize, utime: Timeval, stime: Timeval },
    ThreadUsage { nsec: u64 },
}

/// The host readings the clock `clock_id` is computed from; `Einval` for
/// an unknown clock.
pub fn clock_source(clock_id: i32) -> (r: RuntimeResult<ClockSource>)
    ensures
        r == (if clock_id == posix::CLOCK_REALTIME {
            Ok(ClockSource::TimeOfDay)
        } else if clock_id == posix::CLOCK_MONOTONIC {
            Ok(ClockSource::SinceBoot)
        } else if clock_id == posix::CLOCK_PROCESS_CPUTIME_ID {
            Ok(ClockSource::ProcessUsage)
        } else if clock_id == posix::CLOCK_THREAD_CPUTIME_ID {
            Ok(ClockSource::ThreadUsage)
        } else {
            Err(RuntimeError::Einval)
        }),
{
    if clock_id == posix::CLOCK_REALTIME {
        Ok(ClockSource::TimeOfDay)
    } else if clock_id == posix::CLOCK_MONOTONIC {
        Ok(ClockSource::SinceBoot)
    } else if clock_id == posix::CLOCK_PROCESS_CPUTIME_ID {
        Ok(ClockSource::ProcessUsage)
    } else if clock_id == posix::CLOCK_THREAD_CPUTIME_ID {
        Ok(ClockSource::ThreadUsage)
    } else {
        Err(RuntimeError::Einval)
    }
}

/// Whether `usec` microseconds are a number of nanoseconds that fits the
/// host's microsecond type.
pub open spec fn usec_scalable(usec: int) -> bool {
    i32::MIN <= usec * 1000 <= i32::MAX
}

/// The time `now` is after `boot`, as seconds and microseconds, with the
/// microseconds borrowed into range when negative.
pub open spec fn elapsed(boot: Timeval, now: Timeval) -> (int, int) {
    let sec = now.tv_sec - boot.tv_sec;
    let usec = now.tv_usec - boot.tv_usec;
    if usec < 0 {
        (sec - 1, usec + USEC_PER_SEC)
    } else {
        (sec, usec)
    }
}

/// The sum of two times, as seconds and microseconds, with a microsecond
/// count of one second or more carried once, so that it stays below one
/// second.
pub open spec fn summed(a: Timeval, b: Timeval) -> (int, int) {
    let sec = a.tv_sec + b.tv_sec;
    let usec = a.tv_usec + b.tv_usec;
    if usec >= USEC_PER_SEC {
        (sec + 1, usec - USEC_PER_SEC)
    } else {
        (sec, usec)
    }
}

/// `x` truncated to a signed 64-bit value.
pub open spec fn as_signed(x: u64) -> int {
    if x <= i64::MAX {
        x as int
    } else {
        x - 0x1_0000_0000_0000_0000
    }
}

/// The quotient and remainder of `x` by `d`, rounded toward zero.
pub open spec fn trunc_divmod(x: int, d: int) -> (int, int) {
    if x >= 0 {
        (x / d, x % d)
    } else {
        (-((-x) / d), -((-x) % d))
    }
}

/// Whether the arithmetic on a reading stays in the host's integer types.
pub open spec fn reading_in_range(reading: ClockReading) -> bool {
    match reading {
        ClockReading::TimeOfDay { now, .. } => usec_scalable(now.tv_usec as int),
        ClockReading::SinceBoot { boot_ret, boot, now, .. } => boot_ret == 0 ==> {
            let (sec, usec) = elapsed(boot, now);
            &&& i64::MIN <= now.tv_sec - boot.tv_sec <= i64::MAX
            &&& i32::MIN <= now.tv_usec - boot.tv_usec <= i32::MAX
            &&& i64::MIN <= sec <= i64::MAX
            &&& i32::MIN <= usec <= i32::MAX
            &&& usec_scalable(usec)
        },
        ClockReading::ProcessUsage { ret, utime, stime } => ret == 0 ==> {
            let (sec, usec) = summed(utime, stime);
            &&& i64::MIN <= utime.tv_sec + stime.tv_sec <= i64::MAX
            &&& i32::MIN <= utime.tv_usec + stime.tv_usec <= i32::MAX
            &&& i64::MIN <= sec <= i64::MAX
            &&& usec_scalable(usec)
        },
        ClockReading::ThreadUsage { .. } => true,
    }
}

/// What reading a clock gives: the result of the call and the value of
/// the `timespec` afterwards, which starts as `spec`.
pub open spec fn reading_outcome(reading: ClockReading, spec: Timespec) -> (RuntimeResult<usize>, Timespec) {
    match reading {
        ClockReading::TimeOfDay { ret, now } => (
            syscall_result(ret),
            Timespec { tv_sec: now.tv_sec, tv_nsec: (now.tv_usec * 1000) as i64 },
        ),
        ClockReading::SinceBoot { boot_ret, boot, ret, now } => if boot_ret != 0 {
            (syscall_result(boot_ret), spec)
        } else {
            let (sec, usec) = elapsed(boot, now);
            (syscall_result(ret), Timespec { tv_sec: sec as i64, tv_nsec: (usec * 1000) as i64 })
        },
        ClockReading::ProcessUsage { ret, utime, stime } => if ret != 0 {
            (syscall_result(ret), spec)
        } else {
            let (sec, usec) = summed(utime, stime);
            (syscall_result(ret), Timespec { tv_sec: sec as i64, tv_nsec: (usec * 1000) as i64 })
        },
        ClockReading::ThreadUsage { nsec } => if nsec == 0 {
            (syscall_result(-1isize), spec)
        } else {
            let (sec, ns) = trunc_divmod(as_signed(nsec), NSEC_PER_SEC_I64 as int);
            (Ok(0), Timespec { tv_sec: sec as i64, tv_nsec: ns as i64 })
        },
    }
}

/// Reads a clock from the host's answer `reading`, filling `spec`: the
/// time of day as it is, the time since boot as the difference of the time
/// of day and the boot time, the process's time as the sum of its user and
/// system time, the thread's time split into seconds and nanoseconds. A
/// failed host call gives its error and leaves `spec` as it was; a thread
/// usage of zero counts as failed.
pub fn emulated_clock_time(reading: ClockReading, spec: &mut Timespec) -> (r: RuntimeResult<usize>)
    requires
        reading_in_range(reading),
    ensures
        (r, *final(spec)) == reading_outcome(reading, *old(spec)),
{
    match reading {
        ClockReading::TimeOfDay { ret, now } => {
            spec.tv_sec = now.tv_sec;
            spec.tv_nsec = (now.tv_usec * 1000) as i64;
            RuntimeError::from_syscall_ret(ret)
        },
        ClockReading::SinceBoot { boot_ret, boot, ret, now } => {
            if boot_ret != 0 {
                return RuntimeError::from_syscall_ret(boot_ret);
            }
            let mut diff_sec = now.tv_sec - boot.tv_sec;
            let mut diff_usec = now.tv_usec - boot.tv_usec;
            if diff_usec < 0 {
                diff_sec -= 1;
                diff_usec += USEC_PER_SEC;
            }
            spec.tv_sec = diff_sec;
            spec.tv_nsec = (diff_usec * 1000) as i64;
            RuntimeError::from_syscall_ret(ret)
        },
        ClockReading::ProcessUsage { ret, utime, stime } => {
            if ret != 0 {
                return RuntimeError::from_syscall_ret(ret);
            }
            let mut sum_sec = utime.tv_sec + stime.tv_sec;
            let mut sum_usec = utime.tv_usec + stime.tv_usec;
            if sum_usec >= USEC_PER_SEC {
                sum_sec += 1;
                sum_usec -= USEC_PER_SEC;
            }
            spec.tv_sec = sum_sec;
            spec.tv_nsec = (sum_usec * 1000) as i64;
            RuntimeError::from_syscall_ret(ret)
        },
        ClockReading::ThreadUsage { nsec } => {
            if nsec == 0 {
                return RuntimeError::from_syscall_ret(-1);
            }
            if nsec <= i64::MAX as u64 {
                spec.tv_sec = (nsec / 1_000_000_000) as i64;
                spec.tv_nsec = (nsec % 1_000_000_000) as i64;
            } else {
                // The count reads as negative; the quotient and remainder
                // round toward zero.
                let magnitude = 0u64.wrapping_sub(nsec);
                spec.tv_sec = 0 - (magnitude / 1_000_000_000) as i64;
                spec.tv_nsec = 0 - (magnitude % 1_000_000_000) as i64;
            }
            Ok(0)
        },
    }
}

} // verus!
