use wave::clock::{clock_source, emulated_clock_time, ClockReading, ClockSource, Timeval};
use wave::error::RuntimeError;
use wave::posix;
use wave::types::Timespec;

fn zero() -> Timespec {
    Timespec { tv_sec: 0, tv_nsec: 0 }
}

#[test]
fn clock_sources() {
    assert_eq!(clock_source(posix::CLOCK_REALTIME), Ok(ClockSource::TimeOfDay));
    assert_eq!(clock_source(posix::CLOCK_MONOTONIC), Ok(ClockSource::SinceBoot));
    assert_eq!(clock_source(posix::CLOCK_PROCESS_CPUTIME_ID), Ok(ClockSource::ProcessUsage));
    assert_eq!(clock_source(posix::CLOCK_THREAD_CPUTIME_ID), Ok(ClockSource::ThreadUsage));
    assert_eq!(clock_source(42), Err(RuntimeError::Einval));
}

#[test]
fn time_of_day_scales_microseconds() {
    let mut spec = zero();
    let r = emulated_clock_time(
        ClockReading::TimeOfDay { ret: 0, now: Timeval { tv_sec: 17, tv_usec: 250 } },
        &mut spec,
    );
    assert_eq!(r, Ok(0));
    assert_eq!(spec, Timespec { tv_sec: 17, tv_nsec: 250_000 });
}

#[test]
fn since_boot_borrows_a_second() {
    let mut spec = zero();
    let r = emulated_clock_time(
        ClockReading::SinceBoot {
            boot_ret: 0,
            boot: Timeval { tv_sec: 100, tv_usec: 900_000 },
            ret: 0,
            now: Timeval { tv_sec: 105, tv_usec: 100_000 },
        },
        &mut spec,
    );
    assert_eq!(r, Ok(0));
    assert_eq!(spec, Timespec { tv_sec: 4, tv_nsec: 200_000_000 });
}

#[test]
fn since_boot_failure_leaves_spec() {
    let mut spec = Timespec { tv_sec: 9, tv_nsec: 9 };
    let r = emulated_clock_time(
        ClockReading::SinceBoot {
            boot_ret: -(posix::EPERM as isize),
            boot: Timeval { tv_sec: 0, tv_usec: 0 },
            ret: 0,
            now: Timeval { tv_sec: 5, tv_usec: 0 },
        },
        &mut spec,
    );
    assert_eq!(r, Err(RuntimeError::Eperm));
    assert_eq!(spec, Timespec { tv_sec: 9, tv_nsec: 9 });
}

#[test]
fn process_usage_carries_a_second() {
    let mut spec = zero();
    let r = emulated_clock_time(
        ClockReading::ProcessUsage {
            ret: 0,
            utime: Timeval { tv_sec: 1, tv_usec: 700_000 },
            stime: Timeval { tv_sec: 2, tv_usec: 600_000 },
        },
        &mut spec,
    );
    assert_eq!(r, Ok(0));
    assert_eq!(spec, Timespec { tv_sec: 4, tv_nsec: 300_000_000 });
    // exactly one second of microseconds is carried
    let mut spec = zero();
    emulated_clock_time(
        ClockReading::ProcessUsage {
            ret: 0,
            utime: Timeval { tv_sec: 0, tv_usec: 500_000 },
            stime: Timeval { tv_sec: 0, tv_usec: 500_000 },
        },
        &mut spec,
    )
    .unwrap();
    assert_eq!(spec, Timespec { tv_sec: 1, tv_nsec: 0 });
}

#[test]
fn thread_usage_splits_nanoseconds() {
    let mut spec = zero();
    assert_eq!(emulated_clock_time(ClockReading::ThreadUsage { nsec: 3_000_000_007 }, &mut spec), Ok(0));
    assert_eq!(spec, Timespec { tv_sec: 3, tv_nsec: 7 });
    let mut spec = zero();
    assert_eq!(emulated_clock_time(ClockReading::ThreadUsage { nsec: 0 }, &mut spec), Err(RuntimeError::Eperm));
    assert_eq!(spec, zero());
    let mut spec = zero();
    emulated_clock_time(ClockReading::ThreadUsage { nsec: u64::MAX }, &mut spec).unwrap();
    assert_eq!(spec, Timespec { tv_sec: 0, tv_nsec: -1 });
}
