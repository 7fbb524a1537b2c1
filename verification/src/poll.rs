//! `poll_oneoff`: reading subscriptions out of linear memory and writing
//! events back.
use vstd::prelude::*;
use vstd::bytes::{
    spec_u16_to_le_bytes, spec_u32_from_le_bytes, spec_u64_from_le_bytes, spec_u64_to_le_bytes,
};
use crate::error::{as_u16, wasi_errno, RuntimeError, RuntimeResult};
use crate::flags::{event_type_wasi, EventRwFlags, EventType, SubClockFlags, SubscriptionFdType};
use crate::runtime::{write_bytes, VmCtx};
use crate::types::{is_aligned, Alignment, ClockId, Timespec, Timestamp};
use crate::bits::bit16;

verus! {

/// The little-endian `u32` in linear memory at `a`.
pub open spec fn mem_u32(ctx: &VmCtx, a: int) -> u32 {
    spec_u32_from_le_bytes(ctx.bytes_at(a, 4))
}

/// The little-endian `u64` in linear memory at `a`.
pub open spec fn mem_u64(ctx: &VmCtx, a: int) -> u64 {
    spec_u64_from_le_bytes(ctx.bytes_at(a, 8))
}

#[derive(PartialEq, Eq, Structural, Clone, Copy, Debug)]
pub struct SubscriptionClock {
    pub id: u32,
    pub timeout: Timestamp,
    pub precision: Timestamp,
    pub flags: SubClockFlags,
}

#[derive(PartialEq, Eq, Structural, Clone, Copy, Debug)]
pub struct SubscriptionFdReadWrite {
    pub v_fd: u32,
    pub typ: SubscriptionFdType,
}

#[derive(PartialEq, Eq, Structural, Clone, Copy, Debug)]
pub enum SubscriptionInner {
    Clock(SubscriptionClock),
    Fd(SubscriptionFdReadWrite),
}

/// A WASI `subscription`: what `poll_oneoff` should wait for.
#[derive(PartialEq, Eq, Structural, Clone, Copy, Debug)]
pub struct Subscription {
    pub userdata: u64,
    pub subscription_u: SubscriptionInner,
}

pub const SUBSCRIPTION_WASI_SIZE: u32 = 48;
pub const SUBSCRIPTION_CLOCK_TAG: u64 = 0;
pub const SUBSCRIPTION_FD_READ_TAG: u64 = 1;
pub const SUBSCRIPTION_FD_WRITE_TAG: u64 = 2;
pub const EVENT_WASI_SIZE: u32 = 32;

/// The subscription stored at `ptr`, or why it cannot be read: it must lie
/// in linear memory (`Eoverflow`), be 8-byte aligned (`Einval`), carry a
/// known tag and, for a clock, valid flags (`Einval`).
pub open spec fn spec_subscription(ctx: &VmCtx, ptr: u32) -> RuntimeResult<Subscription> {
    if !ctx.fits(ptr as int, SUBSCRIPTION_WASI_SIZE as int) {
        Err(RuntimeError::Eoverflow)
    } else if ptr % 8 != 0 {
        Err(RuntimeError::Einval)
    } else {
        let userdata = mem_u64(ctx, ptr as int);
        let tag = mem_u64(ctx, ptr + 8);
        if tag == SUBSCRIPTION_CLOCK_TAG {
            let flags = mem_u64(ctx, ptr + 40);
            if flags & (u64::MAX - 1) as u64 != 0 {
                Err(RuntimeError::Einval)
            } else {
                Ok(Subscription {
                    userdata,
                    subscription_u: SubscriptionInner::Clock(SubscriptionClock {
                        id: mem_u32(ctx, ptr + 16),
                        timeout: Timestamp(mem_u64(ctx, ptr + 24)),
                        precision: Timestamp(mem_u64(ctx, ptr + 32)),
                        flags: SubClockFlags(flags as u16),
                    }),
                })
            }
        } else if tag == SUBSCRIPTION_FD_READ_TAG {
            Ok(Subscription {
                userdata,
                subscription_u: SubscriptionInner::Fd(SubscriptionFdReadWrite {
                    v_fd: mem_u32(ctx, ptr + 16),
                    typ: SubscriptionFdType::Read,
                }),
            })
        } else if tag == SUBSCRIPTION_FD_WRITE_TAG {
            Ok(Subscription {
                userdata,
                subscription_u: SubscriptionInner::Fd(SubscriptionFdReadWrite {
                    v_fd: mem_u32(ctx, ptr + 16),
                    typ: SubscriptionFdType::Write,
                }),
            })
        } else {
            Err(RuntimeError::Einval)
        }
    }
}

impl Subscription {
    /// Reads the subscription stored at `ptr`.
    pub fn read(ctx: &VmCtx, ptr: u32) -> (r: RuntimeResult<Subscription>)
        requires
            ctx.wf(),
        ensures
            r == spec_subscription(ctx, ptr),
    {
        if !ctx.fits_in_lin_mem_usize(ptr as usize, SUBSCRIPTION_WASI_SIZE as usize) {
            return Err(RuntimeError::Eoverflow);
        }
        if !is_aligned(Alignment::Eight, ptr) {
            return Err(RuntimeError::Einval);
        }
        let userdata = ctx.read_u64(ptr as usize);
        let tag = ctx.read_u64((ptr + 8) as usize);
        match tag {
            SUBSCRIPTION_CLOCK_TAG => {
                let v_clock_id = ctx.read_u32((ptr + 16) as usize);
                let v_timeout = ctx.read_u64((ptr + 24) as usize);
                let v_precision = ctx.read_u64((ptr + 32) as usize);
                let v_flags = ctx.read_u64((ptr + 40) as usize);
                let precision = Timestamp::new(v_precision);
                let flags = SubClockFlags::try_from_u64(v_flags)?;
                Ok(Subscription {
                    userdata,
                    subscription_u: SubscriptionInner::Clock(SubscriptionClock {
                        id: v_clock_id,
                        timeout: Timestamp::new(v_timeout),
                        precision,
                        flags,
                    }),
                })
            },
            SUBSCRIPTION_FD_READ_TAG => {
                let v_fd = ctx.read_u32((ptr + 16) as usize);
                Ok(Subscription {
                    userdata,
                    subscription_u: SubscriptionInner::Fd(
                        SubscriptionFdReadWrite { v_fd, typ: SubscriptionFdType::Read },
                    ),
                })
            },
            SUBSCRIPTION_FD_WRITE_TAG => {
                let v_fd = ctx.read_u32((ptr + 16) as usize);
                Ok(Subscription {
                    userdata,
                    subscription_u: SubscriptionInner::Fd(
                        SubscriptionFdReadWrite { v_fd, typ: SubscriptionFdType::Write },
                    ),
                })
            },
            _ => Err(RuntimeError::Einval),
        }
    }
}

#[derive(PartialEq, Eq, Structural, Clone, Copy, Debug)]
pub struct EventFdReadWrite {
    pub nbytes: u64,
    pub flags: EventRwFlags,
}

/// A WASI `event`: what happened to a subscription.
#[derive(PartialEq, Eq, Structural, Clone, Copy, Debug)]
pub struct Event {
    pub userdata: u64,
    pub error: RuntimeError,
    pub typ: EventType,
    pub fd_readwrite: Option<EventFdReadWrite>,
}

/// Linear memory after the event `ev` is written at `ptr`: user data,
/// error, type and, for a descriptor event, the byte count and flags.
pub open spec fn event_written(mem: Seq<u8>, ptr: int, ev: Event) -> Seq<u8> {
    let m1 = write_bytes(mem, ptr, spec_u64_to_le_bytes(ev.userdata));
    let m2 = write_bytes(m1, ptr + 8, spec_u16_to_le_bytes(wasi_errno(ev.error)));
    let m3 = write_bytes(m2, ptr + 10, spec_u16_to_le_bytes(event_type_wasi(ev.typ)));
    match ev.fd_readwrite {
        Some(rw) => write_bytes(
            write_bytes(m3, ptr + 16, spec_u64_to_le_bytes(rw.nbytes)),
            ptr + 24,
            spec_u16_to_le_bytes(rw.flags.0),
        ),
        None => m3,
    }
}

impl Event {
    /// Writes the event at `ptr`: fails with `Eoverflow` if it would not lie
    /// in linear memory and with `Einval` if `ptr` is not 8-byte aligned,
    /// writing nothing in either case.
    pub fn write(&self, ctx: &mut VmCtx, ptr: u32) -> (r: RuntimeResult<()>)
        requires
            old(ctx).wf(),
        ensures
            final(ctx).wf(),
            final(ctx).same_but_mem(old(ctx)),
            r == (if !old(ctx).fits(ptr as int, EVENT_WASI_SIZE as int) {
                Err(RuntimeError::Eoverflow)
            } else if ptr % 8 != 0 {
                Err(RuntimeError::Einval)
            } else {
                Ok(())
            }),
            r is Err ==> final(ctx).mem == old(ctx).mem,
            r is Ok ==> final(ctx).mem@ == event_written(old(ctx).mem@, ptr as int, *self),
    {
        if !ctx.fits_in_lin_mem_usize(ptr as usize, EVENT_WASI_SIZE as usize) {
            return Err(RuntimeError::Eoverflow);
        }
        if !is_aligned(Alignment::Eight, ptr) {
            return Err(RuntimeError::Einval);
        }
        ctx.write_u64(ptr as usize, self.userdata);
        ctx.write_u16((ptr + 8) as usize, as_u16(self.error));
        ctx.write_u16((ptr + 10) as usize, self.typ.to_u16());
        if let Some(fd_readwrite) = self.fd_readwrite {
            ctx.write_u64((ptr + 16) as usize, fd_readwrite.nbytes);
            ctx.write_u16((ptr + 24) as usize, fd_readwrite.flags.to_u16());
        }
        Ok(())
    }
}


/// A descriptor to poll, as the host's `struct pollfd` holds it.
#[derive(PartialEq, Eq, Structural, Clone, Copy, Debug)]
pub struct PollFd {
    pub fd: i32,
    pub events: i16,
    pub revents: i16,
}

/// What the subscriptions read so far ask for: the earliest timeout, every
/// clock subscription with its relative timeout, and the descriptors to
/// poll with the user data and kind of each.
pub type PollState = (Option<Timestamp>, Seq<(u64, Timestamp)>, Seq<PollFd>, Seq<(u64, SubscriptionFdType)>);

/// The earlier of the timeout found so far and `t`.
pub open spec fn earlier_timeout(min: Option<Timestamp>, t: Timestamp) -> Option<Timestamp> {
    match min {
        Some(m) => if t.0 < m.0 { Some(t) } else { Some(m) },
        None => Some(t),
    }
}

/// The timeout a clock subscription waits for, given the current time of
/// its clock: an absolute deadline becomes the time left until it, and a
/// deadline already passed is an error.
pub open spec fn clock_timeout(sub: SubscriptionClock, now: Timestamp) -> Option<Timestamp> {
    if bit16(sub.flags.0, 0) {
        if sub.timeout.0 >= now.0 {
            Some(Timestamp((sub.timeout.0 - now.0) as u64))
        } else {
            None
        }
    } else {
        Some(sub.timeout)
    }
}

/// The effect of one clock subscription: only the realtime and monotonic
/// clocks can time out a poll; `now_realtime` and `now_monotonic` are the
/// readings of those clocks.
pub open spec fn clock_step(
    s: PollState,
    sub: SubscriptionClock,
    userdata: u64,
    now_realtime: RuntimeResult<Timestamp>,
    now_monotonic: RuntimeResult<Timestamp>,
) -> RuntimeResult<PollState> {
    if sub.id == 0 || sub.id == 1 {
        let now = if sub.id == 0 { now_realtime } else { now_monotonic };
        match now {
            Err(e) => Err(e),
            Ok(n) => match clock_timeout(sub, n) {
                None => Err(RuntimeError::Eoverflow),
                Some(t) => Ok((earlier_timeout(s.0, t), s.1.push((userdata, t)), s.2, s.3)),
            },
        }
    } else {
        Err(RuntimeError::Einval)
    }
}

/// The effect of one descriptor subscription: the sandbox descriptor is
/// translated and polled for reading or writing.
pub open spec fn fd_step(ctx: &VmCtx, s: PollState, sub: SubscriptionFdReadWrite, userdata: u64) -> RuntimeResult<PollState> {
    match ctx.fdmap.lookup(sub.v_fd) {
        Err(e) => Err(e),
        Ok(h) => Ok((
            s.0,
            s.1,
            s.2.push(PollFd {
                fd: h.0 as i32,
                events: match sub.typ {
                    SubscriptionFdType::Read => crate::posix::POLLIN,
                    SubscriptionFdType::Write => crate::posix::POLLOUT,
                },
                revents: 0,
            }),
            s.3.push((userdata, sub.typ)),
        )),
    }
}

/// The effect of subscription `j` of the array at `in_ptr`.
pub open spec fn subscription_step(
    ctx: &VmCtx,
    in_ptr: u32,
    j: int,
    s: PollState,
    now_realtime: RuntimeResult<Timestamp>,
    now_monotonic: RuntimeResult<Timestamp>,
) -> RuntimeResult<PollState> {
    let ptr = in_ptr + SUBSCRIPTION_WASI_SIZE * j;
    if !ctx.fits(ptr, SUBSCRIPTION_WASI_SIZE as int) {
        Err(RuntimeError::Eoverflow)
    } else {
        match spec_subscription(ctx, ptr as u32) {
            Err(e) => Err(e),
            Ok(sub) => match sub.subscription_u {
                SubscriptionInner::Clock(c) => clock_step(s, c, sub.userdata, now_realtime, now_monotonic),
                SubscriptionInner::Fd(f) => fd_step(ctx, s, f, sub.userdata),
            },
        }
    }
}

/// The effect of the first `k` subscriptions of the array at `in_ptr`,
/// starting from `s0`; the first failing subscription gives the error.
pub open spec fn subscriptions_upto(
    ctx: &VmCtx,
    in_ptr: u32,
    k: nat,
    s0: PollState,
    now_realtime: RuntimeResult<Timestamp>,
    now_monotonic: RuntimeResult<Timestamp>,
) -> RuntimeResult<PollState>
    decreases k,
{
    if k == 0 {
        Ok(s0)
    } else {
        match subscriptions_upto(ctx, in_ptr, (k - 1) as nat, s0, now_realtime, now_monotonic) {
            Err(e) => Err(e),
            Ok(s) => subscription_step(ctx, in_ptr, k - 1, s, now_realtime, now_monotonic),
        }
    }
}

/// The length of a timeout, in nanoseconds.
pub open spec fn timeout_nsec(t: Timestamp) -> u64 {
    t.0
}

/// `min` is the earliest of the clock timeouts recorded in `timeouts`:
/// none when there is none, else one of them that no other precedes.
pub open spec fn earliest_timeout(min: Option<Timestamp>, timeouts: Seq<(u64, Timestamp)>) -> bool {
    match min {
        None => timeouts.len() == 0,
        Some(m) => {
            &&& exists|i: int| 0 <= i < timeouts.len() && #[trigger] timeouts[i].1 == m
            &&& forall|i: int| 0 <= i < timeouts.len() ==> timeout_nsec(m) <= timeout_nsec((#[trigger] timeouts[i]).1)
        },
    }
}

/// Recording a clock subscription keeps the earliest timeout the earliest
/// of all recorded ones.
pub proof fn lemma_clock_step_keeps_earliest(
    s: PollState,
    sub: SubscriptionClock,
    userdata: u64,
    now_realtime: RuntimeResult<Timestamp>,
    now_monotonic: RuntimeResult<Timestamp>,
)
    requires
        earliest_timeout(s.0, s.1),
    ensures
        clock_step(s, sub, userdata, now_realtime, now_monotonic) matches Ok(s2) ==> earliest_timeout(
            s2.0,
            s2.1,
        ),
{
    if let Ok(s2) = clock_step(s, sub, userdata, now_realtime, now_monotonic) {
        let n = s.1.len();
        let t = s2.1[n as int].1;
        assert(s2.1 == s.1.push((userdata, t)));
        match s.0 {
            None => {
                assert(s2.1[0].1 == t);
            },
            Some(m) => {
                let i0 = choose|i: int| 0 <= i < s.1.len() && #[trigger] s.1[i].1 == m;
                if t.0 < m.0 {
                    assert(s2.1[n as int].1 == t);
                } else {
                    assert(s2.1[i0].1 == m);
                }
                assert forall|i: int| 0 <= i < s2.1.len() implies timeout_nsec(s2.0->0) <= timeout_nsec((#[trigger] s2.1[i]).1) by {
                    if i < n {
                        assert(s2.1[i] == s.1[i]);
                    }
                }
            },
        }
    }
}

/// A run over subscriptions keeps the earliest timeout the earliest of all
/// recorded ones.
pub proof fn lemma_subscriptions_keep_earliest(
    ctx: &VmCtx,
    in_ptr: u32,
    k: nat,
    s0: PollState,
    now_realtime: RuntimeResult<Timestamp>,
    now_monotonic: RuntimeResult<Timestamp>,
)
    requires
        earliest_timeout(s0.0, s0.1),
    ensures
        subscriptions_upto(ctx, in_ptr, k, s0, now_realtime, now_monotonic) matches Ok(s) ==> earliest_timeout(
            s.0,
            s.1,
        ),
    decreases k,
{
    if k > 0 {
        lemma_subscriptions_keep_earliest(ctx, in_ptr, (k - 1) as nat, s0, now_realtime, now_monotonic);
        if let Ok(s) = subscriptions_upto(ctx, in_ptr, (k - 1) as nat, s0, now_realtime, now_monotonic) {
            let ptr = in_ptr + SUBSCRIPTION_WASI_SIZE * (k - 1);
            if ctx.fits(ptr, SUBSCRIPTION_WASI_SIZE as int) {
                if let Ok(sub) = spec_subscription(ctx, ptr as u32) {
                    match sub.subscription_u {
                        SubscriptionInner::Clock(c) => {
                            lemma_clock_step_keeps_earliest(s, c, sub.userdata, now_realtime, now_monotonic);
                        },
                        SubscriptionInner::Fd(f) => {},
                    }
                }
            }
        }
    }
}

/// A successful run over `k` subscriptions read each of them from linear
/// memory, so the next one starts within it.
proof fn lemma_subscriptions_in_memory(
    ctx: &VmCtx,
    in_ptr: u32,
    k: nat,
    s0: PollState,
    now_realtime: RuntimeResult<Timestamp>,
    now_monotonic: RuntimeResult<Timestamp>,
)
    requires
        k > 0,
        subscriptions_upto(ctx, in_ptr, k, s0, now_realtime, now_monotonic) is Ok,
    ensures
        in_ptr + SUBSCRIPTION_WASI_SIZE * k <= ctx.memlen,
{
    let prev = subscriptions_upto(ctx, in_ptr, (k - 1) as nat, s0, now_realtime, now_monotonic);
    assert(prev is Ok);
}

/// A run adds as many entries to the polled descriptors as to their
/// data: the two stay in step.
proof fn lemma_subscriptions_in_step(
    ctx: &VmCtx,
    in_ptr: u32,
    k: nat,
    s0: PollState,
    now_realtime: RuntimeResult<Timestamp>,
    now_monotonic: RuntimeResult<Timestamp>,
)
    ensures
        subscriptions_upto(ctx, in_ptr, k, s0, now_realtime, now_monotonic) matches Ok(s) ==> s.2.len()
            - s0.2.len() == s.3.len() - s0.3.len(),
    decreases k,
{
    if k > 0 {
        lemma_subscriptions_in_step(ctx, in_ptr, (k - 1) as nat, s0, now_realtime, now_monotonic);
    }
}

/// Once a subscription fails, the run over any longer prefix fails with
/// the same error.
proof fn lemma_subscriptions_error_sticks(
    ctx: &VmCtx,
    in_ptr: u32,
    k: nat,
    n: nat,
    s0: PollState,
    now_realtime: RuntimeResult<Timestamp>,
    now_monotonic: RuntimeResult<Timestamp>,
)
    requires
        k <= n,
        subscriptions_upto(ctx, in_ptr, k, s0, now_realtime, now_monotonic) is Err,
    ensures
        subscriptions_upto(ctx, in_ptr, n, s0, now_realtime, now_monotonic)
            == subscriptions_upto(ctx, in_ptr, k, s0, now_realtime, now_monotonic),
    decreases n - k,
{
    if k < n {
        lemma_subscriptions_error_sticks(ctx, in_ptr, k, (n - 1) as nat, s0, now_realtime, now_monotonic);
    }
}

/// The current state as the spec's tuple.
pub open spec fn poll_state(
    min_timeout: Option<Timestamp>,
    timeouts: Seq<(u64, Timestamp)>,
    pollfds: Seq<PollFd>,
    fd_data: Seq<(u64, SubscriptionFdType)>,
) -> PollState {
    (min_timeout, timeouts, pollfds, fd_data)
}

/// Records a clock subscription. `now` is the current reading of the
/// subscription's clock, taken by the caller.
pub fn poll_parse_clock(
    sub_clock: SubscriptionClock,
    precision: u64,
    now_realtime: RuntimeResult<Timestamp>,
    now_monotonic: RuntimeResult<Timestamp>,
    min_timeout: &mut Option<Timestamp>,
    timeouts: &mut Vec<(u64, Timestamp)>,
    userdata: u64,
) -> (r: RuntimeResult<()>)
    ensures
        match clock_step(
            poll_state(*old(min_timeout), old(timeouts)@, Seq::empty(), Seq::empty()),
            sub_clock,
            userdata,
            now_realtime,
            now_monotonic,
        ) {
            Ok(s) => r is Ok && *final(min_timeout) == s.0 && final(timeouts)@ == s.1,
            Err(e) => r == Err::<(), RuntimeError>(e) && *final(min_timeout) == *old(min_timeout)
                && final(timeouts)@ == old(timeouts)@,
        },
        earliest_timeout(*old(min_timeout), old(timeouts)@) ==> earliest_timeout(*final(min_timeout), final(timeouts)@),
{
    proof {
        if earliest_timeout(*old(min_timeout), old(timeouts)@) {
            lemma_clock_step_keeps_earliest(
                poll_state(*old(min_timeout), old(timeouts)@, Seq::empty(), Seq::empty()),
                sub_clock,
                userdata,
                now_realtime,
                now_monotonic,
            );
        }
    }
    match ClockId::try_from_u32(sub_clock.id)? {
        ClockId::Monotonic | ClockId::Realtime => {
            let now = if sub_clock.id == 0 { now_realtime } else { now_monotonic };
            let now = now?;
            let timeout: Timestamp = if sub_clock.flags.subscription_clock_abstime() {
                match sub_clock.timeout.checked_sub(now) {
                    Some(t) => t,
                    None => return Err(RuntimeError::Eoverflow),
                }
            } else {
                sub_clock.timeout
            };
            if let Some(m_timeout) = *min_timeout {
                if timeout.nsec() < m_timeout.nsec() {
                    *min_timeout = Some(timeout);
                }
            } else {
                *min_timeout = Some(timeout);
            }
            timeouts.push((userdata, timeout));
            Ok(())
        },
        _ => {
            return Err(RuntimeError::Einval);
        },
    }
}

/// Records a descriptor subscription: the sandbox descriptor is
/// translated and a `pollfd` for it is added.
pub fn poll_parse_fds(
    ctx: &VmCtx,
    pollfds: &mut Vec<PollFd>,
    fd_data: &mut Vec<(u64, SubscriptionFdType)>,
    userdata: u64,
    subscription_readwrite: SubscriptionFdReadWrite,
) -> (r: RuntimeResult<()>)
    requires
        ctx.wf(),
    ensures
        match fd_step(
            ctx,
            poll_state(None, Seq::empty(), old(pollfds)@, old(fd_data)@),
            subscription_readwrite,
            userdata,
        ) {
            Ok(s) => r is Ok && final(pollfds)@ == s.2 && final(fd_data)@ == s.3,
            Err(e) => r == Err::<(), RuntimeError>(e) && final(pollfds)@ == old(pollfds)@ && final(fd_data)@
                == old(fd_data)@,
        },
{
    let fd = ctx.fdmap.fd_to_native(subscription_readwrite.v_fd)?;
    let os_fd: usize = fd.to_raw();
    let event = subscription_readwrite.typ.to_posix();
    let pollfd = PollFd { fd: os_fd as i32, events: event, revents: 0 };
    pollfds.push(pollfd);
    fd_data.push((userdata, subscription_readwrite.typ));
    Ok(())
}

/// Reads the `nsubscriptions` subscriptions at `in_ptr`, adding the clock
/// subscriptions to `timeouts` (keeping the earliest in `min_timeout`) and
/// the descriptor subscriptions to `pollfds` and `fd_data`. The readings
/// of the realtime and monotonic clocks are taken by the caller.
pub fn parse_subscriptions(
    ctx: &VmCtx,
    in_ptr: u32,
    nsubscriptions: u32,
    precision: u64,
    now_realtime: RuntimeResult<Timestamp>,
    now_monotonic: RuntimeResult<Timestamp>,
    min_timeout: &mut Option<Timestamp>,
    timeouts: &mut Vec<(u64, Timestamp)>,
    pollfds: &mut Vec<PollFd>,
    fd_data: &mut Vec<(u64, SubscriptionFdType)>,
) -> (r: RuntimeResult<()>)
    requires
        ctx.wf(),
    ensures
        match subscriptions_upto(
            ctx,
            in_ptr,
            nsubscriptions as nat,
            poll_state(*old(min_timeout), old(timeouts)@, old(pollfds)@, old(fd_data)@),
            now_realtime,
            now_monotonic,
        ) {
            Ok(s) => r is Ok && poll_state(*final(min_timeout), final(timeouts)@, final(pollfds)@, final(fd_data)@) == s,
            Err(e) => r == Err::<(), RuntimeError>(e) && exists|k: nat|
                #![trigger subscriptions_upto(ctx, in_ptr, k, poll_state(*old(min_timeout), old(timeouts)@, old(pollfds)@, old(fd_data)@), now_realtime, now_monotonic)]
                k < nsubscriptions && subscriptions_upto(
                    ctx,
                    in_ptr,
                    k,
                    poll_state(*old(min_timeout), old(timeouts)@, old(pollfds)@, old(fd_data)@),
                    now_realtime,
                    now_monotonic,
                ) == Ok::<PollState, RuntimeError>(poll_state(*final(min_timeout), final(timeouts)@, final(pollfds)@, final(fd_data)@))
                    && subscriptions_upto(
                    ctx,
                    in_ptr,
                    (k + 1) as nat,
                    poll_state(*old(min_timeout), old(timeouts)@, old(pollfds)@, old(fd_data)@),
                    now_realtime,
                    now_monotonic,
                ) == Err::<PollState, RuntimeError>(e),
        },
        final(pollfds)@.len() - old(pollfds)@.len() == final(fd_data)@.len() - old(fd_data)@.len(),
        r is Ok && earliest_timeout(*old(min_timeout), old(timeouts)@) ==> earliest_timeout(
            *final(min_timeout),
            final(timeouts)@,
        ),
{
    let ghost s0 = poll_state(*min_timeout, timeouts@, pollfds@, fd_data@);
    proof {
        if earliest_timeout(*old(min_timeout), old(timeouts)@) {
            lemma_subscriptions_keep_earliest(ctx, in_ptr, nsubscriptions as nat, s0, now_realtime, now_monotonic);
        }
    }
    let mut i: u32 = 0;
    while i < nsubscriptions
        invariant
            ctx.wf(),
            i <= nsubscriptions,
            s0 == poll_state(*old(min_timeout), old(timeouts)@, old(pollfds)@, old(fd_data)@),
            subscriptions_upto(ctx, in_ptr, i as nat, s0, now_realtime, now_monotonic)
                == Ok::<PollState, RuntimeError>(poll_state(*min_timeout, timeouts@, pollfds@, fd_data@)),
        decreases nsubscriptions - i,
    {
        proof {
            if i > 0 {
                lemma_subscriptions_in_memory(ctx, in_ptr, i as nat, s0, now_realtime, now_monotonic);
            }
        }
        let sub_offset = i * SUBSCRIPTION_WASI_SIZE;
        assert(in_ptr + sub_offset == in_ptr + SUBSCRIPTION_WASI_SIZE * i);
        let ghost s = poll_state(*min_timeout, timeouts@, pollfds@, fd_data@);
        let res: RuntimeResult<()> = if !ctx.fits_in_lin_mem_usize(
            (in_ptr + sub_offset) as usize,
            SUBSCRIPTION_WASI_SIZE as usize,
        ) {
            Err(RuntimeError::Eoverflow)
        } else {
            match Subscription::read(ctx, in_ptr + sub_offset) {
                Err(e) => Err(e),
                Ok(subscription) => match subscription.subscription_u {
                    SubscriptionInner::Clock(subscription_clock) => poll_parse_clock(
                        subscription_clock,
                        precision,
                        now_realtime,
                        now_monotonic,
                        min_timeout,
                        timeouts,
                        subscription.userdata,
                    ),
                    SubscriptionInner::Fd(subscription_readwrite) => poll_parse_fds(
                        ctx,
                        pollfds,
                        fd_data,
                        subscription.userdata,
                        subscription_readwrite,
                    ),
                },
            }
        };
        assert(subscriptions_upto(ctx, in_ptr, (i + 1) as nat, s0, now_realtime, now_monotonic)
            == subscription_step(ctx, in_ptr, i as int, s, now_realtime, now_monotonic));
        match res {
            Err(e) => {
                proof {
                    lemma_subscriptions_error_sticks(ctx, in_ptr, (i + 1) as nat, nsubscriptions as nat,
                        s0, now_realtime, now_monotonic);
                    lemma_subscriptions_in_step(ctx, in_ptr, i as nat, s0, now_realtime, now_monotonic);
                    assert(poll_state(*min_timeout, timeouts@, pollfds@, fd_data@) == s);
                    assert(subscriptions_upto(ctx, in_ptr, i as nat, s0, now_realtime, now_monotonic)
                        == Ok::<PollState, RuntimeError>(poll_state(*min_timeout, timeouts@, pollfds@, fd_data@)));
                }
                return Err(e);
            },
            Ok(()) => {},
        }
        i += 1;
    }
    proof {
        lemma_subscriptions_in_step(ctx, in_ptr, nsubscriptions as nat, s0, now_realtime, now_monotonic);
    }
    Ok(())
}


/// Linear memory after an event is written at `ptr`, which only happens
/// when `ptr` is 8-byte aligned.
pub open spec fn event_written_if_aligned(mem: Seq<u8>, ptr: int, ev: Event) -> Seq<u8> {
    if ptr % 8 == 0 {
        event_written(mem, ptr, ev)
    } else {
        mem
    }
}

/// The event reporting that the clock subscription with `userdata` fired.
pub open spec fn clock_event(userdata: u64) -> Event {
    Event { userdata, error: RuntimeError::Success, typ: EventType::Clock, fd_readwrite: None }
}

/// The number of events written and the memory after the first `k` clock
/// subscriptions are reported at `out_ptr`: every subscription whose
/// timeout is the earliest one fired. Each entry needs room for one more
/// event (`Eoverflow` otherwise).
pub open spec fn timeouts_written_upto(
    ctx: &VmCtx,
    mem0: Seq<u8>,
    out_ptr: u32,
    timeouts: Seq<(u64, Timestamp)>,
    min_timeout: Option<Timestamp>,
    k: nat,
) -> RuntimeResult<(u32, Seq<u8>)>
    decreases k,
{
    if k == 0 {
        Ok((0u32, mem0))
    } else {
        match timeouts_written_upto(ctx, mem0, out_ptr, timeouts, min_timeout, (k - 1) as nat) {
            Err(e) => Err(e),
            Ok((num, mem)) => {
                let off = out_ptr + EVENT_WASI_SIZE * num;
                if !ctx.fits(off, EVENT_WASI_SIZE as int) {
                    Err(RuntimeError::Eoverflow)
                } else {
                    let (userdata, timeout) = timeouts[k - 1];
                    match min_timeout {
                        Some(m) if timeout == m => Ok(
                            ((num + 1) as u32, event_written_if_aligned(mem, off, clock_event(userdata))),
                        ),
                        _ => Ok((num, mem)),
                    }
                }
            },
        }
    }
}

proof fn lemma_timeouts_error_sticks(
    ctx: &VmCtx,
    mem0: Seq<u8>,
    out_ptr: u32,
    timeouts: Seq<(u64, Timestamp)>,
    min_timeout: Option<Timestamp>,
    k: nat,
    n: nat,
)
    requires
        k <= n,
        timeouts_written_upto(ctx, mem0, out_ptr, timeouts, min_timeout, k) is Err,
    ensures
        timeouts_written_upto(ctx, mem0, out_ptr, timeouts, min_timeout, n)
            == timeouts_written_upto(ctx, mem0, out_ptr, timeouts, min_timeout, k),
    decreases n - k,
{
    if k < n {
        lemma_timeouts_error_sticks(ctx, mem0, out_ptr, timeouts, min_timeout, k, (n - 1) as nat);
    }
}

/// Reports the clock subscriptions that fired when a poll timed out: one
/// event for every subscription whose timeout is the earliest.
pub fn writeback_timeouts(
    ctx: &mut VmCtx,
    out_ptr: u32,
    timeouts: &Vec<(u64, Timestamp)>,
    min_timeout: &Option<Timestamp>,
) -> (r: RuntimeResult<u32>)
    requires
        old(ctx).wf(),
    ensures
        final(ctx).wf(),
        final(ctx).same_but_mem(old(ctx)),
        match timeouts_written_upto(old(ctx), old(ctx).mem@, out_ptr, timeouts@, *min_timeout, timeouts@.len()) {
            Ok((num, mem)) => r == Ok::<u32, RuntimeError>(num) && final(ctx).mem@ == mem,
            Err(e) => r == Err::<u32, RuntimeError>(e),
        },
{
    let ghost ctx0 = *ctx;
    let mut num_events_written: u32 = 0;
    let mut event_idx: usize = 0;
    while event_idx < timeouts.len()
        invariant
            ctx.wf(),
            ctx.same_but_mem(&ctx0),
            ctx0 == *old(ctx),
            event_idx <= timeouts@.len(),
            num_events_written <= event_idx,
            num_events_written == 0 || out_ptr + EVENT_WASI_SIZE * num_events_written <= ctx.memlen,
            timeouts_written_upto(&ctx0, ctx0.mem@, out_ptr, timeouts@, *min_timeout, event_idx as nat)
                == Ok::<(u32, Seq<u8>), RuntimeError>((num_events_written, ctx.mem@)),
        decreases timeouts@.len() - event_idx,
    {
        let (userdata, timeout) = timeouts[event_idx];
        let event_offset = (num_events_written * EVENT_WASI_SIZE) as usize;
        assert(timeouts_written_upto(&ctx0, ctx0.mem@, out_ptr, timeouts@, *min_timeout, (event_idx + 1) as nat)
            == (if !ctx0.fits(out_ptr + EVENT_WASI_SIZE * num_events_written, EVENT_WASI_SIZE as int) {
                Err(RuntimeError::Eoverflow)
            } else {
                match *min_timeout {
                    Some(m) if timeout == m => Ok(((num_events_written + 1) as u32,
                        event_written_if_aligned(ctx.mem@, out_ptr + EVENT_WASI_SIZE * num_events_written, clock_event(userdata)))),
                    _ => Ok((num_events_written, ctx.mem@)),
                }
            }));
        if !ctx.fits_in_lin_mem_usize(out_ptr as usize + event_offset, EVENT_WASI_SIZE as usize) {
            proof {
                lemma_timeouts_error_sticks(&ctx0, ctx0.mem@, out_ptr, timeouts@, *min_timeout,
                    (event_idx + 1) as nat, timeouts@.len());
            }
            return Err(RuntimeError::Eoverflow);
        }
        if let Some(m_timeout) = min_timeout {
            if timeout == *m_timeout {
                let event = Event {
                    userdata,
                    error: RuntimeError::Success,
                    typ: EventType::Clock,
                    fd_readwrite: None,
                };
                let _ = event.write(ctx, out_ptr + event_offset as u32);
                num_events_written += 1;
            }
        }
        event_idx += 1;
    }
    Ok(num_events_written)
}

/// The event for descriptor entry `j`: the error and hang-up flag come
/// from `revents`, and a read event carries the byte count that the host
/// reported for the descriptor (whose failure is the entry's failure).
pub open spec fn fd_event(
    fd_data: Seq<(u64, SubscriptionFdType)>,
    pollfds: Seq<PollFd>,
    nbytes: Seq<RuntimeResult<usize>>,
    j: int,
) -> RuntimeResult<Event> {
    let (userdata, sub_type) = fd_data[j];
    let revents = pollfds[j].revents;
    let typ = match sub_type {
        SubscriptionFdType::Read => EventType::FdRead,
        SubscriptionFdType::Write => EventType::FdWrite,
    };
    let n: RuntimeResult<u64> = match typ {
        EventType::FdRead => match nbytes[j] {
            Ok(v) => Ok(v as u64),
            Err(e) => Err(e),
        },
        _ => Ok(0u64),
    };
    match n {
        Err(e) => Err(e),
        Ok(n) => Ok(Event {
            userdata,
            error: if revents & crate::posix::POLLNVAL != 0 {
                RuntimeError::Ebadf
            } else if revents & crate::posix::POLLERR != 0 {
                RuntimeError::Eio
            } else {
                RuntimeError::Success
            },
            typ,
            fd_readwrite: Some(EventFdReadWrite {
                nbytes: n,
                flags: EventRwFlags(if revents & crate::posix::POLLHUP != 0 { 1u16 } else { 0u16 }),
            }),
        }),
    }
}

/// The number of events written and the memory after the first `k`
/// descriptor entries are reported at `out_ptr`: an entry whose descriptor
/// reported no event is skipped, the others get consecutive events.
pub open spec fn fds_written_upto(
    ctx: &VmCtx,
    mem0: Seq<u8>,
    out_ptr: u32,
    pollfds: Seq<PollFd>,
    fd_data: Seq<(u64, SubscriptionFdType)>,
    nbytes: Seq<RuntimeResult<usize>>,
    k: nat,
) -> RuntimeResult<(u32, Seq<u8>)>
    decreases k,
{
    if k == 0 {
        Ok((0u32, mem0))
    } else {
        match fds_written_upto(ctx, mem0, out_ptr, pollfds, fd_data, nbytes, (k - 1) as nat) {
            Err(e) => Err(e),
            Ok((num, mem)) => {
                let off = out_ptr + EVENT_WASI_SIZE * num;
                if pollfds[k - 1].revents == 0 {
                    Ok((num, mem))
                } else if !ctx.fits(off, EVENT_WASI_SIZE as int) {
                    Err(RuntimeError::Eoverflow)
                } else {
                    match fd_event(fd_data, pollfds, nbytes, k - 1) {
                        Err(e) => Err(e),
                        Ok(ev) => Ok(((num + 1) as u32, event_written_if_aligned(mem, off, ev))),
                    }
                }
            },
        }
    }
}

proof fn lemma_fds_error_sticks(
    ctx: &VmCtx,
    mem0: Seq<u8>,
    out_ptr: u32,
    pollfds: Seq<PollFd>,
    fd_data: Seq<(u64, SubscriptionFdType)>,
    nbytes: Seq<RuntimeResult<usize>>,
    k: nat,
    n: nat,
)
    requires
        k <= n,
        fds_written_upto(ctx, mem0, out_ptr, pollfds, fd_data, nbytes, k) is Err,
    ensures
        fds_written_upto(ctx, mem0, out_ptr, pollfds, fd_data, nbytes, n)
            == fds_written_upto(ctx, mem0, out_ptr, pollfds, fd_data, nbytes, k),
    decreases n - k,
{
    if k < n {
        lemma_fds_error_sticks(ctx, mem0, out_ptr, pollfds, fd_data, nbytes, k, (n - 1) as nat);
    }
}

/// Reports the descriptor subscriptions after a poll that saw events: one
/// event, in order, for each entry whose descriptor reported one; entries
/// with no event are skipped. `nbytes[j]` is the number of bytes the host
/// reports readable on the descriptor of entry `j` (consulted for read
/// entries with an event only).
pub fn writeback_fds(
    ctx: &mut VmCtx,
    out_ptr: u32,
    pollfds: &Vec<PollFd>,
    fd_data: &Vec<(u64, SubscriptionFdType)>,
    nbytes: &Vec<RuntimeResult<usize>>,
) -> (r: RuntimeResult<u32>)
    requires
        old(ctx).wf(),
        pollfds@.len() >= fd_data@.len(),
        nbytes@.len() >= fd_data@.len(),
    ensures
        final(ctx).wf(),
        final(ctx).same_but_mem(old(ctx)),
        match fds_written_upto(old(ctx), old(ctx).mem@, out_ptr, pollfds@, fd_data@, nbytes@, fd_data@.len()) {
            Ok((num, mem)) => r == Ok::<u32, RuntimeError>(num) && final(ctx).mem@ == mem,
            Err(e) => r == Err::<u32, RuntimeError>(e),
        },
{
    let ghost ctx0 = *ctx;
    let mut num_events_written: u32 = 0;
    let mut event_idx: usize = 0;
    while event_idx < fd_data.len()
        invariant
            ctx.wf(),
            ctx.same_but_mem(&ctx0),
            ctx0 == *old(ctx),
            pollfds@.len() >= fd_data@.len(),
            nbytes@.len() >= fd_data@.len(),
            event_idx <= fd_data@.len(),
            num_events_written <= event_idx,
            num_events_written == 0 || out_ptr + EVENT_WASI_SIZE * num_events_written <= ctx.memlen,
            fds_written_upto(&ctx0, ctx0.mem@, out_ptr, pollfds@, fd_data@, nbytes@, event_idx as nat)
                == Ok::<(u32, Seq<u8>), RuntimeError>((num_events_written, ctx.mem@)),
        decreases fd_data@.len() - event_idx,
    {
        let (userdata, sub_type) = fd_data[event_idx];
        let typ = sub_type.to_event_type();
        let pollfd = pollfds[event_idx];
        if pollfd.revents == 0 {
            event_idx += 1;
            continue;
        }
        let event_offset = (num_events_written * EVENT_WASI_SIZE) as usize;
        let ghost off = out_ptr + EVENT_WASI_SIZE * num_events_written;
        let ghost next = fds_written_upto(&ctx0, ctx0.mem@, out_ptr, pollfds@, fd_data@, nbytes@, (event_idx + 1) as nat);
        if !ctx.fits_in_lin_mem_usize(out_ptr as usize + event_offset, EVENT_WASI_SIZE as usize) {
            assert(next == Err::<(u32, Seq<u8>), RuntimeError>(RuntimeError::Eoverflow));
            proof {
                lemma_fds_error_sticks(&ctx0, ctx0.mem@, out_ptr, pollfds@, fd_data@, nbytes@,
                    (event_idx + 1) as nat, fd_data@.len());
            }
            return Err(RuntimeError::Eoverflow);
        }
        let n: u64 = match typ {
            EventType::FdRead => match nbytes[event_idx] {
                Ok(v) => v as u64,
                Err(e) => {
                    assert(next == Err::<(u32, Seq<u8>), RuntimeError>(e));
                    proof {
                        lemma_fds_error_sticks(&ctx0, ctx0.mem@, out_ptr, pollfds@, fd_data@, nbytes@,
                            (event_idx + 1) as nat, fd_data@.len());
                    }
                    return Err(e);
                },
            },
            _ => 0,
        };
        let fd_readwrite = EventFdReadWrite { nbytes: n, flags: EventRwFlags::from_posix(pollfd.revents) };
        let error = RuntimeError::from_poll_revents(pollfd.revents);
        let event = Event { userdata, error, typ, fd_readwrite: Some(fd_readwrite) };
        assert(fd_event(fd_data@, pollfds@, nbytes@, event_idx as int) == Ok::<Event, RuntimeError>(event));
        let _ = event.write(ctx, out_ptr + event_offset as u32);
        num_events_written += 1;
        event_idx += 1;
    }
    Ok(num_events_written)
}

/// What `poll_oneoff` asks of the host once the subscriptions are read.
#[derive(PartialEq, Eq, Structural, Clone, Copy, Debug)]
pub enum PollAction {
    /// No descriptor to wait on: sleep until the earliest timeout.
    Sleep(Timespec),
    /// Poll the descriptors, with a timeout in milliseconds (-1: none).
    Poll(i32),
}

/// Decides how to wait: with no descriptors, sleep for the earliest
/// timeout (`Einval` if there is none); else poll, with the earliest
/// timeout in milliseconds (`Eoverflow` if that exceeds an `i32`) or
/// without a timeout.
pub fn poll_plan(num_pollfds: usize, min_timeout: Option<Timestamp>) -> (r: RuntimeResult<PollAction>)
    ensures
        r == (if num_pollfds == 0 {
            match min_timeout {
                Some(t) => Ok(PollAction::Sleep(t.spec_to_timespec())),
                None => Err(RuntimeError::Einval),
            }
        } else {
            match min_timeout {
                Some(t) => if t.0 / 1_000_000 <= i32::MAX {
                    Ok(PollAction::Poll((t.0 / 1_000_000) as i32))
                } else {
                    Err(RuntimeError::Eoverflow)
                },
                None => Ok(PollAction::Poll(-1i32)),
            }
        }),
{
    if num_pollfds == 0 {
        match min_timeout {
            Some(t) => Ok(PollAction::Sleep(t.to_timespec())),
            None => Err(RuntimeError::Einval),
        }
    } else {
        let poll_timeout: i32 = match min_timeout {
            Some(t) => {
                let ms = t.to_millis();
                if ms <= i32::MAX as u64 {
                    ms as i32
                } else {
                    return Err(RuntimeError::Eoverflow);
                }
            },
            None => -1,
        };
        Ok(PollAction::Poll(poll_timeout))
    }
}

} // verus!
