use wave::error::RuntimeError;
use wave::flags::SubscriptionFdType;
use wave::poll::{
    parse_subscriptions, poll_plan, writeback_fds, writeback_timeouts, Event, PollAction, PollFd, Subscription,
    SubscriptionInner, SUBSCRIPTION_CLOCK_TAG, SUBSCRIPTION_FD_READ_TAG, SUBSCRIPTION_FD_WRITE_TAG,
};
use wave::runtime::{create_ctx, VmCtx};
use wave::types::{empty_netlist, Timestamp};

fn small_ctx() -> VmCtx {
    create_ctx(vec![0u8; 8192], String::from("h"), 3, (0, 1, 2), Vec::new(), 0, Vec::new(), 0, empty_netlist())
}

fn put_clock(ctx: &mut VmCtx, at: usize, userdata: u64, id: u32, timeout: u64, flags: u64) {
    ctx.write_u64(at, userdata);
    ctx.write_u64(at + 8, SUBSCRIPTION_CLOCK_TAG);
    ctx.write_u32(at + 16, id);
    ctx.write_u64(at + 24, timeout);
    ctx.write_u64(at + 32, 0);
    ctx.write_u64(at + 40, flags);
}

fn put_fd(ctx: &mut VmCtx, at: usize, userdata: u64, tag: u64, fd: u32) {
    ctx.write_u64(at, userdata);
    ctx.write_u64(at + 8, tag);
    ctx.write_u32(at + 16, fd);
}

#[test]
fn subscriptions_are_read() {
    let mut ctx = small_ctx();
    put_clock(&mut ctx, 64, 5, 1, 1000, 0);
    let s = Subscription::read(&ctx, 64).unwrap();
    assert_eq!(s.userdata, 5);
    match s.subscription_u {
        SubscriptionInner::Clock(c) => {
            assert_eq!(c.id, 1);
            assert_eq!(c.timeout, Timestamp(1000));
        },
        _ => panic!("expected a clock"),
    }
    assert_eq!(Subscription::read(&ctx, 65), Err(RuntimeError::Einval));
    assert_eq!(Subscription::read(&ctx, 8160), Err(RuntimeError::Eoverflow));
    ctx.write_u64(72, 9);
    assert_eq!(Subscription::read(&ctx, 64), Err(RuntimeError::Einval));
}

#[test]
fn parsing_collects_clocks_and_descriptors() {
    let mut ctx = small_ctx();
    put_clock(&mut ctx, 0, 1, 1, 3_000_000, 0);
    put_fd(&mut ctx, 48, 2, SUBSCRIPTION_FD_READ_TAG, 0);
    put_clock(&mut ctx, 96, 3, 0, 10_000_000, 1);
    let mut min_timeout = None;
    let mut timeouts = Vec::new();
    let mut pollfds = Vec::new();
    let mut fd_data = Vec::new();
    let r = parse_subscriptions(
        &ctx,
        0,
        3,
        0,
        Ok(Timestamp(9_000_000)),
        Ok(Timestamp(0)),
        &mut min_timeout,
        &mut timeouts,
        &mut pollfds,
        &mut fd_data,
    );
    assert_eq!(r, Ok(()));
    assert_eq!(min_timeout, Some(Timestamp(1_000_000)));
    assert_eq!(timeouts, vec![(1, Timestamp(3_000_000)), (3, Timestamp(1_000_000))]);
    assert_eq!(pollfds.len(), 1);
    assert_eq!(pollfds[0].fd, 0);
    assert_eq!(pollfds[0].events, libc::POLLIN);
    assert_eq!(fd_data, vec![(2, SubscriptionFdType::Read)]);
}

#[test]
fn passed_absolute_deadline_overflows() {
    let mut ctx = small_ctx();
    put_clock(&mut ctx, 0, 1, 0, 5, 1);
    let mut min_timeout = None;
    let mut timeouts = Vec::new();
    let mut pollfds = Vec::new();
    let mut fd_data = Vec::new();
    let r = parse_subscriptions(&ctx, 0, 1, 0, Ok(Timestamp(10)), Ok(Timestamp(0)), &mut min_timeout, &mut timeouts, &mut pollfds, &mut fd_data);
    assert_eq!(r, Err(RuntimeError::Eoverflow));
}

#[test]
fn unknown_descriptor_is_bad() {
    let mut ctx = small_ctx();
    put_fd(&mut ctx, 0, 2, SUBSCRIPTION_FD_WRITE_TAG, 6);
    let mut min_timeout = None;
    let mut timeouts = Vec::new();
    let mut pollfds = Vec::new();
    let mut fd_data = Vec::new();
    let r = parse_subscriptions(&ctx, 0, 1, 0, Ok(Timestamp(0)), Ok(Timestamp(0)), &mut min_timeout, &mut timeouts, &mut pollfds, &mut fd_data);
    assert_eq!(r, Err(RuntimeError::Ebadf));
}

#[test]
fn planning_the_wait() {
    assert_eq!(poll_plan(0, None), Err(RuntimeError::Einval));
    match poll_plan(0, Some(Timestamp(1_500_000_000))) {
        Ok(PollAction::Sleep(ts)) => assert_eq!((ts.tv_sec, ts.tv_nsec), (1, 500_000_000)),
        _ => panic!("expected a sleep"),
    }
    assert_eq!(poll_plan(2, None), Ok(PollAction::Poll(-1)));
    assert_eq!(poll_plan(2, Some(Timestamp(2_000_000))), Ok(PollAction::Poll(2)));
    assert_eq!(poll_plan(2, Some(Timestamp(u64::MAX))), Err(RuntimeError::Eoverflow));
}

#[test]
fn timeouts_report_the_earliest_clocks() {
    let mut ctx = small_ctx();
    let timeouts = vec![(7, Timestamp(5)), (8, Timestamp(9)), (9, Timestamp(5))];
    let n = writeback_timeouts(&mut ctx, 256, &timeouts, &Some(Timestamp(5))).unwrap();
    assert_eq!(n, 2);
    assert_eq!(ctx.read_u64(256), 7);
    assert_eq!(ctx.read_u64(256 + 32), 9);
    assert_eq!(ctx.read_u16(256 + 10), 0);
}

#[test]
fn descriptor_events_are_written() {
    let mut ctx = small_ctx();
    let pollfds = vec![PollFd { fd: 0, events: libc::POLLIN, revents: libc::POLLIN }];
    let fd_data = vec![(4u64, SubscriptionFdType::Read)];
    let nbytes = vec![Ok(12usize)];
    let n = writeback_fds(&mut ctx, 512, &pollfds, &fd_data, &nbytes).unwrap();
    assert_eq!(n, 1);
    assert_eq!(ctx.read_u64(512), 4);
    assert_eq!(ctx.read_u16(512 + 8), 0);
    assert_eq!(ctx.read_u16(512 + 10), 1);
    assert_eq!(ctx.read_u64(512 + 16), 12);
}

#[test]
fn event_write_checks_alignment() {
    let mut ctx = small_ctx();
    let ev = Event { userdata: 1, error: RuntimeError::Success, typ: wave::flags::EventType::Clock, fd_readwrite: None };
    assert_eq!(ev.write(&mut ctx, 4), Err(RuntimeError::Einval));
    assert_eq!(ev.write(&mut ctx, 8180), Err(RuntimeError::Eoverflow));
    assert_eq!(ev.write(&mut ctx, 8), Ok(()));
    assert_eq!(ctx.read_u64(8), 1);
}

#[test]
fn fd_events_skip_descriptors_without_events() {
    let mut ctx = small_ctx();
    let pollfds = vec![
        PollFd { fd: 5, events: libc::POLLIN, revents: 0 },
        PollFd { fd: 6, events: libc::POLLOUT, revents: libc::POLLOUT | libc::POLLHUP },
        PollFd { fd: 7, events: libc::POLLIN, revents: 0 },
    ];
    let fd_data = vec![
        (1u64, SubscriptionFdType::Read),
        (2u64, SubscriptionFdType::Write),
        (3u64, SubscriptionFdType::Read),
    ];
    let nbytes = vec![Err(RuntimeError::Ebadf), Ok(0usize), Err(RuntimeError::Ebadf)];
    let n = writeback_fds(&mut ctx, 512, &pollfds, &fd_data, &nbytes).unwrap();
    assert_eq!(n, 1);
    assert_eq!(ctx.read_u64(512), 2);
    assert_eq!(ctx.read_u16(512 + 8), 0);
    assert_eq!(ctx.read_u16(512 + 10), 2);
    assert_eq!(ctx.read_u16(512 + 24), 1);
    assert_eq!(ctx.read_u64(512 + 32), 0);
}

#[test]
fn failed_parse_keeps_what_was_read_before() {
    let mut ctx = small_ctx();
    put_fd(&mut ctx, 0, 2, SUBSCRIPTION_FD_READ_TAG, 0);
    put_clock(&mut ctx, 48, 3, 7, 10, 0);
    put_fd(&mut ctx, 96, 4, SUBSCRIPTION_FD_WRITE_TAG, 1);
    let mut min_timeout = None;
    let mut timeouts = Vec::new();
    let mut pollfds = Vec::new();
    let mut fd_data = Vec::new();
    let r = parse_subscriptions(
        &ctx,
        0,
        3,
        0,
        Ok(Timestamp(0)),
        Ok(Timestamp(0)),
        &mut min_timeout,
        &mut timeouts,
        &mut pollfds,
        &mut fd_data,
    );
    assert_eq!(r, Err(RuntimeError::Einval));
    assert_eq!(min_timeout, None);
    assert!(timeouts.is_empty());
    assert_eq!(pollfds.len(), 1);
    assert_eq!(fd_data, vec![(2, SubscriptionFdType::Read)]);
}
