use wave::frontend::adjust_oflags;
use wave::qc::{QcAstRewriter, SpecItemType};
use wave::sfi::{
    empty_predicate, inBounds, path_from_sandbox, path_to_sandbox, ptr_from_sandbox, ptr_to_sandbox,
    sized_buf_from_sandbox, sized_buf_to_sandbox, MEMBASE, MEMLEN,
};

#[test]
fn oflags_take_the_access_mode_from_rights() {
    assert_eq!(adjust_oflags(1, 0), 1);
    assert_eq!(adjust_oflags(1, 1 << 6), 1 | (1 << 4));
    assert_eq!(adjust_oflags(1, (1 << 6) | (1 << 1)), 1 | (1 << 5));
    assert_eq!(adjust_oflags(0, 1 << 1), 0);
}

#[test]
fn spec_item_labels() {
    let _ = QcAstRewriter::new();
    assert_eq!(SpecItemType::Precondition.to_string(), "pre");
    assert_eq!(SpecItemType::Postcondition.to_string(), "post");
    assert_eq!(SpecItemType::Predicate.to_string(), "pred");
}

#[test]
fn sandbox_pointer_translation() {
    assert!(empty_predicate());
    assert_eq!(ptr_from_sandbox(16), MEMBASE + 16);
    assert_eq!(ptr_to_sandbox(MEMBASE + 16), 16);
    assert_eq!(ptr_to_sandbox(ptr_from_sandbox(12345)), 12345);
    assert!(inBounds(MEMBASE));
    assert!(inBounds(MEMBASE + MEMLEN));
    assert!(!inBounds(MEMBASE - 1));
    assert!(!inBounds(MEMBASE + MEMLEN + 1));
}

#[test]
fn sized_buffers_must_stay_in_the_region() {
    assert_eq!(sized_buf_from_sandbox(100, 50), MEMBASE + 100);
    assert_eq!(sized_buf_from_sandbox(MEMLEN as u32 - 10, 20), 0);
    assert_eq!(sized_buf_from_sandbox(0, u64::MAX), 0);
    assert_eq!(sized_buf_to_sandbox(MEMBASE + 7, 3), 7);
    assert_eq!(path_from_sandbox(0), MEMBASE);
    assert_eq!(path_from_sandbox(MEMLEN as u32 - 100), 0);
    assert_eq!(path_to_sandbox(MEMBASE + 8), 8);
}

#[test]
fn instrumentation_is_inert() {
    assert_eq!(wave::stats::start_timer(), 0);
    assert_eq!(wave::stats::stop_timer(), 0);
    wave::stats::push_hostcall_result("x", 0, 0);
    wave::stats::push_syscall_result("x", 0, 0);
    wave::stats::output_hostcall_perf_results();
    wave::stats::output_syscall_perf_results();
    assert_eq!(wave::verifier_interface::start_timer(), 0);
    assert_eq!(wave::verifier_interface::stop_timer(), 0);
    wave::verifier_interface::push_hostcall_result("x", 0, 0);
    wave::verifier_interface::push_syscall_result("x", 0, 0);
    wave::verifier_interface::output_hostcall_perf_results();
    wave::verifier_interface::output_syscall_perf_results();
}
