use wave::seal::{
    assert_safe, create_seal, delete_seal, fits_in_mem_region, fresh_ctx, in_fd_map, in_mem_region,
    in_rev_fd_map, reverse_translate, swizzle, translate_fd, wasi_close, wasi_open, wasi_read,
    wasi_write, MAX_HOST_FDS, MAX_SANDBOX_FDS,
};

const BASE: usize = 0x10000;
const LEN: usize = 0x100000;

#[test]
fn fresh_context_has_no_seals() {
    let ctx = fresh_ctx(BASE, LEN);
    assert_eq!(ctx.counter, 0);
    for v in 0..MAX_SANDBOX_FDS {
        assert!(!in_fd_map(&ctx, v));
        assert_eq!(translate_fd(&ctx, v), -1);
    }
    for h in 0..MAX_HOST_FDS {
        assert!(!in_rev_fd_map(&ctx, h));
        assert_eq!(reverse_translate(&ctx, h), -1);
    }
}

#[test]
fn memory_region_includes_its_end() {
    let ctx = fresh_ctx(BASE, LEN);
    assert!(!in_mem_region(&ctx, BASE - 1));
    assert!(in_mem_region(&ctx, BASE));
    assert!(in_mem_region(&ctx, BASE + LEN));
    assert!(!in_mem_region(&ctx, BASE + LEN + 1));
    assert!(fits_in_mem_region(&ctx, BASE, LEN - 1));
    assert!(!fits_in_mem_region(&ctx, BASE, LEN));
    assert_eq!(swizzle(&ctx, 0x20), BASE + 0x20);
}

#[test]
fn seal_translates_both_ways() {
    let mut ctx = fresh_ctx(BASE, LEN);
    assert_eq!(create_seal(&mut ctx, 300, 5), 5);
    assert!(in_fd_map(&ctx, 5));
    assert!(in_rev_fd_map(&ctx, 300));
    assert_eq!(translate_fd(&ctx, 5), 300);
    assert_eq!(reverse_translate(&ctx, 300), 5);
    assert!(assert_safe(&ctx, 5, 300));
}

#[test]
fn seal_out_of_range_is_refused() {
    let mut ctx = fresh_ctx(BASE, LEN);
    assert_eq!(create_seal(&mut ctx, -1, 2), -1);
    assert_eq!(create_seal(&mut ctx, 1024, 2), -1);
    assert_eq!(create_seal(&mut ctx, 2, 1024), -1);
    assert_eq!(create_seal(&mut ctx, 2, MAX_SANDBOX_FDS), -1);
    assert_eq!(create_seal(&mut ctx, 2, -3), -1);
    assert!(!in_fd_map(&ctx, 2));
}

#[test]
fn deleted_seal_is_gone() {
    let mut ctx = fresh_ctx(BASE, LEN);
    create_seal(&mut ctx, 4, 1);
    delete_seal(&mut ctx, 1);
    assert!(!in_fd_map(&ctx, 1));
    assert!(!in_rev_fd_map(&ctx, 4));
    // deleting an empty entry changes nothing
    delete_seal(&mut ctx, 1);
    assert_eq!(translate_fd(&ctx, 1), -1);
}

#[test]
fn unsafe_reverse_entry_is_reported() {
    let mut ctx = fresh_ctx(BASE, LEN);
    // a reverse entry naming a sandbox descriptor beyond MAX_SANDBOX_FDS
    ctx.fd_host_to_sbox[2] = 100;
    assert!(!assert_safe(&ctx, 0, 2));
    assert!(assert_safe(&ctx, 0, 1));
}

#[test]
fn open_seals_the_next_counter() {
    let mut ctx = fresh_ctx(BASE, LEN);
    assert_eq!(wasi_open(&mut ctx, 6), 1);
    assert_eq!(ctx.counter, 1);
    assert_eq!(translate_fd(&ctx, 1), 6);
    assert_eq!(wasi_open(&mut ctx, -1), -1);
    assert_eq!(ctx.counter, 2);
}

#[test]
fn open_fails_once_the_table_is_full() {
    let mut ctx = fresh_ctx(BASE, LEN);
    for i in 1..MAX_SANDBOX_FDS {
        assert_eq!(wasi_open(&mut ctx, 10 + i), i as isize);
    }
    assert_eq!(ctx.counter, MAX_SANDBOX_FDS - 1);
    assert_eq!(wasi_open(&mut ctx, 50), -1);
    assert_eq!(ctx.counter, MAX_SANDBOX_FDS);
    assert!(!in_rev_fd_map(&ctx, 50));
    for h in 0..MAX_HOST_FDS {
        assert!(assert_safe(&ctx, 0, h));
    }
}

#[test]
fn close_unseals_and_hands_back_host_fd() {
    let mut ctx = fresh_ctx(BASE, LEN);
    wasi_open(&mut ctx, 6);
    assert_eq!(wasi_close(&mut ctx, 1), Some(6));
    assert!(!in_fd_map(&ctx, 1));
    assert_eq!(wasi_close(&mut ctx, 1), None);
    assert_eq!(wasi_close(&mut ctx, -1), None);
    assert_eq!(wasi_close(&mut ctx, MAX_SANDBOX_FDS), None);
}

#[test]
fn read_and_write_check_memory_and_descriptor() {
    let mut ctx = fresh_ctx(BASE, LEN);
    wasi_open(&mut ctx, 6);
    assert_eq!(wasi_read(&ctx, 1, 0x10, 100), Some((6, BASE + 0x10, 100)));
    assert_eq!(wasi_write(&ctx, 1, 0x10, 100), Some((6, BASE + 0x10, 100)));
    // unsealed descriptor
    assert_eq!(wasi_read(&ctx, 2, 0x10, 100), None);
    // count as long as memory
    assert_eq!(wasi_read(&ctx, 1, 0, LEN as usize), None);
    // buffer running past the end
    assert_eq!(wasi_write(&ctx, 1, (LEN - 10) as u32, 10), None);
    // buffer starting past the end
    assert_eq!(wasi_write(&ctx, 1, (LEN + 1) as u32, 0), None);
}

#[test]
fn seal_then_unseal_restores_the_tables() {
    let fresh = fresh_ctx(BASE, LEN);
    let mut ctx = fresh_ctx(BASE, LEN);
    create_seal(&mut ctx, 600, 3);
    delete_seal(&mut ctx, 3);
    assert_eq!(ctx.fd_sbox_to_host, fresh.fd_sbox_to_host);
    assert_eq!(ctx.fd_host_to_sbox, fresh.fd_host_to_sbox);
    assert_eq!(ctx.counter, fresh.counter);
}
