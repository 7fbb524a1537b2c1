use wave::error::RuntimeError;
use wave::readdir::{first_null, translate_dirents, Dirent};

fn record(ino: u64, name: &str, typ: u8) -> Vec<u8> {
    let mut r = Vec::new();
    r.extend_from_slice(&ino.to_le_bytes());
    r.extend_from_slice(&0u64.to_le_bytes());
    let len = 19 + name.len() + 1;
    let reclen = (len + 7) / 8 * 8;
    r.extend_from_slice(&(reclen as u16).to_le_bytes());
    r.push(typ);
    r.extend_from_slice(name.as_bytes());
    while r.len() < reclen {
        r.push(0);
    }
    r
}

fn two_records() -> Vec<u8> {
    let mut buf = record(11, "a", 8);
    buf.extend(record(12, "bc", 4));
    buf
}

fn wasi_entry(next: u64, ino: u64, name: &str) -> Vec<u8> {
    let mut e = Vec::new();
    e.extend_from_slice(&next.to_le_bytes());
    e.extend_from_slice(&ino.to_le_bytes());
    e.extend_from_slice(&(name.len() as u32).to_le_bytes());
    e.extend_from_slice(&0u32.to_le_bytes());
    e.extend_from_slice(name.as_bytes());
    e
}

#[test]
fn parse_reads_a_record() {
    let buf = two_records();
    let d = Dirent::parse(&buf, 0).unwrap();
    assert_eq!(d.ino, 11);
    assert_eq!(d.reclen, 24);
    assert_eq!(d.out_namlen, 1);
    assert_eq!(d.typ, 8);
    assert_eq!(d.name_start, 19);
    assert_eq!(first_null(&buf, 24, 19, 24), 2);
}

#[test]
fn parse_rejects_short_records() {
    let mut buf = two_records();
    buf[16] = 10;
    assert_eq!(Dirent::parse(&buf, 0), Err(RuntimeError::Eoverflow));
    let short = vec![0u8; 10];
    assert_eq!(Dirent::parse(&short, 0), Err(RuntimeError::Eoverflow));
}

#[test]
fn translation_of_all_records() {
    let out = translate_dirents(&two_records(), 1000, 0).unwrap().unwrap();
    let mut expected = wasi_entry(25, 11, "a");
    expected.extend(wasi_entry(50, 12, "bc"));
    assert_eq!(out, expected);
}

#[test]
fn translation_skips_to_the_cookie() {
    let out = translate_dirents(&two_records(), 1000, 1).unwrap().unwrap();
    assert_eq!(out, wasi_entry(50, 12, "bc"));
}

#[test]
fn translation_stops_at_the_buffer_size() {
    let out = translate_dirents(&two_records(), 30, 0).unwrap().unwrap();
    assert_eq!(out, wasi_entry(25, 11, "a"));
    assert_eq!(translate_dirents(&two_records(), 0, 0).unwrap().unwrap(), Vec::<u8>::new());
}

#[test]
fn translation_reports_malformed_records() {
    let mut buf = two_records();
    buf[24 + 16] = 200;
    assert_eq!(translate_dirents(&buf, 1000, 0), Some(Err(RuntimeError::Eoverflow)));
}

#[test]
fn readdir_reply_copies_into_memory() {
    let mut ctx = wave::runtime::create_ctx(
        vec![0u8; 4096],
        String::from("h"),
        3,
        (0, 1, 2),
        Vec::new(),
        0,
        Vec::new(),
        0,
        wave::types::empty_netlist(),
    );
    let n = wave::readdir::fd_readdir_reply(&mut ctx, 100, &two_records(), 1000, 0).unwrap().unwrap();
    assert_eq!(n, 51);
    assert_eq!(ctx.mem[100], 25);
    assert_eq!(&ctx.mem[100 + 24..100 + 25], b"a");
    assert_eq!(
        wave::readdir::fd_readdir_reply(&mut ctx, 4090, &two_records(), 1000, 0),
        Some(Err(RuntimeError::Efault))
    );
}

#[test]
fn translation_refuses_an_unterminated_name() {
    let mut buf = two_records();
    for b in buf[19..24].iter_mut() {
        *b = b'x';
    }
    assert_eq!(translate_dirents(&buf, 1000, 0), None);
}
