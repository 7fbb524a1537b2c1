//! `fd_readdir`: translating the host's `linux_dirent64` records into
//! WASI `dirent` records.
use vstd::prelude::*;
use vstd::bytes::{
    spec_u16_from_le_bytes, spec_u32_to_le_bytes, spec_u64_from_le_bytes, spec_u64_to_le_bytes,
    u16_from_le_bytes, u32_to_le_bytes, u64_from_le_bytes, u64_to_le_bytes,
};
use vstd::slice::slice_subrange;
use crate::error::{RuntimeError, RuntimeResult};
use crate::runtime::{VmCtx, write_bytes};
use crate::types::{Filetype, filetype_of_mode, filetype_wasi};

verus! {

/// The offset of the name in a host record.
pub const DIRENT_NAME_START: usize = 19;
/// The size of a WASI record without its name.
pub const WASI_DIRENT_SIZE: usize = 24;

/// A host directory record, as read from the host's buffer.
#[derive(PartialEq, Eq, Structural, Clone, Copy, Debug)]
pub struct Dirent {
    pub ino: u64,
    pub reclen: u16,
    pub name_start: usize,
    pub out_namlen: usize,
    pub typ: u8,
}

/// The position of the first zero byte of `buf[from..to]`, or `to` if
/// there is none.
pub open spec fn first_zero(buf: Seq<u8>, from: int, to: int) -> int
    decreases to - from,
{
    if from >= to {
        to
    } else if buf[from] == 0 {
        from
    } else {
        first_zero(buf, from + 1, to)
    }
}

/// The first zero byte of a range lies in it, or is its end.
pub proof fn lemma_first_zero_bounds(buf: Seq<u8>, from: int, to: int)
    requires
        from <= to,
    ensures
        from <= first_zero(buf, from, to) <= to,
    decreases to - from,
{
    if from < to && buf[from] != 0 {
        lemma_first_zero_bounds(buf, from + 1, to);
    }
}

/// The length of the record at `i`.
pub open spec fn reclen_at(buf: Seq<u8>, i: int) -> int {
    spec_u16_from_le_bytes(buf.subrange(i + 16, i + 18)) as int
}

/// Whether a whole record header is at `i` and its length is sane: it
/// holds the header and the name, and ends inside the buffer.
pub open spec fn record_ok(buf: Seq<u8>, i: int) -> bool {
    &&& i + 18 < buf.len()
    &&& reclen_at(buf, i) >= 19
    &&& i + reclen_at(buf, i) <= buf.len()
}

/// Whether the name of the record at `i` ends with a zero byte inside the
/// record.
pub open spec fn name_terminated(buf: Seq<u8>, i: int) -> bool {
    first_zero(buf, i + 19, i + reclen_at(buf, i)) < i + reclen_at(buf, i)
}

/// The record at `i`, parsed.
pub open spec fn dirent_at(buf: Seq<u8>, i: int) -> Dirent {
    Dirent {
        ino: spec_u64_from_le_bytes(buf.subrange(i, i + 8)),
        reclen: spec_u16_from_le_bytes(buf.subrange(i + 16, i + 18)),
        name_start: 19,
        out_namlen: (first_zero(buf, i + 19, i + reclen_at(buf, i)) - (i + 19)) as usize,
        typ: buf[i + 18],
    }
}

/// The WASI record for the host record `d` at `i`, announcing `next` as
/// the offset of the following record. The type is taken from the host's
/// type byte read as a mode.
pub open spec fn wasi_record(buf: Seq<u8>, i: int, d: Dirent, next: int) -> Seq<u8> {
    spec_u64_to_le_bytes(next as u64) + spec_u64_to_le_bytes(d.ino) + spec_u32_to_le_bytes(
        d.out_namlen as u32,
    ) + spec_u32_to_le_bytes(filetype_wasi(filetype_of_mode(d.typ as u32)) as u32) + buf.subrange(
        i + 19,
        i + 19 + d.out_namlen,
    )
}

/// The WASI records made of the host records at `in_idx` and after, once
/// `entry_idx` records were skipped and `out_idx` bytes counted out: records before
/// the `cookie`th are skipped; a record is translated while its announced
/// next offset stays within `buf_len`. The outcome is `None` where a
/// record's name is not terminated, else the output or `Eoverflow` for a
/// malformed record.
pub open spec fn translate_from(
    buf: Seq<u8>,
    buf_len: int,
    cookie: int,
    entry_idx: int,
    in_idx: int,
    out_idx: int,
    out: Seq<u8>,
) -> Option<RuntimeResult<Seq<u8>>>
    decreases buf.len() - in_idx,
{
    if !(0 <= in_idx < buf.len() && out_idx < buf_len) {
        Some(Ok(out))
    } else if !record_ok(buf, in_idx) {
        Some(Err(RuntimeError::Eoverflow))
    } else if !name_terminated(buf, in_idx) {
        None
    } else {
        let d = dirent_at(buf, in_idx);
        let next_in = in_idx + d.reclen;
        if entry_idx < cookie {
            translate_from(buf, buf_len, cookie, entry_idx + 1, next_in, out_idx, out)
        } else {
            let out_next = in_idx + 24 + d.out_namlen;
            if out_next > buf_len {
                Some(Ok(out))
            } else {
                translate_from(
                    buf,
                    buf_len,
                    cookie,
                    entry_idx,
                    next_in,
                    out_idx + 24 + d.out_namlen,
                    out + wasi_record(buf, in_idx, d, out_next),
                )
            }
        }
    }
}

/// The WASI records made of the whole host buffer.
pub open spec fn translation(buf: Seq<u8>, buf_len: int, cookie: int) -> Option<RuntimeResult<Seq<u8>>> {
    translate_from(buf, buf_len, cookie, 0, 0, 0, Seq::empty())
}

/// Where the `k`th host record starts, following the record lengths from
/// the start of the buffer.
pub open spec fn record_pos(buf: Seq<u8>, k: nat) -> int
    decreases k,
{
    if k == 0 {
        0
    } else {
        record_pos(buf, (k - 1) as nat) + reclen_at(buf, record_pos(buf, (k - 1) as nat))
    }
}

/// The first `k` host records are whole and their names terminated.
pub open spec fn records_readable(buf: Seq<u8>, k: nat) -> bool {
    forall|j: nat| j < k ==> record_ok(buf, #[trigger] record_pos(buf, j)) && name_terminated(buf, record_pos(buf, j))
}

proof fn lemma_record_pos_nonneg(buf: Seq<u8>, k: nat)
    requires
        records_readable(buf, k),
    ensures
        record_pos(buf, k) >= 0,
    decreases k,
{
    if k > 0 {
        lemma_record_pos_nonneg(buf, (k - 1) as nat);
        assert(record_ok(buf, record_pos(buf, (k - 1) as nat)));
    }
}

/// What was translated so far stays the start of the output.
proof fn lemma_translate_keeps_prefix(
    buf: Seq<u8>,
    buf_len: int,
    cookie: int,
    entry_idx: int,
    in_idx: int,
    out_idx: int,
    out: Seq<u8>,
)
    ensures
        translate_from(buf, buf_len, cookie, entry_idx, in_idx, out_idx, out) matches Some(Ok(o)) ==> o.len()
            >= out.len() && o.subrange(0, out.len() as int) == out,
    decreases buf.len() - in_idx,
{
    if 0 <= in_idx < buf.len() && out_idx < buf_len && record_ok(buf, in_idx) && name_terminated(buf, in_idx) {
        let d = dirent_at(buf, in_idx);
        let next_in = in_idx + d.reclen;
        if entry_idx < cookie {
            lemma_translate_keeps_prefix(buf, buf_len, cookie, entry_idx + 1, next_in, out_idx, out);
        } else {
            let out_next = in_idx + 24 + d.out_namlen;
            if out_next <= buf_len {
                let out2 = out + wasi_record(buf, in_idx, d, out_next);
                lemma_translate_keeps_prefix(buf, buf_len, cookie, entry_idx, next_in, out_idx + 24 + d.out_namlen, out2);
                if let Some(Ok(o)) = translate_from(buf, buf_len, cookie, entry_idx, next_in, out_idx + 24 + d.out_namlen, out2) {
                    assert(o.subrange(0, out.len() as int) =~= o.subrange(0, out2.len() as int).subrange(0, out.len() as int));
                    assert(out2.subrange(0, out.len() as int) =~= out);
                }
            } else {
                assert(out.subrange(0, out.len() as int) =~= out);
            }
        }
    } else if 0 <= in_idx < buf.len() && out_idx < buf_len && record_ok(buf, in_idx) {
    } else {
        assert(out.subrange(0, out.len() as int) =~= out);
    }
}

/// Skipping the records before the cookie from record `e` on reaches the
/// cookie's record with nothing written.
proof fn lemma_skip_to_cookie(buf: Seq<u8>, buf_len: int, cookie: nat, e: nat)
    requires
        e <= cookie,
        buf_len > 0,
        records_readable(buf, cookie),
    ensures
        translate_from(buf, buf_len, cookie as int, e as int, record_pos(buf, e), 0, Seq::empty())
            == translate_from(buf, buf_len, cookie as int, cookie as int, record_pos(buf, cookie), 0, Seq::empty()),
    decreases cookie - e,
{
    if e < cookie {
        lemma_record_pos_nonneg(buf, e);
        assert(record_ok(buf, record_pos(buf, e)) && name_terminated(buf, record_pos(buf, e)));
        assert(record_pos(buf, e + 1) == record_pos(buf, e) + dirent_at(buf, record_pos(buf, e)).reclen);
        lemma_skip_to_cookie(buf, buf_len, cookie, e + 1);
    }
}

/// A listing resumed at `cookie` skips exactly the records before it: when
/// those records and the cookie's own are readable and the cookie's record
/// fits in the sandbox buffer, the output starts with the WASI record of
/// host record number `cookie`.
pub proof fn lemma_translation_starts_at_cookie(buf: Seq<u8>, buf_len: int, cookie: nat)
    requires
        records_readable(buf, cookie + 1),
        record_pos(buf, cookie) + 24 + dirent_at(buf, record_pos(buf, cookie)).out_namlen <= buf_len,
    ensures
        ({
            let p = record_pos(buf, cookie);
            let d = dirent_at(buf, p);
            let first = wasi_record(buf, p, d, p + 24 + d.out_namlen);
            translation(buf, buf_len, cookie as int) matches Some(Ok(out)) ==> out.len() >= first.len()
                && out.subrange(0, first.len() as int) == first
        }),
{
    let p = record_pos(buf, cookie);
    lemma_record_pos_nonneg(buf, cookie);
    assert(record_ok(buf, p) && name_terminated(buf, p));
    assert(records_readable(buf, cookie));
    lemma_skip_to_cookie(buf, buf_len, cookie, 0);
    let d = dirent_at(buf, p);
    let out_next = p + 24 + d.out_namlen;
    let first = wasi_record(buf, p, d, out_next);
    let empty = Seq::<u8>::empty();
    assert(empty + first =~= first);
    lemma_translate_keeps_prefix(buf, buf_len, cookie as int, cookie as int, p + d.reclen, 24 + d.out_namlen, first);
}

/// The length of the name of the record of length `len` at `start`: the
/// position of its first zero byte after `offset`.
pub fn first_null(buf: &Vec<u8>, start: usize, offset: usize, len: usize) -> (r: usize)
    requires
        offset <= len,
        start + len <= buf@.len(),
        first_zero(buf@, start + offset, start + len) < start + len,
    ensures
        r == first_zero(buf@, start + offset, start + len) - (start + offset),
{
    let n = buf.len();
    let end = start + len;
    let mut i: usize = start + offset;
    while i < end && buf[i] != 0
        invariant
            start + offset <= i <= end,
            end == start + len,
            end <= buf@.len(),
            first_zero(buf@, i as int, start + len) == first_zero(buf@, start + offset, start + len),
        decreases end - i,
    {
        i += 1;
    }
    i - (start + offset)
}

/// Appends the `len` bytes of `buf` at `start` to `out_buf`.
pub fn push_dirent_name(out_buf: &mut Vec<u8>, buf: &Vec<u8>, start: usize, len: usize)
    requires
        start + len <= buf@.len(),
    ensures
        final(out_buf)@ == old(out_buf)@ + buf@.subrange(start as int, start + len),
{
    let n = buf.len();
    out_buf.extend_from_slice(slice_subrange(buf.as_slice(), start, start + len));
}

impl Dirent {
    /// Parses the host record at `in_idx`; fails with `Eoverflow` if the
    /// header is cut off or the record length is not sane.
    pub fn parse(host_buf: &Vec<u8>, in_idx: usize) -> (r: RuntimeResult<Dirent>)
        requires
            host_buf@.len() + 32 <= usize::MAX,
            in_idx < host_buf@.len(),
            record_ok(host_buf@, in_idx as int) ==> name_terminated(host_buf@, in_idx as int),
        ensures
            r == (if record_ok(host_buf@, in_idx as int) {
                Ok(dirent_at(host_buf@, in_idx as int))
            } else {
                Err(RuntimeError::Eoverflow)
            }),
    {
        if in_idx + 18 >= host_buf.len() {
            return Err(RuntimeError::Eoverflow);
        }
        let d_ino = u64_from_le_bytes(slice_subrange(host_buf.as_slice(), in_idx, in_idx + 8));
        let d_type = host_buf[in_idx + 18];
        let d_reclen = u16_from_le_bytes(slice_subrange(host_buf.as_slice(), in_idx + 16, in_idx + 18));
        if d_reclen < 19 || d_reclen as usize > host_buf.len() - in_idx {
            return Err(RuntimeError::Eoverflow);
        }
        let out_namlen = first_null(host_buf, in_idx, 19, d_reclen as usize);
        Ok(Dirent { ino: d_ino, reclen: d_reclen, name_start: 19, out_namlen, typ: d_type })
    }
}

/// Whether the record at `in_idx`, if its header is whole and its length
/// sane, has a name that ends with a zero byte inside it.
fn name_checked(host_buf: &Vec<u8>, in_idx: usize) -> (r: bool)
    requires
        host_buf@.len() + 32 <= usize::MAX,
        in_idx < host_buf@.len(),
    ensures
        r == (record_ok(host_buf@, in_idx as int) ==> name_terminated(host_buf@, in_idx as int)),
{
    if in_idx + 18 >= host_buf.len() {
        return true;
    }
    let d_reclen = u16_from_le_bytes(slice_subrange(host_buf.as_slice(), in_idx + 16, in_idx + 18));
    if d_reclen < 19 || d_reclen as usize > host_buf.len() - in_idx {
        return true;
    }
    let end = in_idx + d_reclen as usize;
    let mut i: usize = in_idx + 19;
    while i < end && host_buf[i] != 0
        invariant
            in_idx + 19 <= i <= end,
            end == in_idx + reclen_at(host_buf@, in_idx as int),
            end <= host_buf@.len(),
            first_zero(host_buf@, i as int, end as int) == first_zero(
                host_buf@,
                in_idx + 19,
                end as int,
            ),
        decreases end - i,
    {
        i += 1;
    }
    i < end
}

/// Translates the host records in `host_buf` into WASI records for a
/// sandbox buffer of `buf_len` bytes, skipping the first `cookie` records.
/// A record whose announced next offset would pass `buf_len` ends the
/// translation. `None` where a record's name does not end with a zero
/// byte inside the record.
pub fn translate_dirents(host_buf: &Vec<u8>, buf_len: usize, cookie: u64) -> (r: Option<RuntimeResult<Vec<u8>>>)
    requires
        host_buf@.len() + buf_len + 32 <= usize::MAX,
    ensures
        translation(host_buf@, buf_len as int, cookie as int) == match r {
            None => None,
            Some(Ok(v)) => Some(Ok::<Seq<u8>, RuntimeError>(v@)),
            Some(Err(e)) => Some(Err::<Seq<u8>, RuntimeError>(e)),
        },
{
    let ghost goal = translation(host_buf@, buf_len as int, cookie as int);
    let mut entry_idx: u64 = 0;
    let mut in_idx: usize = 0;
    let mut out_idx: usize = 0;
    let mut out_buf: Vec<u8> = Vec::new();
    while in_idx < host_buf.len() && out_idx < buf_len
        invariant
            host_buf@.len() + buf_len + 32 <= usize::MAX,
            entry_idx <= cookie,
            goal == translation(host_buf@, buf_len as int, cookie as int),
            translate_from(
                host_buf@,
                buf_len as int,
                cookie as int,
                entry_idx as int,
                in_idx as int,
                out_idx as int,
                out_buf@,
            ) == goal,
        ensures
            goal == Some(Ok::<Seq<u8>, RuntimeError>(out_buf@)),
        decreases host_buf@.len() - in_idx,
    {
        if !name_checked(host_buf, in_idx) {
            return None;
        }
        let dirent = match Dirent::parse(host_buf, in_idx) {
            Ok(d) => d,
            Err(e) => {
                return Some(Err(e));
            },
        };
        proof {
            lemma_first_zero_bounds(host_buf@, in_idx + 19, in_idx + reclen_at(host_buf@, in_idx as int));
        }
        if entry_idx < cookie {
            in_idx += dirent.reclen as usize;
            entry_idx += 1;
            continue;
        }
        let out_next = in_idx + 24 + dirent.out_namlen;
        if out_next > buf_len {
            break;
        }
        let ghost before = out_buf@;
        let out_next_bytes = u64_to_le_bytes(out_next as u64);
        out_buf.extend_from_slice(out_next_bytes.as_slice());
        let d_ino_bytes = u64_to_le_bytes(dirent.ino);
        out_buf.extend_from_slice(d_ino_bytes.as_slice());
        let out_namlen_bytes = u32_to_le_bytes(dirent.out_namlen as u32);
        out_buf.extend_from_slice(out_namlen_bytes.as_slice());
        let d_type = Filetype::from_mode(dirent.typ as u32);
        let out_type_bytes = u32_to_le_bytes(d_type.to_wasi() as u32);
        out_buf.extend_from_slice(out_type_bytes.as_slice());
        push_dirent_name(&mut out_buf, host_buf, in_idx + dirent.name_start, dirent.out_namlen);
        assert(out_buf@ =~= before + wasi_record(host_buf@, in_idx as int, dirent, out_next as int));
        in_idx += dirent.reclen as usize;
        out_idx += 24 + dirent.out_namlen;
    }
    Some(Ok(out_buf))
}

/// `fd_readdir`, last step: translates the host records read into a
/// buffer of `buf_len` bytes, copies the result to `buf` (`Efault` if it
/// does not lie in linear memory) and gives its length. `None`, with
/// nothing written, where a host record's name is not terminated.
pub fn fd_readdir_reply(ctx: &mut VmCtx, buf: u32, host_buf: &Vec<u8>, buf_len: usize, cookie: u64) -> (r: Option<RuntimeResult<u32>>)
    requires
        old(ctx).wf(),
        host_buf@.len() + buf_len + 32 <= usize::MAX,
    ensures
        final(ctx).wf(),
        final(ctx).same_but_mem(old(ctx)),
        match translation(host_buf@, buf_len as int, cookie as int) {
            Some(Ok(out)) => {
                let n = out.len() as u32;
                if !old(ctx).fits(buf as int, n as int) {
                    r == Some(Err::<u32, RuntimeError>(RuntimeError::Efault)) && final(ctx).mem == old(ctx).mem
                } else {
                    &&& r == Some(Ok::<u32, RuntimeError>(n))
                    &&& final(ctx).mem@ == write_bytes(old(ctx).mem@, buf as int, out.subrange(0, n as int))
                }
            },
            Some(Err(e)) => r == Some(Err::<u32, RuntimeError>(e)) && final(ctx).mem == old(ctx).mem,
            None => r is None && final(ctx).mem == old(ctx).mem,
        },
{
    let out_buf = match translate_dirents(host_buf, buf_len, cookie) {
        None => {
            return None;
        },
        Some(Err(e)) => {
            return Some(Err(e));
        },
        Some(Ok(v)) => v,
    };
    let n = out_buf.len() as u32;
    match ctx.copy_buf_to_sandbox(buf, &out_buf, n) {
        Some(()) => Some(Ok(n)),
        None => Some(Err(RuntimeError::Efault)),
    }
}

} // verus!
