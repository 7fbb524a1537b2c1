//! `args_get` and `environ_get`: copying the argument or environment
//! buffer into linear memory together with the vector of pointers to its
//! words.
use vstd::prelude::*;
use vstd::bytes::{spec_u32_from_le_bytes, spec_u32_to_le_bytes, lemma_auto_spec_u32_to_from_le_bytes};
use crate::error::{RuntimeError, RuntimeResult};
use crate::runtime::{VmCtx, write_bytes};

verus! {


/// The number of zero bytes at `buf[i..]` before the first other byte.
pub open spec fn zeros_from(buf: Seq<u8>, i: int) -> nat
    decreases buf.len() - i,
{
    if 0 <= i < buf.len() && buf[i] == 0 {
        1 + zeros_from(buf, i + 1)
    } else {
        0
    }
}

/// A run of zero bytes ends with the buffer at the latest.
pub proof fn lemma_zeros_bound(buf: Seq<u8>, i: int)
    requires
        0 <= i <= buf.len(),
    ensures
        i + zeros_from(buf, i) <= buf.len(),
    decreases buf.len() - i,
{
    if i < buf.len() && buf[i] == 0 {
        lemma_zeros_bound(buf, i + 1);
    }
}

/// Whether the 8 bytes at `addr` lie in a linear memory of `memlen` bytes,
/// as `fits` decides.
pub open spec fn fits8(memlen: int, addr: int) -> bool {
    addr + 8 <= memlen && addr < memlen && 8 < memlen
}

/// `mem` with the pointer `v` stored at `addr`.
pub open spec fn put_u32(mem: Seq<u8>, addr: int, v: int) -> Seq<u8> {
    write_bytes(mem, addr, spec_u32_to_le_bytes(v as u32))
}

/// Where the next pass starts: past a run of zero bytes and the byte after
/// it, or past one byte.
pub open spec fn next_idx(buf: Seq<u8>, idx: int) -> int {
    if buf[idx] == 0 {
        idx + zeros_from(buf, idx) + 1
    } else {
        idx + 1
    }
}

/// One pass of the writer over `buf`, the buffer as copied to `buf_addr`,
/// from position `idx`, with `start` the position of the current word and
/// `cursor` the offset of the next slot of the vector at `vec_addr`. A run
/// of zero bytes ends a word: its slot gets the word's address and the
/// next word starts after the run. Once the next position reaches
/// `end_len`, the slot at the cursor gets the current word's address.
/// Gives the new memory, word start and cursor.
pub open spec fn vec_step(
    mem: Seq<u8>,
    buf: Seq<u8>,
    end_len: int,
    vec_addr: int,
    buf_addr: int,
    idx: int,
    start: int,
    cursor: int,
) -> (Seq<u8>, int, int) {
    let (mem1, start1, cursor1) = if buf[idx] == 0 {
        let j = idx + zeros_from(buf, idx);
        (put_u32(mem, vec_addr + cursor, buf_addr + start), j, cursor + 4)
    } else {
        (mem, start, cursor)
    };
    let mem2 = if next_idx(buf, idx) >= end_len {
        put_u32(mem1, vec_addr + cursor1, buf_addr + start1)
    } else {
        mem1
    };
    (mem2, start1, cursor1)
}

/// The passes from position `idx` to the end of `buf`. Each pass first
/// checks that 8 bytes at the cursor lie in linear memory; the outcome is
/// the memory and whether no check failed.
pub open spec fn vec_loop(
    memlen: int,
    mem: Seq<u8>,
    buf: Seq<u8>,
    end_len: int,
    vec_addr: int,
    buf_addr: int,
    idx: int,
    start: int,
    cursor: int,
) -> (Seq<u8>, bool)
    decreases buf.len() + 1 - idx,
{
    if idx < 0 || idx >= buf.len() {
        (mem, true)
    } else if !fits8(memlen, vec_addr + cursor) {
        (mem, false)
    } else {
        proof {
            lemma_zeros_bound(buf, idx);
        }
        let (m, s, c) = vec_step(mem, buf, end_len, vec_addr, buf_addr, idx, start, cursor);
        vec_loop(memlen, m, buf, end_len, vec_addr, buf_addr, next_idx(buf, idx), s, c)
    }
}

/// The outcome of writing the vector of `count` words of `buf` (already
/// copied to `buf_addr`) at `vec_addr`: the passes, then a null slot after
/// the `count`th pointer. `Eoverflow` if a slot does not lie in linear
/// memory; the memory is then as the writes before left it.
pub open spec fn vec_outcome(
    memlen: int,
    mem: Seq<u8>,
    buf: Seq<u8>,
    end_len: int,
    count: int,
    vec_addr: int,
    buf_addr: int,
) -> (Seq<u8>, RuntimeResult<()>) {
    let (m, ok) = vec_loop(memlen, mem, buf, end_len, vec_addr, buf_addr, 0, 0, 0);
    if !ok {
        (m, Err(RuntimeError::Eoverflow))
    } else if !fits8(memlen, vec_addr + count * 4) {
        (m, Err(RuntimeError::Eoverflow))
    } else {
        (put_u32(m, vec_addr + count * 4, 0), Ok(()))
    }
}

/// Whether `buf` is a list of non-empty words, consecutive words separated
/// by one zero byte, as `add_arg` and `add_env_var` build it from words
/// without zero bytes.
pub open spec fn words_well_formed(buf: Seq<u8>) -> bool {
    buf.len() > 0 ==> {
        &&& buf[0] != 0
        &&& buf.last() != 0
        &&& forall|i: int| 0 <= i < buf.len() - 1 && #[trigger] buf[i] == 0 ==> buf[i + 1] != 0
    }
}

/// The number of zero bytes in `buf[..i]`.
pub open spec fn zeros_before(buf: Seq<u8>, i: int) -> nat
    decreases i,
{
    if i <= 0 {
        0
    } else {
        zeros_before(buf, i - 1) + if buf[i - 1] == 0 { 1nat } else { 0nat }
    }
}

/// The number of words of a well-formed buffer.
pub open spec fn word_count(buf: Seq<u8>) -> nat {
    if buf.len() == 0 {
        0
    } else {
        zeros_before(buf, buf.len() as int) + 1
    }
}

/// Whether a word of `buf` starts at `p`.
pub open spec fn word_start(buf: Seq<u8>, p: int) -> bool {
    0 <= p < buf.len() && (p == 0 || buf[p - 1] == 0)
}

/// The pointer stored in the four bytes of `mem` at `addr`.
pub open spec fn slot(mem: Seq<u8>, addr: int) -> u32 {
    spec_u32_from_le_bytes(mem.subrange(addr, addr + 4))
}

proof fn lemma_zeros_before_mono(buf: Seq<u8>, i: int, j: int)
    requires
        i <= j,
    ensures
        zeros_before(buf, i) <= zeros_before(buf, j),
    decreases j - i,
{
    if i < j {
        lemma_zeros_before_mono(buf, i, j - 1);
    }
}

/// Storing a pointer changes the four bytes at `a` only, and they read
/// back as the pointer.
proof fn lemma_put_u32(mem: Seq<u8>, a: int, v: int)
    requires
        0 <= a,
        a + 4 <= mem.len(),
        0 <= v <= u32::MAX,
    ensures
        put_u32(mem, a, v).len() == mem.len(),
        slot(put_u32(mem, a, v), a) == v,
        forall|i: int| 0 <= i < mem.len() && !(a <= i < a + 4) ==> #[trigger] put_u32(mem, a, v)[i] == mem[i],
{
    lemma_auto_spec_u32_to_from_le_bytes();
    let w = put_u32(mem, a, v);
    assert(w.subrange(a, a + 4) =~= spec_u32_to_le_bytes(v as u32));
}

/// Two memories that agree on the four bytes at `a` store the same pointer
/// there.
proof fn lemma_slot_agree(m1: Seq<u8>, m2: Seq<u8>, a: int)
    requires
        0 <= a,
        a + 4 <= m1.len(),
        a + 4 <= m2.len(),
        forall|i: int| a <= i < a + 4 ==> m1[i] == m2[i],
    ensures
        slot(m1, a) == slot(m2, a),
{
    assert(m1.subrange(a, a + 4) =~= m2.subrange(a, a + 4));
}

/// The passes from position `idx`, in the word that starts at `start`,
/// store every later word's address in its slot and write nothing outside
/// the slots of the words from the current one on.
proof fn lemma_vec_loop_words(
    memlen: int,
    mem: Seq<u8>,
    buf: Seq<u8>,
    end_len: int,
    va: int,
    ba: int,
    idx: int,
    start: int,
    cursor: int,
)
    requires
        words_well_formed(buf),
        buf.len() == 0 || 0 <= end_len <= buf.len(),
        mem.len() == memlen,
        0 <= va,
        0 <= ba,
        ba + buf.len() <= u32::MAX + 1,
        fits8(memlen, va + 4 * word_count(buf)),
        0 <= start <= idx <= buf.len(),
        start == 0 || buf[start - 1] == 0,
        forall|i: int| start <= i < idx ==> buf[i] != 0,
        zeros_before(buf, start) == zeros_before(buf, idx),
        cursor == 4 * zeros_before(buf, idx),
        idx == buf.len() && buf.len() > 0 ==> slot(mem, va + cursor) == ba + start,
    ensures
        ({
            let (m, ok) = vec_loop(memlen, mem, buf, end_len, va, ba, idx, start, cursor);
            &&& ok
            &&& m.len() == mem.len()
            &&& forall|p: int| #[trigger] word_start(buf, p) && p >= start ==> slot(m, va + 4 * zeros_before(buf, p)) == ba + p
            &&& forall|i: int| 0 <= i < mem.len() && !(va + cursor <= i < va + 4 * word_count(buf)) ==> #[trigger] m[i] == mem[i]
        }),
    decreases buf.len() + 1 - idx,
{
    let len = buf.len() as int;
    let k = zeros_before(buf, idx);
    let count = word_count(buf);
    let (m, ok) = vec_loop(memlen, mem, buf, end_len, va, ba, idx, start, cursor);
    if idx >= len {
        assert forall|p: int| #[trigger] word_start(buf, p) && p >= start implies slot(m, va + 4 * zeros_before(buf, p)) == ba + p by {
            if p > start {
                assert(buf[p - 1] == 0);
            }
        }
    } else {
        lemma_zeros_before_mono(buf, idx, len);
        assert(zeros_before(buf, len) == zeros_before(buf, len - 1) + if buf[len - 1] == 0 { 1nat } else { 0nat });
        assert(k + 1 <= count);
        lemma_zeros_bound(buf, idx);
        if buf[idx] == 0 {
            assert(idx < len - 1);
            assert(buf[idx + 1] != 0);
            assert(zeros_from(buf, idx + 1) == 0);
            assert(zeros_from(buf, idx) == 1);
            let mem1 = put_u32(mem, va + cursor, ba + start);
            lemma_put_u32(mem, va + cursor, ba + start);
            let nxt = idx + 2;
            assert(zeros_before(buf, idx + 1) == k + 1);
            assert(zeros_before(buf, idx + 2) == k + 1);
            lemma_zeros_before_mono(buf, idx + 2, len);
            if idx + 2 < len {
                assert(zeros_before(buf, len) == zeros_before(buf, len - 1) + 0);
                lemma_zeros_before_mono(buf, idx + 2, len - 1);
            }
            assert(k + 2 <= count) by {
                lemma_zeros_before_mono(buf, idx + 1, len);
            }
            let mem2 = if nxt >= end_len { put_u32(mem1, va + cursor + 4, ba + idx + 1) } else { mem1 };
            if nxt >= end_len {
                lemma_put_u32(mem1, va + cursor + 4, ba + idx + 1);
            }
            assert(vec_step(mem, buf, end_len, va, ba, idx, start, cursor) == (mem2, idx + 1, cursor + 4));
            assert(next_idx(buf, idx) == nxt);
            lemma_vec_loop_words(memlen, mem2, buf, end_len, va, ba, nxt, idx + 1, cursor + 4);
            assert(slot(mem1, va + cursor) == ba + start);
            lemma_slot_agree(m, mem2, va + cursor);
            lemma_slot_agree(mem2, mem1, va + cursor);
            assert forall|p: int| #[trigger] word_start(buf, p) && p >= start implies slot(m, va + 4 * zeros_before(buf, p)) == ba + p by {
                if p > start && p < idx + 1 {
                    assert(buf[p - 1] == 0);
                }
            }
        } else {
            let nxt = idx + 1;
            let mem2 = if nxt >= end_len { put_u32(mem, va + cursor, ba + start) } else { mem };
            if nxt >= end_len {
                lemma_put_u32(mem, va + cursor, ba + start);
            }
            assert(vec_step(mem, buf, end_len, va, ba, idx, start, cursor) == (mem2, start, cursor));
            assert(next_idx(buf, idx) == nxt);
            assert(zeros_before(buf, idx + 1) == k);
            lemma_vec_loop_words(memlen, mem2, buf, end_len, va, ba, nxt, start, cursor);
        }
    }
}

/// For a well-formed buffer whose words are `count` in number, the
/// vector gets, in slot `i`, the address at which word `i` was copied,
/// then a null pointer, and nothing outside those slots is written.
pub proof fn lemma_vec_outcome_words(
    memlen: int,
    mem: Seq<u8>,
    buf: Seq<u8>,
    end_len: int,
    count: int,
    vec_addr: int,
    buf_addr: int,
)
    requires
        words_well_formed(buf),
        count == word_count(buf),
        buf.len() == 0 || 0 <= end_len <= buf.len(),
        mem.len() == memlen,
        0 <= vec_addr,
        0 <= buf_addr,
        buf_addr + buf.len() <= u32::MAX + 1,
        fits8(memlen, vec_addr + 4 * count),
    ensures
        ({
            let (m, r) = vec_outcome(memlen, mem, buf, end_len, count, vec_addr, buf_addr);
            &&& r is Ok
            &&& m.len() == mem.len()
            &&& slot(m, vec_addr + 4 * count) == 0
            &&& forall|p: int| #[trigger] word_start(buf, p) ==> zeros_before(buf, p) < count && slot(m, vec_addr + 4 * zeros_before(buf, p)) == buf_addr + p
            &&& forall|i: int| 0 <= i < mem.len() && !(vec_addr <= i < vec_addr + 4 * count + 4) ==> #[trigger] m[i] == mem[i]
        }),
{
    lemma_vec_loop_words(memlen, mem, buf, end_len, vec_addr, buf_addr, 0, 0, 0);
    let (m0, ok) = vec_loop(memlen, mem, buf, end_len, vec_addr, buf_addr, 0, 0, 0);
    let m = put_u32(m0, vec_addr + count * 4, 0);
    lemma_put_u32(m0, vec_addr + count * 4, 0);
    assert(vec_addr + count * 4 == vec_addr + 4 * count);
    assert forall|p: int| #[trigger] word_start(buf, p) implies zeros_before(buf, p) < count && slot(m, vec_addr + 4 * zeros_before(buf, p)) == buf_addr + p by {
        lemma_zeros_before_mono(buf, p, buf.len() - 1);
        assert(zeros_before(buf, buf.len() as int) >= zeros_before(buf, buf.len() - 1));
        lemma_slot_agree(m, m0, vec_addr + 4 * zeros_before(buf, p));
    }
}

proof fn lemma_zeros_before_append(a: Seq<u8>, b: Seq<u8>, j: int)
    requires
        0 <= j <= b.len(),
    ensures
        zeros_before(a + b, a.len() + j) == zeros_before(a, a.len() as int) + zeros_before(b, j),
    decreases j,
{
    if j == 0 {
        assert forall|i: int| 0 <= i <= a.len() implies zeros_before(a + b, i) == zeros_before(a, i) by {
            lemma_zeros_before_prefix(a, b, i);
        }
    } else {
        lemma_zeros_before_append(a, b, j - 1);
        assert((a + b)[a.len() + j - 1] == b[j - 1]);
    }
}

proof fn lemma_zeros_before_prefix(a: Seq<u8>, b: Seq<u8>, i: int)
    requires
        0 <= i <= a.len(),
    ensures
        zeros_before(a + b, i) == zeros_before(a, i),
    decreases i,
{
    if i > 0 {
        lemma_zeros_before_prefix(a, b, i - 1);
        assert((a + b)[i - 1] == a[i - 1]);
    }
}

proof fn lemma_zeros_before_none(b: Seq<u8>, j: int)
    requires
        0 <= j <= b.len(),
        forall|i: int| 0 <= i < b.len() ==> b[i] != 0,
    ensures
        zeros_before(b, j) == 0,
    decreases j,
{
    if j > 0 {
        lemma_zeros_before_none(b, j - 1);
    }
}

/// Appending a non-empty word without zero bytes as `add_arg` and
/// `add_env_var` do, after a zero byte unless it is the first, keeps the
/// buffer well formed and adds one to its words.
pub proof fn lemma_add_word_keeps_layout(buf: Seq<u8>, count: nat, w: Seq<u8>)
    requires
        words_well_formed(buf),
        count == word_count(buf),
        w.len() > 0,
        forall|i: int| 0 <= i < w.len() ==> w[i] != 0,
    ensures
        words_well_formed((if count != 0 { buf.push(0u8) } else { buf }) + w),
        word_count((if count != 0 { buf.push(0u8) } else { buf }) + w) == count + 1,
{
    let pre = if count != 0 { buf.push(0u8) } else { buf };
    let nb = pre + w;
    lemma_zeros_before_append(pre, w, w.len() as int);
    lemma_zeros_before_none(w, w.len() as int);
    if count != 0 {
        assert(buf.len() > 0);
        assert(zeros_before(pre, pre.len() as int) == zeros_before(buf, buf.len() as int) + 1) by {
            lemma_zeros_before_prefix(buf, seq![0u8], buf.len() as int);
            assert(pre =~= buf + seq![0u8]);
        }
        assert forall|i: int| 0 <= i < nb.len() - 1 && #[trigger] nb[i] == 0 implies nb[i + 1] != 0 by {
            if i < buf.len() - 1 {
                assert(nb[i] == buf[i] && nb[i + 1] == buf[i + 1]);
            } else if i == buf.len() - 1 {
                assert(nb[i] == buf.last());
            } else {
                assert(i >= buf.len());
                if i > buf.len() {
                    assert(nb[i] == w[i - buf.len() - 1]);
                }
                assert(nb[i + 1] == w[i + 1 - buf.len() - 1]);
            }
        }
        assert(nb[0] == buf[0]);
    } else {
        assert(buf.len() == 0);
        assert(nb =~= w);
        assert(zeros_before(pre, 0) == 0);
    }
    assert(nb.last() == w.last());
}

/// The conditions under which the layout of the words of `buf` is as
/// expected: `buf` is non-empty words separated by single zero bytes,
/// `count` is their number, and the buffer at `buf_ptr` and the vector of
/// `count + 1` pointers at `vec_ptr` lie in linear memory apart from each
/// other.
pub open spec fn layout_applies(ctx: &VmCtx, buf: Seq<u8>, count: int, vec_ptr: u32, buf_ptr: u32) -> bool {
    &&& words_well_formed(buf)
    &&& count == word_count(buf)
    &&& ctx.fits(buf_ptr as int, buf.len() as int)
    &&& fits8(ctx.memlen as int, vec_ptr + 4 * count)
    &&& (buf_ptr + buf.len() <= vec_ptr || vec_ptr + 4 * count + 4 <= buf_ptr)
}

/// `mem` holds the buffer `buf` at `buf_ptr`, and the vector at `vec_ptr`
/// holds, in slot `i`, the address of word `i` of the buffer, then a null
/// pointer after the `count` words.
pub open spec fn strings_laid_out(mem: Seq<u8>, buf: Seq<u8>, count: int, vec_ptr: u32, buf_ptr: u32) -> bool {
    &&& mem.subrange(buf_ptr as int, buf_ptr + buf.len()) == buf
    &&& slot(mem, vec_ptr + 4 * count) == 0
    &&& forall|p: int| #[trigger] word_start(buf, p) ==> slot(mem, vec_ptr + 4 * zeros_before(buf, p)) == buf_ptr + p
}

/// `args_get` and `environ_get` on a buffer of non-empty words separated
/// by single zero bytes, with the number of words as the count: the call
/// succeeds, the buffer is
/// found at `buf_ptr`, slot `i` of the vector at `vec_ptr` holds the
/// address of word `i`, and the slot after the last holds a null pointer,
/// provided the buffer and the vector lie in linear memory apart from
/// each other.
pub proof fn lemma_strings_layout(
    ctx: &VmCtx,
    buf: Seq<u8>,
    count: int,
    vec_ptr: u32,
    buf_ptr: u32,
)
    requires
        ctx.wf(),
        layout_applies(ctx, buf, count, vec_ptr, buf_ptr),
    ensures
        ({
            let (m, r) = strings_outcome(ctx, buf, buf.len() as int, count, vec_ptr, buf_ptr);
            &&& r is Ok
            &&& strings_laid_out(m, buf, count, vec_ptr, buf_ptr)
        }),
{
    let mem0 = write_bytes(ctx.mem@, buf_ptr as int, buf);
    assert(mem0.len() == ctx.mem@.len());
    lemma_vec_outcome_words(ctx.memlen as int, mem0, buf, buf.len() as int, count, vec_ptr as int, buf_ptr as int);
    let (m, r) = vec_outcome(ctx.memlen as int, mem0, buf, buf.len() as int, count, vec_ptr as int, buf_ptr as int);
    assert forall|i: int| 0 <= i < buf.len() implies m.subrange(buf_ptr as int, buf_ptr + buf.len())[i] == buf[i] by {
        assert(m[buf_ptr + i] == mem0[buf_ptr + i]);
        assert(mem0[buf_ptr + i] == buf[i]);
    }
    assert(m.subrange(buf_ptr as int, buf_ptr + buf.len()) =~= buf);
}

/// Writes the vector of pointers to the words of `buf`, which is already
/// copied to `buf_ptr`, at `vec_ptr`, as `vec_outcome` says.
fn write_pointer_vec(
    ctx: &mut VmCtx,
    buf: &Vec<u8>,
    end_len: usize,
    count: usize,
    vec_ptr: u32,
    buf_ptr: u32,
) -> (r: RuntimeResult<()>)
    requires
        old(ctx).wf(),
        vec_ptr + 4 * count <= usize::MAX,
        buf_ptr + buf@.len() <= old(ctx).memlen,
    ensures
        final(ctx).wf(),
        final(ctx).same_but_mem(old(ctx)),
        (final(ctx).mem@, r) == vec_outcome(
            old(ctx).memlen as int,
            old(ctx).mem@,
            buf@,
            end_len as int,
            count as int,
            vec_ptr as int,
            buf_ptr as int,
        ),
{
    let ghost memlen = ctx.memlen as int;
    let ghost goal = vec_loop(memlen, ctx.mem@, buf@, end_len as int, vec_ptr as int, buf_ptr as int, 0, 0, 0);
    let mut idx: usize = 0;
    let mut start: u32 = 0;
    let mut cursor: usize = 0;
    while idx < buf.len()
        invariant
            ctx.wf(),
            ctx.same_but_mem(old(ctx)),
            memlen == ctx.memlen,
            buf_ptr + buf@.len() <= ctx.memlen,
            start <= buf@.len(),
            vec_loop(memlen, ctx.mem@, buf@, end_len as int, vec_ptr as int, buf_ptr as int, idx as int, start as int, cursor as int) == goal,
            goal == vec_loop(memlen, old(ctx).mem@, buf@, end_len as int, vec_ptr as int, buf_ptr as int, 0, 0, 0),
        decreases buf@.len() + 1 - idx,
    {
        let slot = match (vec_ptr as usize).checked_add(cursor) {
            Some(a) => a,
            None => return Err(RuntimeError::Eoverflow),
        };
        if !ctx.fits_in_lin_mem_usize(slot, 8) {
            return Err(RuntimeError::Eoverflow);
        }
        let ghost mem0 = ctx.mem@;
        let ghost i_s = next_idx(buf@, idx as int);
        let ghost (m_s, s_s, c_s) = vec_step(mem0, buf@, end_len as int, vec_ptr as int, buf_ptr as int, idx as int, start as int, cursor as int);
        if buf[idx] == 0 {
            let ghost idx0 = idx as int;
            while idx < buf.len() && buf[idx] == 0
                invariant
                    idx0 <= idx <= buf@.len(),
                    buf@.len() < u32::MAX,
                    idx + zeros_from(buf@, idx as int) == idx0 + zeros_from(buf@, idx0),
                decreases buf@.len() - idx,
            {
                idx += 1;
            }
            assert(zeros_from(buf@, idx as int) == 0);
            ctx.write_u32((vec_ptr as usize) + cursor, buf_ptr + start);
            cursor += 4;
            start = idx as u32;
        }
        idx += 1;
        if idx >= end_len {
            ctx.write_u32((vec_ptr as usize) + cursor, buf_ptr + start);
        }
        assert(ctx.mem@ == m_s && idx == i_s && start == s_s && cursor == c_s);
    }
    let ghost m_end = ctx.mem@;
    let last = match (vec_ptr as usize).checked_add(count * 4) {
        Some(a) => a,
        None => return Err(RuntimeError::Eoverflow),
    };
    if !ctx.fits_in_lin_mem_usize(last, 8) {
        return Err(RuntimeError::Eoverflow);
    }
    ctx.write_u32(last, 0);
    Ok(())
}

/// The outcome of `args_get` or `environ_get` on the buffer `buf` of
/// `count` words: the buffer is copied to `buf_ptr` (`Efault` if it does
/// not lie in linear memory), then the pointer vector is written at
/// `vec_ptr`.
pub open spec fn strings_outcome(
    ctx: &VmCtx,
    buf: Seq<u8>,
    end_len: int,
    count: int,
    vec_ptr: u32,
    buf_ptr: u32,
) -> (Seq<u8>, RuntimeResult<()>) {
    if !ctx.fits(buf_ptr as int, buf.len() as int) {
        (ctx.mem@, Err(RuntimeError::Efault))
    } else {
        vec_outcome(
            ctx.memlen as int,
            write_bytes(ctx.mem@, buf_ptr as int, buf),
            buf,
            end_len,
            count,
            vec_ptr as int,
            buf_ptr as int,
        )
    }
}

/// `args_get`: copies the argument buffer to `argv_buf` and writes the
/// vector of pointers to the arguments, ended by a null pointer, at
/// `argv`. For arguments as `add_arg` lays them out, with both areas in
/// linear memory and apart, the call succeeds and pointer `i` is the
/// address of argument `i`.
pub fn wasi_args_get(ctx: &mut VmCtx, argv: u32, argv_buf: u32) -> (r: RuntimeResult<()>)
    requires
        old(ctx).wf(),
        old(ctx).arg_buffer@.len() <= u32::MAX,
        argv + 4 * old(ctx).argc <= usize::MAX,
    ensures
        final(ctx).wf(),
        final(ctx).same_but_mem(old(ctx)),
        (final(ctx).mem@, r) == strings_outcome(
            old(ctx),
            old(ctx).arg_buffer@,
            old(ctx).arg_buffer@.len() as int,
            old(ctx).argc as int,
            argv,
            argv_buf,
        ),
        layout_applies(old(ctx), old(ctx).arg_buffer@, old(ctx).argc as int, argv, argv_buf) ==> r is Ok
            && strings_laid_out(final(ctx).mem@, old(ctx).arg_buffer@, old(ctx).argc as int, argv, argv_buf),
{
    let ghost ctx0 = *ctx;
    proof {
        if layout_applies(&ctx0, ctx0.arg_buffer@, ctx0.argc as int, argv, argv_buf) {
            lemma_strings_layout(&ctx0, ctx0.arg_buffer@, ctx0.argc as int, argv, argv_buf);
        }
    }
    let argv_buf_len = ctx.arg_buffer.len() as u32;
    if ctx.copy_arg_buffer_to_sandbox(argv_buf, argv_buf_len).is_none() {
        return Err(RuntimeError::Efault);
    }
    let buf = ctx.arg_buffer.clone();
    let end_len = buf.len();
    let argc = ctx.argc;
    write_pointer_vec(ctx, &buf, end_len, argc, argv, argv_buf)
}

/// `environ_get`: copies the environment buffer to `env_buf` and writes
/// the vector of pointers to the variables, ended by a null pointer, at
/// `env`. For variables as `add_env_var` lays them out, with both areas in
/// linear memory and apart, the call succeeds and pointer `i` is the
/// address of variable `i`.
pub fn wasi_environ_get(ctx: &mut VmCtx, env: u32, env_buf: u32) -> (r: RuntimeResult<()>)
    requires
        old(ctx).wf(),
        old(ctx).env_buffer@.len() <= u32::MAX,
        env + 4 * old(ctx).envc <= usize::MAX,
    ensures
        final(ctx).wf(),
        final(ctx).same_but_mem(old(ctx)),
        (final(ctx).mem@, r) == strings_outcome(
            old(ctx),
            old(ctx).env_buffer@,
            old(ctx).env_buffer@.len() as int,
            old(ctx).envc as int,
            env,
            env_buf,
        ),
        layout_applies(old(ctx), old(ctx).env_buffer@, old(ctx).envc as int, env, env_buf) ==> r is Ok
            && strings_laid_out(final(ctx).mem@, old(ctx).env_buffer@, old(ctx).envc as int, env, env_buf),
{
    let ghost ctx0 = *ctx;
    proof {
        if layout_applies(&ctx0, ctx0.env_buffer@, ctx0.envc as int, env, env_buf) {
            lemma_strings_layout(&ctx0, ctx0.env_buffer@, ctx0.envc as int, env, env_buf);
        }
    }
    let env_buf_len = ctx.env_buffer.len() as u32;
    if ctx.copy_environ_buffer_to_sandbox(env_buf, env_buf_len).is_none() {
        return Err(RuntimeError::Efault);
    }
    let buf = ctx.env_buffer.clone();
    let end_len = buf.len();
    let envc = ctx.envc;
    write_pointer_vec(ctx, &buf, end_len, envc, env, env_buf)
}

} // verus!
