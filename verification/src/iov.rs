//! Reading WASI `iovec` arrays out of linear memory.
use vstd::prelude::*;
use vstd::bytes::spec_u32_from_le_bytes;
use crate::error::{RuntimeError, RuntimeResult};
use crate::runtime::VmCtx;
use crate::types::{HostFd, SboxPtr, LINEAR_MEM_SIZE};
use crate::hostcall::{HostCall, call_permitted, fd_open};
use crate::flags::RiFlags;

verus! {

/// A buffer in linear memory, as WASI's `iovec` describes it.
#[derive(PartialEq, Eq, Structural, Clone, Copy, Debug)]
pub struct WasmIoVec {
    pub iov_base: u32,
    pub iov_len: u32,
}

/// A buffer in host memory, as the host's `struct iovec` describes it.
#[derive(PartialEq, Eq, Structural, Clone, Copy, Debug)]
pub struct NativeIoVec {
    pub iov_base: usize,
    pub iov_len: usize,
}

/// A list of sandbox buffers.
pub struct WasmIoVecs {
    pub iovs: Vec<WasmIoVec>,
}

impl WasmIoVecs {
    pub fn len(&self) -> (r: usize)
        ensures
            r == self.iovs@.len(),
    {
        self.iovs.len()
    }

    pub fn new() -> (r: WasmIoVecs)
        ensures
            r.iovs@.len() == 0,
    {
        WasmIoVecs { iovs: Vec::new() }
    }

    pub fn lookup(&self, index: usize) -> (r: WasmIoVec)
        requires
            index < self.iovs@.len(),
        ensures
            r == self.iovs@[index as int],
    {
        self.iovs[index]
    }
}

/// A list of host buffers.
pub struct NativeIoVecs {
    pub iovs: Vec<NativeIoVec>,
}

impl NativeIoVecs {
    pub fn len(&self) -> (r: usize)
        ensures
            r == self.iovs@.len(),
    {
        self.iovs.len()
    }

    pub fn new() -> (r: NativeIoVecs)
        ensures
            r.iovs@.len() == 0,
    {
        NativeIoVecs { iovs: Vec::new() }
    }

    pub fn lookup(&self, index: usize) -> (r: NativeIoVec)
        requires
            index < self.iovs@.len(),
        ensures
            r == self.iovs@[index as int],
    {
        self.iovs[index]
    }
}

/// The host buffer that the sandbox buffer `iov` is, for linear memory
/// mapped at the host address `base`.
pub open spec fn native_iov(base: usize, iov: WasmIoVec) -> NativeIoVec {
    NativeIoVec { iov_base: (base + iov.iov_base) as usize, iov_len: iov.iov_len as usize }
}

impl VmCtx {
    /// The host buffer for the sandbox buffer `iov`, given the host address
    /// `base` at which linear memory is mapped.
    pub fn translate_iov(&self, base: usize, iov: WasmIoVec) -> (r: NativeIoVec)
        requires
            base + iov.iov_base <= usize::MAX,
        ensures
            r == native_iov(base, iov),
    {
        NativeIoVec { iov_base: base + iov.iov_base as usize, iov_len: iov.iov_len as usize }
    }

    /// The host buffers for the sandbox buffers `iovs`, in order, given the
    /// host address `base` at which linear memory is mapped.
    pub fn translate_iovs(&self, base: usize, iovs: &Vec<WasmIoVec>) -> (r: NativeIoVecs)
        requires
            forall|i: int| 0 <= i < iovs@.len() ==> base + #[trigger] iovs@[i].iov_base <= usize::MAX,
        ensures
            r.iovs@.len() == iovs@.len(),
            forall|i: int| 0 <= i < iovs@.len() ==> #[trigger] r.iovs@[i] == native_iov(base, iovs@[i]),
    {
        let mut out = NativeIoVecs::new();
        let mut i: usize = 0;
        while i < iovs.len()
            invariant
                i <= iovs@.len(),
                out.iovs@.len() == i,
                forall|j: int| 0 <= j < iovs@.len() ==> base + #[trigger] iovs@[j].iov_base <= usize::MAX,
                forall|j: int| 0 <= j < i ==> #[trigger] out.iovs@[j] == native_iov(base, iovs@[j]),
            decreases iovs@.len() - i,
        {
            let n = self.translate_iov(base, iovs[i]);
            out.iovs.push(n);
            i += 1;
        }
        out
    }
}

/// The address of entry `j` of the `iovec` array at `iovs`.
pub open spec fn iov_entry_addr(iovs: SboxPtr, j: int) -> int {
    iovs + 8 * j
}

/// Entry `j` of the `iovec` array at `iovs`, as stored in linear memory.
pub open spec fn iov_entry(ctx: &VmCtx, iovs: SboxPtr, j: int) -> WasmIoVec {
    let a = iov_entry_addr(iovs, j);
    WasmIoVec {
        iov_base: spec_u32_from_le_bytes(ctx.bytes_at(a, 4)),
        iov_len: spec_u32_from_le_bytes(ctx.bytes_at(a + 4, 4)),
    }
}

/// Whether entry `j` is usable: the entry lies in linear memory
/// (`Eoverflow` otherwise) and so does the buffer it describes (`Efault`
/// otherwise).
pub open spec fn iov_entry_status(ctx: &VmCtx, iovs: SboxPtr, j: int) -> RuntimeResult<()> {
    if !ctx.fits(iov_entry_addr(iovs, j), 8) {
        Err(RuntimeError::Eoverflow)
    } else {
        let iov = iov_entry(ctx, iovs, j);
        if !ctx.fits(iov.iov_base as int, iov.iov_len as int) {
            Err(RuntimeError::Efault)
        } else {
            Ok(())
        }
    }
}

/// Whether the entries `0..k` are usable.
pub open spec fn iov_entries_ok(ctx: &VmCtx, iovs: SboxPtr, k: int) -> bool {
    forall|j: int| 0 <= j < k ==> #[trigger] iov_entry_status(ctx, iovs, j) is Ok
}

/// Reads entry `i` of the `iovec` array at `iovs` and checks it. Entries
/// before it are known to be usable, which keeps the address in range.
pub fn read_iov_entry(ctx: &VmCtx, iovs: u32, i: u32) -> (r: RuntimeResult<WasmIoVec>)
    requires
        ctx.wf(),
        i == 0 || iov_entries_ok(ctx, iovs, i as int),
    ensures
        r == (match iov_entry_status(ctx, iovs, i as int) {
            Ok(_) => Ok(iov_entry(ctx, iovs, i as int)),
            Err(e) => Err::<WasmIoVec, RuntimeError>(e),
        }),
{
    if i > 0 {
        assert(iov_entry_status(ctx, iovs, i - 1) is Ok);
    }
    let start = (iovs + i * 8) as usize;
    let (ptr, len) = ctx.read_u32_pair(start)?;
    if !ctx.fits_in_lin_mem(ptr, len) {
        return Err(RuntimeError::Efault);
    }
    Ok(WasmIoVec { iov_base: ptr, iov_len: len })
}

/// Reads the `iovcnt` entries of the `iovec` array at `iovs`. Fails with
/// the error of the first entry that is not usable.
pub fn parse_iovs(ctx: &VmCtx, iovs: u32, iovcnt: u32) -> (r: RuntimeResult<WasmIoVecs>)
    requires
        ctx.wf(),
    ensures
        match r {
            Ok(v) => {
                &&& v.iovs@.len() == iovcnt
                &&& iov_entries_ok(ctx, iovs, iovcnt as int)
                &&& forall|j: int| 0 <= j < iovcnt ==> #[trigger] v.iovs@[j] == iov_entry(ctx, iovs, j)
            },
            Err(e) => exists|k: int|
                0 <= k < iovcnt && iov_entries_ok(ctx, iovs, k) && #[trigger] iov_entry_status(ctx, iovs, k)
                    == Err::<(), RuntimeError>(e),
        },
{
    let mut i: u32 = 0;
    let mut wasm_iovs = WasmIoVecs::new();
    while i < iovcnt
        invariant
            ctx.wf(),
            i <= iovcnt,
            wasm_iovs.iovs@.len() == i,
            iov_entries_ok(ctx, iovs, i as int),
            forall|j: int| 0 <= j < i ==> #[trigger] wasm_iovs.iovs@[j] == iov_entry(ctx, iovs, j),
        decreases iovcnt - i,
    {
        let iov = read_iov_entry(ctx, iovs, i);
        match iov {
            Ok(iov) => {
                wasm_iovs.iovs.push(iov);
            },
            Err(e) => {
                return Err(e);
            },
        }
        i += 1;
    }
    Ok(wasm_iovs)
}

/// The transfer an `IovLoop` makes for each buffer.
#[derive(PartialEq, Eq, Structural, Clone, Copy, Debug)]
pub enum IoKind {
    Read,
    Write,
    /// A read at the given file offset.
    Pread(u64),
    /// A write at the given file offset.
    Pwrite(u64),
    /// A receive with the given host flags.
    Recv(i32),
    Send,
}

/// The system call that transfers one buffer.
pub open spec fn io_call(kind: IoKind, fd: HostFd, buf: WasmIoVec) -> HostCall {
    match kind {
        IoKind::Read => HostCall::Read { fd, buf },
        IoKind::Write => HostCall::Write { fd, buf },
        IoKind::Pread(o) => HostCall::Pread { fd, buf, at: o },
        IoKind::Pwrite(o) => HostCall::Pwrite { fd, buf, at: o },
        IoKind::Recv(f) => HostCall::Recv { fd, buf, flags: f },
        IoKind::Send => HostCall::Send { fd, buf, flags: 0 },
    }
}

/// Whether `c` is the transfer of `buf` on `fd` that the kind asks for: a
/// read or write at the descriptor's position, a positioned read or write
/// at the kind's file offset, a receive with the kind's flags, or a send
/// with none.
pub open spec fn transfer_of(kind: IoKind, fd: HostFd, buf: WasmIoVec, c: HostCall) -> bool {
    match kind {
        IoKind::Read => c matches HostCall::Read { fd: f, buf: b } && f == fd && b == buf,
        IoKind::Write => c matches HostCall::Write { fd: f, buf: b } && f == fd && b == buf,
        IoKind::Pread(o) => c matches HostCall::Pread { fd: f, buf: b, at } && f == fd && b == buf && at == o,
        IoKind::Pwrite(o) => c matches HostCall::Pwrite { fd: f, buf: b, at } && f == fd && b == buf && at == o,
        IoKind::Recv(fl) => c matches HostCall::Recv { fd: f, buf: b, flags } && f == fd && b == buf && flags == fl,
        IoKind::Send => c matches HostCall::Send { fd: f, buf: b, flags } && f == fd && b == buf && flags == 0,
    }
}

/// The system call made for a buffer is the transfer its kind asks for:
/// reads and writes keep their direction, positioned ones carry the
/// kind's offset, and every call is on the given descriptor and buffer.
pub proof fn lemma_io_call_is_transfer(kind: IoKind, fd: HostFd, buf: WasmIoVec)
    ensures
        transfer_of(kind, fd, buf, io_call(kind, fd, buf)),
{
}

/// A transfer over the buffers of an `iovec` array, one system call per
/// buffer, in order. Each entry is read from linear memory just before its
/// transfer, so a transfer may change the entries after it. The loop stops
/// at the first entry that is not usable; the byte counts of the
/// transfers are summed, wrapping around at 2^32.
pub struct IovLoop {
    kind: IoKind,
    fd: HostFd,
    iovs: u32,
    iovcnt: u32,
    idx: u32,
    total: u32,
    pending: bool,
}

impl IovLoop {
    pub closed spec fn kind(&self) -> IoKind {
        self.kind
    }

    /// The host descriptor of the transfers.
    pub closed spec fn fd(&self) -> HostFd {
        self.fd
    }

    /// The address of the `iovec` array.
    pub closed spec fn iovs(&self) -> u32 {
        self.iovs
    }

    /// The number of entries.
    pub closed spec fn iovcnt(&self) -> u32 {
        self.iovcnt
    }

    /// The number of transfers done.
    pub closed spec fn index(&self) -> u32 {
        self.idx
    }

    /// The sum of the byte counts so far.
    pub closed spec fn sum(&self) -> u32 {
        self.total
    }

    /// Whether the count of the last transfer is awaited.
    pub closed spec fn pending(&self) -> bool {
        self.pending
    }

    pub closed spec fn wf(&self) -> bool {
        &&& self.idx <= self.iovcnt
        &&& self.pending ==> self.idx < self.iovcnt && iov_entry_addr(self.iovs, self.idx as int) + 8
            <= LINEAR_MEM_SIZE
        &&& (self.idx == 0 || iov_entry_addr(self.iovs, self.idx as int) <= LINEAR_MEM_SIZE)
    }

    /// A loop over the `iovcnt` entries at `iovs`, to transfer on `fd`.
    pub open spec fn fresh(&self, kind: IoKind, fd: HostFd, iovs: u32, iovcnt: u32) -> bool {
        &&& self.wf()
        &&& self.kind() == kind
        &&& self.fd() == fd
        &&& self.iovs() == iovs
        &&& self.iovcnt() == iovcnt
        &&& self.index() == 0
        &&& self.sum() == 0
        &&& !self.pending()
    }

    /// Starts a loop on the host descriptor of `v_fd`.
    pub fn start(ctx: &VmCtx, kind: IoKind, v_fd: u32, iovs: u32, iovcnt: u32) -> (r: RuntimeResult<IovLoop>)
        requires
            ctx.wf(),
        ensures
            match ctx.fdmap.lookup(v_fd) {
                Ok(fd) => r matches Ok(l) && l.fresh(kind, fd, iovs, iovcnt) && fd_open(ctx, fd),
                Err(e) => r == Err::<IovLoop, RuntimeError>(e),
            },
    {
        let fd = ctx.fdmap.fd_to_native(v_fd)?;
        Ok(IovLoop { kind, fd, iovs, iovcnt, idx: 0, total: 0, pending: false })
    }

    /// The next transfer, or `None` once every entry was transferred.
    /// Fails with the error of the entry if it is not usable.
    pub fn next(&mut self, ctx: &VmCtx) -> (r: RuntimeResult<Option<HostCall>>)
        requires
            ctx.wf(),
            old(self).wf(),
            !old(self).pending(),
        ensures
            final(self).wf(),
            final(self).kind() == old(self).kind(),
            final(self).fd() == old(self).fd(),
            final(self).iovs() == old(self).iovs(),
            final(self).iovcnt() == old(self).iovcnt(),
            final(self).index() == old(self).index(),
            final(self).sum() == old(self).sum(),
            if old(self).index() >= old(self).iovcnt() {
                r == Ok::<Option<HostCall>, RuntimeError>(None) && !final(self).pending()
            } else {
                match iov_entry_status(ctx, old(self).iovs(), old(self).index() as int) {
                    Err(e) => r == Err::<Option<HostCall>, RuntimeError>(e) && !final(self).pending(),
                    Ok(_) => {
                        &&& r == Ok::<Option<HostCall>, RuntimeError>(
                            Some(io_call(old(self).kind(), old(self).fd(), iov_entry(ctx, old(self).iovs(), old(self).index() as int))),
                        )
                        &&& final(self).pending()
                    },
                }
            },
            r matches Ok(Some(c)) ==> (fd_open(ctx, old(self).fd()) ==> call_permitted(ctx, c)),
            r matches Ok(Some(c)) ==> transfer_of(
                old(self).kind(),
                old(self).fd(),
                iov_entry(ctx, old(self).iovs(), old(self).index() as int),
                c,
            ),
    {
        if self.idx >= self.iovcnt {
            return Ok(None);
        }
        let start = self.iovs as usize + self.idx as usize * 8;
        let (ptr, len) = ctx.read_u32_pair(start)?;
        if !ctx.fits_in_lin_mem(ptr, len) {
            return Err(RuntimeError::Efault);
        }
        let buf = WasmIoVec { iov_base: ptr, iov_len: len };
        self.pending = true;
        let c = match self.kind {
            IoKind::Read => HostCall::Read { fd: self.fd, buf },
            IoKind::Write => HostCall::Write { fd: self.fd, buf },
            IoKind::Pread(o) => HostCall::Pread { fd: self.fd, buf, at: o },
            IoKind::Pwrite(o) => HostCall::Pwrite { fd: self.fd, buf, at: o },
            IoKind::Recv(f) => HostCall::Recv { fd: self.fd, buf, flags: f },
            IoKind::Send => HostCall::Send { fd: self.fd, buf, flags: 0 },
        };
        Ok(Some(c))
    }

    /// Records the byte count `n` of the last transfer.
    pub fn record(&mut self, n: usize)
        requires
            old(self).wf(),
            old(self).pending(),
        ensures
            final(self).wf(),
            !final(self).pending(),
            final(self).kind() == old(self).kind(),
            final(self).fd() == old(self).fd(),
            final(self).iovs() == old(self).iovs(),
            final(self).iovcnt() == old(self).iovcnt(),
            final(self).index() == old(self).index() + 1,
            final(self).sum() == vstd::wrapping::u32_specs::wrapping_add(old(self).sum(), n as u32),
    {
        self.total = self.total.wrapping_add(n as u32);
        self.idx = self.idx + 1;
        self.pending = false;
    }

    /// The sum of the byte counts.
    pub fn total(&self) -> (r: u32)
        ensures
            r == self.sum(),
    {
        self.total
    }
}

} // verus!
