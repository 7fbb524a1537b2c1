//! The sandbox context: linear memory, descriptor table, home directory,
//! arguments, environment and network allow-list.
use vstd::prelude::*;
use vstd::bytes::{
    spec_u16_from_le_bytes, spec_u16_to_le_bytes, spec_u32_from_le_bytes, spec_u32_to_le_bytes,
    spec_u64_from_le_bytes, spec_u64_to_le_bytes, u16_from_le_bytes, u16_to_le_bytes,
    u32_from_le_bytes, u32_to_le_bytes, u64_from_le_bytes, u64_to_le_bytes,
    lemma_auto_spec_u16_to_from_le_bytes, lemma_auto_spec_u32_to_from_le_bytes,
    lemma_auto_spec_u64_to_from_le_bytes,
};
use vstd::slice::slice_subrange;
use vstd::string::StringSliceAdditionalSpecFns;
use crate::error::{RuntimeError, RuntimeResult};
use crate::fdmap::FdMap;
use crate::path::PathExpander;
use crate::types::{
    HostFd, NetEndpoint, Netlist, SboxPtr, WasiProto, LINEAR_MEM_SIZE, MAX_SBOX_FDS, spec_addr_in_netlist,
    addr_in_netlist, empty_netlist,
};

verus! {

/// The state of one sandbox.
pub struct VmCtx {
    /// The sandbox's linear memory.
    pub mem: Vec<u8>,
    pub memlen: usize,
    pub fdmap: FdMap,
    pub homedir: String,
    pub homedir_host_fd: HostFd,
    /// The arguments, separated by zero bytes.
    pub arg_buffer: Vec<u8>,
    pub argc: usize,
    /// The environment variables, separated by zero bytes.
    pub env_buffer: Vec<u8>,
    pub envc: usize,
    pub netlist: Netlist,
}

/// `mem` with `bytes` written at `start`.
pub open spec fn write_bytes(mem: Seq<u8>, start: int, bytes: Seq<u8>) -> Seq<u8> {
    mem.subrange(0, start) + bytes + mem.subrange(start + bytes.len(), mem.len() as int)
}

/// The outcome of starting to resolve the sandbox path of `path_len` bytes
/// at `path`: a fresh resolution of those bytes if they lie in linear
/// memory, `Eoverflow` otherwise.
pub open spec fn translated(
    ctx: &VmCtx,
    path: SboxPtr,
    path_len: u32,
    should_follow: bool,
    r: RuntimeResult<PathExpander>,
) -> bool {
    match r {
        Ok(e) => ctx.fits(path as int, path_len as int) && e.starts(ctx.bytes_at(path as int, path_len as int), should_follow),
        Err(err) => !ctx.fits(path as int, path_len as int) && err == RuntimeError::Eoverflow,
    }
}

impl VmCtx {
    /// Linear memory is as long as `memlen` says, within the bound, and the
    /// descriptor table is well formed.
    pub open spec fn wf(&self) -> bool {
        &&& self.mem@.len() == self.memlen
        &&& self.memlen <= LINEAR_MEM_SIZE
        &&& self.fdmap.wf()
    }

    /// Whether the `cnt` bytes at `buf` lie in linear memory, with both the
    /// address and the count below its size.
    pub open spec fn fits(&self, buf: int, cnt: int) -> bool {
        &&& buf + cnt <= self.memlen
        &&& buf < self.memlen
        &&& cnt < self.memlen
    }

    /// The `n` bytes of linear memory at `start`.
    pub open spec fn bytes_at(&self, start: int, n: int) -> Seq<u8> {
        self.mem@.subrange(start, start + n)
    }

    /// Everything but the descriptor table is as in `other`.
    pub open spec fn same_but_fdmap(&self, other: &VmCtx) -> bool {
        &&& self.mem == other.mem
        &&& self.memlen == other.memlen
        &&& self.homedir == other.homedir
        &&& self.homedir_host_fd == other.homedir_host_fd
        &&& self.arg_buffer == other.arg_buffer
        &&& self.argc == other.argc
        &&& self.env_buffer == other.env_buffer
        &&& self.envc == other.envc
        &&& self.netlist == other.netlist
    }

    /// Everything but linear memory is as in `other`.
    pub open spec fn same_but_mem(&self, other: &VmCtx) -> bool {
        &&& self.memlen == other.memlen
        &&& self.fdmap == other.fdmap
        &&& self.homedir == other.homedir
        &&& self.homedir_host_fd == other.homedir_host_fd
        &&& self.arg_buffer == other.arg_buffer
        &&& self.argc == other.argc
        &&& self.env_buffer == other.env_buffer
        &&& self.envc == other.envc
        &&& self.netlist == other.netlist
    }

    /// Whether `ptr` is an address of linear memory.
    pub fn in_lin_mem(&self, ptr: SboxPtr) -> (r: bool)
        ensures
            r == (ptr < self.memlen),
    {
        (ptr as usize) < self.memlen
    }

    /// Whether `ptr` is an address of linear memory.
    pub fn in_lin_mem_usize(&self, ptr: usize) -> (r: bool)
        ensures
            r == (ptr < self.memlen),
    {
        ptr < self.memlen
    }

    /// Whether the `cnt` bytes at the sandbox address `buf` lie in linear
    /// memory.
    pub fn fits_in_lin_mem(&self, buf: SboxPtr, cnt: u32) -> (r: bool)
        requires
            self.wf(),
        ensures
            r == self.fits(buf as int, cnt as int),
    {
        let total_size: u64 = (buf as u64) + (cnt as u64);
        if total_size > self.memlen as u64 || total_size > LINEAR_MEM_SIZE as u64 {
            return false;
        }
        self.in_lin_mem(buf) && self.in_lin_mem(cnt) && buf <= buf + cnt
    }

    /// Whether the `cnt` bytes at `buf` lie in linear memory. A sum that
    /// does not fit in a `usize` cannot lie in linear memory either.
    pub fn fits_in_lin_mem_usize(&self, buf: usize, cnt: usize) -> (r: bool)
        requires
            self.wf(),
        ensures
            r == self.fits(buf as int, cnt as int),
    {
        let total_size = match buf.checked_add(cnt) {
            Some(t) => t,
            None => return false,
        };
        if total_size > self.memlen || total_size > LINEAR_MEM_SIZE {
            return false;
        }
        self.in_lin_mem_usize(buf) && self.in_lin_mem_usize(cnt) && buf <= buf + cnt
    }

    /// Reads a little-endian `u16` from linear memory.
    pub fn read_u16(&self, start: usize) -> (r: u16)
        requires
            self.wf(),
            self.fits(start as int, 2),
        ensures
            r == spec_u16_from_le_bytes(self.bytes_at(start as int, 2)),
    {
        u16_from_le_bytes(slice_subrange(self.mem.as_slice(), start, start + 2))
    }

    /// Reads a little-endian `u32` from linear memory.
    pub fn read_u32(&self, start: usize) -> (r: u32)
        requires
            self.wf(),
            self.fits(start as int, 4),
        ensures
            r == spec_u32_from_le_bytes(self.bytes_at(start as int, 4)),
    {
        u32_from_le_bytes(slice_subrange(self.mem.as_slice(), start, start + 4))
    }

    /// Reads a little-endian `u64` from linear memory.
    pub fn read_u64(&self, start: usize) -> (r: u64)
        requires
            self.wf(),
            self.fits(start as int, 8),
        ensures
            r == spec_u64_from_le_bytes(self.bytes_at(start as int, 8)),
    {
        u64_from_le_bytes(slice_subrange(self.mem.as_slice(), start, start + 8))
    }

    /// Reads the two consecutive little-endian `u32`s at `start`, as a
    /// WASI `iovec` or `ciovec` is laid out; fails with `Eoverflow` if they
    /// do not lie in linear memory.
    pub fn read_u32_pair(&self, start: usize) -> (r: RuntimeResult<(u32, u32)>)
        requires
            self.wf(),
        ensures
            r == (if self.fits(start as int, 8) {
                Ok::<(u32, u32), RuntimeError>((
                    spec_u32_from_le_bytes(self.bytes_at(start as int, 4)),
                    spec_u32_from_le_bytes(self.bytes_at(start + 4, 4)),
                ))
            } else {
                Err(RuntimeError::Eoverflow)
            }),
    {
        if !self.fits_in_lin_mem_usize(start, 8) {
            return Err(RuntimeError::Eoverflow);
        }
        let ptr = self.read_u32(start);
        let len = self.read_u32(start + 4);
        Ok((ptr, len))
    }

    /// Copies `bytes` to linear memory at `start`.
    fn write_slice(&mut self, start: usize, bytes: &[u8])
        requires
            old(self).wf(),
            start + bytes@.len() <= old(self).memlen,
        ensures
            final(self).wf(),
            final(self).same_but_mem(old(self)),
            final(self).mem@ == write_bytes(old(self).mem@, start as int, bytes@),
    {
        let mut i: usize = 0;
        while i < bytes.len()
            invariant
                self.wf(),
                self.same_but_mem(old(self)),
                start + bytes@.len() <= self.memlen,
                i <= bytes@.len(),
                self.mem@.len() == old(self).mem@.len(),
                forall|j: int| 0 <= j < self.mem@.len() && !(start <= j < start + i) ==> #[trigger] self.mem@[j] == old(self).mem@[j],
                forall|j: int| start <= j < start + i ==> #[trigger] self.mem@[j] == bytes@[j - start],
            decreases bytes@.len() - i,
        {
            let b = bytes[i];
            self.mem.set(start + i, b);
            i += 1;
        }
        assert(self.mem@ =~= write_bytes(old(self).mem@, start as int, bytes@));
    }

    /// Writes `v` to linear memory at `start`, little-endian.
    pub fn write_u16(&mut self, start: usize, v: u16)
        requires
            old(self).wf(),
            old(self).fits(start as int, 2),
        ensures
            final(self).wf(),
            final(self).same_but_mem(old(self)),
            final(self).mem@ == write_bytes(old(self).mem@, start as int, spec_u16_to_le_bytes(v)),
    {
        let bytes = u16_to_le_bytes(v);
        self.write_slice(start, bytes.as_slice());
    }

    /// Writes `v` to linear memory at `start`, little-endian.
    pub fn write_u32(&mut self, start: usize, v: u32)
        requires
            old(self).wf(),
            old(self).fits(start as int, 4),
        ensures
            final(self).wf(),
            final(self).same_but_mem(old(self)),
            final(self).mem@ == write_bytes(old(self).mem@, start as int, spec_u32_to_le_bytes(v)),
    {
        let bytes = u32_to_le_bytes(v);
        self.write_slice(start, bytes.as_slice());
    }

    /// Writes `v` to linear memory at `start`, little-endian.
    pub fn write_u64(&mut self, start: usize, v: u64)
        requires
            old(self).wf(),
            old(self).fits(start as int, 8),
        ensures
            final(self).wf(),
            final(self).same_but_mem(old(self)),
            final(self).mem@ == write_bytes(old(self).mem@, start as int, spec_u64_to_le_bytes(v)),
    {
        let bytes = u64_to_le_bytes(v);
        self.write_slice(start, bytes.as_slice());
    }

    /// Copies `n` bytes of linear memory at `src` into `dst`, which then
    /// holds exactly those bytes.
    pub fn memcpy_from_sandbox(&self, dst: &mut Vec<u8>, src: SboxPtr, n: u32)
        requires
            self.wf(),
            src + n <= self.memlen,
        ensures
            final(dst)@ == self.bytes_at(src as int, n as int),
    {
        dst.clear();
        let mut i: u32 = 0;
        while i < n
            invariant
                self.wf(),
                src + n <= self.memlen,
                i <= n,
                dst@ == self.bytes_at(src as int, i as int),
            decreases n - i,
        {
            dst.push(self.mem[src as usize + i as usize]);
            i += 1;
            assert(dst@ =~= self.bytes_at(src as int, i as int));
        }
        assert(dst@ =~= self.bytes_at(src as int, n as int));
    }

    /// Copies the first `n` bytes of `src` to linear memory at `dst`.
    pub fn memcpy_to_sandbox(&mut self, dst: SboxPtr, src: &Vec<u8>, n: u32)
        requires
            old(self).wf(),
            dst + n <= old(self).memlen,
            n <= src@.len(),
        ensures
            final(self).wf(),
            final(self).same_but_mem(old(self)),
            final(self).mem@ == write_bytes(old(self).mem@, dst as int, src@.subrange(0, n as int)),
    {
        self.write_slice(dst as usize, slice_subrange(src.as_slice(), 0, n as usize));
    }

    /// Copies `n` bytes of linear memory at `src` to the host.
    pub fn copy_buf_from_sandbox(&self, src: SboxPtr, n: u32) -> (r: Vec<u8>)
        requires
            self.wf(),
            self.fits(src as int, n as int),
        ensures
            r@ == self.bytes_at(src as int, n as int),
    {
        let mut host_buffer: Vec<u8> = Vec::new();
        self.memcpy_from_sandbox(&mut host_buffer, src, n);
        host_buffer
    }

    /// Copies the first `n` bytes of `src` to linear memory at `dst`; does
    /// nothing and gives `None` if `src` is shorter or the bytes would not
    /// lie in linear memory.
    pub fn copy_buf_to_sandbox(&mut self, dst: SboxPtr, src: &Vec<u8>, n: u32) -> (r: Option<()>)
        requires
            old(self).wf(),
        ensures
            final(self).wf(),
            final(self).same_but_mem(old(self)),
            r == (if src@.len() < n || !old(self).fits(dst as int, n as int) {
                None::<()>
            } else {
                Some(())
            }),
            r is None ==> final(self).mem == old(self).mem,
            r is Some ==> final(self).mem@ == write_bytes(old(self).mem@, dst as int, src@.subrange(0, n as int)),
    {
        if src.len() < n as usize || !self.fits_in_lin_mem(dst, n) {
            return None;
        }
        self.memcpy_to_sandbox(dst, src, n);
        Some(())
    }

    /// Copies the argument buffer, `n` bytes long, to linear memory at `dst`.
    pub fn copy_arg_buffer_to_sandbox(&mut self, dst: SboxPtr, n: u32) -> (r: Option<()>)
        requires
            old(self).wf(),
            old(self).arg_buffer@.len() == n,
        ensures
            final(self).wf(),
            final(self).same_but_mem(old(self)),
            r == (if old(self).fits(dst as int, n as int) { Some(()) } else { None::<()> }),
            r is None ==> final(self).mem == old(self).mem,
            r is Some ==> final(self).mem@ == write_bytes(old(self).mem@, dst as int, old(self).arg_buffer@),
    {
        if !self.fits_in_lin_mem(dst, n) {
            return None;
        }
        let arg_buffer = self.arg_buffer.clone();
        self.memcpy_to_sandbox(dst, &arg_buffer, n);
        assert(arg_buffer@.subrange(0, n as int) =~= arg_buffer@);
        Some(())
    }

    /// Copies the environment buffer, `n` bytes long, to linear memory at
    /// `dst`.
    pub fn copy_environ_buffer_to_sandbox(&mut self, dst: SboxPtr, n: u32) -> (r: Option<()>)
        requires
            old(self).wf(),
            old(self).env_buffer@.len() == n,
        ensures
            final(self).wf(),
            final(self).same_but_mem(old(self)),
            r == (if old(self).fits(dst as int, n as int) { Some(()) } else { None::<()> }),
            r is None ==> final(self).mem == old(self).mem,
            r is Some ==> final(self).mem@ == write_bytes(old(self).mem@, dst as int, old(self).env_buffer@),
    {
        if !self.fits_in_lin_mem(dst, n) {
            return None;
        }
        let env_buffer = self.env_buffer.clone();
        self.memcpy_to_sandbox(dst, &env_buffer, n);
        assert(env_buffer@.subrange(0, n as int) =~= env_buffer@);
        Some(())
    }

    /// Starts resolving the sandbox path of `path_len` bytes at `path`
    /// against the home directory; fails with `Eoverflow` if the path
    /// does not lie in linear memory.
    pub fn translate_path(&self, path: SboxPtr, path_len: u32, should_follow: bool) -> (r: RuntimeResult<PathExpander>)
        requires
            self.wf(),
        ensures
            translated(self, path, path_len, should_follow, r),
    {
        if !self.fits_in_lin_mem(path, path_len) {
            return Err(RuntimeError::Eoverflow);
        }
        let host_buffer = self.copy_buf_from_sandbox(path, path_len);
        Ok(PathExpander::new(host_buffer.as_slice(), should_follow))
    }

    /// The bytes of the home directory's name.
    pub fn get_homedir(&self) -> (r: Vec<u8>)
        ensures
            r@ == vstd::utf8::encode_utf8(self.homedir@),
    {
        vstd::slice::slice_to_vec(self.homedir.as_str().as_bytes())
    }

    /// Whether entry `n` of the allow-list is (`proto`, `addr`, `port`).
    pub fn matches_netlist_entry(&self, proto: WasiProto, addr: u32, port: u32, n: usize) -> (r: bool)
        requires
            n < 4,
        ensures
            r == (self.netlist@[n as int].protocol == proto && self.netlist@[n as int].addr == addr
                && self.netlist@[n as int].port == port),
    {
        self.netlist[n].protocol == proto && self.netlist[n].addr == addr && self.netlist[n].port == port
    }

    /// Whether (`proto`, `addr`, `port`) is on the allow-list.
    pub fn in_netlist(&self, proto: WasiProto, addr: u32, port: u32) -> (r: bool)
        ensures
            r == exists|n: int| 0 <= n < 4 && #[trigger] self.netlist@[n] == (crate::types::NetEndpoint { protocol: proto, addr, port }),
    {
        let mut n: usize = 0;
        while n < 4
            invariant
                n <= 4,
                forall|j: int| 0 <= j < n ==> self.netlist@[j] != (crate::types::NetEndpoint { protocol: proto, addr, port }),
            decreases 4 - n,
        {
            if self.matches_netlist_entry(proto, addr, port, n) {
                assert(self.netlist@[n as int] == (crate::types::NetEndpoint { protocol: proto, addr, port }));
                return true;
            }
            n += 1;
        }
        false
    }

    /// Whether (`addr`, `port`) is on the allow-list, whatever the protocol.
    pub fn addr_in_netlist(&self, addr: u32, port: u32) -> (r: bool)
        ensures
            r == spec_addr_in_netlist(self.netlist, addr, port),
    {
        addr_in_netlist(&self.netlist, addr, port)
    }
}

/// `buf` with every space replaced by a zero byte.
pub open spec fn spaces_to_nul(buf: Seq<u8>) -> Seq<u8> {
    buf.map_values(|b: u8| if b == 32u8 { 0u8 } else { b })
}

/// Replaces every space of `buf` with a zero byte, so that the buffer
/// holds zero-separated words.
pub fn space_to_nul(buf: &mut Vec<u8>)
    ensures
        final(buf)@ == spaces_to_nul(old(buf)@),
{
    let mut i: usize = 0;
    while i < buf.len()
        invariant
            i <= buf@.len(),
            buf@.len() == old(buf)@.len(),
            forall|j: int| 0 <= j < i ==> #[trigger] buf@[j] == (if old(buf)@[j] == 32u8 { 0u8 } else { old(buf)@[j] }),
            forall|j: int| i <= j < buf@.len() ==> #[trigger] buf@[j] == old(buf)@[j],
        decreases buf@.len() - i,
    {
        if buf[i] == 32u8 {
            buf.set(i, 0u8);
        }
        i += 1;
    }
    assert(buf@ =~= spaces_to_nul(old(buf)@));
}

/// A context over the linear memory `mem`: the host's standard streams and
/// the home directory (`homedir_host_fd`, opened by the caller) get sandbox
/// descriptors, and the spaces of the argument and environment buffers
/// become zero separators.
pub fn create_ctx(
    mem: Vec<u8>,
    homedir: String,
    homedir_host_fd: usize,
    std_fds: (i32, i32, i32),
    arg_buffer: Vec<u8>,
    argc: usize,
    env_buffer: Vec<u8>,
    envc: usize,
    netlist: Netlist,
) -> (r: VmCtx)
    requires
        mem@.len() <= LINEAR_MEM_SIZE,
    ensures
        r.wf(),
        r.fdmap.slots_sound(),
        r.mem == mem,
        r.memlen == mem@.len(),
        r.homedir == homedir,
        r.homedir_host_fd == HostFd(homedir_host_fd),
        r.arg_buffer@ == spaces_to_nul(arg_buffer@),
        r.argc == argc,
        r.env_buffer@ == spaces_to_nul(env_buffer@),
        r.envc == envc,
        r.netlist == netlist,
        std_fds.0 >= 0 && std_fds.1 >= 0 && std_fds.2 >= 0 ==> {
            &&& r.fdmap.lookup(0) == Ok::<HostFd, RuntimeError>(HostFd(std_fds.0 as usize))
            &&& r.fdmap.lookup(1) == Ok::<HostFd, RuntimeError>(HostFd(std_fds.1 as usize))
            &&& r.fdmap.lookup(2) == Ok::<HostFd, RuntimeError>(HostFd(std_fds.2 as usize))
            &&& r.fdmap.lookup(3) == Ok::<HostFd, RuntimeError>(HostFd(homedir_host_fd))
        },
{
    let mut fdmap = FdMap::new();
    let _ = fdmap.init_std_fds(std_fds.0, std_fds.1, std_fds.2);
    let _ = fdmap.create(HostFd::from_raw(homedir_host_fd));
    let mut arg_buffer = arg_buffer;
    let mut env_buffer = env_buffer;
    space_to_nul(&mut arg_buffer);
    space_to_nul(&mut env_buffer);
    let memlen = mem.len();
    VmCtx {
        mem,
        memlen,
        fdmap,
        homedir,
        homedir_host_fd: HostFd::from_raw(homedir_host_fd),
        arg_buffer,
        argc,
        env_buffer,
        envc,
        netlist,
    }
}

/// Whether a table holds exactly the standard streams `std_fds` (if the
/// host reported all three) and then the home directory `homedir_fd` (if
/// the host opened it), each at the next slot, and nothing else.
pub open spec fn fresh_table(t: FdMap, std_fds: (i32, i32, i32), homedir_fd: i32) -> bool {
    let std_ok = std_fds.0 >= 0 && std_fds.1 >= 0 && std_fds.2 >= 0;
    let n_std: int = if std_ok { 3 } else { 0 };
    &&& t.counter == n_std + (if homedir_fd > 0 { 1int } else { 0int })
    &&& t.reserve@.len() == 0
    &&& std_ok ==> {
        &&& t.lookup(0) == Ok::<HostFd, RuntimeError>(HostFd(std_fds.0 as usize))
        &&& t.lookup(1) == Ok::<HostFd, RuntimeError>(HostFd(std_fds.1 as usize))
        &&& t.lookup(2) == Ok::<HostFd, RuntimeError>(HostFd(std_fds.2 as usize))
    }
    &&& homedir_fd > 0 ==> t.lookup(n_std as u32) == Ok::<HostFd, RuntimeError>(HostFd(homedir_fd as usize))
    &&& forall|i: int| t.counter <= i < MAX_SBOX_FDS ==> #[trigger] t.m@[i] == Err::<HostFd, RuntimeError>(RuntimeError::Ebadf)
    &&& forall|i: int| 0 <= i < MAX_SBOX_FDS ==> #[trigger] t.sockinfo@[i] == Err::<WasiProto, RuntimeError>(RuntimeError::Enotsock)
}

/// A context with a zeroed linear memory of the full size, no arguments,
/// no environment and an empty allow-list. The host's standard streams
/// get sandbox descriptors 0, 1 and 2 if the host reported all three, and
/// the home directory the next one if the host opened it
/// (`homedir_fd > 0`).
pub fn fresh_ctx(homedir: String, homedir_fd: i32, std_fds: (i32, i32, i32)) -> (r: VmCtx)
    ensures
        r.wf(),
        r.fdmap.slots_sound(),
        r.memlen == LINEAR_MEM_SIZE,
        forall|i: int| 0 <= i < LINEAR_MEM_SIZE ==> r.mem@[i] == 0u8,
        r.homedir == homedir,
        r.homedir_host_fd == HostFd(if homedir_fd > 0 { homedir_fd as usize } else { 0 }),
        r.arg_buffer@.len() == 0,
        r.argc == 0,
        r.env_buffer@.len() == 0,
        r.envc == 0,
        forall|n: int| 0 <= n < 4 ==> r.netlist@[n] == (NetEndpoint { protocol: WasiProto::Unknown, addr: 0, port: 0 }),
        fresh_table(r.fdmap, std_fds, homedir_fd),
{
    let memlen = LINEAR_MEM_SIZE;
    let mem = vec![0u8; memlen];
    let mut fdmap = FdMap::new();
    let _ = fdmap.init_std_fds(std_fds.0, std_fds.1, std_fds.2);
    let ghost t1 = fdmap;
    if homedir_fd > 0 {
        let _ = fdmap.create(HostFd::from_raw(homedir_fd as usize));
    }
    proof {
        assert forall|i: int| fdmap.counter <= i < MAX_SBOX_FDS implies #[trigger] fdmap.m@[i]
            == Err::<HostFd, RuntimeError>(RuntimeError::Ebadf) by {
            assert(t1.m@[i] == Err::<HostFd, RuntimeError>(RuntimeError::Ebadf));
        }
    }
    let homedir_host_fd = HostFd::from_raw(if homedir_fd > 0 { homedir_fd as usize } else { 0 });
    VmCtx {
        mem,
        memlen,
        fdmap,
        homedir,
        homedir_host_fd,
        arg_buffer: Vec::new(),
        argc: 0,
        env_buffer: Vec::new(),
        envc: 0,
        netlist: empty_netlist(),
    }
}

/// Points the sandbox's standard output at the host descriptor
/// `new_stdout`.
pub fn redirect_stdout(ctx: &mut VmCtx, new_stdout: i32)
    requires
        old(ctx).wf(),
    ensures
        final(ctx).wf(),
        final(ctx).fdmap.m@ == old(ctx).fdmap.m@.update(1, Ok(HostFd(new_stdout as usize))),
        final(ctx).fdmap.sockinfo == old(ctx).fdmap.sockinfo,
        final(ctx).fdmap.reserve == old(ctx).fdmap.reserve,
        final(ctx).fdmap.counter == old(ctx).fdmap.counter,
        final(ctx).mem == old(ctx).mem,
        final(ctx).same_but_fdmap(old(ctx)),
{
    ctx.fdmap.m.set(1, Ok(HostFd::from_raw(new_stdout as usize)));
}

/// Appends an argument; arguments are separated by a zero byte.
pub fn add_arg(ctx: &mut VmCtx, arg: String)
    requires
        old(ctx).argc < usize::MAX,
    ensures
        final(ctx).argc == old(ctx).argc + 1,
        final(ctx).arg_buffer@ == (if old(ctx).argc != 0 {
            old(ctx).arg_buffer@.push(0u8)
        } else {
            old(ctx).arg_buffer@
        }) + vstd::utf8::encode_utf8(arg@),
        final(ctx).env_buffer == old(ctx).env_buffer,
        final(ctx).envc == old(ctx).envc,
        final(ctx).mem == old(ctx).mem,
        final(ctx).memlen == old(ctx).memlen,
        final(ctx).fdmap == old(ctx).fdmap,
        final(ctx).homedir == old(ctx).homedir,
        final(ctx).homedir_host_fd == old(ctx).homedir_host_fd,
        final(ctx).netlist == old(ctx).netlist,
{
    if ctx.argc != 0 {
        ctx.arg_buffer.push(0);
    }
    ctx.argc += 1;
    ctx.arg_buffer.extend_from_slice(arg.as_str().as_bytes());
}

/// Appends an environment variable; variables are separated by a zero
/// byte.
pub fn add_env_var(ctx: &mut VmCtx, env_var: String)
    requires
        old(ctx).envc < usize::MAX,
    ensures
        final(ctx).envc == old(ctx).envc + 1,
        final(ctx).env_buffer@ == (if old(ctx).envc != 0 {
            old(ctx).env_buffer@.push(0u8)
        } else {
            old(ctx).env_buffer@
        }) + vstd::utf8::encode_utf8(env_var@),
        final(ctx).arg_buffer == old(ctx).arg_buffer,
        final(ctx).argc == old(ctx).argc,
        final(ctx).mem == old(ctx).mem,
        final(ctx).memlen == old(ctx).memlen,
        final(ctx).fdmap == old(ctx).fdmap,
        final(ctx).homedir == old(ctx).homedir,
        final(ctx).homedir_host_fd == old(ctx).homedir_host_fd,
        final(ctx).netlist == old(ctx).netlist,
{
    if ctx.envc != 0 {
        ctx.env_buffer.push(0);
    }
    ctx.envc += 1;
    ctx.env_buffer.extend_from_slice(env_var.as_str().as_bytes());
}

/// A value written to linear memory reads back unchanged, and the bytes
/// outside the written range keep their values.
pub proof fn lemma_write_then_read_u32(mem: Seq<u8>, start: int, v: u32, other: int)
    requires
        0 <= start,
        start + 4 <= mem.len(),
        0 <= other < mem.len(),
        !(start <= other < start + 4),
    ensures
        write_bytes(mem, start, spec_u32_to_le_bytes(v)).len() == mem.len(),
        spec_u32_from_le_bytes(write_bytes(mem, start, spec_u32_to_le_bytes(v)).subrange(start, start + 4)) == v,
        write_bytes(mem, start, spec_u32_to_le_bytes(v))[other] == mem[other],
{
    lemma_auto_spec_u32_to_from_le_bytes();
    let w = write_bytes(mem, start, spec_u32_to_le_bytes(v));
    assert(w.subrange(start, start + 4) =~= spec_u32_to_le_bytes(v));
}

/// A `u16` written to linear memory reads back unchanged.
pub proof fn lemma_write_then_read_u16(mem: Seq<u8>, start: int, v: u16)
    requires
        0 <= start,
        start + 2 <= mem.len(),
    ensures
        spec_u16_from_le_bytes(write_bytes(mem, start, spec_u16_to_le_bytes(v)).subrange(start, start + 2)) == v,
{
    lemma_auto_spec_u16_to_from_le_bytes();
    let w = write_bytes(mem, start, spec_u16_to_le_bytes(v));
    assert(w.subrange(start, start + 2) =~= spec_u16_to_le_bytes(v));
}

/// A `u64` written to linear memory reads back unchanged.
pub proof fn lemma_write_then_read_u64(mem: Seq<u8>, start: int, v: u64)
    requires
        0 <= start,
        start + 8 <= mem.len(),
    ensures
        spec_u64_from_le_bytes(write_bytes(mem, start, spec_u64_to_le_bytes(v)).subrange(start, start + 8)) == v,
{
    lemma_auto_spec_u64_to_from_le_bytes();
    let w = write_bytes(mem, start, spec_u64_to_le_bytes(v));
    assert(w.subrange(start, start + 8) =~= spec_u64_to_le_bytes(v));
}

} // verus!
