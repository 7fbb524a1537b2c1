//! The table that maps sandbox descriptors to host descriptors.
use vstd::prelude::*;
use crate::error::{RuntimeError, RuntimeResult};
use crate::types::{HostFd, SboxFd, WasiProto, MAX_SBOX_FDS};

verus! {

/// Sandbox descriptors `0..MAX_SBOX_FDS` and the host descriptors they
/// stand for. Slots that were freed are kept in `reserve` and handed out
/// again before fresh ones; `counter` is the first slot never handed out.
#[derive(PartialEq, Eq, Debug)]
pub struct FdMap {
    pub m: Vec<RuntimeResult<HostFd>>,
    pub sockinfo: Vec<RuntimeResult<WasiProto>>,
    pub reserve: Vec<SboxFd>,
    pub counter: SboxFd,
}

impl FdMap {
    /// Both tables have one slot per sandbox descriptor, and every slot
    /// kept for reuse is one of them.
    pub open spec fn wf(&self) -> bool {
        &&& self.m@.len() == MAX_SBOX_FDS
        &&& self.sockinfo@.len() == MAX_SBOX_FDS
        &&& self.counter <= MAX_SBOX_FDS
        &&& forall|i: int| 0 <= i < self.reserve@.len() ==> #[trigger] self.reserve@[i] < MAX_SBOX_FDS
    }

    /// What the sandbox descriptor `v_fd` stands for.
    pub open spec fn lookup(&self, v_fd: SboxFd) -> RuntimeResult<HostFd> {
        if v_fd < MAX_SBOX_FDS {
            self.m@[v_fd as int]
        } else {
            Err(RuntimeError::Ebadf)
        }
    }

    /// The bookkeeping of free slots is sound: every slot kept for reuse is
    /// free and kept once, and no slot from `counter` on was ever used.
    pub open spec fn slots_sound(&self) -> bool {
        &&& forall|i: int| 0 <= i < self.reserve@.len() ==> self.m@[#[trigger] self.reserve@[i] as int] is Err
            && self.reserve@[i] < self.counter
        &&& forall|i: int, j: int| 0 <= i < j < self.reserve@.len() ==> #[trigger] self.reserve@[i] != #[trigger] self.reserve@[j]
        &&& forall|i: int| self.counter <= i < MAX_SBOX_FDS ==> #[trigger] self.m@[i] is Err
    }

    /// The next slot `create` hands out, if any.
    pub open spec fn next_slot(&self) -> Option<SboxFd> {
        if self.reserve@.len() > 0 {
            Some(self.reserve@.last())
        } else if self.counter < MAX_SBOX_FDS {
            Some(self.counter)
        } else {
            None
        }
    }

    /// An empty table.
    pub fn new() -> (r: FdMap)
        ensures
            r.wf(),
            r.slots_sound(),
            r.counter == 0,
            r.reserve@.len() == 0,
            forall|i: int| 0 <= i < MAX_SBOX_FDS ==> r.m@[i] == Err::<HostFd, RuntimeError>(RuntimeError::Ebadf),
            forall|i: int| 0 <= i < MAX_SBOX_FDS ==> r.sockinfo@[i] == Err::<WasiProto, RuntimeError>(RuntimeError::Enotsock),
    {
        let mut m: Vec<RuntimeResult<HostFd>> = Vec::new();
        let mut sockinfo: Vec<RuntimeResult<WasiProto>> = Vec::new();
        let mut i: u32 = 0;
        while i < MAX_SBOX_FDS
            invariant
                i <= MAX_SBOX_FDS,
                m@.len() == i,
                sockinfo@.len() == i,
                forall|j: int| 0 <= j < i ==> m@[j] == Err::<HostFd, RuntimeError>(RuntimeError::Ebadf),
                forall|j: int| 0 <= j < i ==> sockinfo@[j] == Err::<WasiProto, RuntimeError>(RuntimeError::Enotsock),
            decreases MAX_SBOX_FDS - i,
        {
            m.push(Err(RuntimeError::Ebadf));
            sockinfo.push(Err(RuntimeError::Enotsock));
            i += 1;
        }
        FdMap { m, sockinfo, reserve: Vec::new(), counter: 0 }
    }

    /// Installs the host's standard input, output and error as sandbox
    /// descriptors; fails with `Emfile` if the host reported one of them
    /// as missing (negative).
    pub fn init_std_fds(&mut self, stdin_fd: i32, stdout_fd: i32, stderr_fd: i32) -> (r: RuntimeResult<()>)
        requires
            old(self).wf(),
        ensures
            final(self).wf(),
            r == (if stdin_fd >= 0 && stdout_fd >= 0 && stderr_fd >= 0 {
                Ok(())
            } else {
                Err(RuntimeError::Emfile)
            }),
            !(stdin_fd >= 0 && stdout_fd >= 0 && stderr_fd >= 0) ==> *final(self) == *old(self),
            old(self).slots_sound() ==> final(self).slots_sound(),
            (stdin_fd >= 0 && stdout_fd >= 0 && stderr_fd >= 0 && old(self).counter == 0
                && old(self).reserve@.len() == 0) ==> {
                &&& final(self).lookup(0) == Ok::<HostFd, RuntimeError>(HostFd(stdin_fd as usize))
                &&& final(self).lookup(1) == Ok::<HostFd, RuntimeError>(HostFd(stdout_fd as usize))
                &&& final(self).lookup(2) == Ok::<HostFd, RuntimeError>(HostFd(stderr_fd as usize))
                &&& final(self).counter == 3
                &&& final(self).reserve@.len() == 0
                &&& final(self).m@ == old(self).m@.update(0, Ok::<HostFd, RuntimeError>(HostFd(stdin_fd as usize))).update(
                    1,
                    Ok::<HostFd, RuntimeError>(HostFd(stdout_fd as usize)),
                ).update(2, Ok::<HostFd, RuntimeError>(HostFd(stderr_fd as usize)))
                &&& final(self).sockinfo == old(self).sockinfo
            },
    {
        if (stdin_fd >= 0) && (stdout_fd >= 0) && (stderr_fd >= 0) {
            let _ = self.create(HostFd::from_raw(stdin_fd as usize));
            let _ = self.create(HostFd::from_raw(stdout_fd as usize));
            let _ = self.create(HostFd::from_raw(stderr_fd as usize));
            return Ok(());
        }
        Err(RuntimeError::Emfile)
    }

    /// The host descriptor that `v_fd` stands for.
    pub fn fd_to_native(&self, v_fd: SboxFd) -> (r: RuntimeResult<HostFd>)
        requires
            self.wf(),
        ensures
            r == self.lookup(v_fd),
            r is Ok ==> v_fd < MAX_SBOX_FDS,
    {
        if v_fd >= MAX_SBOX_FDS {
            return Err(RuntimeError::Ebadf);
        }
        self.m[v_fd as usize]
    }

    /// Takes the next free slot: a reused one if any, else a fresh one.
    fn pop_fd(&mut self) -> (r: RuntimeResult<SboxFd>)
        requires
            old(self).wf(),
        ensures
            final(self).wf(),
            final(self).m == old(self).m,
            final(self).sockinfo == old(self).sockinfo,
            r == (match old(self).next_slot() {
                Some(s) => Ok(s),
                None => Err(RuntimeError::Emfile),
            }),
            old(self).reserve@.len() > 0 ==> final(self).reserve@ == old(self).reserve@.drop_last()
                && final(self).counter == old(self).counter,
            old(self).reserve@.len() == 0 && old(self).counter < MAX_SBOX_FDS ==> final(self).reserve@
                == old(self).reserve@ && final(self).counter == old(self).counter + 1,
            old(self).next_slot() is None ==> *final(self) == *old(self),
    {
        if self.reserve.len() > 0 {
            let s = self.reserve.pop().unwrap();
            Ok(s)
        } else {
            if self.counter < MAX_SBOX_FDS {
                self.counter += 1;
                return Ok(self.counter - 1);
            }
            Err(RuntimeError::Emfile)
        }
    }

    /// Gives the host descriptor `k` a sandbox descriptor.
    pub fn create(&mut self, k: HostFd) -> (r: RuntimeResult<SboxFd>)
        requires
            old(self).wf(),
        ensures
            final(self).wf(),
            final(self).sockinfo == old(self).sockinfo,
            r == (match old(self).next_slot() {
                Some(s) => Ok(s),
                None => Err(RuntimeError::Emfile),
            }),
            old(self).reserve@.len() > 0 ==> final(self).reserve@ == old(self).reserve@.drop_last()
                && final(self).counter == old(self).counter,
            old(self).reserve@.len() == 0 && old(self).counter < MAX_SBOX_FDS ==> final(self).reserve@
                == old(self).reserve@ && final(self).counter == old(self).counter + 1,
            match r {
                Ok(s) => {
                    &&& s < MAX_SBOX_FDS
                    &&& final(self).m@ == old(self).m@.update(s as int, Ok(k))
                },
                Err(_) => *final(self) == *old(self),
            },
            old(self).slots_sound() ==> final(self).slots_sound() && (r matches Ok(s) ==> old(self).m@[s as int] is Err),
    {
        let s_fd = self.pop_fd()?;
        self.m.set(s_fd as usize, Ok(k));
        proof {
            if old(self).slots_sound() {
                lemma_take_slot(*old(self), *self, s_fd, Ok(k));
            }
        }
        Ok(s_fd)
    }

    /// Gives the host socket `k` a sandbox descriptor and records its
    /// protocol.
    pub fn create_sock(&mut self, k: HostFd, proto: WasiProto) -> (r: RuntimeResult<SboxFd>)
        requires
            old(self).wf(),
        ensures
            final(self).wf(),
            r == (match old(self).next_slot() {
                Some(s) => Ok(s),
                None => Err(RuntimeError::Emfile),
            }),
            old(self).reserve@.len() > 0 ==> final(self).reserve@ == old(self).reserve@.drop_last()
                && final(self).counter == old(self).counter,
            old(self).reserve@.len() == 0 && old(self).counter < MAX_SBOX_FDS ==> final(self).reserve@
                == old(self).reserve@ && final(self).counter == old(self).counter + 1,
            match r {
                Ok(s) => {
                    &&& s < MAX_SBOX_FDS
                    &&& final(self).m@ == old(self).m@.update(s as int, Ok(k))
                    &&& final(self).sockinfo@ == old(self).sockinfo@.update(s as int, Ok(proto))
                },
                Err(_) => *final(self) == *old(self),
            },
            old(self).slots_sound() ==> final(self).slots_sound() && (r matches Ok(s) ==> old(self).m@[s as int] is Err),
    {
        let s_fd = self.pop_fd()?;
        self.m.set(s_fd as usize, Ok(k));
        self.sockinfo.set(s_fd as usize, Ok(proto));
        proof {
            if old(self).slots_sound() {
                lemma_take_slot(*old(self), *self, s_fd, Ok(k));
            }
        }
        Ok(s_fd)
    }

    /// Frees the sandbox descriptor `k`; a slot that was in use is kept
    /// for reuse.
    pub fn delete(&mut self, k: SboxFd)
        requires
            old(self).wf(),
            k < MAX_SBOX_FDS,
        ensures
            final(self).wf(),
            final(self).m@ == old(self).m@.update(k as int, Err(RuntimeError::Ebadf)),
            final(self).sockinfo == old(self).sockinfo,
            final(self).counter == old(self).counter,
            final(self).reserve@ == (if old(self).m@[k as int] is Ok {
                old(self).reserve@.push(k)
            } else {
                old(self).reserve@
            }),
            old(self).slots_sound() ==> final(self).slots_sound(),
    {
        if let Ok(_oldfd) = self.m[k as usize] {
            self.reserve.push(k);
        }
        self.m.set(k as usize, Err(RuntimeError::Ebadf));
    }

    /// Moves the host descriptor of `from` to `to`, leaving `from` free.
    pub fn shift(&mut self, from: SboxFd, to: SboxFd)
        requires
            old(self).wf(),
            from < MAX_SBOX_FDS,
            to < MAX_SBOX_FDS,
        ensures
            final(self).wf(),
            final(self).m@ == (match old(self).m@[from as int] {
                Ok(h) => old(self).m@.update(to as int, Ok(h)),
                Err(_) => old(self).m@,
            }).update(from as int, Err(RuntimeError::Ebadf)),
            final(self).sockinfo == old(self).sockinfo,
            final(self).reserve == old(self).reserve,
            final(self).counter == old(self).counter,
    {
        if let Ok(hostfd) = self.m[from as usize] {
            self.m.set(to as usize, Ok(hostfd));
        }
        self.m.set(from as usize, Err(RuntimeError::Ebadf));
    }
}

/// Handing out the next slot keeps the bookkeeping sound, and the slot
/// handed out was free.
proof fn lemma_take_slot(before: FdMap, after: FdMap, s: SboxFd, v: RuntimeResult<HostFd>)
    requires
        before.wf(),
        before.slots_sound(),
        before.next_slot() == Some(s),
        after.m@ == before.m@.update(s as int, v),
        before.reserve@.len() > 0 ==> after.reserve@ == before.reserve@.drop_last() && after.counter == before.counter,
        before.reserve@.len() == 0 ==> after.reserve@ == before.reserve@ && after.counter == before.counter + 1,
    ensures
        after.slots_sound(),
        before.m@[s as int] is Err,
{
    if before.reserve@.len() > 0 {
        let n = before.reserve@.len() - 1;
        assert(before.reserve@[n] == s);
        assert forall|i: int| 0 <= i < after.reserve@.len() implies after.m@[#[trigger] after.reserve@[i] as int] is Err
            && after.reserve@[i] < after.counter by {
            assert(after.reserve@[i] == before.reserve@[i]);
            assert(before.reserve@[i] != before.reserve@[n]);
        }
        assert forall|i: int, j: int| 0 <= i < j < after.reserve@.len() implies #[trigger] after.reserve@[i] != #[trigger] after.reserve@[j] by {
            assert(after.reserve@[i] == before.reserve@[i]);
            assert(after.reserve@[j] == before.reserve@[j]);
        }
        assert forall|i: int| after.counter <= i < MAX_SBOX_FDS implies #[trigger] after.m@[i] is Err by {
            assert(before.m@[i] is Err);
            assert(s < before.counter);
        }
    } else {
        assert(before.m@[s as int] is Err);
        assert forall|i: int| 0 <= i < after.reserve@.len() implies after.m@[#[trigger] after.reserve@[i] as int] is Err
            && after.reserve@[i] < after.counter by {
        }
    }
}

/// The descriptor `create` hands out stands for the host descriptor it
/// was given, and every other descriptor keeps what it stood for.
pub proof fn lemma_create_then_lookup(before: FdMap, after: FdMap, k: HostFd, s: SboxFd, v: SboxFd)
    requires
        s < MAX_SBOX_FDS,
        after.m@ == before.m@.update(s as int, Ok(k)),
        before.wf(),
    ensures
        after.lookup(s) == Ok::<HostFd, RuntimeError>(k),
        v != s ==> after.lookup(v) == before.lookup(v),
{
}

/// A deleted descriptor is bad, and every other descriptor keeps what it
/// stood for.
pub proof fn lemma_delete_then_lookup(before: FdMap, after: FdMap, k: SboxFd, v: SboxFd)
    requires
        k < MAX_SBOX_FDS,
        after.m@ == before.m@.update(k as int, Err(RuntimeError::Ebadf)),
        before.wf(),
    ensures
        after.lookup(k) == Err::<HostFd, RuntimeError>(RuntimeError::Ebadf),
        v != k ==> after.lookup(v) == before.lookup(v),
{
}

} // verus!
