//! The kernel context: the process registry and the syscall dispatcher.
//!
//! The hosting runtime invokes the dispatcher synchronously, once per
//! syscall, with a process id, a syscall number and six word-sized
//! arguments. The kernel cannot dereference a calling process's memory, so
//! a syscall that carries a buffer is answered in two steps: `syscall`
//! either finishes the call (`SyscallStep::Done`, or `SyscallStep::CopyOut`
//! with the bytes the host must push back into the caller's memory) or asks
//! the host to copy the argument bytes in (`SyscallStep::CopyIn`), after
//! which the host resumes the call through `syscall_continue` with those
//! bytes.

use vstd::prelude::*;

use crate::drivers::DEV_SERIAL;
use crate::vfs::{FdTable, FileDescriptor, MAX_FDS, Vfs, device_of, empty_fds, first_free,
    read_result, write_result};
use crate::{ERR, Fd, NO_SUCH_SYSCALL, OK, Pid, ResultCode, SYS_CLOSE, SYS_IOCTL, SYS_OPEN,
    SYS_READ, SYS_WRITE};
use vstd::string::StringSliceAdditionalSpecFns;
use vstd::utf8::valid_utf8;

verus! {

/// Capacity of the process registry. Slots are never freed: once this many
/// distinct process ids have appeared, further ids fail resolution.
pub const MAX_PROCESSES: usize = 8;

/// One sandboxed process as the kernel sees it: its id and its open
/// descriptors.
pub struct Process {
    pub pid: Pid,
    pub fd_table: FdTable,
}

impl Process {
    /// A fresh process with no open descriptors.
    pub fn new(pid: Pid) -> (r: Process)
        ensures
            r.pid == pid,
            r.fd_table.wf(),
            r.fd_table@ == empty_fds(),
    {
        Process { pid, fd_table: FdTable::new() }
    }
}

/// The slot holding `pid`, scanning from `i`, or -1 if no slot from `i` on
/// holds it.
pub open spec fn find_pid_from(ps: Seq<Option<Process>>, pid: Pid, i: int) -> int
    decreases ps.len() - i,
{
    if i < 0 || i >= ps.len() {
        -1
    } else if ps[i] is Some && ps[i].unwrap().pid == pid {
        i
    } else {
        find_pid_from(ps, pid, i + 1)
    }
}

/// The slot holding `pid`, or -1 if the process has never been seen.
pub open spec fn find_pid(ps: Seq<Option<Process>>, pid: Pid) -> int {
    find_pid_from(ps, pid, 0)
}

/// The lowest empty slot at or after `i`, or -1 if every slot from `i` on is
/// taken.
pub open spec fn first_empty_from(ps: Seq<Option<Process>>, i: int) -> int
    decreases ps.len() - i,
{
    if i < 0 || i >= ps.len() {
        -1
    } else if ps[i] is None {
        i
    } else {
        first_empty_from(ps, i + 1)
    }
}

/// The lowest empty slot, or -1 if the registry is full.
pub open spec fn first_empty(ps: Seq<Option<Process>>) -> int {
    first_empty_from(ps, 0)
}

/// The slot a syscall from `pid` resolves to: the slot already holding it,
/// else the lowest empty slot, else -1 (resolution fails, the syscall
/// fails).
pub open spec fn resolve_idx(ps: Seq<Option<Process>>, pid: Pid) -> int {
    if find_pid(ps, pid) >= 0 {
        find_pid(ps, pid)
    } else {
        first_empty(ps)
    }
}

/// `post` is `pre` with a fresh process for `pid` placed in slot `e` and
/// nothing else touched.
pub open spec fn created_at(
    pre: Seq<Option<Process>>,
    post: Seq<Option<Process>>,
    e: int,
    pid: Pid,
) -> bool {
    &&& post.len() == pre.len()
    &&& 0 <= e < post.len()
    &&& post[e] is Some
    &&& post[e].unwrap().pid == pid
    &&& post[e].unwrap().fd_table@ == empty_fds()
    &&& forall|j: int| 0 <= j < pre.len() && j != e ==> post[j] == pre[j]
}

/// How process resolution for `pid` turns `pre` into `post`: no change when
/// the process exists or when the registry is full; otherwise a fresh
/// process appears in the lowest empty slot.
pub open spec fn resolution(pre: Seq<Option<Process>>, post: Seq<Option<Process>>, pid: Pid) -> bool {
    if find_pid(pre, pid) >= 0 {
        post == pre
    } else if first_empty(pre) >= 0 {
        created_at(pre, post, first_empty(pre), pid)
    } else {
        post == pre
    }
}

/// The descriptor table the resolved process starts the syscall with: its
/// existing table, or a fresh one when the process is created.
pub open spec fn resolved_fds(pre: Seq<Option<Process>>, pid: Pid) -> Seq<Option<FileDescriptor>> {
    if find_pid(pre, pid) >= 0 {
        pre[find_pid(pre, pid)].unwrap().fd_table@
    } else {
        empty_fds()
    }
}

/// `post` is `pre` after a syscall from `pid` that resolved (creating the
/// process if it was new) and left the process's descriptor table equal to
/// `fds`: every other slot is untouched, so no process can observe another's
/// syscall.
pub open spec fn procs_after_op(
    pre: Seq<Option<Process>>,
    post: Seq<Option<Process>>,
    pid: Pid,
    fds: Seq<Option<FileDescriptor>>,
) -> bool {
    let i = resolve_idx(pre, pid);
    &&& post.len() == pre.len()
    &&& 0 <= i < post.len()
    &&& post[i] is Some
    &&& post[i].unwrap().pid == pid
    &&& post[i].unwrap().fd_table@ == fds
    &&& forall|j: int| 0 <= j < pre.len() && j != i ==> post[j] == pre[j]
}

/// What `find_pid_from` means pointwise: it names the first slot holding
/// `pid` at or after `i`, and fails exactly when no such slot exists.
pub proof fn lemma_find_pid_from(ps: Seq<Option<Process>>, pid: Pid, i: int)
    requires
        0 <= i <= ps.len(),
    ensures
        find_pid_from(ps, pid, i) == -1 ==> forall|j: int|
            i <= j < ps.len() ==> !(ps[j] is Some && ps[j].unwrap().pid == pid),
        find_pid_from(ps, pid, i) != -1 ==> {
            let f = find_pid_from(ps, pid, i);
            &&& i <= f < ps.len()
            &&& ps[f] is Some
            &&& ps[f].unwrap().pid == pid
            &&& forall|j: int| i <= j < f ==> !(ps[j] is Some && ps[j].unwrap().pid == pid)
        },
    decreases ps.len() - i,
{
    if i < ps.len() && !(ps[i] is Some && ps[i].unwrap().pid == pid) {
        lemma_find_pid_from(ps, pid, i + 1);
    }
}

/// What `first_empty_from` means pointwise.
pub proof fn lemma_first_empty_from(ps: Seq<Option<Process>>, i: int)
    requires
        0 <= i <= ps.len(),
    ensures
        first_empty_from(ps, i) == -1 ==> forall|j: int| i <= j < ps.len() ==> ps[j] is Some,
        first_empty_from(ps, i) != -1 ==> {
            let f = first_empty_from(ps, i);
            &&& i <= f < ps.len()
            &&& ps[f] is None
            &&& forall|j: int| i <= j < f ==> ps[j] is Some
        },
    decreases ps.len() - i,
{
    if i < ps.len() && ps[i] is Some {
        lemma_first_empty_from(ps, i + 1);
    }
}

/// A registry whose slots below `k` are all taken and whose slots from `k`
/// on are all empty: the shape that `k` distinct first-seen process ids
/// leave behind.
pub open spec fn procs_prefix_taken(ps: Seq<Option<Process>>, k: int) -> bool {
    &&& ps.len() == MAX_PROCESSES
    &&& forall|j: int| 0 <= j < k ==> ps[j] is Some
    &&& forall|j: int| k <= j < MAX_PROCESSES ==> ps[j] is None
}

/// Law: the first `MAX_PROCESSES` distinct process ids each get a slot (and
/// with it an independent descriptor table), and the next distinct id fails
/// resolution — so every syscall it makes fails, whatever its arguments.
/// Starting from the registry `k` distinct ids produce, an unseen id
/// resolves to the fresh slot `k` while the registry is not full, and to no
/// slot at all once it is.
pub proof fn law_process_registration(ps: Seq<Option<Process>>, k: int, pid: Pid)
    requires
        0 <= k <= MAX_PROCESSES,
        procs_prefix_taken(ps, k),
        forall|j: int| 0 <= j < k ==> ps[j].unwrap().pid != pid,
    ensures
        k < MAX_PROCESSES ==> resolve_idx(ps, pid) == k && find_pid(ps, pid) == -1,
        k == MAX_PROCESSES ==> resolve_idx(ps, pid) == -1,
{
    lemma_find_pid_from(ps, pid, 0);
    if find_pid(ps, pid) != -1 {
        let f = find_pid(ps, pid);
        assert(ps[f] is Some && ps[f].unwrap().pid == pid);
        assert(false);
    }
    lemma_first_empty_from(ps, 0);
    if k < MAX_PROCESSES {
        let e = first_empty(ps);
        assert(ps[k] is None);
        assert(e != -1);
        assert(e == k);
    }
}

/// Law: processes are isolated. A syscall from one process never changes
/// another process's slot — in particular, a descriptor opened under one
/// process is never visible under another.
pub proof fn law_process_isolation(
    pre: Seq<Option<Process>>,
    post: Seq<Option<Process>>,
    pid: Pid,
    fds: Seq<Option<FileDescriptor>>,
    j: int,
)
    requires
        procs_after_op(pre, post, pid, fds),
        0 <= j < pre.len(),
        pre[j] is Some,
        pre[j].unwrap().pid != pid,
    ensures
        post[j] == pre[j],
{
    let i = resolve_idx(pre, pid);
    lemma_find_pid_from(pre, pid, 0);
    lemma_first_empty_from(pre, 0);
    assert(j != i);
}

/// The whole kernel context: the VFS with its drivers, and the process
/// registry. It is owned by the hosting runtime and passed into the
/// dispatch entry point, which assumes at most one syscall in flight at a
/// time.
pub struct Kernel {
    vfs: Vfs,
    processes: Vec<Option<Process>>,
}

/// The dispatcher's answer to one syscall invocation.
pub enum SyscallStep {
    /// The call is finished with this result code.
    Done { result: ResultCode },
    /// The call needs `len` bytes copied in from caller-space pointer `src`;
    /// the host performs the copy and resumes through `syscall_continue`.
    CopyIn { src: u32, len: u32 },
    /// The call is finished with this result code, after the host pushes
    /// `bytes` back into the caller's memory at caller-space pointer `dst`.
    CopyOut { dst: u32, bytes: Vec<u8>, result: ResultCode },
}

impl Kernel {
    /// The process registry.
    pub closed spec fn procs(&self) -> Seq<Option<Process>> {
        self.processes@
    }

    /// The VFS state (used to speak of the serial output log).
    pub closed spec fn spec_vfs(&self) -> Vfs {
        self.vfs
    }

    /// The serial device's queued output.
    pub open spec fn serial_log(&self) -> Seq<u8> {
        self.spec_vfs().serial_log()
    }

    /// Registry well-formedness: fixed capacity, every table of full size,
    /// at most one live slot per process id.
    pub open spec fn wf(&self) -> bool {
        &&& self.procs().len() == MAX_PROCESSES
        &&& forall|i: int|
            0 <= i < self.procs().len() && self.procs()[i] is Some
                ==> (#[trigger] self.procs()[i]).unwrap().fd_table.wf()
        &&& forall|i: int, j: int|
            0 <= i < j < self.procs().len() && self.procs()[i] is Some && self.procs()[j] is Some
                ==> (#[trigger] self.procs()[i]).unwrap().pid != (#[trigger] self.procs()[j]).unwrap().pid
    }

    /// A fresh kernel: both devices, an empty serial log, no processes.
    pub fn new() -> (r: Kernel)
        ensures
            r.wf(),
            r.serial_log() == Seq::<u8>::empty(),
            r.procs() == Seq::new(MAX_PROCESSES as nat, |i: int| None::<Process>),
    {
        let mut processes: Vec<Option<Process>> = Vec::new();
        let mut i: usize = 0;
        while i < MAX_PROCESSES
            invariant
                i <= MAX_PROCESSES,
                processes@.len() == i,
                forall|j: int| 0 <= j < i ==> processes@[j] is None,
            decreases MAX_PROCESSES - i,
        {
            processes.push(None);
            i += 1;
        }
        proof {
            assert(processes@ =~= Seq::new(MAX_PROCESSES as nat, |k: int| None::<Process>));
        }
        Kernel { vfs: Vfs::new(), processes }
    }

    /// Resolves `pid` to its registry slot, creating the process in the
    /// lowest empty slot on its first syscall; fails only when the process
    /// is new and the registry is full.
    pub fn get_or_create_process(&mut self, pid: Pid) -> (r: Option<usize>)
        requires
            old(self).wf(),
        ensures
            final(self).wf(),
            final(self).spec_vfs() == old(self).spec_vfs(),
            resolution(old(self).procs(), final(self).procs(), pid),
            r is Some <==> resolve_idx(old(self).procs(), pid) >= 0,
            r matches Some(i) ==> {
                &&& i == resolve_idx(old(self).procs(), pid)
                &&& i < MAX_PROCESSES
                &&& final(self).procs()[i as int] is Some
                &&& final(self).procs()[i as int].unwrap().pid == pid
                &&& final(self).procs()[i as int].unwrap().fd_table@ == resolved_fds(
                    old(self).procs(),
                    pid,
                )
            },
    {
        let ghost pre = self.procs();
        let mut first_empty_idx: Option<usize> = None;
        let mut i: usize = 0;
        while i < MAX_PROCESSES
            invariant
                self == old(self),
                self.wf(),
                pre == self.procs(),
                pre.len() == MAX_PROCESSES,
                i <= MAX_PROCESSES,
                forall|j: int| 0 <= j < i ==> !(pre[j] is Some && pre[j].unwrap().pid == pid),
                match first_empty_idx {
                    Some(e) => e < i && pre[e as int] is None && forall|j: int|
                        0 <= j < e ==> pre[j] is Some,
                    None => forall|j: int| 0 <= j < i ==> pre[j] is Some,
                },
            decreases MAX_PROCESSES - i,
        {
            match &self.processes[i] {
                Some(p) => {
                    if p.pid == pid {
                        proof {
                            lemma_find_pid_from(pre, pid, 0);
                            assert(find_pid(pre, pid) == i);
                        }
                        return Some(i);
                    }
                },
                None => {
                    if first_empty_idx.is_none() {
                        first_empty_idx = Some(i);
                    }
                },
            }
            i += 1;
        }
        proof {
            lemma_find_pid_from(pre, pid, 0);
            assert(find_pid(pre, pid) == -1);
        }
        match first_empty_idx {
            Some(e) => {
                proof {
                    lemma_first_empty_from(pre, 0);
                    assert(first_empty(pre) == e);
                }
                self.processes[e] = Some(Process::new(pid));
                Some(e)
            },
            None => {
                proof {
                    lemma_first_empty_from(pre, 0);
                }
                None
            },
        }
    }

    /// Drains the serial device's queued output for the host glue; the
    /// process registry is untouched.
    pub fn take_serial_output(&mut self) -> (r: Vec<u8>)
        requires
            old(self).wf(),
        ensures
            final(self).wf(),
            r@ == old(self).serial_log(),
            final(self).serial_log() == Seq::<u8>::empty(),
            final(self).procs() == old(self).procs(),
    {
        self.vfs.take_serial_output()
    }

    /// The single syscall entry point: decodes the syscall number, resolves
    /// (or creates) the calling process, resolves the descriptor where one
    /// is named, and either finishes the call or asks the host for the
    /// cross-boundary copy the call needs. Process resolution and descriptor
    /// checks come before any copy, so those failures never cost a copy or a
    /// scratch buffer.
    pub fn syscall(
        &mut self,
        pid: Pid,
        nr: i32,
        a0: i32,
        a1: i32,
        a2: i32,
        _a3: i32,
        _a4: i32,
        _a5: i32,
    ) -> (r: SyscallStep)
        requires
            old(self).wf(),
        ensures
            final(self).wf(),
            // an unrecognized syscall number answers with the distinguished
            // sentinel, never the generic failure code, and changes nothing
            !(nr == SYS_READ || nr == SYS_WRITE || nr == SYS_OPEN || nr == SYS_CLOSE || nr
                == SYS_IOCTL) ==> {
                &&& r == (SyscallStep::Done { result: NO_SUCH_SYSCALL })
                &&& final(self).procs() == old(self).procs()
                &&& final(self).serial_log() == old(self).serial_log()
            },
            // OPEN copies the path bytes in before touching any table; a
            // path length beyond the result-code range cannot be marshaled
            // (exhaustion, fatal for the call)
            nr == SYS_OPEN ==> {
                &&& (a1 as u32 > i32::MAX as u32 ==> r == (SyscallStep::Done { result: ERR }))
                &&& (a1 as u32 <= i32::MAX as u32 ==> r == (SyscallStep::CopyIn {
                    src: a0 as u32,
                    len: a1 as u32,
                }))
                &&& final(self).procs() == old(self).procs()
                &&& final(self).serial_log() == old(self).serial_log()
            },
            // the other recognized calls resolve the process first; a full
            // registry fails the call before any descriptor or copy work
            (nr == SYS_READ || nr == SYS_WRITE || nr == SYS_CLOSE || nr == SYS_IOCTL)
                && resolve_idx(old(self).procs(), pid) < 0 ==> {
                &&& r == (SyscallStep::Done { result: ERR })
                &&& final(self).procs() == old(self).procs()
            },
            (nr == SYS_READ || nr == SYS_CLOSE || nr == SYS_IOCTL || nr == SYS_WRITE)
                ==> final(self).serial_log() == old(self).serial_log(),
            (nr == SYS_READ || nr == SYS_WRITE || nr == SYS_CLOSE || nr == SYS_IOCTL)
                && resolve_idx(old(self).procs(), pid) >= 0 ==> {
                let fds0 = resolved_fds(old(self).procs(), pid);
                let valid = 0 <= a0 < MAX_FDS && fds0[a0 as int] is Some;
                &&& (nr == SYS_CLOSE ==> if 0 <= a0 < MAX_FDS {
                    &&& r == (SyscallStep::Done { result: OK })
                    &&& procs_after_op(
                        old(self).procs(),
                        final(self).procs(),
                        pid,
                        fds0.update(a0 as int, None::<FileDescriptor>),
                    )
                } else {
                    &&& r == (SyscallStep::Done { result: ERR })
                    &&& procs_after_op(old(self).procs(), final(self).procs(), pid, fds0)
                })
                &&& (nr == SYS_IOCTL ==> {
                    &&& r == (SyscallStep::Done { result: ERR })
                    &&& procs_after_op(old(self).procs(), final(self).procs(), pid, fds0)
                })
                &&& (nr == SYS_WRITE ==> {
                    &&& procs_after_op(old(self).procs(), final(self).procs(), pid, fds0)
                    &&& (!valid ==> r == (SyscallStep::Done { result: ERR }))
                    // a scratch buffer beyond the result-code range cannot be
                    // marshaled: exhaustion is fatal for the call
                    &&& (valid && a2 as u32 > i32::MAX as u32 ==> r == (SyscallStep::Done {
                        result: ERR,
                    }))
                    &&& (valid && a2 as u32 <= i32::MAX as u32 ==> r == (SyscallStep::CopyIn {
                        src: a1 as u32,
                        len: a2 as u32,
                    }))
                })
                &&& (nr == SYS_READ ==> {
                    &&& procs_after_op(old(self).procs(), final(self).procs(), pid, fds0)
                    &&& (!valid ==> r == (SyscallStep::Done { result: ERR }))
                    &&& (valid ==> (r matches SyscallStep::CopyOut { dst, bytes, result }
                        && dst == a1 as u32
                        && bytes@ == Seq::new((a2 as u32) as nat, |k: int| 0u8)
                        && result == read_result(fds0[a0 as int].unwrap().dev)))
                })
            },
    {
        let ghost pre = self.procs();
        if nr == SYS_WRITE {
            let idx = match self.get_or_create_process(pid) {
                Some(i) => i,
                None => { return SyscallStep::Done { result: ERR } },
            };
            match &self.processes[idx] {
                Some(p) => match p.fd_table.get(a0) {
                    Some(_desc) => {
                        if a2 as u32 > i32::MAX as u32 {
                            SyscallStep::Done { result: ERR }
                        } else {
                            SyscallStep::CopyIn { src: a1 as u32, len: a2 as u32 }
                        }
                    },
                    None => SyscallStep::Done { result: ERR },
                },
                None => SyscallStep::Done { result: ERR },
            }
        } else if nr == SYS_READ {
            let idx = match self.get_or_create_process(pid) {
                Some(i) => i,
                None => { return SyscallStep::Done { result: ERR } },
            };
            let ghost fds0 = resolved_fds(pre, pid);
            match self.processes[idx].as_mut() {
                Some(p) => match p.fd_table.get_mut(a0) {
                    Some(desc) => {
                        let mut buf = zero_buffer((a2 as u32) as usize);
                        let res = self.vfs.read(desc, &mut buf);
                        proof {
                            assert(fds0.update(a0 as int, fds0[a0 as int]) =~= fds0);
                        }
                        SyscallStep::CopyOut { dst: a1 as u32, bytes: buf, result: res }
                    },
                    None => SyscallStep::Done { result: ERR },
                },
                None => SyscallStep::Done { result: ERR },
            }
        } else if nr == SYS_OPEN {
            if a1 as u32 > i32::MAX as u32 {
                SyscallStep::Done { result: ERR }
            } else {
                SyscallStep::CopyIn { src: a0 as u32, len: a1 as u32 }
            }
        } else if nr == SYS_CLOSE {
            let idx = match self.get_or_create_process(pid) {
                Some(i) => i,
                None => { return SyscallStep::Done { result: ERR } },
            };
            let result = match self.processes[idx].as_mut() {
                Some(p) => p.fd_table.close(a0),
                None => ERR,
            };
            SyscallStep::Done { result }
        } else if nr == SYS_IOCTL {
            let idx = match self.get_or_create_process(pid) {
                Some(i) => i,
                None => { return SyscallStep::Done { result: ERR } },
            };
            match &self.processes[idx] {
                Some(p) => match p.fd_table.get(a0) {
                    Some(desc) => SyscallStep::Done {
                        result: self.vfs.ioctl(desc, a1 as u32, (a2 as u32) as usize),
                    },
                    None => SyscallStep::Done { result: ERR },
                },
                None => SyscallStep::Done { result: ERR },
            }
        } else {
            SyscallStep::Done { result: NO_SUCH_SYSCALL }
        }
    }

    /// Resumes a call that needed bytes copied in from the caller's memory:
    /// the payload of a WRITE, or the path argument of an OPEN. The host
    /// glue calls this with exactly the bytes the `SyscallStep::CopyIn`
    /// answer named.
    pub fn syscall_continue(
        &mut self,
        pid: Pid,
        nr: i32,
        a0: i32,
        a1: i32,
        a2: i32,
        data: &[u8],
    ) -> (r: ResultCode)
        requires
            old(self).wf(),
            nr == SYS_WRITE || nr == SYS_OPEN,
            nr == SYS_WRITE ==> data@.len() <= i32::MAX,
        ensures
            final(self).wf(),
            nr == SYS_WRITE ==> {
                &&& (resolve_idx(old(self).procs(), pid) < 0 ==> r == ERR
                    && final(self).procs() == old(self).procs()
                    && final(self).serial_log() == old(self).serial_log())
                &&& (resolve_idx(old(self).procs(), pid) >= 0 ==> {
                    let fds0 = resolved_fds(old(self).procs(), pid);
                    let valid = 0 <= a0 < MAX_FDS && fds0[a0 as int] is Some;
                    &&& procs_after_op(old(self).procs(), final(self).procs(), pid, fds0)
                    &&& (!valid ==> r == ERR && final(self).serial_log() == old(self).serial_log())
                    &&& (valid ==> {
                        let dev = fds0[a0 as int].unwrap().dev;
                        &&& r == write_result(dev, data@.len())
                        &&& final(self).serial_log() == if dev == DEV_SERIAL {
                            old(self).serial_log() + data@
                        } else {
                            old(self).serial_log()
                        }
                    })
                })
            },
            nr == SYS_OPEN ==> {
                &&& final(self).serial_log() == old(self).serial_log()
                &&& (!valid_utf8(data@) ==> r == ERR && final(self).procs() == old(self).procs())
                &&& (valid_utf8(data@) ==> {
                    &&& (resolve_idx(old(self).procs(), pid) < 0 ==> r == ERR
                        && final(self).procs() == old(self).procs())
                    &&& (resolve_idx(old(self).procs(), pid) >= 0 ==> {
                        let fds0 = resolved_fds(old(self).procs(), pid);
                        match device_of(data@) {
                            None => r == ERR && procs_after_op(
                                old(self).procs(),
                                final(self).procs(),
                                pid,
                                fds0,
                            ),
                            Some(dev) => {
                                let f = first_free(fds0);
                                if f == ERR {
                                    r == ERR && procs_after_op(
                                        old(self).procs(),
                                        final(self).procs(),
                                        pid,
                                        fds0,
                                    )
                                } else {
                                    r == f as Fd && procs_after_op(
                                        old(self).procs(),
                                        final(self).procs(),
                                        pid,
                                        fds0.update(
                                            f,
                                            Some(
                                                FileDescriptor {
                                                    dev,
                                                    inode: 0,
                                                    offset: 0,
                                                    flags: a2 as u32,
                                                },
                                            ),
                                        ),
                                    )
                                }
                            },
                        }
                    })
                })
            },
    {
        let ghost pre = self.procs();
        if nr == SYS_WRITE {
            let idx = match self.get_or_create_process(pid) {
                Some(i) => i,
                None => { return ERR },
            };
            let ghost fds0 = resolved_fds(pre, pid);
            match self.processes[idx].as_mut() {
                Some(p) => match p.fd_table.get_mut(a0) {
                    Some(desc) => {
                        let res = self.vfs.write(desc, data);
                        proof {
                            assert(fds0.update(a0 as int, fds0[a0 as int]) =~= fds0);
                        }
                        res
                    },
                    None => ERR,
                },
                None => ERR,
            }
        } else {
            let path = match bytes_as_text(data) {
                Some(s) => s,
                None => { return ERR },
            };
            let idx = match self.get_or_create_process(pid) {
                Some(i) => i,
                None => { return ERR },
            };
            match self.processes[idx].as_mut() {
                Some(p) => self.vfs.open(path, a2 as u32, &mut p.fd_table),
                None => ERR,
            }
        }
    }
}

/// Relies on core::str::from_utf8: it succeeds exactly on UTF-8-valid bytes
/// and returns a string slice viewing those same bytes.
#[verifier::external_body]
fn bytes_as_text(v: &[u8]) -> (r: Option<&str>)
    ensures
        r is Some <==> valid_utf8(v@),
        r matches Some(s) ==> s.spec_bytes() == v@,
{
    core::str::from_utf8(v).ok()
}

/// A zero-filled scratch buffer for a copy-out syscall.
fn zero_buffer(len: usize) -> (r: Vec<u8>)
    ensures
        r@ == Seq::new(len as nat, |k: int| 0u8),
{
    let mut v: Vec<u8> = Vec::new();
    let mut i: usize = 0;
    while i < len
        invariant
            i <= len,
            v@.len() == i,
            forall|j: int| 0 <= j < i ==> v@[j] == 0u8,
        decreases len - i,
    {
        v.push(0);
        i += 1;
    }
    proof {
        assert(v@ =~= Seq::new(len as nat, |k: int| 0u8));
    }
    v
}

} // verus!
