//! The virtual file system: per-process file-descriptor tables, the mapping
//! from device paths to device ids, and the dispatch of read/write/ioctl
//! calls on an open descriptor to the owning driver.

use vstd::prelude::*;

use crate::drivers::{DEV_NULL, DEV_SERIAL, Driver, NullDriver, SerialDriver};
use crate::{ERR, Fd, OK, ResultCode};
use vstd::string::StringSliceAdditionalSpecFns;

verus! {

/// Capacity of each process's file-descriptor table.
pub const MAX_FDS: usize = 16;

/// An open descriptor: which driver owns it, an inode handle (unused beyond
/// zero by the present devices), a byte cursor, and the open-mode flags.
#[derive(Clone, Copy, PartialEq, Eq, Structural, Debug)]
pub struct FileDescriptor {
    pub dev: u32,
    pub inode: u32,
    pub offset: usize,
    pub flags: u32,
}

/// A fixed-capacity table of optional descriptor slots, indexed by the
/// descriptor number handed back to the caller. Allocation is first-fit, so
/// freed numbers are reused as soon as possible.
pub struct FdTable {
    slots: Vec<Option<FileDescriptor>>,
}

impl View for FdTable {
    type V = Seq<Option<FileDescriptor>>;

    closed spec fn view(&self) -> Seq<Option<FileDescriptor>> {
        self.slots@
    }
}

/// The table every process starts with: `MAX_FDS` empty slots.
pub open spec fn empty_fds() -> Seq<Option<FileDescriptor>> {
    Seq::new(MAX_FDS as nat, |i: int| None)
}

/// The lowest free slot index at or after `i`, or `ERR` if every slot from
/// `i` on is occupied.
pub open spec fn first_free_from(t: Seq<Option<FileDescriptor>>, i: int) -> int
    decreases t.len() - i,
{
    if i < 0 || i >= t.len() {
        ERR as int
    } else if t[i] is None {
        i
    } else {
        first_free_from(t, i + 1)
    }
}

/// The lowest free slot index, or `ERR` if the table is full: the number a
/// first-fit allocation returns.
pub open spec fn first_free(t: Seq<Option<FileDescriptor>>) -> int {
    first_free_from(t, 0)
}

/// What `first_free_from` means pointwise: it names the least free index at
/// or after `i`, and fails exactly when no slot from `i` on is free.
pub proof fn lemma_first_free_from(t: Seq<Option<FileDescriptor>>, i: int)
    requires
        0 <= i <= t.len(),
    ensures
        first_free_from(t, i) == ERR ==> forall|j: int| i <= j < t.len() ==> t[j] is Some,
        first_free_from(t, i) != ERR ==> {
            let f = first_free_from(t, i);
            &&& i <= f < t.len()
            &&& t[f] is None
            &&& forall|j: int| i <= j < f ==> t[j] is Some
        },
    decreases t.len() - i,
{
    if i < t.len() && t[i] is Some {
        lemma_first_free_from(t, i + 1);
    }
}

/// What `first_free` means: the least free index, or `ERR` when full.
pub proof fn lemma_first_free(t: Seq<Option<FileDescriptor>>)
    ensures
        first_free(t) == ERR ==> forall|j: int| 0 <= j < t.len() ==> t[j] is Some,
        first_free(t) != ERR ==> {
            let f = first_free(t);
            &&& 0 <= f < t.len()
            &&& t[f] is None
            &&& forall|j: int| 0 <= j < f ==> t[j] is Some
        },
{
    lemma_first_free_from(t, 0);
}

/// The converse direction: a free index whose whole prefix is occupied is
/// exactly what first-fit returns.
pub proof fn lemma_first_free_at(t: Seq<Option<FileDescriptor>>, f: int)
    requires
        0 <= f < t.len(),
        t[f] is None,
        forall|j: int| 0 <= j < f ==> t[j] is Some,
    ensures
        first_free(t) == f,
{
    lemma_first_free(t);
}

impl FdTable {
    /// Table well-formedness: exactly `MAX_FDS` slots.
    pub open spec fn wf(&self) -> bool {
        self@.len() == MAX_FDS
    }

    /// A fresh table with every slot empty.
    pub fn new() -> (r: FdTable)
        ensures
            r.wf(),
            r@ == empty_fds(),
    {
        let mut slots: Vec<Option<FileDescriptor>> = Vec::new();
        let mut i: usize = 0;
        while i < MAX_FDS
            invariant
                i <= MAX_FDS,
                slots@.len() == i,
                forall|j: int| 0 <= j < i ==> slots@[j] is None,
            decreases MAX_FDS - i,
        {
            slots.push(None);
            i += 1;
        }
        proof {
            assert(slots@ =~= empty_fds());
        }
        FdTable { slots }
    }

    /// First-fit allocation: fills the lowest free slot with a fresh
    /// descriptor and returns its number; fails only when the table is full.
    pub fn allocate(&mut self, dev: u32, inode: u32, flags: u32) -> (r: Result<Fd, ()>)
        requires
            old(self).wf(),
        ensures
            final(self).wf(),
            first_free(old(self)@) == ERR ==> r is Err && final(self)@ == old(self)@,
            first_free(old(self)@) != ERR ==> {
                let f = first_free(old(self)@);
                &&& r == Ok::<Fd, ()>(f as Fd)
                &&& final(self)@ == old(self)@.update(
                    f,
                    Some(FileDescriptor { dev, inode, offset: 0, flags }),
                )
            },
    {
        let mut i: usize = 0;
        while i < MAX_FDS
            invariant
                self.wf(),
                i <= MAX_FDS,
                self@ == old(self)@,
                forall|j: int| 0 <= j < i ==> self@[j] is Some,
            decreases MAX_FDS - i,
        {
            if self.slots[i].is_none() {
                proof {
                    lemma_first_free_at(self@, i as int);
                }
                self.slots[i] = Some(FileDescriptor { dev, inode, offset: 0, flags });
                return Ok(i as Fd);
            }
            i += 1;
        }
        proof {
            lemma_first_free(self@);
        }
        Err(())
    }

    /// Range-check only: the descriptor at `fd`, or `None` for an
    /// out-of-range number or an unoccupied slot.
    pub fn get(&self, fd: Fd) -> (r: Option<&FileDescriptor>)
        requires
            self.wf(),
        ensures
            match r {
                Some(d) => 0 <= fd < MAX_FDS && self@[fd as int] == Some(*d),
                None => !(0 <= fd < MAX_FDS) || self@[fd as int] is None,
            },
    {
        if fd < 0 || fd >= MAX_FDS as Fd {
            return None;
        }
        self.slots[fd as usize].as_ref()
    }

    /// Like `get`, but hands out the descriptor for in-place mutation.
    pub fn get_mut(&mut self, fd: Fd) -> (r: Option<&mut FileDescriptor>)
        requires
            old(self).wf(),
        ensures
            match r {
                Some(d) => {
                    &&& 0 <= fd < MAX_FDS
                    &&& old(self)@[fd as int] == Some(*d)
                    &&& final(self)@ == old(self)@.update(fd as int, Some(*final(d)))
                },
                None => {
                    &&& !(0 <= fd < MAX_FDS) || old(self)@[fd as int] is None
                    &&& final(self)@ == old(self)@
                },
            },
    {
        if fd < 0 || fd >= MAX_FDS as Fd {
            return None;
        }
        self.slots[fd as usize].as_mut()
    }

    /// Clears the slot unconditionally: closing an already-closed or
    /// never-opened in-range number is a silent no-op; only an out-of-range
    /// number fails.
    pub fn close(&mut self, fd: Fd) -> (r: ResultCode)
        requires
            old(self).wf(),
        ensures
            final(self).wf(),
            0 <= fd < MAX_FDS ==> r == OK && final(self)@ == old(self)@.update(
                fd as int,
                None::<FileDescriptor>,
            ),
            !(0 <= fd < MAX_FDS) ==> r == ERR && final(self)@ == old(self)@,
    {
        if fd < 0 || fd >= MAX_FDS as Fd {
            return ERR;
        }
        self.slots[fd as usize] = None;
        OK
    }
}

/// A table whose slots below `k` are all taken and whose slots from `k` on
/// are all free: the shape that `k` consecutive successful first-fit
/// allocations produce from an empty table.
pub open spec fn prefix_occupied(t: Seq<Option<FileDescriptor>>, k: int) -> bool {
    &&& t.len() == MAX_FDS
    &&& forall|j: int| 0 <= j < k ==> t[j] is Some
    &&& forall|j: int| k <= j < MAX_FDS ==> t[j] is None
}

/// Law: descriptors are handed out in increasing first-fit order from 0,
/// and allocation fails with exhaustion exactly once all `MAX_FDS` slots
/// are taken. Starting from the table `k` successful opens produce, the
/// next open returns descriptor `k` and produces the table of `k + 1`
/// opens while the table is not full; the open after the `MAX_FDS`-th
/// fails.
pub proof fn law_first_fit_order(
    t: Seq<Option<FileDescriptor>>,
    k: int,
    dev: u32,
    inode: u32,
    flags: u32,
)
    requires
        0 <= k <= MAX_FDS,
        prefix_occupied(t, k),
    ensures
        k < MAX_FDS ==> first_free(t) == k && prefix_occupied(
            t.update(k, Some(FileDescriptor { dev, inode, offset: 0, flags })),
            k + 1,
        ),
        k == MAX_FDS ==> first_free(t) == ERR,
{
    if k < MAX_FDS {
        lemma_first_free_at(t, k);
    } else {
        lemma_first_free(t);
    }
}

/// Law: closing a descriptor and immediately opening again reuses the
/// lowest freed number. After `fd` is cleared the next first-fit allocation
/// lands at or below `fd`, and exactly on `fd` whenever every lower number
/// is still taken.
pub proof fn law_close_then_open_reuses(t: Seq<Option<FileDescriptor>>, fd: int)
    requires
        t.len() == MAX_FDS,
        0 <= fd < MAX_FDS,
    ensures
        ({
            let t2 = t.update(fd, None::<FileDescriptor>);
            &&& 0 <= first_free(t2) <= fd
            &&& ((forall|j: int| 0 <= j < fd ==> t[j] is Some) ==> first_free(t2) == fd)
        }),
{
    let t2 = t.update(fd, None::<FileDescriptor>);
    lemma_first_free(t2);
    assert(t2[fd] is None);
    assert(first_free(t2) != ERR);
    assert(first_free(t2) <= fd);
    if forall|j: int| 0 <= j < fd ==> t[j] is Some {
        assert(forall|j: int| 0 <= j < fd ==> t2[j] is Some);
        lemma_first_free_at(t2, fd);
        assert(first_free(t2) == fd);
    }
}

/// Byte-wise slice equality, used for path matching.
fn bytes_eq(a: &[u8], b: &[u8]) -> (r: bool)
    ensures
        r == (a@ == b@),
{
    if a.len() != b.len() {
        return false;
    }
    let mut i: usize = 0;
    while i < a.len()
        invariant
            i <= a@.len(),
            a@.len() == b@.len(),
            forall|j: int| 0 <= j < i ==> a@[j] == b@[j],
        decreases a@.len() - i,
    {
        if a[i] != b[i] {
            return false;
        }
        i += 1;
    }
    proof {
        assert(a@ =~= b@);
    }
    true
}

/// The fixed device namespace: which device id a path names, if any.
pub open spec fn device_of(path: Seq<u8>) -> Option<u32> {
    if path == "/dev/null".spec_bytes() {
        Some(DEV_NULL)
    } else if path == "/dev/serial".spec_bytes() {
        Some(DEV_SERIAL)
    } else {
        None
    }
}

/// What a read on each present device returns: immediate end-of-file on the
/// null device, failure on the serial device and on an unknown device id.
pub open spec fn read_result(dev: u32) -> int {
    if dev == DEV_NULL {
        0
    } else {
        ERR as int
    }
}

/// What a write of `len` bytes on each present device returns: the full
/// length on both sinks, failure on an unknown device id.
pub open spec fn write_result(dev: u32, len: nat) -> int {
    if dev == DEV_NULL || dev == DEV_SERIAL {
        len as int
    } else {
        ERR as int
    }
}

/// The VFS: it owns one instance of each driver for the lifetime of the
/// kernel, maps paths to device ids at open time, and routes descriptor
/// operations to the owning driver.
pub struct Vfs {
    null: NullDriver,
    serial: SerialDriver,
}

impl Vfs {
    /// The serial device's queued output (see `SerialDriver::log`).
    pub closed spec fn serial_log(&self) -> Seq<u8> {
        self.serial.log()
    }

    /// A fresh VFS with both devices and an empty serial log.
    pub fn new() -> (r: Vfs)
        ensures
            r.serial_log() == Seq::<u8>::empty(),
    {
        Vfs { serial: SerialDriver::new(), null: NullDriver {} }
    }

    /// Drains the serial device's queued output for the embedding to
    /// forward to the host's line-output primitive.
    pub fn take_serial_output(&mut self) -> (r: Vec<u8>)
        ensures
            r@ == old(self).serial_log(),
            final(self).serial_log() == Seq::<u8>::empty(),
    {
        self.serial.take_output()
    }

    /// Maps the path to a device id and delegates descriptor allocation to
    /// the caller's table, first-fit. Fails on a path outside the fixed
    /// namespace and on a full table.
    pub fn open(&mut self, path: &str, flags: u32, fd_table: &mut FdTable) -> (r: Fd)
        requires
            old(fd_table).wf(),
        ensures
            final(fd_table).wf(),
            *final(self) == *old(self),
            match device_of(path.spec_bytes()) {
                None => r == ERR && final(fd_table)@ == old(fd_table)@,
                Some(dev) => {
                    let f = first_free(old(fd_table)@);
                    if f == ERR {
                        r == ERR && final(fd_table)@ == old(fd_table)@
                    } else {
                        r == f as Fd && final(fd_table)@ == old(fd_table)@.update(
                            f,
                            Some(FileDescriptor { dev, inode: 0, offset: 0, flags }),
                        )
                    }
                },
            },
    {
        let dev: u32 = if bytes_eq(path.as_bytes(), "/dev/null".as_bytes()) {
            DEV_NULL
        } else if bytes_eq(path.as_bytes(), "/dev/serial".as_bytes()) {
            DEV_SERIAL
        } else {
            return ERR;
        };
        match fd_table.allocate(dev, 0, flags) {
            Ok(fd) => fd,
            Err(()) => ERR,
        }
    }

    /// Routes a write to the driver recorded on the descriptor. Both present
    /// devices consume the whole buffer and report its length; an unknown
    /// device id fails (unreachable through `open`). Bytes written to the
    /// serial device are appended to its output log.
    pub fn write(&mut self, fd_desc: &mut FileDescriptor, buf: &[u8]) -> (r: ResultCode)
        requires
            buf@.len() <= i32::MAX,
        ensures
            r == write_result(old(fd_desc).dev, buf@.len()),
            *final(fd_desc) == *old(fd_desc),
            final(self).serial_log() == if old(fd_desc).dev == DEV_SERIAL {
                old(self).serial_log() + buf@
            } else {
                old(self).serial_log()
            },
    {
        if fd_desc.dev == DEV_NULL {
            self.null.write(buf)
        } else if fd_desc.dev == DEV_SERIAL {
            self.serial.write(buf)
        } else {
            ERR
        }
    }

    /// Routes a read the same way: end-of-file on the null device, failure
    /// on the serial device (no polling support) and on an unknown id. The
    /// present devices leave the destination buffer untouched.
    pub fn read(&mut self, fd_desc: &mut FileDescriptor, buf: &mut Vec<u8>) -> (r: ResultCode)
        ensures
            r == read_result(old(fd_desc).dev),
            final(buf)@ == old(buf)@,
            *final(fd_desc) == *old(fd_desc),
            final(self).serial_log() == old(self).serial_log(),
    {
        if fd_desc.dev == DEV_NULL {
            self.null.read(buf)
        } else if fd_desc.dev == DEV_SERIAL {
            self.serial.read(buf)
        } else {
            ERR
        }
    }

    /// Routes an ioctl read-only on the descriptor. Neither present device
    /// supports any command, so every ioctl fails.
    pub fn ioctl(&mut self, fd_desc: &FileDescriptor, cmd: u32, arg: usize) -> (r: ResultCode)
        ensures
            r == ERR,
            final(self).serial_log() == old(self).serial_log(),
    {
        if fd_desc.dev == DEV_NULL {
            self.null.ioctl(cmd, arg)
        } else if fd_desc.dev == DEV_SERIAL {
            self.serial.ioctl(cmd, arg)
        } else {
            ERR
        }
    }
}

/// Law: opening any device-valid path and then writing any buffer through
/// the returned descriptor reports exactly the buffer's length, the empty
/// buffer included. Given a table with a free slot, the open lands on the
/// lowest free descriptor, records the path's device on it, and a write of
/// `buf` through that descriptor returns `buf.len()` — on the null device
/// as on the serial device.
pub proof fn law_open_then_write_full_count(
    t: Seq<Option<FileDescriptor>>,
    path: Seq<u8>,
    flags: u32,
    buf: Seq<u8>,
)
    requires
        t.len() == MAX_FDS,
        first_free(t) != ERR,
        device_of(path) is Some,
        buf.len() <= i32::MAX,
    ensures
        ({
            let fd = first_free(t);
            let t2 = t.update(
                fd,
                Some(FileDescriptor { dev: device_of(path).unwrap(), inode: 0, offset: 0, flags }),
            );
            &&& 0 <= fd < MAX_FDS
            &&& t2[fd] is Some
            &&& write_result(t2[fd].unwrap().dev, buf.len()) == buf.len()
        }),
{
    lemma_first_free(t);
}

} // verus!
