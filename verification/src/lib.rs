//! A minimal microkernel core: a syscall dispatcher over a small virtual
//! file system, with per-process file-descriptor tables, a fixed-capacity
//! process registry, and a bump arena allocator.
//!
//! The kernel is hosted: user processes live in isolated memories, so every
//! buffer argument crosses the isolation boundary through a host-mediated
//! copy step. The dispatcher therefore answers each syscall either with a
//! finished result or with a copy request that the host glue performs before
//! resuming the call (see `kernel::SyscallStep`).

use vstd::prelude::*;

pub mod allocator;
pub mod drivers;
pub mod kernel;
pub mod vfs;

verus! {

/// A file descriptor number, as seen by user processes.
pub type Fd = i32;

/// A process identifier, supplied by the hosting runtime.
pub type Pid = i32;

/// The word-sized result code every syscall returns.
pub type ResultCode = i32;

/// Bare success.
pub const OK: ResultCode = 0;

/// The generic failure code: unknown path, bad descriptor, exhaustion,
/// malformed path text, or an operation a device does not support.
pub const ERR: ResultCode = -1;

/// The distinguished "no such syscall" sentinel, reserved for unrecognized
/// syscall numbers and distinct from every other result.
pub const NO_SUCH_SYSCALL: ResultCode = i32::MAX;

pub const SYS_READ: i32 = 0;

pub const SYS_WRITE: i32 = 1;

pub const SYS_OPEN: i32 = 2;

pub const SYS_CLOSE: i32 = 3;

pub const SYS_IOCTL: i32 = 16;

/// Open flag: read-only.
pub const O_RDONLY: u32 = 0x0000;

/// Open flag: write-only.
pub const O_WRONLY: u32 = 0x0001;

/// Open flag: read-write.
pub const O_RDWR: u32 = 0x0002;

/// Open flag: create.
pub const O_CREAT: u32 = 0x0040;

/// Open flag: truncate.
pub const O_TRUNC: u32 = 0x0200;

} // verus!
