//! The driver capability and the two concrete devices: the null byte sink
//! and the serial/console sink.
//!
//! The kernel cannot reach the host's line-output primitive itself; the
//! serial device therefore queues the bytes it accepts in an output log, and
//! the embedding drains that log (`SerialDriver::take_output`) and forwards
//! it to the host.

use vstd::prelude::*;

use crate::{ERR, ResultCode};

verus! {

/// Device id of the null sink.
pub const DEV_NULL: u32 = 0;

/// Device id of the serial/console sink.
pub const DEV_SERIAL: u32 = 1;

/// The capability every device implements. Each implementation fixes, as a
/// spec predicate per operation, how its state, the buffer, and the result
/// code relate across the call.
pub trait Driver: Sized {
    /// How `read` relates the driver state, the destination buffer before
    /// and after, and the result.
    spec fn read_post(pre: Self, post: Self, buf_pre: Seq<u8>, buf_post: Seq<u8>, r: int) -> bool;

    /// How `write` relates the driver state, the source bytes, and the
    /// result.
    spec fn write_post(pre: Self, post: Self, buf: Seq<u8>, r: int) -> bool;

    /// How `ioctl` relates the driver state, the command and argument, and
    /// the result.
    spec fn ioctl_post(pre: Self, post: Self, cmd: u32, arg: usize, r: int) -> bool;

    fn read(&mut self, buf: &mut Vec<u8>) -> (r: ResultCode)
        ensures
            Self::read_post(*old(self), *final(self), old(buf)@, final(buf)@, r as int),
    ;

    fn write(&mut self, buf: &[u8]) -> (r: ResultCode)
        requires
            buf@.len() <= i32::MAX,
        ensures
            Self::write_post(*old(self), *final(self), buf@, r as int),
    ;

    fn ioctl(&mut self, cmd: u32, arg: usize) -> (r: ResultCode)
        ensures
            Self::ioctl_post(*old(self), *final(self), cmd, arg, r as int),
    ;
}

/// The null device: a bottomless sink and an immediate end-of-file source.
pub struct NullDriver {}

impl Driver for NullDriver {
    /// `read` reports zero bytes and leaves everything untouched.
    open spec fn read_post(
        pre: NullDriver,
        post: NullDriver,
        buf_pre: Seq<u8>,
        buf_post: Seq<u8>,
        r: int,
    ) -> bool {
        &&& post == pre
        &&& buf_post == buf_pre
        &&& r == 0
    }

    /// `write` consumes the whole buffer and reports its length.
    open spec fn write_post(pre: NullDriver, post: NullDriver, buf: Seq<u8>, r: int) -> bool {
        &&& post == pre
        &&& r == buf.len()
    }

    /// `ioctl` is unsupported and always fails.
    open spec fn ioctl_post(pre: NullDriver, post: NullDriver, cmd: u32, arg: usize, r: int) -> bool {
        &&& post == pre
        &&& r == ERR
    }

    fn read(&mut self, _buf: &mut Vec<u8>) -> (r: ResultCode) {
        0
    }

    fn write(&mut self, buf: &[u8]) -> (r: ResultCode) {
        buf.len() as ResultCode
    }

    fn ioctl(&mut self, _cmd: u32, _arg: usize) -> (r: ResultCode) {
        ERR
    }
}

/// The serial/console device: a write-only sink whose accepted bytes are
/// queued for the host's line-output primitive.
pub struct SerialDriver {
    tx: Vec<u8>,
}

impl SerialDriver {
    /// The bytes accepted so far and not yet drained by the embedding.
    pub closed spec fn log(&self) -> Seq<u8> {
        self.tx@
    }

    /// A fresh serial device with an empty output log.
    pub fn new() -> (r: SerialDriver)
        ensures
            r.log() == Seq::<u8>::empty(),
    {
        SerialDriver { tx: Vec::new() }
    }

    /// Hands the queued output to the embedding (which forwards it to the
    /// host's line-output primitive) and empties the log.
    pub fn take_output(&mut self) -> (r: Vec<u8>)
        ensures
            r@ == old(self).log(),
            final(self).log() == Seq::<u8>::empty(),
    {
        let mut out: Vec<u8> = Vec::new();
        core::mem::swap(&mut out, &mut self.tx);
        out
    }
}

impl Driver for SerialDriver {
    /// `read` is not implemented (would require polling support) and fails.
    open spec fn read_post(
        pre: SerialDriver,
        post: SerialDriver,
        buf_pre: Seq<u8>,
        buf_post: Seq<u8>,
        r: int,
    ) -> bool {
        &&& post.log() == pre.log()
        &&& buf_post == buf_pre
        &&& r == ERR
    }

    /// `write` queues the whole buffer for the host and reports its length.
    open spec fn write_post(pre: SerialDriver, post: SerialDriver, buf: Seq<u8>, r: int) -> bool {
        &&& post.log() == pre.log() + buf
        &&& r == buf.len()
    }

    /// `ioctl` is unsupported and always fails.
    open spec fn ioctl_post(
        pre: SerialDriver,
        post: SerialDriver,
        cmd: u32,
        arg: usize,
        r: int,
    ) -> bool {
        &&& post.log() == pre.log()
        &&& r == ERR
    }

    fn read(&mut self, _buf: &mut Vec<u8>) -> (r: ResultCode) {
        ERR
    }

    fn write(&mut self, buf: &[u8]) -> (r: ResultCode) {
        let mut i: usize = 0;
        while i < buf.len()
            invariant
                i <= buf@.len(),
                buf@.len() <= i32::MAX,
                self.tx@ == old(self).tx@ + buf@.subrange(0, i as int),
            decreases buf@.len() - i,
        {
            self.tx.push(buf[i]);
            i += 1;
        }
        proof {
            assert(buf@.subrange(0, buf@.len() as int) =~= buf@);
        }
        buf.len() as ResultCode
    }

    fn ioctl(&mut self, _cmd: u32, _arg: usize) -> (r: ResultCode) {
        ERR
    }
}

} // verus!
