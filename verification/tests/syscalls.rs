use microkernel::kernel::{Kernel, MAX_PROCESSES, SyscallStep};
use microkernel::vfs::MAX_FDS;
use microkernel::{
    ERR, NO_SUCH_SYSCALL, O_WRONLY, OK, SYS_CLOSE, SYS_IOCTL, SYS_OPEN, SYS_READ, SYS_WRITE,
};

// The helpers below play the host glue: they perform the copy step that the
// dispatcher asks for, handing it the bytes a real host would move across
// the isolation boundary.

fn do_open(k: &mut Kernel, pid: i32, path: &[u8], flags: u32) -> i32 {
    let step = k.syscall(pid, SYS_OPEN, 0x1000, path.len() as i32, flags as i32, 0, 0, 0);
    match step {
        SyscallStep::CopyIn { src, len } => {
            assert_eq!(src, 0x1000);
            assert_eq!(len, path.len() as u32);
            k.syscall_continue(pid, SYS_OPEN, 0x1000, path.len() as i32, flags as i32, path)
        }
        _ => panic!("OPEN must ask for the path bytes"),
    }
}

fn do_write(k: &mut Kernel, pid: i32, fd: i32, buf: &[u8]) -> i32 {
    let step = k.syscall(pid, SYS_WRITE, fd, 0x2000, buf.len() as i32, 0, 0, 0);
    match step {
        SyscallStep::Done { result } => result,
        SyscallStep::CopyIn { src, len } => {
            assert_eq!(src, 0x2000);
            assert_eq!(len, buf.len() as u32);
            k.syscall_continue(pid, SYS_WRITE, fd, 0x2000, buf.len() as i32, buf)
        }
        SyscallStep::CopyOut { .. } => panic!("WRITE never copies out"),
    }
}

fn do_read(k: &mut Kernel, pid: i32, fd: i32, len: i32) -> (i32, Option<Vec<u8>>) {
    let step = k.syscall(pid, SYS_READ, fd, 0x3000, len, 0, 0, 0);
    match step {
        SyscallStep::Done { result } => (result, None),
        SyscallStep::CopyOut { dst, bytes, result } => {
            assert_eq!(dst, 0x3000);
            (result, Some(bytes))
        }
        SyscallStep::CopyIn { .. } => panic!("READ never copies in"),
    }
}

fn do_close(k: &mut Kernel, pid: i32, fd: i32) -> i32 {
    match k.syscall(pid, SYS_CLOSE, fd, 0, 0, 0, 0, 0) {
        SyscallStep::Done { result } => result,
        _ => panic!("CLOSE finishes in one step"),
    }
}

fn do_ioctl(k: &mut Kernel, pid: i32, fd: i32, cmd: u32, arg: u32) -> i32 {
    match k.syscall(pid, SYS_IOCTL, fd, cmd as i32, arg as i32, 0, 0, 0) {
        SyscallStep::Done { result } => result,
        _ => panic!("IOCTL finishes in one step"),
    }
}

#[test]
fn serial_session_for_one_process() {
    // process 1: open /dev/serial, write b"hi", close, then write again
    let mut k = Kernel::new();
    let fd = do_open(&mut k, 1, b"/dev/serial", O_WRONLY);
    assert_eq!(fd, 0);
    assert_eq!(do_write(&mut k, 1, fd, b"hi"), 2);
    assert_eq!(k.take_serial_output(), b"hi".to_vec());
    assert_eq!(do_close(&mut k, 1, fd), OK);
    assert_eq!(do_write(&mut k, 1, fd, b"hi"), ERR);
}

#[test]
fn null_session_for_one_process() {
    // process 2: open /dev/null, read 10 bytes, write 5 bytes
    let mut k = Kernel::new();
    let fd = do_open(&mut k, 2, b"/dev/null", O_WRONLY);
    assert_eq!(fd, 0);
    let (res, bytes) = do_read(&mut k, 2, fd, 10);
    assert_eq!(res, 0);
    assert_eq!(bytes.unwrap(), vec![0u8; 10]);
    assert_eq!(do_write(&mut k, 2, fd, b"01234"), 5);
    assert_eq!(k.take_serial_output(), Vec::<u8>::new());
}

#[test]
fn unknown_syscall_number_gets_the_sentinel() {
    let mut k = Kernel::new();
    for (nr, a0, a1, a2) in [(4, 0, 0, 0), (-1, 1, 2, 3), (17, i32::MAX, i32::MIN, 0), (255, 9, 9, 9)] {
        match k.syscall(1, nr, a0, a1, a2, 0, 0, 0) {
            SyscallStep::Done { result } => {
                assert_eq!(result, NO_SUCH_SYSCALL);
                assert_ne!(result, ERR);
            }
            _ => panic!("an unknown syscall finishes in one step"),
        }
    }
}

#[test]
fn open_rejects_path_bytes_that_are_not_text() {
    let mut k = Kernel::new();
    let bad = [0xffu8, 0xfe, b'/', b'x'];
    let step = k.syscall(1, SYS_OPEN, 0, bad.len() as i32, 0, 0, 0, 0);
    match step {
        SyscallStep::CopyIn { .. } => {
            assert_eq!(k.syscall_continue(1, SYS_OPEN, 0, bad.len() as i32, 0, &bad), ERR);
        }
        _ => panic!("OPEN must ask for the path bytes"),
    }
    // a well-formed path still works afterwards
    assert_eq!(do_open(&mut k, 1, b"/dev/null", 0), 0);
}

#[test]
fn open_unknown_path_fails_through_the_dispatcher() {
    let mut k = Kernel::new();
    assert_eq!(do_open(&mut k, 1, b"/dev/none", 0), ERR);
    assert_eq!(do_open(&mut k, 1, b"", 0), ERR);
}

#[test]
fn descriptor_numbers_are_reused_lowest_first() {
    let mut k = Kernel::new();
    assert_eq!(do_open(&mut k, 1, b"/dev/null", 0), 0);
    assert_eq!(do_open(&mut k, 1, b"/dev/serial", 0), 1);
    assert_eq!(do_close(&mut k, 1, 0), OK);
    assert_eq!(do_open(&mut k, 1, b"/dev/null", 0), 0);
}

#[test]
fn descriptor_exhaustion_for_one_process() {
    let mut k = Kernel::new();
    for i in 0..MAX_FDS {
        assert_eq!(do_open(&mut k, 1, b"/dev/null", 0), i as i32);
    }
    assert_eq!(do_open(&mut k, 1, b"/dev/null", 0), ERR);
}

#[test]
fn bad_descriptors_fail_read_write_ioctl_close() {
    let mut k = Kernel::new();
    assert_eq!(do_write(&mut k, 1, 0, b"x"), ERR);
    let (res, bytes) = do_read(&mut k, 1, 0, 4);
    assert_eq!(res, ERR);
    assert!(bytes.is_none());
    assert_eq!(do_ioctl(&mut k, 1, 0, 0, 0), ERR);
    assert_eq!(do_close(&mut k, 1, -1), ERR);
    assert_eq!(do_close(&mut k, 1, MAX_FDS as i32), ERR);
    assert_eq!(do_close(&mut k, 1, 3), OK);
}

#[test]
fn ioctl_fails_on_open_descriptors_of_both_devices() {
    let mut k = Kernel::new();
    let fd_null = do_open(&mut k, 1, b"/dev/null", 0);
    let fd_serial = do_open(&mut k, 1, b"/dev/serial", 0);
    for (cmd, arg) in [(0u32, 0u32), (1, 1), (u32::MAX, u32::MAX)] {
        assert_eq!(do_ioctl(&mut k, 1, fd_null, cmd, arg), ERR);
        assert_eq!(do_ioctl(&mut k, 1, fd_serial, cmd, arg), ERR);
    }
}

#[test]
fn processes_have_independent_descriptor_tables() {
    let mut k = Kernel::new();
    let fd = do_open(&mut k, 1, b"/dev/serial", 0);
    assert_eq!(fd, 0);
    // process 2 sees no descriptor 0: its table is its own
    assert_eq!(do_write(&mut k, 2, 0, b"x"), ERR);
    // and its own first open also gets descriptor 0
    assert_eq!(do_open(&mut k, 2, b"/dev/null", 0), 0);
    // process 1's descriptor still works
    assert_eq!(do_write(&mut k, 1, fd, b"ok"), 2);
    assert_eq!(k.take_serial_output(), b"ok".to_vec());
}

#[test]
fn process_registry_exhaustion() {
    let mut k = Kernel::new();
    for pid in 0..MAX_PROCESSES as i32 {
        assert_eq!(do_open(&mut k, pid, b"/dev/null", 0), 0);
    }
    // the next distinct pid fails resolution, whatever the syscall
    let pid = MAX_PROCESSES as i32;
    assert_eq!(do_open(&mut k, pid, b"/dev/null", 0), ERR);
    assert_eq!(do_close(&mut k, pid, 0), ERR);
    assert_eq!(do_ioctl(&mut k, pid, 0, 0, 0), ERR);
    match k.syscall(pid, SYS_WRITE, 0, 0, 0, 0, 0, 0) {
        SyscallStep::Done { result } => assert_eq!(result, ERR),
        _ => panic!("a write from an unregistered process fails at resolution"),
    }
    match k.syscall(pid, SYS_READ, 0, 0, 4, 0, 0, 0) {
        SyscallStep::Done { result } => assert_eq!(result, ERR),
        _ => panic!("a read from an unregistered process fails at resolution"),
    }
    // already-registered processes keep working
    assert_eq!(do_open(&mut k, 0, b"/dev/serial", 0), 1);
}

#[test]
fn write_with_empty_buffer_reports_zero() {
    let mut k = Kernel::new();
    let fd = do_open(&mut k, 1, b"/dev/null", 0);
    assert_eq!(do_write(&mut k, 1, fd, b""), 0);
}

#[test]
fn write_with_unrepresentable_length_fails() {
    let mut k = Kernel::new();
    let fd = do_open(&mut k, 1, b"/dev/null", 0);
    // a2 reinterpreted as a 32-bit word names a buffer no result code could
    // report: the call fails at the scratch-allocation step
    match k.syscall(1, SYS_WRITE, fd, 0x2000, -1, 0, 0, 0) {
        SyscallStep::Done { result } => assert_eq!(result, ERR),
        _ => panic!("an oversized write payload fails before any copy"),
    }
}

#[test]
fn open_with_unrepresentable_path_length_fails() {
    let mut k = Kernel::new();
    match k.syscall(1, SYS_OPEN, 0x1000, -1, 0, 0, 0, 0) {
        SyscallStep::Done { result } => assert_eq!(result, ERR),
        _ => panic!("an oversized path length fails before any copy"),
    }
    // the kernel is untouched: a normal open still gets descriptor 0
    assert_eq!(do_open(&mut k, 1, b"/dev/null", 0), 0);
}
