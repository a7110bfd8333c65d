use microkernel::drivers::{DEV_NULL, DEV_SERIAL, Driver, NullDriver, SerialDriver};
use microkernel::vfs::{FdTable, MAX_FDS, Vfs};
use microkernel::{ERR, O_WRONLY};

#[test]
fn open_valid_paths_then_write_reports_full_length() {
    for path in ["/dev/null", "/dev/serial"] {
        let mut vfs = Vfs::new();
        let mut t = FdTable::new();
        let fd = vfs.open(path, O_WRONLY, &mut t);
        assert_eq!(fd, 0);
        let d = *t.get(fd).unwrap();
        let mut d = d;
        assert_eq!(vfs.write(&mut d, b"hello"), 5);
        assert_eq!(vfs.write(&mut d, b""), 0);
    }
}

#[test]
fn open_records_the_owning_device() {
    let mut vfs = Vfs::new();
    let mut t = FdTable::new();
    let fd_null = vfs.open("/dev/null", 0, &mut t);
    let fd_serial = vfs.open("/dev/serial", 0, &mut t);
    assert_eq!(t.get(fd_null).unwrap().dev, DEV_NULL);
    assert_eq!(t.get(fd_serial).unwrap().dev, DEV_SERIAL);
}

#[test]
fn open_unknown_paths_fail() {
    let mut vfs = Vfs::new();
    let mut t = FdTable::new();
    for path in ["", "/", "/dev", "/dev/nul", "/dev/null/", "/dev/serial0", "/tmp/x", "dev/null"] {
        assert_eq!(vfs.open(path, 0, &mut t), ERR);
    }
    // failed opens allocate nothing: the next open still gets descriptor 0
    assert_eq!(vfs.open("/dev/null", 0, &mut t), 0);
}

#[test]
fn open_fails_with_exhaustion_when_table_is_full() {
    let mut vfs = Vfs::new();
    let mut t = FdTable::new();
    for i in 0..MAX_FDS {
        assert_eq!(vfs.open("/dev/null", 0, &mut t), i as i32);
    }
    assert_eq!(vfs.open("/dev/null", 0, &mut t), ERR);
}

#[test]
fn serial_write_queues_the_bytes_for_the_host() {
    let mut vfs = Vfs::new();
    let mut t = FdTable::new();
    let fd = vfs.open("/dev/serial", O_WRONLY, &mut t);
    let mut d = *t.get(fd).unwrap();
    assert_eq!(vfs.write(&mut d, b"hi"), 2);
    assert_eq!(vfs.write(&mut d, b" there"), 6);
    assert_eq!(vfs.take_serial_output(), b"hi there".to_vec());
    assert_eq!(vfs.take_serial_output(), Vec::<u8>::new());
}

#[test]
fn null_write_does_not_reach_the_serial_log() {
    let mut vfs = Vfs::new();
    let mut t = FdTable::new();
    let fd = vfs.open("/dev/null", O_WRONLY, &mut t);
    let mut d = *t.get(fd).unwrap();
    assert_eq!(vfs.write(&mut d, b"discarded"), 9);
    assert_eq!(vfs.take_serial_output(), Vec::<u8>::new());
}

#[test]
fn read_is_eof_on_null_and_fails_on_serial() {
    let mut vfs = Vfs::new();
    let mut t = FdTable::new();
    let fd_null = vfs.open("/dev/null", 0, &mut t);
    let fd_serial = vfs.open("/dev/serial", 0, &mut t);
    let mut buf = vec![7u8; 10];
    let mut d = *t.get(fd_null).unwrap();
    assert_eq!(vfs.read(&mut d, &mut buf), 0);
    assert_eq!(buf, vec![7u8; 10]);
    let mut d = *t.get(fd_serial).unwrap();
    assert_eq!(vfs.read(&mut d, &mut buf), ERR);
}

#[test]
fn ioctl_always_fails_on_both_devices() {
    let mut vfs = Vfs::new();
    let mut t = FdTable::new();
    let fd_null = vfs.open("/dev/null", 0, &mut t);
    let fd_serial = vfs.open("/dev/serial", 0, &mut t);
    for (cmd, arg) in [(0u32, 0usize), (1, 2), (u32::MAX, usize::MAX), (42, 7)] {
        assert_eq!(vfs.ioctl(t.get(fd_null).unwrap(), cmd, arg), ERR);
        assert_eq!(vfs.ioctl(t.get(fd_serial).unwrap(), cmd, arg), ERR);
    }
}

#[test]
fn null_driver_capability() {
    let mut d = NullDriver {};
    assert_eq!(d.write(b"abcd"), 4);
    assert_eq!(d.write(b""), 0);
    let mut buf = vec![1u8, 2, 3];
    assert_eq!(d.read(&mut buf), 0);
    assert_eq!(buf, vec![1u8, 2, 3]);
    assert_eq!(d.ioctl(0, 0), ERR);
}

#[test]
fn serial_driver_capability() {
    let mut d = SerialDriver::new();
    assert_eq!(d.write(b"log"), 3);
    let mut buf = vec![0u8; 4];
    assert_eq!(d.read(&mut buf), ERR);
    assert_eq!(d.ioctl(9, 9), ERR);
    assert_eq!(d.take_output(), b"log".to_vec());
}
