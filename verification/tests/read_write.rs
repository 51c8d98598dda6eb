use posish::error::Error;
use posish::flags::ReadWriteFlags;
use posish::read_write::{
    buf_count, file_offset, negone_err, off_t_offset, pread, preadv, preadv2, pwrite, pwritev, pwritev2, read, readv,
    writev, Call,
};

#[test]
fn negone_err_maps_minus_one_to_errno() {
    assert_eq!(negone_err(-1, libc::EBADF), Err(Error::Os(libc::EBADF)));
    assert_eq!(negone_err(0, 5), Ok(0));
    assert_eq!(negone_err(4096, 0), Ok(4096));
}

#[test]
fn file_offset_checks_range() {
    assert_eq!(file_offset(0), Ok(0));
    assert_eq!(file_offset(i64::MAX as u64), Ok(i64::MAX));
    assert_eq!(file_offset(i64::MAX as u64 + 1), Err(Error::Overflow));
    assert_eq!(file_offset(u64::MAX), Err(Error::Overflow));
}

#[test]
fn overflow_error_is_eoverflow() {
    assert_eq!(Error::Overflow.raw_os_error(), libc::EOVERFLOW);
    assert_eq!(Error::from_raw_os_error(libc::EINTR).raw_os_error(), libc::EINTR);
    assert_eq!(Error::from_raw_os_error(4), Error::Os(4));
}

#[test]
fn read_hands_over_fd_and_length() {
    let mut seen = None;
    let r = read(3, 128, |c| {
        seen = Some(c);
        (17, 0)
    });
    assert_eq!(r, Ok(17));
    assert_eq!(seen, Some(Call::Read { fd: 3, len: 128 }));
}

#[test]
fn write_reports_errno() {
    let mut seen = None;
    let r = posish::read_write::write(4, 9, |c| {
        seen = Some(c);
        (-1, libc::EPIPE)
    });
    assert_eq!(r, Err(Error::Os(libc::EPIPE)));
    assert_eq!(seen, Some(Call::Write { fd: 4, len: 9 }));
}

#[test]
fn pread_passes_offset() {
    let mut seen = None;
    let r = pread(5, 10, 4096, |c| {
        seen = Some(c);
        (10, 0)
    });
    assert_eq!(r, Ok(10));
    assert_eq!(seen, Some(Call::Pread { fd: 5, len: 10, offset: 4096 }));
}

#[test]
fn pread_rejects_large_offset_without_call() {
    let r = pread(5, 10, u64::MAX, |_| panic!("no call may be made"));
    assert_eq!(r, Err(Error::Overflow));
}

#[test]
fn pwrite_passes_offset_and_rejects_large_one() {
    let mut seen = None;
    let r = pwrite(6, 3, i64::MAX as u64, |c| {
        seen = Some(c);
        (3, 0)
    });
    assert_eq!(r, Ok(3));
    assert_eq!(seen, Some(Call::Pwrite { fd: 6, len: 3, offset: i64::MAX }));
    let r = pwrite(6, 3, 1u64 << 63, |_| panic!("no call may be made"));
    assert_eq!(r, Err(Error::Overflow));
}

#[test]
fn off_t_offset_checks_platform_range() {
    assert_eq!(off_t_offset(0), Ok(0));
    assert_eq!(off_t_offset(libc::off_t::MAX as u64), Ok(libc::off_t::MAX));
    assert_eq!(off_t_offset(libc::off_t::MAX as u64 + 1), Err(Error::Overflow));
    assert_eq!(off_t_offset(u64::MAX), Err(Error::Overflow));
}

#[test]
fn buf_count_is_the_length_as_c_int() {
    assert_eq!(buf_count(0), 0);
    assert_eq!(buf_count(20), 20);
    assert_eq!(buf_count(5000), 5000);
    assert_eq!(buf_count(i32::MAX as usize), i32::MAX);
    assert_eq!(buf_count(1usize << 31), i32::MAX);
    assert_eq!(buf_count(1usize << 32), i32::MAX);
    assert_eq!(buf_count(usize::MAX), i32::MAX);
}

#[test]
fn readv_hands_over_every_buffer() {
    let mut seen = None;
    let r = readv(7, 20, |c| {
        seen = Some(c);
        (100, 0)
    });
    assert_eq!(r, Ok(100));
    assert_eq!(seen, Some(Call::Readv { fd: 7, iovcnt: 20 }));
}

#[test]
fn writev_reports_errno() {
    let mut seen = None;
    let r = writev(8, 3, |c| {
        seen = Some(c);
        (-1, libc::EAGAIN)
    });
    assert_eq!(r, Err(Error::Os(libc::EAGAIN)));
    assert_eq!(seen, Some(Call::Writev { fd: 8, iovcnt: 3 }));
}

#[test]
fn preadv_passes_offset_and_count() {
    let mut seen = None;
    let r = preadv(9, 20, 512, |c| {
        seen = Some(c);
        (0, 0)
    });
    assert_eq!(r, Ok(0));
    assert_eq!(seen, Some(Call::Preadv { fd: 9, iovcnt: 20, offset: 512 }));
}

#[test]
fn pwritev_rejects_large_offset_without_call() {
    let r = pwritev(9, 2, u64::MAX, |_| panic!("no call may be made"));
    assert_eq!(r, Err(Error::Overflow));
}

#[test]
fn pwritev_passes_offset() {
    let mut seen = None;
    let r = pwritev(10, 2, 8, |c| {
        seen = Some(c);
        (12, 0)
    });
    assert_eq!(r, Ok(12));
    assert_eq!(seen, Some(Call::Pwritev { fd: 10, iovcnt: 2, offset: 8 }));
}

#[test]
fn preadv2_passes_flag_bits() {
    let mut seen = None;
    let flags = ReadWriteFlags::HIPRI() | ReadWriteFlags::NOWAIT();
    let r = preadv2(11, 4, 0, flags, |c| {
        seen = Some(c);
        (-1, libc::EAGAIN)
    });
    assert_eq!(r, Err(Error::Os(libc::EAGAIN)));
    assert_eq!(seen, Some(Call::Preadv2 { fd: 11, iovcnt: 4, offset: 0, flags: 9 }));
}

#[test]
fn preadv2_rejects_offset_beyond_off_t() {
    let r = preadv2(
        11,
        1,
        libc::off_t::MAX as u64 + 1,
        ReadWriteFlags::empty(),
        |_| panic!("no call may be made"),
    );
    assert_eq!(r, Err(Error::Overflow));
}

#[test]
fn pwritev2_passes_flag_bits_and_rejects_large_offset() {
    let mut seen = None;
    let r = pwritev2(12, 1, 100, ReadWriteFlags::APPEND(), |c| {
        seen = Some(c);
        (5, 0)
    });
    assert_eq!(r, Ok(5));
    assert_eq!(seen, Some(Call::Pwritev2 { fd: 12, iovcnt: 1, offset: 100, flags: 16 }));
    let r = pwritev2(12, 1, u64::MAX, ReadWriteFlags::DSYNC(), |_| panic!("no call may be made"));
    assert_eq!(r, Err(Error::Overflow));
}
