//! `read` and `write`, optionally positioned, optionally vectored.
//!
//! Each function decides the [`Call`] to make, hands it to `sys`, which
//! performs the system call and returns its raw result with the `errno` value
//! read right after it, and turns that into a result with [`negone_err`].
//!
//! A vectored call hands over all the buffers it is given, up to `i32::MAX`;
//! it does not clamp their number to [`crate::iov::max_iov`], which is offered
//! to callers that want to know the system's limit.

use crate::error::Error;
use crate::flags::ReadWriteFlags;
use vstd::prelude::*;

verus! {

/// A system call with all its arguments but the buffers: the file descriptor,
/// the length of the one buffer or the number of buffers (`iovcnt`), the
/// offset and the `RWF_*` flags.
#[derive(Debug, Clone, Copy, PartialEq, Eq, Structural)]
pub enum Call {
    /// `read(fd, buf, len)`
    Read { fd: i32, len: usize },
    /// `write(fd, buf, len)`
    Write { fd: i32, len: usize },
    /// `pread64(fd, buf, len, offset)`
    Pread { fd: i32, len: usize, offset: i64 },
    /// `pwrite64(fd, buf, len, offset)`
    Pwrite { fd: i32, len: usize, offset: i64 },
    /// `readv(fd, iov, iovcnt)`
    Readv { fd: i32, iovcnt: i32 },
    /// `writev(fd, iov, iovcnt)`
    Writev { fd: i32, iovcnt: i32 },
    /// `preadv64(fd, iov, iovcnt, offset)`
    Preadv { fd: i32, iovcnt: i32, offset: i64 },
    /// `pwritev64(fd, iov, iovcnt, offset)`
    Pwritev { fd: i32, iovcnt: i32, offset: i64 },
    /// `preadv2(fd, iov, iovcnt, offset, flags)`
    Preadv2 { fd: i32, iovcnt: i32, offset: libc::off_t, flags: i32 },
    /// `pwritev2(fd, iov, iovcnt, offset, flags)`
    Pwritev2 { fd: i32, iovcnt: i32, offset: libc::off_t, flags: i32 },
}

/// The result of a call that returned `ret` and left `errno` behind: the
/// error where it returned -1, and otherwise the number of bytes.
pub open spec fn outcome(ret: isize, errno: i32) -> Result<usize, Error> {
    if ret == -1 {
        Err(Error::Os(errno))
    } else {
        Ok(ret as usize)
    }
}

/// A call that returned -1 fails with exactly the `errno` value read after
/// it, whatever that value is; any other return succeeds, and a count that is
/// not negative comes back unchanged, whatever its size.
pub proof fn lemma_outcome(ret: isize, errno: i32)
    ensures
        ret == -1 ==> outcome(ret, errno) == Err::<usize, Error>(Error::Os(errno)),
        outcome(ret, errno) is Ok <==> ret != -1,
        ret >= 0 ==> (outcome(ret, errno) matches Ok(n) && n == ret),
        outcome(ret, errno) matches Err(e) ==> e == Error::Os(errno),
{
}

/// Turns the raw result `ret` of a call, and the `errno` value read right
/// after it, into the number of bytes read or written, or the error.
pub fn negone_err(ret: isize, errno: i32) -> (r: Result<usize, Error>)
    ensures
        r == outcome(ret, errno),
        ret == -1 ==> r == Err::<usize, Error>(Error::Os(errno)),
        ret != -1 ==> r is Ok,
        ret >= 0 ==> (r matches Ok(n) && n == ret),
{
    if ret == -1 {
        Err(Error::Os(errno))
    } else {
        Ok(
            #[verifier::truncate]
            (ret as usize),
        )
    }
}

/// The file offset as `off64_t` takes it, where it fits.
pub open spec fn offset_spec(offset: u64) -> Result<i64, Error> {
    if offset <= i64::MAX {
        Ok(offset as i64)
    } else {
        Err(Error::Overflow)
    }
}

/// An offset converts to `off64_t` exactly where it is at most `i64::MAX`,
/// keeping its value; every other offset is refused with `Overflow`, and
/// with no other error.
pub proof fn lemma_offset(offset: u64)
    ensures
        offset_spec(offset) is Ok <==> offset <= 0x7fff_ffff_ffff_ffffu64,
        offset_spec(offset) matches Ok(o) ==> o == offset,
        offset_spec(offset) matches Err(e) ==> e == Error::Overflow,
        off_t_offset_spec(offset) is Ok <==> offset <= libc::off_t::MAX,
        off_t_offset_spec(offset) matches Ok(o) ==> o == offset,
        off_t_offset_spec(offset) matches Err(e) ==> e == Error::Overflow,
{
}

/// Converts a file offset to `off64_t`: `Overflow` where it does not fit.
pub fn file_offset(offset: u64) -> (r: Result<i64, Error>)
    ensures
        r == offset_spec(offset),
{
    if offset <= 0x7fff_ffff_ffff_ffffu64 {
        Ok(offset as i64)
    } else {
        Err(Error::Overflow)
    }
}

/// The file offset as the platform's `off_t` takes it, where it fits (64 bits
/// wide on 64-bit targets and where 64-bit file offsets are chosen, 32 bits
/// elsewhere).
pub open spec fn off_t_offset_spec(offset: u64) -> Result<libc::off_t, Error> {
    if offset <= libc::off_t::MAX {
        Ok(offset as libc::off_t)
    } else {
        Err(Error::Overflow)
    }
}

/// Converts a file offset to the platform's `off_t`: `Overflow` where it does
/// not fit.
pub fn off_t_offset(offset: u64) -> (r: Result<libc::off_t, Error>)
    ensures
        r == off_t_offset_spec(offset),
{
    if offset <= libc::off_t::MAX as u64 {
        Ok(offset as libc::off_t)
    } else {
        Err(Error::Overflow)
    }
}

/// `read(fd, buf.as_ptr(), buf.len())`, where `buf_len` is `buf.len()`.
pub fn read<F: FnOnce(Call) -> (isize, i32)>(fd: i32, buf_len: usize, sys: F) -> (r: Result<
    usize,
    Error,
>)
    requires
        call_requires(sys, ((Call::Read { fd, len: buf_len }),)),
    ensures
        exists|out: (isize, i32)|
            call_ensures(sys, ((Call::Read { fd, len: buf_len }),), out) && r == outcome(
                out.0,
                out.1,
            ),
{
    let call = Call::Read { fd, len: buf_len };
    let (ret, errno) = sys(call);
    assert(call_ensures(sys, (call,), (ret, errno)));
    negone_err(ret, errno)
}

/// `write(fd, buf.as_ptr(), buf.len())`, where `buf_len` is `buf.len()`.
pub fn write<F: FnOnce(Call) -> (isize, i32)>(fd: i32, buf_len: usize, sys: F) -> (r: Result<
    usize,
    Error,
>)
    requires
        call_requires(sys, ((Call::Write { fd, len: buf_len }),)),
    ensures
        exists|out: (isize, i32)|
            call_ensures(sys, ((Call::Write { fd, len: buf_len }),), out) && r == outcome(
                out.0,
                out.1,
            ),
{
    let call = Call::Write { fd, len: buf_len };
    let (ret, errno) = sys(call);
    assert(call_ensures(sys, (call,), (ret, errno)));
    negone_err(ret, errno)
}

/// `pread(fd, buf.as_ptr(), buf.len(), offset)`, where `buf_len` is
/// `buf.len()`. An offset that does not fit `off64_t` fails with `Overflow`
/// and makes no call.
pub fn pread<F: FnOnce(Call) -> (isize, i32)>(fd: i32, buf_len: usize, offset: u64, sys: F) -> (r:
    Result<usize, Error>)
    requires
        offset <= i64::MAX ==> call_requires(
            sys,
            ((Call::Pread { fd, len: buf_len, offset: offset as i64 }),),
        ),
    ensures
        offset > i64::MAX ==> r == Err::<usize, Error>(Error::Overflow),
        offset <= i64::MAX ==> exists|out: (isize, i32)|
            call_ensures(sys, ((Call::Pread { fd, len: buf_len, offset: offset as i64 }),), out)
                && r == outcome(out.0, out.1),
{
    let offset = match file_offset(offset) {
        Ok(o) => o,
        Err(e) => return Err(e),
    };
    let call = Call::Pread { fd, len: buf_len, offset };
    let (ret, errno) = sys(call);
    assert(call_ensures(sys, (call,), (ret, errno)));
    negone_err(ret, errno)
}

/// `pwrite(fd, buf.as_ptr(), buf.len(), offset)`, where `buf_len` is
/// `buf.len()`. An offset that does not fit `off64_t` fails with `Overflow`
/// and makes no call.
pub fn pwrite<F: FnOnce(Call) -> (isize, i32)>(fd: i32, buf_len: usize, offset: u64, sys: F) -> (r:
    Result<usize, Error>)
    requires
        offset <= i64::MAX ==> call_requires(
            sys,
            ((Call::Pwrite { fd, len: buf_len, offset: offset as i64 }),),
        ),
    ensures
        offset > i64::MAX ==> r == Err::<usize, Error>(Error::Overflow),
        offset <= i64::MAX ==> exists|out: (isize, i32)|
            call_ensures(sys, ((Call::Pwrite { fd, len: buf_len, offset: offset as i64 }),), out)
                && r == outcome(out.0, out.1),
{
    let offset = match file_offset(offset) {
        Ok(o) => o,
        Err(e) => return Err(e),
    };
    let call = Call::Pwrite { fd, len: buf_len, offset };
    let (ret, errno) = sys(call);
    assert(call_ensures(sys, (call,), (ret, errno)));
    negone_err(ret, errno)
}

/// The number of buffers that a vectored call hands over, as the C `int` it
/// takes: all of them, or `i32::MAX` where there are more than a C `int`
/// counts. It never wraps, so it is at least 1 for any buffers at all.
pub open spec fn buf_count_spec(nbufs: usize) -> i32 {
    if nbufs <= i32::MAX {
        nbufs as i32
    } else {
        i32::MAX
    }
}

/// The number of buffers that a vectored call hands over, out of `nbufs`.
pub fn buf_count(nbufs: usize) -> (r: i32)
    ensures
        r == buf_count_spec(nbufs),
{
    if nbufs <= 0x7fff_ffffusize {
        nbufs as i32
    } else {
        0x7fff_ffffi32
    }
}

/// A vectored call hands over no more buffers than it is given, at least one
/// where it is given any, and all of them where they fit a C `int`.
pub proof fn lemma_buf_count_bounds(nbufs: usize)
    ensures
        0 <= buf_count_spec(nbufs) <= nbufs,
        nbufs > 0 ==> buf_count_spec(nbufs) >= 1,
        nbufs <= i32::MAX ==> buf_count_spec(nbufs) == nbufs,
        nbufs > i32::MAX ==> buf_count_spec(nbufs) == i32::MAX,
{
}

/// `readv(fd, bufs.as_ptr(), bufs.len())`, where `nbufs` is `bufs.len()`.
pub fn readv<F: FnOnce(Call) -> (isize, i32)>(fd: i32, nbufs: usize, sys: F) -> (r: Result<
    usize,
    Error,
>)
    requires
        call_requires(sys, ((Call::Readv { fd, iovcnt: buf_count_spec(nbufs) }),)),
    ensures
        exists|out: (isize, i32)|
            call_ensures(sys, ((Call::Readv { fd, iovcnt: buf_count_spec(nbufs) }),), out) && r == outcome(
                out.0,
                out.1,
            ),
{
    let call = Call::Readv { fd, iovcnt: buf_count(nbufs) };
    let (ret, errno) = sys(call);
    assert(call_ensures(sys, (call,), (ret, errno)));
    negone_err(ret, errno)
}

/// `writev(fd, bufs.as_ptr(), bufs.len())`, where `nbufs` is `bufs.len()`.
pub fn writev<F: FnOnce(Call) -> (isize, i32)>(fd: i32, nbufs: usize, sys: F) -> (r: Result<
    usize,
    Error,
>)
    requires
        call_requires(sys, ((Call::Writev { fd, iovcnt: buf_count_spec(nbufs) }),)),
    ensures
        exists|out: (isize, i32)|
            call_ensures(sys, ((Call::Writev { fd, iovcnt: buf_count_spec(nbufs) }),), out) && r == outcome(
                out.0,
                out.1,
            ),
{
    let call = Call::Writev { fd, iovcnt: buf_count(nbufs) };
    let (ret, errno) = sys(call);
    assert(call_ensures(sys, (call,), (ret, errno)));
    negone_err(ret, errno)
}

/// `preadv(fd, bufs.as_ptr(), bufs.len(), offset)`, where `nbufs` is
/// `bufs.len()`. An offset that does not fit `off64_t` fails with `Overflow` and
/// makes no call.
pub fn preadv<F: FnOnce(Call) -> (isize, i32)>(
    fd: i32,
    nbufs: usize,
    offset: u64,
    sys: F,
) -> (r: Result<usize, Error>)
    requires
        offset <= i64::MAX ==> call_requires(
            sys,
            ((Call::Preadv { fd, iovcnt: buf_count_spec(nbufs), offset: offset as i64 }),),
        ),
    ensures
        offset > i64::MAX ==> r == Err::<usize, Error>(Error::Overflow),
        offset <= i64::MAX ==> exists|out: (isize, i32)|
            call_ensures(
                sys,
                ((Call::Preadv { fd, iovcnt: buf_count_spec(nbufs), offset: offset as i64 }),),
                out,
            ) && r == outcome(out.0, out.1),
{
    let offset = match file_offset(offset) {
        Ok(o) => o,
        Err(e) => return Err(e),
    };
    let call = Call::Preadv { fd, iovcnt: buf_count(nbufs), offset };
    let (ret, errno) = sys(call);
    assert(call_ensures(sys, (call,), (ret, errno)));
    negone_err(ret, errno)
}

/// `pwritev(fd, bufs.as_ptr(), bufs.len(), offset)`, where `nbufs` is
/// `bufs.len()`. An offset that does not fit `off64_t` fails with `Overflow` and
/// makes no call.
pub fn pwritev<F: FnOnce(Call) -> (isize, i32)>(
    fd: i32,
    nbufs: usize,
    offset: u64,
    sys: F,
) -> (r: Result<usize, Error>)
    requires
        offset <= i64::MAX ==> call_requires(
            sys,
            ((Call::Pwritev { fd, iovcnt: buf_count_spec(nbufs), offset: offset as i64 }),),
        ),
    ensures
        offset > i64::MAX ==> r == Err::<usize, Error>(Error::Overflow),
        offset <= i64::MAX ==> exists|out: (isize, i32)|
            call_ensures(
                sys,
                ((Call::Pwritev { fd, iovcnt: buf_count_spec(nbufs), offset: offset as i64 }),),
                out,
            ) && r == outcome(out.0, out.1),
{
    let offset = match file_offset(offset) {
        Ok(o) => o,
        Err(e) => return Err(e),
    };
    let call = Call::Pwritev { fd, iovcnt: buf_count(nbufs), offset };
    let (ret, errno) = sys(call);
    assert(call_ensures(sys, (call,), (ret, errno)));
    negone_err(ret, errno)
}

/// `preadv2(fd, bufs.as_ptr(), bufs.len(), offset, flags.bits())`, where `nbufs` is
/// `bufs.len()`. An offset that does not fit `off_t` fails with `Overflow` and
/// makes no call.
pub fn preadv2<F: FnOnce(Call) -> (isize, i32)>(
    fd: i32,
    nbufs: usize,
    offset: u64,
    flags: ReadWriteFlags,
    sys: F,
) -> (r: Result<usize, Error>)
    requires
        offset <= libc::off_t::MAX ==> call_requires(
            sys,
            ((Call::Preadv2 { fd, iovcnt: buf_count_spec(nbufs), offset: offset as libc::off_t, flags: flags@ }),),
        ),
    ensures
        offset > libc::off_t::MAX ==> r == Err::<usize, Error>(Error::Overflow),
        offset <= libc::off_t::MAX ==> exists|out: (isize, i32)|
            call_ensures(
                sys,
                ((Call::Preadv2 { fd, iovcnt: buf_count_spec(nbufs), offset: offset as libc::off_t, flags: flags@ }),),
                out,
            ) && r == outcome(out.0, out.1),
{
    let offset = match off_t_offset(offset) {
        Ok(o) => o,
        Err(e) => return Err(e),
    };
    let call = Call::Preadv2 { fd, iovcnt: buf_count(nbufs), offset, flags: flags.bits() };
    let (ret, errno) = sys(call);
    assert(call_ensures(sys, (call,), (ret, errno)));
    negone_err(ret, errno)
}

/// `pwritev2(fd, bufs.as_ptr(), bufs.len(), offset, flags.bits())`, where `nbufs` is
/// `bufs.len()`. An offset that does not fit `off_t` fails with `Overflow` and
/// makes no call.
pub fn pwritev2<F: FnOnce(Call) -> (isize, i32)>(
    fd: i32,
    nbufs: usize,
    offset: u64,
    flags: ReadWriteFlags,
    sys: F,
) -> (r: Result<usize, Error>)
    requires
        offset <= libc::off_t::MAX ==> call_requires(
            sys,
            ((Call::Pwritev2 { fd, iovcnt: buf_count_spec(nbufs), offset: offset as libc::off_t, flags: flags@ }),),
        ),
    ensures
        offset > libc::off_t::MAX ==> r == Err::<usize, Error>(Error::Overflow),
        offset <= libc::off_t::MAX ==> exists|out: (isize, i32)|
            call_ensures(
                sys,
                ((Call::Pwritev2 { fd, iovcnt: buf_count_spec(nbufs), offset: offset as libc::off_t, flags: flags@ }),),
                out,
            ) && r == outcome(out.0, out.1),
{
    let offset = match off_t_offset(offset) {
        Ok(o) => o,
        Err(e) => return Err(e),
    };
    let call = Call::Pwritev2 { fd, iovcnt: buf_count(nbufs), offset, flags: flags.bits() };
    let (ret, errno) = sys(call);
    assert(call_ensures(sys, (call,), (ret, errno)));
    negone_err(ret, errno)
}

} // verus!
