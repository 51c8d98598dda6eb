//! The system's limit on the number of buffers of a vectored call.
//!
//! The limit is `sysconf(_SC_IOV_MAX)`, asked for once and then kept in an
//! [`IovLimit`]. Where the system gives no positive answer, the minimum that
//! POSIX requires, 16, is used. The system's answer, a C `long`, is taken as
//! an `isize`, which has its width on every Linux target, so a positive answer
//! is kept as it is.

use vstd::prelude::*;

verus! {

/// The smallest limit on the number of buffers that POSIX allows.
pub const POSIX_IOV_MIN: usize = 16;

/// The kept limit on the number of buffers of a vectored call; 0 means that
/// the system has not been asked yet.
pub struct IovLimit {
    lim: usize,
}

impl View for IovLimit {
    type V = usize;

    closed spec fn view(&self) -> usize {
        self.lim
    }
}

impl IovLimit {
    /// A limit that has not been asked for yet.
    pub fn new() -> (r: IovLimit)
        ensures
            r@ == 0,
    {
        IovLimit { lim: 0 }
    }

    /// A limit that holds a value kept from earlier (0: not asked yet).
    pub fn from_cached(lim: usize) -> (r: IovLimit)
        ensures
            r@ == lim,
    {
        IovLimit { lim }
    }

    /// The kept value (0: not asked yet).
    pub fn cached(&self) -> (r: usize)
        ensures
            r == self@,
    {
        self.lim
    }
}

/// The limit taken from what `sysconf(_SC_IOV_MAX)` returned.
pub open spec fn limit_from_sysconf(ret: isize) -> usize {
    if ret > 0 {
        ret as usize
    } else {
        POSIX_IOV_MIN
    }
}

/// What `max_iov` returns when `cached` is kept and the system, if asked,
/// answers `ret`.
pub open spec fn max_iov_result(cached: usize, ret: isize) -> usize {
    if cached != 0 {
        cached
    } else {
        limit_from_sysconf(ret)
    }
}

/// Asks the system for the limit with `query` (which stands for
/// `sysconf(_SC_IOV_MAX)`), keeps the answer in `limit` and returns it.
pub fn query_max_iov<Q: FnOnce() -> isize>(limit: &mut IovLimit, query: Q) -> (lim: usize)
    requires
        call_requires(query, ()),
    ensures
        exists|ret: isize| call_ensures(query, (), ret) && lim == limit_from_sysconf(ret),
        final(limit)@ == lim,
{
    let ret = query();
    let lim: usize = if ret > 0 {
        ret as usize
    } else {
        POSIX_IOV_MIN
    };
    limit.lim = lim;
    assert(call_ensures(query, (), ret) && lim == limit_from_sysconf(ret));
    lim
}

/// The limit on the number of buffers of a vectored call: the kept one, or,
/// where none is kept yet, the system's answer to `query`, which is then kept.
/// Where a limit is kept, `query` is not called: nothing is required of it
/// then.
pub fn max_iov<Q: FnOnce() -> isize>(limit: &mut IovLimit, query: Q) -> (lim: usize)
    requires
        old(limit)@ == 0 ==> call_requires(query, ()),
    ensures
        final(limit)@ == lim,
        old(limit)@ != 0 ==> lim == old(limit)@,
        old(limit)@ == 0 ==> exists|ret: isize|
            call_ensures(query, (), ret) && lim == max_iov_result(old(limit)@, ret),
{
    let mut lim: usize = limit.lim;
    if lim == 0 {
        lim = query_max_iov(limit, query);
        proof {
            let ret = choose|ret: isize| call_ensures(query, (), ret) && lim == limit_from_sysconf(ret);
            assert(lim == max_iov_result(0, ret));
        }
    }
    lim
}

/// `max_iov` gives the kept limit where one is kept, and otherwise the
/// system's answer where it is positive, and 16 where it is not.
pub proof fn lemma_max_iov_result(cached: usize, ret: isize)
    ensures
        cached != 0 ==> max_iov_result(cached, ret) == cached,
        cached == 0 && ret > 0 ==> max_iov_result(cached, ret) == ret,
        cached == 0 && ret <= 0 ==> max_iov_result(cached, ret) == 16,
{
}

/// Once `max_iov` has returned a limit other than 0, every later call returns
/// that same limit, whatever the system would answer.
pub proof fn lemma_max_iov_settles(cached: usize, first: isize, later: isize)
    requires
        max_iov_result(cached, first) != 0,
    ensures
        max_iov_result(max_iov_result(cached, first), later) == max_iov_result(cached, first),
{
}

/// The limit is never 0: it is the system's answer where it is positive, and
/// 16 otherwise.
pub proof fn lemma_limit_from_sysconf(ret: isize)
    ensures
        limit_from_sysconf(ret) > 0,
        ret > 0 ==> limit_from_sysconf(ret) == ret,
        ret <= 0 ==> limit_from_sysconf(ret) == 16,
{
}

} // verus!
