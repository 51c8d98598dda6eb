# posish: read and write

`read` and `write`, optionally positioned (`pread`, `pwrite`), optionally
vectored (`readv`, `writev`, `preadv`, `pwritev`, `preadv2`, `pwritev2`).

- `src/` is the verified library. `read_write` decides the system call to
  make (`Call`): it checks and converts the file offset, passes the number of
  buffers of a vectored call (all of them, up to `i32::MAX`; it is not clamped
  to `max_iov`) and the `RWF_*` flags, and turns the raw return value and
  `errno` into a result (`negone_err`). `iov` is `max_iov`, the system's limit
  on the number of buffers, asked for once and then kept, which is offered to
  callers;
  `flags` is `ReadWriteFlags`; `error` is the error type.
- `app/` performs the system calls through `libc` on any `AsFd`, handing each
  verified function a closure that makes the call it is given.
