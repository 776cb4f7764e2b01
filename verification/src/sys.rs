//! Values and decoders taken from the `libc` crate.
//!
//! Each item here calls into `libc`; its contract states what the crate's
//! source defines for the Linux/Android `x86_64` and `aarch64` targets that
//! the tracer is built for.
use vstd::prelude::*;

verus! {

/// `libc::ENOSYS` ("function not implemented"), 38 on Linux and Android
/// for `x86_64` and `aarch64`.
#[verifier::external_body]
pub(crate) fn errno_enosys() -> (r: i32)
    ensures
        r == 38,
{
    libc::ENOSYS
}

/// `libc::ETIMEDOUT` ("connection timed out"), 110 on Linux and Android
/// for `x86_64` and `aarch64`.
#[verifier::external_body]
pub(crate) fn errno_etimedout() -> (r: i32)
    ensures
        r == 110,
{
    libc::ETIMEDOUT
}

/// `libc::EPERM` ("operation not permitted"), 1 on every Linux target.
#[verifier::external_body]
pub(crate) fn errno_eperm() -> (r: i32)
    ensures
        r == 1,
{
    libc::EPERM
}

/// `libc::MAP_SHARED`, the bit 0x01 of `mmap` flags on Linux.
#[verifier::external_body]
pub(crate) fn map_shared() -> (r: i32)
    ensures
        r == 0x01,
{
    libc::MAP_SHARED
}

/// `libc::MAP_PRIVATE`, the bit 0x02 of `mmap` flags on Linux.
#[verifier::external_body]
pub(crate) fn map_private() -> (r: i32)
    ensures
        r == 0x02,
{
    libc::MAP_PRIVATE
}

/// `libc::MAP_ANONYMOUS`, the bit 0x20 of `mmap` flags on Linux
/// `x86_64` and `aarch64`.
#[verifier::external_body]
pub(crate) fn map_anonymous() -> (r: i32)
    ensures
        r == 0x20,
{
    libc::MAP_ANONYMOUS
}

/// `libc::SIGTRAP`, signal 5 on Linux.
#[verifier::external_body]
pub(crate) fn sig_trap() -> (r: i32)
    ensures
        r == 5,
{
    libc::SIGTRAP
}

/// `libc::SIGSYS`, signal 31 on Linux and Android for `x86_64` and
/// `aarch64`.
#[verifier::external_body]
pub(crate) fn sig_sys() -> (r: i32)
    ensures
        r == 31,
{
    libc::SIGSYS
}

/// `libc::SIGSTOP`, signal 19 on Linux and Android for `x86_64` and
/// `aarch64`.
#[verifier::external_body]
pub(crate) fn sig_stop() -> (r: i32)
    ensures
        r == 19,
{
    libc::SIGSTOP
}

/// `libc::PTRACE_EVENT_FORK`, ptrace event 1.
#[verifier::external_body]
pub(crate) fn ptrace_event_fork() -> (r: i32)
    ensures
        r == 1,
{
    libc::PTRACE_EVENT_FORK
}

/// `libc::PTRACE_EVENT_VFORK`, ptrace event 2.
#[verifier::external_body]
pub(crate) fn ptrace_event_vfork() -> (r: i32)
    ensures
        r == 2,
{
    libc::PTRACE_EVENT_VFORK
}

/// `libc::PTRACE_EVENT_CLONE`, ptrace event 3.
#[verifier::external_body]
pub(crate) fn ptrace_event_clone() -> (r: i32)
    ensures
        r == 3,
{
    libc::PTRACE_EVENT_CLONE
}

/// `libc::PTRACE_EVENT_EXEC`, ptrace event 4.
#[verifier::external_body]
pub(crate) fn ptrace_event_exec() -> (r: i32)
    ensures
        r == 4,
{
    libc::PTRACE_EVENT_EXEC
}

/// `libc::PTRACE_EVENT_VFORK_DONE`, ptrace event 5.
#[verifier::external_body]
pub(crate) fn ptrace_event_vfork_done() -> (r: i32)
    ensures
        r == 5,
{
    libc::PTRACE_EVENT_VFORK_DONE
}

/// `libc::PTRACE_EVENT_EXIT`, ptrace event 6.
#[verifier::external_body]
pub(crate) fn ptrace_event_exit() -> (r: i32)
    ensures
        r == 6,
{
    libc::PTRACE_EVENT_EXIT
}

/// `libc::WIFEXITED`: its source computes `(status & 0x7f) == 0`.
#[verifier::external_body]
pub(crate) fn w_if_exited(status: i32) -> (r: bool)
    ensures
        r == ((status & 0x7f) == 0),
{
    libc::WIFEXITED(status)
}

/// `libc::WEXITSTATUS`: its source computes `(status >> 8) & 0xff`.
#[verifier::external_body]
pub(crate) fn w_exit_status(status: i32) -> (r: i32)
    ensures
        r == ((status >> 8) & 0xff),
{
    libc::WEXITSTATUS(status)
}

/// `libc::WIFSIGNALED`: its source computes
/// `((status & 0x7f) + 1) as i8 >= 2`, which holds exactly when the low
/// seven bits lie in `1..=126`.
#[verifier::external_body]
pub(crate) fn w_if_signaled(status: i32) -> (r: bool)
    ensures
        r == (1 <= (status & 0x7f) && (status & 0x7f) <= 126),
{
    libc::WIFSIGNALED(status)
}

/// `libc::WTERMSIG`: its source computes `status & 0x7f`.
#[verifier::external_body]
pub(crate) fn w_term_sig(status: i32) -> (r: i32)
    ensures
        r == (status & 0x7f),
{
    libc::WTERMSIG(status)
}

/// `libc::WIFSTOPPED`: its source computes `(status & 0xff) == 0x7f`.
#[verifier::external_body]
pub(crate) fn w_if_stopped(status: i32) -> (r: bool)
    ensures
        r == ((status & 0xff) == 0x7f),
{
    libc::WIFSTOPPED(status)
}

/// `libc::WSTOPSIG`: its source computes `(status >> 8) & 0xff`.
#[verifier::external_body]
pub(crate) fn w_stop_sig(status: i32) -> (r: i32)
    ensures
        r == ((status >> 8) & 0xff),
{
    libc::WSTOPSIG(status)
}

} // verus!
