//! The tracer's state machine: what it remembers from one ptrace stop to
//! the next, and what it decides at each stop.
//!
//! The program around the library resumes the child, waits for the next
//! stop, reads and writes registers and memory, and hands each outcome to
//! one method here. Each method states, over `TracerView`, how the state
//! moves and which action is owed.
use vstd::prelude::*;
use std::collections::HashMap;
use std::collections::VecDeque;
use vstd::utf8::encode_utf8;
use crate::abi::{
    ChildAbi, HostArch, NREGS, PAUSE_TIMEOUT_THRESHOLD, abi_x86_32, abi_x86_64,
    compute_exit_return_value, is_fake_success, is_supported_abi, pause_ret_after, select_abi,
    spec_pause_ret_after, spec_select_abi,
};
use crate::paths::{
    contains_seq, is_kmsg_path, is_properties_path, spec_is_kmsg_path, spec_is_properties_path,
    spec_translate_path, str_contains, str_eq, translate_path,
};
use crate::regs::{
    Regs, get_syscall_arg, get_syscall_num, rewrite_mmap_flags_shared_to_anonymous,
    set_syscall_arg, set_syscall_num, spec_anonymous_flags,
};
use crate::status::WaitStatus;
use crate::sys::{
    errno_eperm, map_anonymous, ptrace_event_clone, ptrace_event_exec, ptrace_event_exit,
    ptrace_event_fork, ptrace_event_vfork, ptrace_event_vfork_done, sig_stop, sig_sys, sig_trap,
};

verus! {

broadcast use vstd::std_specs::hash::group_hash_axioms;

/// How many syscall numbers the rolling history keeps.
pub const RECENT_SYSCALLS_CAP: usize = 50;

/// `SIGTRAP | 0x80`: the stop signal of a syscall stop.
pub const SYSCALL_STOP_SIG: u8 = 133;

/// Everything the tracer remembers between stops.
pub struct Tracer {
    /// The architecture the tracer runs on.
    pub host: HostArch,
    /// The first traced child; its end ends the loop.
    pub init_pid: i32,
    /// The child that stopped last, and that the next resume continues.
    pub current_pid: i32,
    /// The signal handed to the child at the next resume (0 for none).
    pub resume_signal: i32,
    /// Whether the next syscall stop is an exit stop.
    pub in_syscall: bool,
    /// The ABI of the current child, once known.
    pub abi: Option<ChildAbi>,
    /// An `execve` completed: forget the ABI at the next iteration.
    pub reset_abi_next: bool,
    /// An `execve` entry was seen and its exit is still due.
    pub saw_execve: bool,
    /// At least one `execve` has completed.
    pub past_first_execve: bool,
    /// Syscall entries since the last completed `execve`.
    pub post_execve_syscall_count: u64,
    /// The pending exit belongs to `getpid`/`getppid`: it reports 1.
    pub pending_getpid: bool,
    /// The pending exit belongs to an extended-attribute setter turned
    /// into `getpid`: it reports 0.
    pub pending_xattr_fake: bool,
    /// The pending exit belongs to `poll`: it reports 0.
    pub pending_poll_fake: bool,
    /// The pending open is of the kernel log device.
    pub pending_kmsg_open: bool,
    /// The descriptor the kernel log device was opened on.
    pub kmsg_fd: Option<i32>,
    /// The (translated) path of the pending open.
    pub pending_open_path: Option<String>,
    /// The descriptor the property area was opened on.
    pub properties_fd: Option<i32>,
    /// The path each successful open returned a descriptor for.
    pub open_fd_paths: HashMap<i32, String>,
    /// Successful short writes seen after the first `execve`.
    pub post_execve_write_count: u64,
    /// Successful short reads seen after the first `execve`.
    pub post_execve_read_count: u64,
    /// Base of the 4 KiB scratch area below the child's stack pointer
    /// (0 before the first syscall entry).
    pub scratch_addr: u64,
    /// Write cursor inside the scratch area.
    pub scratch_offset: u64,
    /// Consecutive seccomp-trapped `pause()` calls.
    pub pause_count: u32,
    /// The last syscall numbers the child asked for, oldest first.
    pub recent_syscalls: VecDeque<i64>,
    /// The syscall of the last seccomp trap (-1 before any).
    pub sigsys_last_nr: i64,
    /// How many seccomp traps in a row hit `sigsys_last_nr`.
    pub sigsys_repeat_count: u64,
    /// How many seccomp traps were reported quietly.
    pub sigsys_suppressed_total: u64,
}

/// The tracer's state as mathematical values.
pub struct TracerView {
    pub host: HostArch,
    pub init_pid: i32,
    pub current_pid: i32,
    pub resume_signal: i32,
    pub in_syscall: bool,
    pub abi: Option<ChildAbi>,
    pub reset_abi_next: bool,
    pub saw_execve: bool,
    pub past_first_execve: bool,
    pub post_execve_syscall_count: u64,
    pub pending_getpid: bool,
    pub pending_xattr_fake: bool,
    pub pending_poll_fake: bool,
    pub pending_kmsg_open: bool,
    pub kmsg_fd: Option<i32>,
    pub pending_open_path: Option<String>,
    pub properties_fd: Option<i32>,
    pub open_fd_paths: Map<i32, String>,
    pub post_execve_write_count: u64,
    pub post_execve_read_count: u64,
    pub scratch_addr: u64,
    pub scratch_offset: u64,
    pub pause_count: u32,
    pub recent_syscalls: Seq<i64>,
    pub sigsys_last_nr: i64,
    pub sigsys_repeat_count: u64,
    pub sigsys_suppressed_total: u64,
}

impl View for Tracer {
    type V = TracerView;

    open spec fn view(&self) -> TracerView {
        TracerView {
            host: self.host,
            init_pid: self.init_pid,
            current_pid: self.current_pid,
            resume_signal: self.resume_signal,
            in_syscall: self.in_syscall,
            abi: self.abi,
            reset_abi_next: self.reset_abi_next,
            saw_execve: self.saw_execve,
            past_first_execve: self.past_first_execve,
            post_execve_syscall_count: self.post_execve_syscall_count,
            pending_getpid: self.pending_getpid,
            pending_xattr_fake: self.pending_xattr_fake,
            pending_poll_fake: self.pending_poll_fake,
            pending_kmsg_open: self.pending_kmsg_open,
            kmsg_fd: self.kmsg_fd,
            pending_open_path: self.pending_open_path,
            properties_fd: self.properties_fd,
            open_fd_paths: self.open_fd_paths@,
            post_execve_write_count: self.post_execve_write_count,
            post_execve_read_count: self.post_execve_read_count,
            scratch_addr: self.scratch_addr,
            scratch_offset: self.scratch_offset,
            pause_count: self.pause_count,
            recent_syscalls: self.recent_syscalls@,
            sigsys_last_nr: self.sigsys_last_nr,
            sigsys_repeat_count: self.sigsys_repeat_count,
            sigsys_suppressed_total: self.sigsys_suppressed_total,
        }
    }
}

impl TracerView {
    /// The state's invariant: the history holds at most
    /// `RECENT_SYSCALLS_CAP` numbers, a known ABI's register indices lie
    /// in the register file, and the scratch cursor lies in the area.
    pub open spec fn wf(self) -> bool {
        &&& self.recent_syscalls.len() <= RECENT_SYSCALLS_CAP
        &&& (self.abi matches Some(a) ==> a.regs_in_range())
        &&& self.scratch_offset <= 4096
    }
}

/// `n + 1`, stopping at the largest value.
pub open spec fn sat_inc(n: u64) -> u64 {
    if n == u64::MAX {
        n
    } else {
        (n + 1) as u64
    }
}

/// The history after the child asked for `nr`: the oldest number leaves
/// once the history is full.
pub open spec fn push_recent(recent: Seq<i64>, nr: i64) -> Seq<i64> {
    if recent.len() >= RECENT_SYSCALLS_CAP {
        recent.subrange(recent.len() - (RECENT_SYSCALLS_CAP - 1), recent.len() as int).push(nr)
    } else {
        recent.push(nr)
    }
}

/// The state of a tracer that has just attached to `pid`.
pub open spec fn initial_view(host: HostArch, pid: i32) -> TracerView {
    TracerView {
        host,
        init_pid: pid,
        current_pid: pid,
        resume_signal: 0,
        in_syscall: false,
        abi: None,
        reset_abi_next: false,
        saw_execve: false,
        past_first_execve: false,
        post_execve_syscall_count: 0,
        pending_getpid: false,
        pending_xattr_fake: false,
        pending_poll_fake: false,
        pending_kmsg_open: false,
        kmsg_fd: None,
        pending_open_path: None,
        properties_fd: None,
        open_fd_paths: Map::empty(),
        post_execve_write_count: 0,
        post_execve_read_count: 0,
        scratch_addr: 0,
        scratch_offset: 0,
        pause_count: 0,
        recent_syscalls: Seq::empty(),
        sigsys_last_nr: -1i64,
        sigsys_repeat_count: 0,
        sigsys_suppressed_total: 0,
    }
}

/// What the loop does after a stop has been handled.
#[derive(Clone, Copy, Debug, PartialEq, Eq, Structural)]
pub enum LoopControl {
    /// Resume the current child and wait for the next stop.
    Continue,
    /// Stop tracing; the loop returns this code.
    Finish(i32),
}

/// A ptrace event reported in the upper bits of a stop status.
#[derive(Clone, Copy, Debug, PartialEq, Eq, Structural)]
pub enum PtraceEvent {
    Fork,
    Vfork,
    Clone,
    Exec,
    VforkDone,
    Exit,
    Unknown(u16),
}

/// The kind of a ptrace event number.
pub open spec fn spec_event_kind(event: u16) -> PtraceEvent {
    if event == 1 {
        PtraceEvent::Fork
    } else if event == 2 {
        PtraceEvent::Vfork
    } else if event == 3 {
        PtraceEvent::Clone
    } else if event == 4 {
        PtraceEvent::Exec
    } else if event == 5 {
        PtraceEvent::VforkDone
    } else if event == 6 {
        PtraceEvent::Exit
    } else {
        PtraceEvent::Unknown(event)
    }
}

/// What a reported stop asks of the loop.
#[derive(Clone, Copy, Debug, PartialEq, Eq, Structural)]
pub enum StopAction {
    /// The first child ended: the loop returns this code.
    Finish(i32),
    /// A forked child ended; tracing goes on with the first child.
    ChildGone,
    /// A ptrace event stop; the child resumes without a signal.
    Event(PtraceEvent),
    /// A syscall entry or exit stop: read the registers and call
    /// `Tracer::on_syscall_stop`.
    SyscallStop,
    /// A plain `SIGTRAP`; it is consumed.
    Trap,
    /// A seccomp trap (`SIGSYS`): read the registers and call
    /// `Tracer::on_seccomp_stop`.
    SeccompStop,
    /// A `SIGSTOP` (such as that of a newly attached child); it is
    /// consumed.
    Attached,
    /// Any other signal; it is handed to the child at the next resume.
    Forward(u8),
    /// A status that reports none of these.
    Ignored,
}

/// How the state moves, and what is owed, when `waitpid` reports `status`
/// for `waited`.
pub open spec fn spec_on_wait(s: TracerView, waited: i32, status: WaitStatus) -> (TracerView, StopAction) {
    let s1 = TracerView { current_pid: waited, ..s };
    match status {
        WaitStatus::Exited(code) => if waited == s.init_pid {
            (s1, StopAction::Finish(code as i32))
        } else {
            (TracerView { current_pid: s.init_pid, ..s }, StopAction::ChildGone)
        },
        WaitStatus::Signaled(sig) => if waited == s.init_pid {
            (s1, StopAction::Finish((-(sig as int)) as i32))
        } else {
            (TracerView { current_pid: s.init_pid, ..s }, StopAction::ChildGone)
        },
        WaitStatus::Stopped { sig, event } => if event != 0 {
            if event == 4 {
                (
                    TracerView { reset_abi_next: true, in_syscall: false, ..s1 },
                    StopAction::Event(spec_event_kind(event)),
                )
            } else if event == 5 {
                (TracerView { in_syscall: false, ..s1 }, StopAction::Event(spec_event_kind(event)))
            } else {
                (s1, StopAction::Event(spec_event_kind(event)))
            }
        } else if sig == SYSCALL_STOP_SIG {
            (s1, StopAction::SyscallStop)
        } else if sig == 5 {
            (s1, StopAction::Trap)
        } else if sig == 31 {
            (s1, StopAction::SeccompStop)
        } else if sig == 19 {
            (s1, StopAction::Attached)
        } else {
            (TracerView { resume_signal: sig as i32, ..s1 }, StopAction::Forward(sig))
        },
        WaitStatus::Other => (s1, StopAction::Ignored),
    }
}

/// How the state moves, and what is owed, when resuming the current child
/// failed: `reaped` is `Some(status)` when the child was gone and a
/// non-blocking `waitpid` collected it, `None` when it could not be
/// collected; `gone` is false when the resume failed for another reason.
pub open spec fn spec_on_resume_failed(s: TracerView, gone: bool, reaped: Option<WaitStatus>) -> (
    TracerView,
    LoopControl,
) {
    if !gone {
        (s, LoopControl::Finish(-1i32))
    } else {
        let code = match reaped {
            Some(WaitStatus::Exited(c)) => c as i32,
            Some(WaitStatus::Signaled(sig)) => (-(sig as int)) as i32,
            _ => -1i32,
        };
        if s.current_pid == s.init_pid {
            (s, LoopControl::Finish(code))
        } else {
            (TracerView { current_pid: s.init_pid, ..s }, LoopControl::Continue)
        }
    }
}

/// The state at the top of an iteration: a completed `execve` makes the
/// tracer forget the ABI and restart the post-`execve` count, and the
/// pending resume signal is handed out.
pub open spec fn spec_begin_iteration(s: TracerView) -> TracerView {
    if s.reset_abi_next {
        TracerView {
            abi: None,
            reset_abi_next: false,
            past_first_execve: true,
            post_execve_syscall_count: 0,
            resume_signal: 0,
            ..s
        }
    } else {
        TracerView { resume_signal: 0, ..s }
    }
}

/// The kind of an event number, from the `libc` constants.
fn event_kind(event: u16) -> (r: PtraceEvent)
    ensures
        r == spec_event_kind(event),
{
    let e = event as i32;
    if e == ptrace_event_fork() {
        PtraceEvent::Fork
    } else if e == ptrace_event_vfork() {
        PtraceEvent::Vfork
    } else if e == ptrace_event_clone() {
        PtraceEvent::Clone
    } else if e == ptrace_event_exec() {
        PtraceEvent::Exec
    } else if e == ptrace_event_vfork_done() {
        PtraceEvent::VforkDone
    } else if e == ptrace_event_exit() {
        PtraceEvent::Exit
    } else {
        PtraceEvent::Unknown(event)
    }
}

/// A `PTRACE_TRACEME` probe shows that ptrace can be used when it
/// succeeded (`result == 0`) or failed with `EPERM` only because the
/// process is already traced or restricted from tracing itself.
pub fn ptrace_probe_allows(result: i64, errno: i32) -> (r: bool)
    ensures
        r == (result == 0 || errno == 1),
{
    result == 0 || errno == errno_eperm()
}

impl Tracer {
    /// A tracer for the child `pid`, on `host`.
    pub fn new(host: HostArch, pid: i32) -> (r: Tracer)
        ensures
            r@ == initial_view(host, pid),
            r@.wf(),
    {
        let r = Tracer {
            host,
            init_pid: pid,
            current_pid: pid,
            resume_signal: 0,
            in_syscall: false,
            abi: None,
            reset_abi_next: false,
            saw_execve: false,
            past_first_execve: false,
            post_execve_syscall_count: 0,
            pending_getpid: false,
            pending_xattr_fake: false,
            pending_poll_fake: false,
            pending_kmsg_open: false,
            kmsg_fd: None,
            pending_open_path: None,
            properties_fd: None,
            open_fd_paths: HashMap::new(),
            post_execve_write_count: 0,
            post_execve_read_count: 0,
            scratch_addr: 0,
            scratch_offset: 0,
            pause_count: 0,
            recent_syscalls: VecDeque::new(),
            sigsys_last_nr: -1,
            sigsys_repeat_count: 0,
            sigsys_suppressed_total: 0,
        };
        assert(r@.open_fd_paths =~= Map::empty());
        r
    }

    /// Starts an iteration of the loop: applies a deferred ABI reset and
    /// returns the child to resume and the signal to hand it.
    pub fn begin_iteration(&mut self) -> (r: (i32, i32))
        requires
            old(self)@.wf(),
        ensures
            r == (old(self)@.current_pid, old(self)@.resume_signal),
            final(self)@ == spec_begin_iteration(old(self)@),
            final(self)@.wf(),
    {
        if self.reset_abi_next {
            self.abi = None;
            self.reset_abi_next = false;
            self.past_first_execve = true;
            self.post_execve_syscall_count = 0;
        }
        let sig = self.resume_signal;
        self.resume_signal = 0;
        (self.current_pid, sig)
    }

    /// Handles a failed resume of the current child. `gone` says whether
    /// the child no longer exists (`ESRCH`); `reaped` is what a
    /// non-blocking `waitpid` on it reported, if it reported that child.
    pub fn on_resume_failed(&mut self, gone: bool, reaped: Option<WaitStatus>) -> (r: LoopControl)
        requires
            old(self)@.wf(),
        ensures
            (final(self)@, r) == spec_on_resume_failed(old(self)@, gone, reaped),
            final(self)@.wf(),
    {
        if !gone {
            return LoopControl::Finish(-1);
        }
        let code: i32 = match reaped {
            Some(WaitStatus::Exited(c)) => c as i32,
            Some(WaitStatus::Signaled(sig)) => -(sig as i32),
            _ => -1,
        };
        if self.current_pid == self.init_pid {
            LoopControl::Finish(code)
        } else {
            self.current_pid = self.init_pid;
            LoopControl::Continue
        }
    }

    /// Handles the status `waitpid` reported for `waited`.
    pub fn on_wait(&mut self, waited: i32, status: WaitStatus) -> (r: StopAction)
        requires
            old(self)@.wf(),
        ensures
            (final(self)@, r) == spec_on_wait(old(self)@, waited, status),
            final(self)@.wf(),
    {
        self.current_pid = waited;
        match status {
            WaitStatus::Exited(code) => {
                if waited == self.init_pid {
                    StopAction::Finish(code as i32)
                } else {
                    self.current_pid = self.init_pid;
                    StopAction::ChildGone
                }
            },
            WaitStatus::Signaled(sig) => {
                if waited == self.init_pid {
                    StopAction::Finish(-(sig as i32))
                } else {
                    self.current_pid = self.init_pid;
                    StopAction::ChildGone
                }
            },
            WaitStatus::Stopped { sig, event } => {
                if event != 0 {
                    let kind = event_kind(event);
                    match kind {
                        PtraceEvent::Exec => {
                            self.reset_abi_next = true;
                            self.in_syscall = false;
                        },
                        PtraceEvent::VforkDone => {
                            self.in_syscall = false;
                        },
                        _ => {},
                    }
                    StopAction::Event(kind)
                } else if sig == SYSCALL_STOP_SIG {
                    StopAction::SyscallStop
                } else if sig as i32 == sig_trap() {
                    StopAction::Trap
                } else if sig as i32 == sig_sys() {
                    StopAction::SeccompStop
                } else if sig as i32 == sig_stop() {
                    StopAction::Attached
                } else {
                    self.resume_signal = sig as i32;
                    StopAction::Forward(sig)
                }
            },
            WaitStatus::Other => StopAction::Ignored,
        }
    }

    /// The registers of a syscall stop could not be read: the stop still
    /// counts, so the entry/exit phase flips.
    pub fn on_regs_unavailable(&mut self)
        requires
            old(self)@.wf(),
        ensures
            final(self)@ == (TracerView { in_syscall: !old(self)@.in_syscall, ..old(self)@ }),
            final(self)@.wf(),
    {
        self.in_syscall = !self.in_syscall;
    }

    /// The registers of a seccomp trap could not be read: the trapped
    /// syscall has no exit stop, so the next syscall stop is an entry.
    pub fn on_seccomp_regs_unavailable(&mut self)
        requires
            old(self)@.wf(),
        ensures
            final(self)@ == (TracerView { in_syscall: false, ..old(self)@ }),
            final(self)@.wf(),
    {
        self.in_syscall = false;
    }

    /// Fixes the ABI of the current child if it is not known yet, from the
    /// ELF class detected for it (`None` when detection failed).
    pub fn ensure_abi(&mut self, detected_64bit: Option<bool>) -> (r: ChildAbi)
        requires
            old(self)@.wf(),
        ensures
            old(self)@.abi is None ==> final(self)@ == (TracerView {
                abi: Some(spec_select_abi(old(self)@.host, detected_64bit)),
                ..old(self)@
            }),
            old(self)@.abi is Some ==> final(self)@ == old(self)@,
            final(self)@.abi == Some(r),
            final(self)@.wf(),
    {
        match self.abi {
            Some(a) => a,
            None => {
                let a = select_abi(self.host, detected_64bit);
                self.abi = Some(a);
                a
            },
        }
    }
}

/// Size of the scratch area reserved below the child's stack pointer.
pub const SCRATCH_SIZE: u64 = 4096;

/// How a syscall entry is handled, chosen by its number in a fixed order
/// (the first match wins, which matters where an ABI marks a missing
/// syscall with -1).
#[derive(Clone, Copy, Debug, PartialEq, Eq, Structural)]
pub enum EntryArm {
    /// `getpid` / `getppid`: the exit reports 1.
    PidQuery,
    /// A syscall with a path in register `arg`; `open` for the open family.
    Path { arg: usize, open: bool },
    /// `mmap` / `mmap2`: a file-backed mapping becomes anonymous.
    Mmap,
    /// `poll`: a zero or infinite timeout becomes 100 ms.
    Poll,
    /// An extended-attribute setter: it runs as `getpid`.
    Xattr,
    /// Anything else runs unchanged.
    Other,
}

/// The handling of syscall `nr` of ABI `a` at its entry.
pub open spec fn spec_entry_arm(nr: i64, a: ChildAbi) -> EntryArm {
    if nr == a.getpid || nr == a.getppid {
        EntryArm::PidQuery
    } else if nr == a.open {
        EntryArm::Path { arg: a.reg_arg1, open: true }
    } else if nr == a.openat || nr == a.openat2 {
        EntryArm::Path { arg: a.reg_arg2, open: true }
    } else if nr == a.stat || nr == a.lstat || nr == a.stat64 || nr == a.lstat64 {
        EntryArm::Path { arg: a.reg_arg1, open: false }
    } else if nr == a.newfstatat || nr == a.statx {
        EntryArm::Path { arg: a.reg_arg2, open: false }
    } else if nr == a.access {
        EntryArm::Path { arg: a.reg_arg1, open: false }
    } else if nr == a.faccessat {
        EntryArm::Path { arg: a.reg_arg2, open: false }
    } else if nr == a.readlink {
        EntryArm::Path { arg: a.reg_arg1, open: false }
    } else if nr == a.readlinkat {
        EntryArm::Path { arg: a.reg_arg2, open: false }
    } else if nr == a.chdir {
        EntryArm::Path { arg: a.reg_arg1, open: false }
    } else if nr == a.mmap || nr == a.mmap2 {
        EntryArm::Mmap
    } else if nr == a.unlink {
        EntryArm::Path { arg: a.reg_arg1, open: false }
    } else if nr == a.unlinkat {
        EntryArm::Path { arg: a.reg_arg2, open: false }
    } else if a.poll_nr != -1 && nr == a.poll_nr {
        EntryArm::Poll
    } else if nr == a.setxattr || nr == a.lsetxattr || nr == a.fsetxattr {
        EntryArm::Xattr
    } else {
        EntryArm::Other
    }
}

/// The handling of syscall `nr` of ABI `a` at its entry.
pub fn entry_arm(nr: i64, a: &ChildAbi) -> (r: EntryArm)
    ensures
        r == spec_entry_arm(nr, *a),
{
    if nr == a.getpid || nr == a.getppid {
        EntryArm::PidQuery
    } else if nr == a.open {
        EntryArm::Path { arg: a.reg_arg1, open: true }
    } else if nr == a.openat || nr == a.openat2 {
        EntryArm::Path { arg: a.reg_arg2, open: true }
    } else if nr == a.stat || nr == a.lstat || nr == a.stat64 || nr == a.lstat64 {
        EntryArm::Path { arg: a.reg_arg1, open: false }
    } else if nr == a.newfstatat || nr == a.statx {
        EntryArm::Path { arg: a.reg_arg2, open: false }
    } else if nr == a.access {
        EntryArm::Path { arg: a.reg_arg1, open: false }
    } else if nr == a.faccessat {
        EntryArm::Path { arg: a.reg_arg2, open: false }
    } else if nr == a.readlink {
        EntryArm::Path { arg: a.reg_arg1, open: false }
    } else if nr == a.readlinkat {
        EntryArm::Path { arg: a.reg_arg2, open: false }
    } else if nr == a.chdir {
        EntryArm::Path { arg: a.reg_arg1, open: false }
    } else if nr == a.mmap || nr == a.mmap2 {
        EntryArm::Mmap
    } else if nr == a.unlink {
        EntryArm::Path { arg: a.reg_arg1, open: false }
    } else if nr == a.unlinkat {
        EntryArm::Path { arg: a.reg_arg2, open: false }
    } else if a.poll_nr != -1 && nr == a.poll_nr {
        EntryArm::Poll
    } else if nr == a.setxattr || nr == a.lsetxattr || nr == a.fsetxattr {
        EntryArm::Xattr
    } else {
        EntryArm::Other
    }
}

/// The 64-bit `execve` a 32-bit child's `execve` is turned into: the
/// program path, `argv` and `envp` pointers it passed, and the scratch
/// area the translated path is written to.
#[derive(Clone, Copy, Debug, PartialEq, Eq, Structural)]
pub struct ExecveInjection {
    pub path_addr: u64,
    pub argv: u64,
    pub envp: u64,
    pub scratch_addr: u64,
}

/// The register or memory work a syscall entry asks for.
#[derive(Clone, Copy, Debug)]
pub enum EntryAction {
    /// Nothing to change.
    Nothing,
    /// Read the string at `addr` (held in register `arg`) and hand it to
    /// `Tracer::entry_path`.
    TranslatePath { arg: usize, addr: u64, open: bool },
    /// Write these registers back to the child.
    WriteRegs(Regs),
}

/// What a syscall entry asks of the loop, in order: the `execve`
/// rewrite, the entry action, then a pause of `sleep_ms` milliseconds.
#[derive(Clone, Copy, Debug)]
pub struct EntryPlan {
    pub nr: i64,
    pub inject: Option<ExecveInjection>,
    pub action: EntryAction,
    pub sleep_ms: u64,
}

/// The base of the scratch area for stack pointer `sp`: 4 KiB below it,
/// rounded down to 8 bytes, modulo 2^64.
pub open spec fn spec_scratch_base(sp: u64) -> u64 {
    let below: u64 = if sp < SCRATCH_SIZE {
        (sp + 0x1_0000_0000_0000_0000 - SCRATCH_SIZE) as u64
    } else {
        (sp - SCRATCH_SIZE) as u64
    };
    below & !7u64
}

/// The state after a syscall entry stop with register words `words`.
pub open spec fn spec_entry_view(s: TracerView, words: Seq<u64>) -> TracerView {
    let a = s.abi->0;
    let nr = words[a.reg_syscall as int] as i64;
    let arm = spec_entry_arm(nr, a);
    TracerView {
        in_syscall: true,
        recent_syscalls: push_recent(s.recent_syscalls, nr),
        saw_execve: s.saw_execve || nr == a.execve,
        post_execve_syscall_count: if s.past_first_execve {
            sat_inc(s.post_execve_syscall_count)
        } else {
            s.post_execve_syscall_count
        },
        scratch_addr: spec_scratch_base(words[a.reg_sp as int]),
        scratch_offset: 0,
        pending_getpid: s.pending_getpid || arm is PidQuery,
        pending_xattr_fake: s.pending_xattr_fake || arm is Xattr,
        pending_poll_fake: s.pending_poll_fake || nr == a.poll_nr,
        ..s
    }
}

/// The `execve` rewrite owed at an entry: for the i386 `execve` (11), once
/// a scratch area from an earlier entry exists.
pub open spec fn spec_entry_injection(s: TracerView, words: Seq<u64>) -> Option<ExecveInjection> {
    let a = s.abi->0;
    let nr = words[a.reg_syscall as int] as i64;
    if nr == a.execve && a.execve == 11 && s.scratch_addr != 0 {
        Some(
            ExecveInjection {
                path_addr: words[a.reg_arg1 as int],
                argv: words[a.reg_arg2 as int],
                envp: words[a.reg_arg3 as int],
                scratch_addr: s.scratch_addr,
            },
        )
    } else {
        None
    }
}

/// The action owed at an entry: translate the path argument; rewrite a
/// file-backed `mmap` as anonymous private with no file (flags rewritten,
/// fd -1, offset 0); raise a zero or negative `poll` timeout to 100 ms;
/// turn an extended-attribute setter into `getpid`.
pub open spec fn entry_action_matches(act: EntryAction, s: TracerView, words: Seq<u64>) -> bool {
    let a = s.abi->0;
    let nr = words[a.reg_syscall as int] as i64;
    match spec_entry_arm(nr, a) {
        EntryArm::Path { arg, open } => act == EntryAction::TranslatePath {
            arg,
            addr: words[arg as int],
            open,
        },
        EntryArm::Mmap => {
            let flags = words[a.reg_arg4 as int] as i32;
            if flags & 0x20 == 0 {
                act matches EntryAction::WriteRegs(r) && r.words@ == words.update(
                    a.reg_arg4 as int,
                    spec_anonymous_flags(flags) as u64,
                ).update(a.reg_arg5 as int, u64::MAX).update(a.reg_arg6 as int, 0)
            } else {
                act is Nothing
            }
        },
        EntryArm::Poll => {
            let timeout = words[a.reg_arg3 as int] as i32;
            if timeout <= 0 {
                act matches EntryAction::WriteRegs(r) && r.words@ == words.update(
                    a.reg_arg3 as int,
                    100,
                )
            } else {
                act is Nothing
            }
        },
        EntryArm::Xattr => act matches EntryAction::WriteRegs(r) && r.words@ == words.update(
            a.reg_syscall as int,
            a.getpid as u64,
        ),
        _ => act is Nothing,
    }
}

/// The whole plan owed at an entry.
pub open spec fn entry_plan_matches(p: EntryPlan, s: TracerView, words: Seq<u64>) -> bool {
    let a = s.abi->0;
    let nr = words[a.reg_syscall as int] as i64;
    &&& p.nr == nr
    &&& p.inject == spec_entry_injection(s, words)
    &&& entry_action_matches(p.action, s, words)
    &&& p.sleep_ms == (if nr == a.poll_nr {
        100u64
    } else {
        0u64
    })
}

/// Bytes a string of `n` bytes takes in the scratch area: itself and its
/// NUL, rounded up to whole 8-byte words.
pub open spec fn scratch_len(n: nat) -> nat {
    ((n + 8) / 8) * 8
}

/// Where a string of `n` bytes goes in the scratch area: at the cursor, or
/// at the start when it would run past the end.
pub open spec fn spec_slot_offset(offset: u64, n: nat) -> u64 {
    if offset + scratch_len(n) > SCRATCH_SIZE {
        0
    } else {
        offset
    }
}

/// The cursor after a string of `n` bytes was written at `offset`: past
/// it, or back at the start when fewer than 256 bytes would remain.
pub open spec fn spec_advance(offset: u64, n: nat) -> u64 {
    let next = offset + scratch_len(n);
    if next + 256 > SCRATCH_SIZE {
        0
    } else {
        next as u64
    }
}

/// How a translated path reaches the child.
pub enum PathPlan {
    /// The translation equals the original: nothing to write.
    Keep,
    /// Write `translated` (NUL-terminated) at `addr` in the scratch area,
    /// point the path register there and write the registers back; on
    /// success call `Tracer::scratch_written`, on failure fall back to the
    /// in-place rewrite.
    Scratch { translated: String, addr: u64 },
    /// No scratch area: rewrite the original string in place when the
    /// translation is shorter than it.
    InPlace { translated: String },
}

/// `a + b` modulo 2^64.
pub open spec fn wrap_add(a: u64, b: u64) -> u64 {
    if a + b > u64::MAX {
        (a + b - 0x1_0000_0000_0000_0000) as u64
    } else {
        (a + b) as u64
    }
}

fn slot_offset(offset: u64, n: usize) -> (r: u64)
    ensures
        r == spec_slot_offset(offset, n as nat),
{
    let need = (n as u128 + 8) / 8 * 8;
    if offset as u128 + need > SCRATCH_SIZE as u128 {
        0
    } else {
        offset
    }
}

/// The byte length of a string with characters `s`, as `str::len`
/// reports it.
pub open spec fn byte_len(s: Seq<char>) -> nat {
    (encode_utf8(s).len() as usize) as nat
}

impl Tracer {
    /// Handles a syscall entry stop with registers `regs`.
    fn on_entry(&mut self, regs: &Regs) -> (r: EntryPlan)
        requires
            old(self)@.wf(),
            old(self)@.abi is Some,
        ensures
            final(self)@ == spec_entry_view(old(self)@, regs.words@),
            entry_plan_matches(r, old(self)@, regs.words@),
            final(self)@.wf(),
    {
        let a = self.abi.unwrap();
        let nr = get_syscall_num(regs, &a);
        self.in_syscall = true;
        if self.recent_syscalls.len() >= RECENT_SYSCALLS_CAP {
            self.recent_syscalls.pop_front();
        }
        self.recent_syscalls.push_back(nr);
        let mut inject: Option<ExecveInjection> = None;
        if nr == a.execve {
            self.saw_execve = true;
            if a.execve == 11 && self.scratch_addr != 0 {
                inject = Some(
                    ExecveInjection {
                        path_addr: get_syscall_arg(regs, a.reg_arg1),
                        argv: get_syscall_arg(regs, a.reg_arg2),
                        envp: get_syscall_arg(regs, a.reg_arg3),
                        scratch_addr: self.scratch_addr,
                    },
                );
            }
        }
        if self.past_first_execve {
            self.post_execve_syscall_count = self.post_execve_syscall_count.saturating_add(1);
        }
        let sp = get_syscall_arg(regs, a.reg_sp);
        self.scratch_addr = sp.wrapping_sub(SCRATCH_SIZE) & !7u64;
        self.scratch_offset = 0;
        let action = match entry_arm(nr, &a) {
            EntryArm::PidQuery => {
                self.pending_getpid = true;
                EntryAction::Nothing
            },
            EntryArm::Path { arg, open } => EntryAction::TranslatePath {
                arg,
                addr: get_syscall_arg(regs, arg),
                open,
            },
            EntryArm::Mmap => {
                let flags = get_syscall_arg(regs, a.reg_arg4) as i32;
                if flags & map_anonymous() == 0 {
                    let mut w = *regs;
                    let anon = rewrite_mmap_flags_shared_to_anonymous(flags);
                    set_syscall_arg(&mut w, a.reg_arg4, anon as u64);
                    set_syscall_arg(&mut w, a.reg_arg5, u64::MAX);
                    set_syscall_arg(&mut w, a.reg_arg6, 0);
                    EntryAction::WriteRegs(w)
                } else {
                    EntryAction::Nothing
                }
            },
            EntryArm::Poll => {
                let timeout = get_syscall_arg(regs, a.reg_arg3) as i32;
                if timeout <= 0 {
                    let mut w = *regs;
                    set_syscall_arg(&mut w, a.reg_arg3, 100);
                    EntryAction::WriteRegs(w)
                } else {
                    EntryAction::Nothing
                }
            },
            EntryArm::Xattr => {
                self.pending_xattr_fake = true;
                let mut w = *regs;
                set_syscall_num(&mut w, &a, a.getpid);
                EntryAction::WriteRegs(w)
            },
            EntryArm::Other => EntryAction::Nothing,
        };
        let sleep_ms: u64 = if nr == a.poll_nr {
            self.pending_poll_fake = true;
            100
        } else {
            0
        };
        proof {
            assert(self.recent_syscalls@ =~= push_recent(old(self)@.recent_syscalls, nr));
        }
        EntryPlan { nr, inject, action, sleep_ms }
    }

    /// Translates the path `path` read for the pending entry (into
    /// `rootfs`) and says how it reaches the child. For the open family
    /// (`open`) it also remembers the translation for the exit, and whether
    /// the kernel log device is being opened.
    pub fn entry_path(&mut self, rootfs: &str, path: &str, open: bool) -> (r: PathPlan)
        requires
            old(self)@.wf(),
        ensures
            ({
                let s = old(self)@;
                let t = spec_translate_path(rootfs@, path@);
                let offset = if t != path@ && s.scratch_addr != 0 {
                    spec_slot_offset(s.scratch_offset, byte_len(t))
                } else {
                    s.scratch_offset
                };
                &&& final(self)@ == (TracerView {
                    pending_kmsg_open: if open {
                        s.pending_kmsg_open || spec_is_kmsg_path(path@) || spec_is_kmsg_path(t)
                    } else {
                        s.pending_kmsg_open
                    },
                    pending_open_path: if open {
                        final(self)@.pending_open_path
                    } else {
                        s.pending_open_path
                    },
                    scratch_offset: offset,
                    ..s
                })
                &&& open ==> (final(self)@.pending_open_path matches Some(p) && p@ == t)
                &&& (if t == path@ {
                    r is Keep
                } else if s.scratch_addr == 0 {
                    r matches PathPlan::InPlace { translated } && translated@ == t
                } else {
                    r matches PathPlan::Scratch { translated, addr } && translated@ == t
                        && addr == wrap_add(s.scratch_addr, offset)
                })
            }),
            final(self)@.wf(),
    {
        let translated = translate_path(rootfs, path);
        if open {
            if is_kmsg_path(path) || is_kmsg_path(translated.as_str()) {
                self.pending_kmsg_open = true;
            }
            self.pending_open_path = Some(translated.clone());
        }
        if str_eq(translated.as_str(), path) {
            return PathPlan::Keep;
        }
        if self.scratch_addr == 0 {
            return PathPlan::InPlace { translated };
        }
        let n = translated.as_str().len();
        self.scratch_offset = slot_offset(self.scratch_offset, n);
        let addr = self.scratch_addr.wrapping_add(self.scratch_offset);
        PathPlan::Scratch { translated, addr }
    }

    /// A translated path of `len` bytes was written at the scratch cursor:
    /// the cursor moves past it.
    pub fn scratch_written(&mut self, len: usize)
        requires
            old(self)@.wf(),
        ensures
            final(self)@ == (TracerView {
                scratch_offset: spec_advance(old(self)@.scratch_offset, len as nat),
                ..old(self)@
            }),
            final(self)@.wf(),
    {
        let next = self.scratch_offset as u128 + (len as u128 + 8) / 8 * 8;
        if next + 256 > SCRATCH_SIZE as u128 {
            self.scratch_offset = 0;
        } else {
            self.scratch_offset = next as u64;
        }
    }
}

/// The descriptor reported for the property area when opening it failed.
pub const FAKE_PROPERTIES_FD: i32 = 42;

/// The SELinux context a read of `attr/current` reports.
pub const RECOVERY_CONTEXT: &'static str = "u:r:recovery:s0";

/// After this many successful short writes or reads past the first
/// `execve`, their contents are no longer reported.
pub const CAPTURE_LIMIT: u64 = 800;

/// One piece of work owed at a syscall exit. They are done in order; each
/// `ForceResult` reads the registers afresh.
#[derive(Debug)]
pub enum ExitStep {
    /// Set the result register of the stop's registers to this value and
    /// write them back.
    StopResult(i64),
    /// Read the registers, set the result register to this value and
    /// write them back.
    ForceResult(i64),
    /// Report the `len` bytes written from `buf` to `fd`; `klog` when
    /// `fd` is the kernel log device.
    CaptureWrite { fd: i32, buf: u64, len: u64, klog: bool },
    /// Report the `len` bytes read into `buf` from `fd`, opened on `path`.
    CaptureRead { fd: i32, buf: u64, len: u64, path: Option<String> },
    /// Write `RECOVERY_CONTEXT` (NUL-terminated) at `buf`; when that
    /// succeeds, force the result to `result`.
    FakeContext { buf: u64, result: i64 },
    /// Force the result to 0, then clear the `revents` field of the
    /// `pollfd` array that the fresh registers name (argument 1 the array,
    /// argument 2 its length).
    SilencePoll,
}

/// The answer owed at a syscall stop.
pub enum SyscallPlan {
    Entry(EntryPlan),
    Exit(Vec<ExitStep>),
}

pub open spec fn is_open_family(nr: i64, a: ChildAbi) -> bool {
    nr == a.open || nr == a.openat || nr == a.openat2
}

/// An open of the property area failed: the exit reports
/// `FAKE_PROPERTIES_FD` in its place.
pub open spec fn spec_props_fake(s: TracerView, nr: i64, ret: i64) -> bool {
    &&& is_open_family(nr, s.abi->0)
    &&& ret <= 0
    &&& s.pending_open_path matches Some(p) && spec_is_properties_path(p@)
}

/// The bookkeeping of an open-family exit returning `ret`: the kernel log
/// descriptor, the path of the new descriptor, the property area
/// descriptor (the real one, or `FAKE_PROPERTIES_FD` when the open
/// failed), and the pending open cleared.
pub open spec fn spec_exit_open(s: TracerView, nr: i64, ret: i64) -> TracerView {
    if !is_open_family(nr, s.abi->0) {
        s
    } else {
        let kmsg_fd = if s.pending_kmsg_open && ret > 0 {
            Some(ret as i32)
        } else {
            s.kmsg_fd
        };
        let paths = match s.pending_open_path {
            Some(p) => if ret > 0 {
                s.open_fd_paths.insert(ret as i32, p)
            } else {
                s.open_fd_paths
            },
            None => s.open_fd_paths,
        };
        let props = match s.pending_open_path {
            Some(p) => if spec_is_properties_path(p@) {
                if ret > 0 {
                    Some(ret as i32)
                } else {
                    Some(FAKE_PROPERTIES_FD)
                }
            } else {
                s.properties_fd
            },
            None => s.properties_fd,
        };
        TracerView {
            kmsg_fd,
            pending_kmsg_open: false,
            open_fd_paths: paths,
            properties_fd: props,
            pending_open_path: None,
            ..s
        }
    }
}

/// The register words the rest of an exit reads: those of the stop, with
/// the result replaced when the property area open is reported as
/// successful.
pub open spec fn exit_words(s: TracerView, words: Seq<u64>) -> Seq<u64> {
    let a = s.abi->0;
    let nr = words[a.reg_syscall as int] as i64;
    let ret = words[a.reg_ret as int] as i64;
    if spec_props_fake(s, nr, ret) {
        words.update(a.reg_ret as int, FAKE_PROPERTIES_FD as u64)
    } else {
        words
    }
}

/// The report counters after an exit whose register words (after the
/// open bookkeeping) are `w`.
pub open spec fn spec_capture_view(s1: TracerView, nr: i64, w: Seq<u64>) -> TracerView {
    let a = s1.abi->0;
    let ret2 = w[a.reg_ret as int] as i64;
    TracerView {
        post_execve_write_count: if s1.past_first_execve && nr == a.write && 0 < ret2 <= 512 {
            sat_inc(s1.post_execve_write_count)
        } else {
            s1.post_execve_write_count
        },
        post_execve_read_count: if s1.past_first_execve && nr == a.read && 0 < ret2 <= 256 {
            sat_inc(s1.post_execve_read_count)
        } else {
            s1.post_execve_read_count
        },
        ..s1
    }
}

/// The state after a syscall exit stop with register words `words`.
pub open spec fn spec_exit_view(s: TracerView, words: Seq<u64>) -> TracerView {
    let a = s.abi->0;
    let nr = words[a.reg_syscall as int] as i64;
    let ret = words[a.reg_ret as int] as i64;
    let c = spec_capture_view(spec_exit_open(s, nr, ret), nr, exit_words(s, words));
    TracerView {
        in_syscall: false,
        saw_execve: false,
        reset_abi_next: s.reset_abi_next || s.saw_execve,
        pending_getpid: false,
        pending_xattr_fake: false,
        pending_poll_fake: false,
        ..c
    }
}

/// `v` with `step` appended when `c` holds.
pub open spec fn push_if(v: Seq<ExitStep>, c: bool, step: ExitStep) -> Seq<ExitStep> {
    if c {
        v.push(step)
    } else {
        v
    }
}

/// The path a descriptor was opened on, if it is known.
pub open spec fn fd_path(m: Map<i32, String>, fd: i32) -> Option<String> {
    if m.contains_key(fd) {
        Some(m[fd])
    } else {
        None
    }
}

/// The descriptor is known and its path contains `needle`.
pub open spec fn fd_path_has(m: Map<i32, String>, fd: i32, needle: Seq<char>) -> bool {
    m.contains_key(fd) && contains_seq(m[fd]@, needle)
}

/// The reports and rewrites of writes and reads after the first
/// `execve`: the report of a short write; a failed write of an SELinux
/// exec context reported as complete; the report of a short read, and for
/// a read of `attr/current` the recovery context in its place. `s1` is the
/// state after the open bookkeeping, `w` the register words.
pub open spec fn spec_capture_steps(s1: TracerView, nr: i64, w: Seq<u64>) -> Seq<ExitStep> {
    let a = s1.abi->0;
    let c = spec_capture_view(s1, nr, w);
    let ret2 = w[a.reg_ret as int] as i64;
    let fd = w[a.reg_arg1 as int] as i32;
    let buf = w[a.reg_arg2 as int];
    let count = w[a.reg_arg3 as int] as i64;
    let is_write = s1.past_first_execve && nr == a.write;
    let read_shown = s1.past_first_execve && nr == a.read && 0 < ret2 <= 256
        && c.post_execve_read_count <= CAPTURE_LIMIT;
    let v1 = push_if(
        Seq::empty(),
        is_write && 0 < ret2 <= 512 && c.post_execve_write_count <= CAPTURE_LIMIT,
        ExitStep::CaptureWrite { fd, buf, len: ret2 as u64, klog: c.kmsg_fd == Some(fd) },
    );
    let v2 = push_if(
        v1,
        is_write && ret2 < 0 && fd_path_has(c.open_fd_paths, fd, "attr/exec"@),
        ExitStep::ForceResult(
            if count > 0 {
                count
            } else {
                0
            },
        ),
    );
    let v3 = push_if(
        v2,
        read_shown,
        ExitStep::CaptureRead { fd, buf, len: ret2 as u64, path: fd_path(c.open_fd_paths, fd) },
    );
    push_if(
        v3,
        read_shown && fd_path_has(c.open_fd_paths, fd, "attr/current"@),
        ExitStep::FakeContext { buf, result: 16 },
    )
}

/// The results forced at the end of an exit: 1 for `getpid`/`getppid`, 0
/// for a rewritten attribute setter, 0 for `poll`, 0 for the syscalls that
/// fake success, 0 for a failed `socketcall`, and 0 with cleared events
/// for a `poll` that reported ready descriptors. `ret2` is the result the
/// stop reported.
pub open spec fn spec_result_steps(s: TracerView, nr: i64, ret2: i64) -> Seq<ExitStep> {
    let a = s.abi->0;
    let v1 = push_if(Seq::empty(), s.pending_getpid, ExitStep::ForceResult(1));
    let v2 = push_if(v1, s.pending_xattr_fake, ExitStep::ForceResult(0));
    let v3 = push_if(v2, s.pending_poll_fake, ExitStep::ForceResult(0));
    let v4 = push_if(v3, is_fake_success(nr, a), ExitStep::ForceResult(0));
    let v5 = push_if(
        v4,
        a.socketcall_nr != -1 && nr == a.socketcall_nr && -4096 < ret2 < 0,
        ExitStep::ForceResult(0),
    );
    push_if(v5, a.poll_nr != -1 && nr == a.poll_nr && ret2 > 0, ExitStep::SilencePoll)
}

/// The work owed at a syscall exit stop with register words `words`, in
/// order: the property area descriptor reported as `FAKE_PROPERTIES_FD`
/// when its open failed, the write and read reports and rewrites, then
/// the forced results.
pub open spec fn spec_exit_steps(s: TracerView, words: Seq<u64>) -> Seq<ExitStep> {
    let a = s.abi->0;
    let nr = words[a.reg_syscall as int] as i64;
    let ret = words[a.reg_ret as int] as i64;
    let w = exit_words(s, words);
    push_if(Seq::empty(), spec_props_fake(s, nr, ret), ExitStep::StopResult(42))
        + spec_capture_steps(spec_exit_open(s, nr, ret), nr, w) + spec_result_steps(
        s,
        nr,
        w[a.reg_ret as int] as i64,
    )
}

/// The path a descriptor was opened on, if known.
fn lookup_fd_path(m: &HashMap<i32, String>, fd: i32) -> (r: Option<String>)
    ensures
        r == fd_path(m@, fd),
{
    match m.get(&fd) {
        Some(p) => Some(p.clone()),
        None => None,
    }
}

/// Whether a descriptor is known and its path contains `needle`.
fn fd_path_contains(m: &HashMap<i32, String>, fd: i32, needle: &str) -> (r: bool)
    ensures
        r == fd_path_has(m@, fd, needle@),
{
    match m.get(&fd) {
        Some(p) => str_contains(p.as_str(), needle),
        None => false,
    }
}

impl Tracer {
    /// The open-family bookkeeping of an exit; returns whether the result
    /// is reported as `FAKE_PROPERTIES_FD`.
    fn exit_open(&mut self, nr: i64, ret: i64) -> (fake: bool)
        requires
            old(self)@.wf(),
            old(self)@.abi is Some,
        ensures
            final(self)@ == spec_exit_open(old(self)@, nr, ret),
            fake == spec_props_fake(old(self)@, nr, ret),
            final(self)@.wf(),
    {
        let a = self.abi.unwrap();
        if !(nr == a.open || nr == a.openat || nr == a.openat2) {
            return false;
        }
        if self.pending_kmsg_open {
            if ret > 0 {
                self.kmsg_fd = Some(ret as i32);
            }
            self.pending_kmsg_open = false;
        }
        let mut fake = false;
        let pending = self.pending_open_path.take();
        match pending {
            Some(p) => {
                let props = is_properties_path(p.as_str());
                if ret > 0 {
                    if props {
                        self.properties_fd = Some(ret as i32);
                    }
                    self.open_fd_paths.insert(ret as i32, p);
                } else if props {
                    self.properties_fd = Some(FAKE_PROPERTIES_FD);
                    fake = true;
                }
            },
            None => {},
        }
        fake
    }

    /// The write and read reports and rewrites of an exit whose register
    /// words, after the open bookkeeping, are `w`.
    fn exit_captures(&mut self, nr: i64, w: &Regs) -> (r: Vec<ExitStep>)
        requires
            old(self)@.wf(),
            old(self)@.abi is Some,
        ensures
            final(self)@ == spec_capture_view(old(self)@, nr, w.words@),
            r@ == spec_capture_steps(old(self)@, nr, w.words@),
            final(self)@.wf(),
    {
        let ghost s1 = self@;
        let a = self.abi.unwrap();
        let mut steps: Vec<ExitStep> = Vec::new();
        let ret2 = get_syscall_arg(w, a.reg_ret) as i64;
        let fd = get_syscall_arg(w, a.reg_arg1) as i32;
        let buf = get_syscall_arg(w, a.reg_arg2);
        let is_write = self.past_first_execve && nr == a.write;
        if is_write && 0 < ret2 && ret2 <= 512 {
            self.post_execve_write_count = self.post_execve_write_count.saturating_add(1);
            if self.post_execve_write_count <= CAPTURE_LIMIT {
                let klog = match self.kmsg_fd {
                    Some(k) => k == fd,
                    None => false,
                };
                steps.push(ExitStep::CaptureWrite { fd, buf, len: ret2 as u64, klog });
            }
        }
        if is_write && ret2 < 0 && fd_path_contains(&self.open_fd_paths, fd, "attr/exec") {
            let count = get_syscall_arg(w, a.reg_arg3) as i64;
            steps.push(
                ExitStep::ForceResult(
                    if count > 0 {
                        count
                    } else {
                        0
                    },
                ),
            );
        }
        if self.past_first_execve && nr == a.read && 0 < ret2 && ret2 <= 256 {
            self.post_execve_read_count = self.post_execve_read_count.saturating_add(1);
            if self.post_execve_read_count <= CAPTURE_LIMIT {
                let path = lookup_fd_path(&self.open_fd_paths, fd);
                steps.push(ExitStep::CaptureRead { fd, buf, len: ret2 as u64, path });
                if fd_path_contains(&self.open_fd_paths, fd, "attr/current") {
                    steps.push(ExitStep::FakeContext { buf, result: 16 });
                }
            }
        }
        assert(steps@ =~= spec_capture_steps(s1, nr, w.words@));
        steps
    }

    /// The forced results at the end of an exit; the pending flags are
    /// consumed.
    fn exit_results(&mut self, nr: i64, ret2: i64) -> (r: Vec<ExitStep>)
        requires
            old(self)@.wf(),
            old(self)@.abi is Some,
        ensures
            final(self)@ == (TracerView {
                pending_getpid: false,
                pending_xattr_fake: false,
                pending_poll_fake: false,
                ..old(self)@
            }),
            r@ == spec_result_steps(old(self)@, nr, ret2),
            final(self)@.wf(),
    {
        let ghost s = self@;
        let a = self.abi.unwrap();
        let mut steps: Vec<ExitStep> = Vec::new();
        if self.pending_getpid {
            steps.push(ExitStep::ForceResult(1));
            self.pending_getpid = false;
        }
        if self.pending_xattr_fake {
            self.pending_xattr_fake = false;
            steps.push(ExitStep::ForceResult(0));
        }
        if self.pending_poll_fake {
            self.pending_poll_fake = false;
            steps.push(ExitStep::ForceResult(0));
        }
        if compute_exit_return_value(nr, &a).is_some() {
            steps.push(ExitStep::ForceResult(0));
        }
        if a.socketcall_nr != -1 && nr == a.socketcall_nr && ret2 < 0 && ret2 > -4096 {
            steps.push(ExitStep::ForceResult(0));
        }
        if a.poll_nr != -1 && nr == a.poll_nr && ret2 > 0 {
            steps.push(ExitStep::SilencePoll);
        }
        assert(steps@ =~= spec_result_steps(s, nr, ret2));
        steps
    }

    /// Handles a syscall exit stop with registers `regs`.
    #[verifier::rlimit(40)]
    fn on_exit(&mut self, regs: &Regs) -> (r: Vec<ExitStep>)
        requires
            old(self)@.wf(),
            old(self)@.abi is Some,
        ensures
            final(self)@ == spec_exit_view(old(self)@, regs.words@),
            r@ == spec_exit_steps(old(self)@, regs.words@),
            final(self)@.wf(),
    {
        let ghost s = self@;
        let a = self.abi.unwrap();
        let nr = get_syscall_num(regs, &a);
        let ret = get_syscall_arg(regs, a.reg_ret) as i64;
        let mut steps: Vec<ExitStep> = Vec::new();
        let mut w = *regs;
        let fake = self.exit_open(nr, ret);
        if fake {
            crate::regs::set_syscall_ret(&mut w, &a, FAKE_PROPERTIES_FD as i64);
            steps.push(ExitStep::StopResult(42));
        }
        let ghost s1 = self@;
        assert(w.words@ == exit_words(s, regs.words@));
        assert(steps@ == push_if(Seq::empty(), spec_props_fake(s, nr, ret), ExitStep::StopResult(42)));
        let mut captured = self.exit_captures(nr, &w);
        let ghost s2 = self@;
        steps.append(&mut captured);
        let ret2 = get_syscall_arg(&w, a.reg_ret) as i64;
        let mut results = self.exit_results(nr, ret2);
        steps.append(&mut results);
        if self.saw_execve {
            self.saw_execve = false;
            self.reset_abi_next = true;
        }
        self.in_syscall = false;
        proof {
            assert(s1 == spec_exit_open(s, nr, ret));
            assert(s2 == spec_capture_view(s1, nr, w.words@));
            assert(self@ == spec_exit_view(s, regs.words@));
        }
        steps
    }

    /// Handles a syscall stop with registers `regs`: an entry when no
    /// syscall is under way, else its exit. The ABI must be known (see
    /// `ensure_abi`).
    pub fn on_syscall_stop(&mut self, regs: &Regs) -> (r: SyscallPlan)
        requires
            old(self)@.wf(),
            old(self)@.abi is Some,
        ensures
            !old(self)@.in_syscall ==> (r matches SyscallPlan::Entry(p) && entry_plan_matches(
                p,
                old(self)@,
                regs.words@,
            ) && final(self)@ == spec_entry_view(old(self)@, regs.words@)),
            old(self)@.in_syscall ==> (r matches SyscallPlan::Exit(steps) && steps@
                == spec_exit_steps(old(self)@, regs.words@) && final(self)@ == spec_exit_view(
                old(self)@,
                regs.words@,
            )),
            final(self)@.wf(),
    {
        if self.in_syscall {
            SyscallPlan::Exit(self.on_exit(regs))
        } else {
            SyscallPlan::Entry(self.on_entry(regs))
        }
    }
}

/// The host-side file system work that stands in for a trapped syscall.
#[derive(Clone, Copy, Debug, PartialEq, Eq, Structural)]
pub enum FsOp {
    Nothing,
    /// `mount`: the target and file system type strings are at these
    /// addresses; a `tmpfs` or `devpts` target becomes a directory.
    Mount { target: u64, fstype: u64 },
    /// `mkdir`: the directory path is at this address.
    Mkdir { path: u64 },
    /// `mknod`: the node path is at this address; it becomes an empty file.
    Mknod { path: u64 },
}

/// What a seccomp trap asks of the loop: write `result` into the result
/// register of the trap's registers (read afresh first when `fresh_regs`)
/// and write them back; do `fs_op`; pause `sleep_ms` milliseconds.
/// `quiet` asks for the trap not to be reported (the same syscall trapped
/// more than five times in a row), `summary` for a one-line summary of the
/// quiet ones.
#[derive(Clone, Copy, Debug, PartialEq, Eq, Structural)]
pub struct SeccompPlan {
    pub nr: i64,
    pub result: i64,
    pub fresh_regs: bool,
    pub fs_op: FsOp,
    pub sleep_ms: u64,
    pub quiet: bool,
    pub summary: bool,
}

/// The ownership, mode, capability and I/O-priority syscalls.
pub open spec fn is_owner_family(nr: i64, a: ChildAbi) -> bool {
    nr == a.fchown || nr == a.fchmod || nr == a.capget || nr == a.ioprio_get || nr == a.ioprio_set
        || nr == a.lchown || nr == a.chown || nr == a.fchmodat || nr == a.fchownat
}

/// The file-system syscalls whose effect is redone in the rootfs.
pub open spec fn is_fs_family(nr: i64, a: ChildAbi) -> bool {
    nr == a.mount || nr == a.mkdir || nr == a.chmod || nr == a.chroot || nr == a.unshare
        || nr == a.mknod
}

/// The System V shared memory syscalls.
pub open spec fn is_shm_family(nr: i64, a: ChildAbi) -> bool {
    nr == a.shmget || nr == a.shmat || nr == a.shmctl
}

/// The result reported for a trapped syscall: `-ENOSYS` for shared
/// memory, the `pause` result for the `pause_count`-th consecutive
/// `pause`, and 0 (success) for everything else.
pub open spec fn spec_seccomp_result(nr: i64, a: ChildAbi, pause_count: u32) -> i64 {
    if nr == a.access || nr == a.rt_sigprocmask || is_owner_family(nr, a) || is_fs_family(nr, a) {
        0
    } else if is_shm_family(nr, a) {
        -38i64
    } else if nr == a.pause {
        spec_pause_ret_after(pause_count)
    } else {
        0
    }
}

/// The file system work for a trapped syscall.
pub open spec fn spec_fs_op(nr: i64, a: ChildAbi, words: Seq<u64>) -> FsOp {
    if nr == a.access || nr == a.rt_sigprocmask || is_owner_family(nr, a) || !is_fs_family(nr, a) {
        FsOp::Nothing
    } else if nr == a.mount {
        FsOp::Mount { target: words[a.reg_arg2 as int], fstype: words[a.reg_arg3 as int] }
    } else if nr == a.mkdir {
        FsOp::Mkdir { path: words[a.reg_arg1 as int] }
    } else if nr == a.mknod {
        FsOp::Mknod { path: words[a.reg_arg1 as int] }
    } else {
        FsOp::Nothing
    }
}

/// `n + 1` for a 32-bit counter, stopping at the largest value.
pub open spec fn sat_inc32(n: u32) -> u32 {
    if n == u32::MAX {
        n
    } else {
        (n + 1) as u32
    }
}

/// The state after a seccomp trap with register words `words`: the
/// syscall joins the history, the `pause` streak grows or ends, the next
/// syscall stop is an entry, and the report counters move.
pub open spec fn spec_seccomp_view(s: TracerView, words: Seq<u64>) -> TracerView {
    let a = s.abi->0;
    let nr = words[a.reg_syscall as int] as i64;
    let repeat = if nr == s.sigsys_last_nr {
        sat_inc(s.sigsys_repeat_count)
    } else {
        1
    };
    TracerView {
        in_syscall: false,
        recent_syscalls: push_recent(s.recent_syscalls, nr),
        pause_count: if nr == a.pause {
            sat_inc32(s.pause_count)
        } else {
            0
        },
        sigsys_last_nr: nr,
        sigsys_repeat_count: repeat,
        sigsys_suppressed_total: if repeat > 5 {
            sat_inc(s.sigsys_suppressed_total)
        } else {
            s.sigsys_suppressed_total
        },
        ..s
    }
}

/// The plan owed at a seccomp trap with register words `words`.
pub open spec fn spec_seccomp_plan(s: TracerView, words: Seq<u64>) -> SeccompPlan {
    let a = s.abi->0;
    let nr = words[a.reg_syscall as int] as i64;
    let s2 = spec_seccomp_view(s, words);
    SeccompPlan {
        nr,
        result: spec_seccomp_result(nr, a, s2.pause_count),
        fresh_regs: !s.in_syscall,
        fs_op: spec_fs_op(nr, a, words),
        sleep_ms: if nr == a.pause {
            100
        } else {
            0
        },
        quiet: s2.sigsys_repeat_count > 5,
        summary: s2.sigsys_repeat_count > 5 && s2.sigsys_suppressed_total % 100 == 1,
    }
}

impl Tracer {
    /// Handles a seccomp trap (`SIGSYS`) with registers `regs`. The ABI
    /// must be known (see `ensure_abi`).
    pub fn on_seccomp_stop(&mut self, regs: &Regs) -> (r: SeccompPlan)
        requires
            old(self)@.wf(),
            old(self)@.abi is Some,
        ensures
            final(self)@ == spec_seccomp_view(old(self)@, regs.words@),
            r == spec_seccomp_plan(old(self)@, regs.words@),
            final(self)@.wf(),
    {
        let ghost s = self@;
        let a = self.abi.unwrap();
        let fresh_regs = !self.in_syscall;
        let nr = get_syscall_num(regs, &a);
        if nr == self.sigsys_last_nr {
            self.sigsys_repeat_count = self.sigsys_repeat_count.saturating_add(1);
        } else {
            self.sigsys_last_nr = nr;
            self.sigsys_repeat_count = 1;
        }
        let quiet = self.sigsys_repeat_count > 5;
        let mut summary = false;
        if quiet {
            self.sigsys_suppressed_total = self.sigsys_suppressed_total.saturating_add(1);
            summary = self.sigsys_suppressed_total % 100 == 1;
        }
        if self.recent_syscalls.len() >= RECENT_SYSCALLS_CAP {
            self.recent_syscalls.pop_front();
        }
        self.recent_syscalls.push_back(nr);
        if nr == a.pause {
            self.pause_count = self.pause_count.saturating_add(1);
        } else {
            self.pause_count = 0;
        }
        let owner = nr == a.fchown || nr == a.fchmod || nr == a.capget || nr == a.ioprio_get
            || nr == a.ioprio_set || nr == a.lchown || nr == a.chown || nr == a.fchmodat
            || nr == a.fchownat;
        let fs = nr == a.mount || nr == a.mkdir || nr == a.chmod || nr == a.chroot || nr
            == a.unshare || nr == a.mknod;
        let mut fs_op = FsOp::Nothing;
        let result: i64 = if nr == a.access || nr == a.rt_sigprocmask || owner {
            0
        } else if fs {
            if nr == a.mount {
                fs_op = FsOp::Mount {
                    target: get_syscall_arg(regs, a.reg_arg2),
                    fstype: get_syscall_arg(regs, a.reg_arg3),
                };
            } else if nr == a.mkdir {
                fs_op = FsOp::Mkdir { path: get_syscall_arg(regs, a.reg_arg1) };
            } else if nr == a.mknod {
                fs_op = FsOp::Mknod { path: get_syscall_arg(regs, a.reg_arg1) };
            }
            0
        } else if nr == a.shmget || nr == a.shmat || nr == a.shmctl {
            -(crate::sys::errno_enosys() as i64)
        } else if nr == a.pause {
            pause_ret_after(self.pause_count)
        } else {
            0
        };
        self.in_syscall = false;
        let sleep_ms: u64 = if nr == a.pause {
            100
        } else {
            0
        };
        proof {
            assert(self.recent_syscalls@ =~= push_recent(s.recent_syscalls, nr));
        }
        SeccompPlan { nr, result, fresh_regs, fs_op, sleep_ms, quiet, summary }
    }
}

/// The history keeps at most `RECENT_SYSCALLS_CAP` numbers: after the
/// child asks for `nr` it holds the newest numbers of everything asked
/// for, up to the cap, with `nr` last.
pub proof fn lemma_history_window(recent: Seq<i64>, nr: i64)
    requires
        recent.len() <= RECENT_SYSCALLS_CAP,
    ensures
        ({
            let h = push_recent(recent, nr);
            let all = recent.push(nr);
            &&& h.len() == (if recent.len() < RECENT_SYSCALLS_CAP {
                recent.len() + 1
            } else {
                RECENT_SYSCALLS_CAP as nat
            })
            &&& h.last() == nr
            &&& h =~= all.subrange(all.len() - h.len(), all.len() as int)
        }),
{
}

/// Only the first child's end finishes the loop: a stop reported for any
/// other child never does, and the end of another child hands the loop
/// back to the first one.
pub proof fn lemma_only_first_child_finishes(s: TracerView, waited: i32, status: WaitStatus)
    ensures
        spec_on_wait(s, waited, status).1 is Finish ==> waited == s.init_pid,
        (status is Exited || status is Signaled) && waited != s.init_pid ==> spec_on_wait(
            s,
            waited,
            status,
        ).1 == StopAction::ChildGone && spec_on_wait(s, waited, status).0.current_pid
            == s.init_pid,
        status matches WaitStatus::Exited(code) ==> (waited == s.init_pid ==> spec_on_wait(
            s,
            waited,
            status,
        ).1 == StopAction::Finish(code as i32)),
{
}

/// When the child to resume is gone, the loop finishes only if it was
/// the first child; otherwise it goes on with the first child.
pub proof fn lemma_gone_child_hands_back(s: TracerView, reaped: Option<WaitStatus>)
    ensures
        spec_on_resume_failed(s, true, reaped).1 is Finish ==> s.current_pid == s.init_pid,
        s.current_pid != s.init_pid ==> spec_on_resume_failed(s, true, reaped).0.current_pid
            == s.init_pid,
{
}

/// After an `execve` event stop, the next iteration forgets the ABI (it is
/// detected again from the new program) and treats the next syscall stop
/// as an entry.
pub proof fn lemma_exec_event_redetects_abi(s: TracerView, waited: i32, sig: u8)
    ensures
        ({
            let s2 = spec_begin_iteration(
                spec_on_wait(s, waited, WaitStatus::Stopped { sig, event: 4 }).0,
            );
            &&& s2.abi is None
            &&& !s2.in_syscall
            &&& s2.past_first_execve
            &&& s2.post_execve_syscall_count == 0
        }),
{
}

/// After the entry and exit stops of an `execve`, the next iteration
/// forgets the ABI and the next syscall stop is an entry.
pub proof fn lemma_execve_exit_redetects_abi(s: TracerView, entry: Seq<u64>, exit: Seq<u64>)
    requires
        s.abi is Some,
        !s.in_syscall,
        entry[s.abi->0.reg_syscall as int] as i64 == s.abi->0.execve,
    ensures
        ({
            let s3 = spec_begin_iteration(spec_exit_view(spec_entry_view(s, entry), exit));
            &&& s3.abi is None
            &&& !s3.in_syscall
            &&& s3.past_first_execve
        }),
{
}

/// A `getpid` or `getppid` entry makes its exit report 1.
pub proof fn lemma_pid_query_reports_one(s: TracerView, entry: Seq<u64>, exit: Seq<u64>)
    requires
        s.abi is Some,
        !s.in_syscall,
        entry[s.abi->0.reg_syscall as int] as i64 == s.abi->0.getpid || entry[s.abi->0.reg_syscall as int] as i64 == s.abi->0.getppid,
    ensures
        spec_exit_steps(spec_entry_view(s, entry), exit).contains(ExitStep::ForceResult(1)),
{
    let s1 = spec_entry_view(s, entry);
    let a = s1.abi->0;
    let nr = exit[a.reg_syscall as int] as i64;
    let ret = exit[a.reg_ret as int] as i64;
    let w = exit_words(s1, exit);
    let head = push_if(Seq::empty(), spec_props_fake(s1, nr, ret), ExitStep::StopResult(42))
        + spec_capture_steps(spec_exit_open(s1, nr, ret), nr, w);
    let tail = spec_result_steps(s1, nr, w[a.reg_ret as int] as i64);
    assert(s1.pending_getpid);
    assert(tail[0] == ExitStep::ForceResult(1));
    let steps = spec_exit_steps(s1, exit);
    assert(steps == head + tail);
    assert(steps[head.len() as int] == ExitStep::ForceResult(1));
}

/// An extended-attribute setter runs as `getpid` (the entry rewrites the
/// syscall number and nothing else) and its exit reports success (0).
pub proof fn lemma_xattr_setter_succeeds(
    s: TracerView,
    entry: Seq<u64>,
    exit: Seq<u64>,
    act: EntryAction,
)
    requires
        s.wf(),
        s.abi is Some,
        !s.in_syscall,
        entry.len() == NREGS,
        spec_entry_arm(entry[s.abi->0.reg_syscall as int] as i64, s.abi->0) is Xattr,
        entry_action_matches(act, s, entry),
    ensures
        act matches EntryAction::WriteRegs(r) && r.words@[s.abi->0.reg_syscall as int]
            == s.abi->0.getpid as u64 && forall|i: int|
            0 <= i < NREGS && i != s.abi->0.reg_syscall ==> r.words@[i] == entry[i],
        spec_exit_steps(spec_entry_view(s, entry), exit).contains(ExitStep::ForceResult(0)),
{
    let s1 = spec_entry_view(s, entry);
    let a = s1.abi->0;
    let nr = exit[a.reg_syscall as int] as i64;
    let ret = exit[a.reg_ret as int] as i64;
    let w = exit_words(s1, exit);
    let head = push_if(Seq::empty(), spec_props_fake(s1, nr, ret), ExitStep::StopResult(42))
        + spec_capture_steps(spec_exit_open(s1, nr, ret), nr, w);
    let tail = spec_result_steps(s1, nr, w[a.reg_ret as int] as i64);
    assert(s1.pending_xattr_fake);
    let k: int = if s1.pending_getpid {
        1
    } else {
        0
    };
    assert(tail[k] == ExitStep::ForceResult(0));
    let steps = spec_exit_steps(s1, exit);
    assert(steps == head + tail);
    assert(steps[head.len() + k] == ExitStep::ForceResult(0));
}

/// A path written at its scratch slot lies inside the scratch area when it
/// fits at all, and after the cursor moves past it at least 256 bytes of
/// the area remain ahead of it.
pub proof fn lemma_scratch_slot_in_area(offset: u64, n: nat)
    requires
        scratch_len(n) <= SCRATCH_SIZE,
    ensures
        spec_slot_offset(offset, n) + scratch_len(n) <= SCRATCH_SIZE,
        spec_advance(spec_slot_offset(offset, n), n) + 256 <= SCRATCH_SIZE,
{
}

/// On `x86_64` hosts, once 50 `pause()` calls in a row were trapped, every
/// further trapped `pause()` reports `-ETIMEDOUT`, and any other trapped
/// syscall ends the streak.
pub proof fn lemma_pause_streak_times_out(s: TracerView, words: Seq<u64>)
    requires
        s.abi == Some(abi_x86_32()) || s.abi == Some(abi_x86_64()),
    ensures
        ({
            let a = s.abi->0;
            let nr = words[a.reg_syscall as int] as i64;
            &&& nr == a.pause && s.pause_count >= PAUSE_TIMEOUT_THRESHOLD ==> spec_seccomp_plan(
                s,
                words,
            ).result == -110
            &&& nr == a.pause && s.pause_count < PAUSE_TIMEOUT_THRESHOLD ==> spec_seccomp_plan(
                s,
                words,
            ).result == -38
            &&& nr != a.pause ==> spec_seccomp_view(s, words).pause_count == 0
        }),
{
}

/// The scratch area starts on an 8-byte boundary, at most 4 KiB + 7 bytes
/// below the stack pointer (modulo 2^64).
pub proof fn lemma_scratch_base_aligned(sp: u64)
    ensures
        spec_scratch_base(sp) % 8 == 0,
        sp >= SCRATCH_SIZE ==> sp - SCRATCH_SIZE - 7 <= spec_scratch_base(sp) <= sp - SCRATCH_SIZE,
{
    let below: u64 = if sp < SCRATCH_SIZE {
        (sp + 0x1_0000_0000_0000_0000 - SCRATCH_SIZE) as u64
    } else {
        (sp - SCRATCH_SIZE) as u64
    };
    assert((below & !7u64) % 8 == 0 && below - 7 <= (below & !7u64) <= below) by (bit_vector);
}

/// A successful open (of the open family, result `fd > 0`) remembers the
/// translated path its descriptor names, records the descriptor of the
/// kernel log device when that was being opened, and that of the property
/// area; a failed open of the property area is reported as
/// `FAKE_PROPERTIES_FD`, which is remembered instead.
pub proof fn lemma_open_exit_bookkeeping(s: TracerView, words: Seq<u64>, path: String)
    requires
        s.abi is Some,
        s.pending_open_path == Some(path),
        is_open_family(words[s.abi->0.reg_syscall as int] as i64, s.abi->0),
    ensures
        ({
            let a = s.abi->0;
            let ret = words[a.reg_ret as int] as i64;
            let s2 = spec_exit_view(s, words);
            &&& s2.pending_open_path is None
            &&& ret > 0 ==> s2.open_fd_paths == s.open_fd_paths.insert(ret as i32, path)
            &&& ret > 0 && s.pending_kmsg_open ==> s2.kmsg_fd == Some(ret as i32)
            &&& ret > 0 && spec_is_properties_path(path@) ==> s2.properties_fd == Some(ret as i32)
            &&& ret <= 0 && spec_is_properties_path(path@) ==> s2.properties_fd == Some(
                FAKE_PROPERTIES_FD,
            ) && spec_exit_steps(s, words)[0] == ExitStep::StopResult(42)
        }),
{
}

/// The syscalls that name their path in the register after a directory
/// descriptor (`openat(dirfd, path, ..)` and the other `*at` calls).
pub open spec fn takes_dirfd(nr: i64, a: ChildAbi) -> bool {
    nr == a.openat || nr == a.openat2 || nr == a.newfstatat || nr == a.statx || nr == a.faccessat
        || nr == a.readlinkat || nr == a.unlinkat
}

/// The syscalls whose first argument is the path.
pub open spec fn takes_path_first(nr: i64, a: ChildAbi) -> bool {
    nr == a.open || nr == a.stat || nr == a.lstat || nr == a.stat64 || nr == a.lstat64 || nr
        == a.access || nr == a.readlink || nr == a.chdir || nr == a.unlink
}

/// On every supported ABI, the path translated at the entry of a path
/// syscall is read from the syscall's path argument: the second register
/// for the `*at` calls, which take a directory descriptor first, the first
/// register for the others; only the open family is remembered as an open.
/// The process queries, `mmap`, `poll` and the extended-attribute setters
/// get their own handling.
pub proof fn lemma_entry_arms_of_supported_abis(a: ChildAbi, nr: i64)
    requires
        is_supported_abi(a),
        nr != -1,
    ensures
        takes_dirfd(nr, a) ==> spec_entry_arm(nr, a) == (EntryArm::Path {
            arg: a.reg_arg2,
            open: nr == a.openat || nr == a.openat2,
        }),
        takes_path_first(nr, a) ==> spec_entry_arm(nr, a) == (EntryArm::Path {
            arg: a.reg_arg1,
            open: nr == a.open,
        }),
        nr == a.getpid || nr == a.getppid ==> spec_entry_arm(nr, a) == EntryArm::PidQuery,
        nr == a.mmap || nr == a.mmap2 ==> spec_entry_arm(nr, a) == EntryArm::Mmap,
        nr == a.poll_nr ==> spec_entry_arm(nr, a) == EntryArm::Poll,
        nr == a.setxattr || nr == a.lsetxattr || nr == a.fsetxattr ==> spec_entry_arm(nr, a)
            == EntryArm::Xattr,
        !takes_dirfd(nr, a) && !takes_path_first(nr, a) && nr != a.getpid && nr != a.getppid
            && nr != a.mmap && nr != a.mmap2 && nr != a.poll_nr && nr != a.setxattr && nr
            != a.lsetxattr && nr != a.fsetxattr ==> spec_entry_arm(nr, a) == EntryArm::Other,
{
}

/// On every supported ABI, what a seccomp trap reports: `-ENOSYS` for the
/// System V shared memory calls (`shmget`, `shmat`, `shmctl`), the `pause`
/// result for the streak it extends for `pause`, and success for every
/// other trapped syscall.
pub proof fn lemma_seccomp_results_of_supported_abis(s: TracerView, words: Seq<u64>)
    requires
        s.abi matches Some(a) && is_supported_abi(a),
    ensures
        ({
            let a = s.abi->0;
            let nr = words[a.reg_syscall as int] as i64;
            spec_seccomp_plan(s, words).result == (if nr == a.shmget || nr == a.shmat || nr
                == a.shmctl {
                -38i64
            } else if nr != -1 && nr == a.pause {
                spec_pause_ret_after(sat_inc32(s.pause_count))
            } else {
                0i64
            })
        }),
{
}

/// On every supported ABI, the file-system work a seccomp trap asks for:
/// the mount's target and type for `mount`, the path for `mkdir` and
/// `mknod`, and nothing for any other syscall.
pub proof fn lemma_seccomp_fs_ops_of_supported_abis(s: TracerView, words: Seq<u64>)
    requires
        s.abi matches Some(a) && is_supported_abi(a),
    ensures
        ({
            let a = s.abi->0;
            let nr = words[a.reg_syscall as int] as i64;
            spec_seccomp_plan(s, words).fs_op == (if nr != -1 && nr == a.mount {
                FsOp::Mount { target: words[a.reg_arg2 as int], fstype: words[a.reg_arg3 as int] }
            } else if nr != -1 && nr == a.mkdir {
                FsOp::Mkdir { path: words[a.reg_arg1 as int] }
            } else if nr != -1 && nr == a.mknod {
                FsOp::Mknod { path: words[a.reg_arg1 as int] }
            } else {
                FsOp::Nothing
            })
        }),
{
}

} // verus!
