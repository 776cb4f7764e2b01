use kr64_ptrace::abi::{abi_aarch64, abi_label, abi_x86_32, abi_x86_64, select_abi, HostArch};
use kr64_ptrace::regs::{set_syscall_arg, Regs};
use kr64_ptrace::status::WaitStatus;
use kr64_ptrace::tracer::{
    entry_arm, ptrace_probe_allows, EntryAction, EntryArm, ExitStep, FsOp, LoopControl, PathPlan,
    PtraceEvent, StopAction, SyscallPlan, Tracer, FAKE_PROPERTIES_FD, RECENT_SYSCALLS_CAP,
};

const ROOTFS: &str = "/data/user/0/io.twoyi/rootfs";

fn i386_tracer() -> Tracer {
    let mut t = Tracer::new(HostArch::X86_64, 100);
    t.ensure_abi(Some(false));
    t
}

/// Registers of an i386 child stopped at syscall `nr` with the given
/// arguments and stack pointer.
fn i386_regs(nr: i64, args: [u64; 4], sp: u64) -> Regs {
    let a = abi_x86_32();
    let mut r = Regs::zeroed();
    set_syscall_arg(&mut r, a.reg_syscall, nr as u64);
    set_syscall_arg(&mut r, a.reg_arg1, args[0]);
    set_syscall_arg(&mut r, a.reg_arg2, args[1]);
    set_syscall_arg(&mut r, a.reg_arg3, args[2]);
    set_syscall_arg(&mut r, a.reg_arg4, args[3]);
    set_syscall_arg(&mut r, a.reg_sp, sp);
    r
}

fn with_ret(mut r: Regs, ret: i64) -> Regs {
    set_syscall_arg(&mut r, abi_x86_32().reg_ret, ret as u64);
    r
}

fn entry(t: &mut Tracer, r: &Regs) -> kr64_ptrace::tracer::EntryPlan {
    match t.on_syscall_stop(r) {
        SyscallPlan::Entry(p) => p,
        SyscallPlan::Exit(_) => panic!("expected an entry"),
    }
}

fn exit(t: &mut Tracer, r: &Regs) -> Vec<ExitStep> {
    match t.on_syscall_stop(r) {
        SyscallPlan::Exit(s) => s,
        SyscallPlan::Entry(_) => panic!("expected an exit"),
    }
}

#[test]
fn new_tracer_starts_idle() {
    let t = Tracer::new(HostArch::Aarch64, 42);
    assert_eq!(t.init_pid, 42);
    assert_eq!(t.current_pid, 42);
    assert!(!t.in_syscall);
    assert!(t.abi.is_none());
    assert_eq!(t.scratch_addr, 0);
    assert_eq!(t.sigsys_last_nr, -1);
    assert!(t.recent_syscalls.is_empty());
}

#[test]
fn ensure_abi_follows_detection_and_host() {
    let mut t = Tracer::new(HostArch::X86_64, 1);
    assert_eq!(t.ensure_abi(Some(false)).execve, 11);
    // once known the ABI stays
    assert_eq!(t.ensure_abi(Some(true)).execve, 11);
    let mut t = Tracer::new(HostArch::X86_64, 1);
    assert_eq!(t.ensure_abi(None).execve, 59);
    let mut t = Tracer::new(HostArch::Aarch64, 1);
    assert_eq!(t.ensure_abi(Some(false)).execve, abi_aarch64().execve);
    assert_eq!(select_abi(HostArch::X86_64, Some(true)).getpid, 39);
    assert_eq!(abi_label(HostArch::X86_64, abi_x86_32()), "32-bit (i386 compat)");
    assert_eq!(abi_label(HostArch::X86_64, abi_x86_64()), "64-bit (x86_64)");
    assert_eq!(abi_label(HostArch::Aarch64, abi_aarch64()), "64-bit (aarch64)");
}

#[test]
fn first_child_exit_finishes_with_its_code() {
    let mut t = Tracer::new(HostArch::X86_64, 100);
    assert_eq!(t.on_wait(100, WaitStatus::Exited(3)), StopAction::Finish(3));
    let mut t = Tracer::new(HostArch::X86_64, 100);
    assert_eq!(t.on_wait(100, WaitStatus::Signaled(9)), StopAction::Finish(-9));
}

#[test]
fn forked_child_end_hands_back_to_first_child() {
    let mut t = Tracer::new(HostArch::X86_64, 100);
    assert_eq!(t.on_wait(200, WaitStatus::Exited(1)), StopAction::ChildGone);
    assert_eq!(t.current_pid, 100);
    assert_eq!(t.on_wait(201, WaitStatus::Signaled(11)), StopAction::ChildGone);
    assert_eq!(t.current_pid, 100);
}

#[test]
fn stop_signals_are_classified() {
    let mut t = Tracer::new(HostArch::X86_64, 100);
    assert_eq!(t.on_wait(300, WaitStatus::Stopped { sig: 133, event: 0 }), StopAction::SyscallStop);
    assert_eq!(t.current_pid, 300);
    assert_eq!(t.on_wait(300, WaitStatus::Stopped { sig: 5, event: 0 }), StopAction::Trap);
    assert_eq!(t.on_wait(300, WaitStatus::Stopped { sig: 31, event: 0 }), StopAction::SeccompStop);
    assert_eq!(t.on_wait(300, WaitStatus::Stopped { sig: 19, event: 0 }), StopAction::Attached);
    assert_eq!(t.resume_signal, 0);
    assert_eq!(t.on_wait(300, WaitStatus::Stopped { sig: 11, event: 0 }), StopAction::Forward(11));
    assert_eq!(t.resume_signal, 11);
    assert_eq!(t.begin_iteration(), (300, 11));
    assert_eq!(t.resume_signal, 0);
    assert_eq!(t.on_wait(300, WaitStatus::Other), StopAction::Ignored);
}

#[test]
fn ptrace_events_are_named() {
    let mut t = Tracer::new(HostArch::X86_64, 100);
    let ev = |t: &mut Tracer, e: u16| t.on_wait(100, WaitStatus::Stopped { sig: 5, event: e });
    assert_eq!(ev(&mut t, 1), StopAction::Event(PtraceEvent::Fork));
    assert_eq!(ev(&mut t, 2), StopAction::Event(PtraceEvent::Vfork));
    assert_eq!(ev(&mut t, 3), StopAction::Event(PtraceEvent::Clone));
    assert_eq!(ev(&mut t, 6), StopAction::Event(PtraceEvent::Exit));
    assert_eq!(ev(&mut t, 9), StopAction::Event(PtraceEvent::Unknown(9)));
}

#[test]
fn exec_event_resets_phase_and_abi() {
    let mut t = i386_tracer();
    t.in_syscall = true;
    assert_eq!(
        t.on_wait(100, WaitStatus::Stopped { sig: 5, event: 4 }),
        StopAction::Event(PtraceEvent::Exec)
    );
    assert!(!t.in_syscall);
    assert!(t.reset_abi_next);
    t.begin_iteration();
    assert!(t.abi.is_none());
    assert!(t.past_first_execve);
    assert!(!t.reset_abi_next);
}

#[test]
fn vfork_done_resets_phase() {
    let mut t = i386_tracer();
    t.in_syscall = true;
    assert_eq!(
        t.on_wait(100, WaitStatus::Stopped { sig: 5, event: 5 }),
        StopAction::Event(PtraceEvent::VforkDone)
    );
    assert!(!t.in_syscall);
    assert!(!t.reset_abi_next);
}

#[test]
fn failed_resume_outcomes() {
    let mut t = Tracer::new(HostArch::X86_64, 100);
    assert_eq!(t.on_resume_failed(false, None), LoopControl::Finish(-1));
    assert_eq!(t.on_resume_failed(true, Some(WaitStatus::Exited(7))), LoopControl::Finish(7));
    assert_eq!(t.on_resume_failed(true, Some(WaitStatus::Signaled(9))), LoopControl::Finish(-9));
    assert_eq!(t.on_resume_failed(true, None), LoopControl::Finish(-1));
    t.current_pid = 555;
    assert_eq!(t.on_resume_failed(true, Some(WaitStatus::Exited(0))), LoopControl::Continue);
    assert_eq!(t.current_pid, 100);
}

#[test]
fn getpid_entry_then_exit_reports_one() {
    let mut t = i386_tracer();
    let r = i386_regs(20, [0; 4], 0xffff_d000);
    let p = entry(&mut t, &r);
    assert_eq!(p.nr, 20);
    assert!(matches!(p.action, EntryAction::Nothing));
    assert!(t.in_syscall);
    assert!(t.pending_getpid);
    assert_eq!(t.scratch_addr, 0xffff_c000);
    let steps = exit(&mut t, &with_ret(r, 4321));
    assert_eq!(steps.len(), 1);
    assert!(matches!(steps[0], ExitStep::ForceResult(1)));
    assert!(!t.in_syscall);
    assert!(!t.pending_getpid);
}

#[test]
fn scratch_base_is_aligned_below_the_stack() {
    let mut t = i386_tracer();
    entry(&mut t, &i386_regs(3, [0; 4], 0x1_0007));
    assert_eq!(t.scratch_addr, 0x1_0007 - 4096 - 7);
    exit(&mut t, &i386_regs(3, [0; 4], 0x1_0007));
    // a stack pointer below 4 KiB wraps around
    entry(&mut t, &i386_regs(3, [0; 4], 0x10));
    assert_eq!(t.scratch_addr, 0x10u64.wrapping_sub(4096) & !7u64);
}

#[test]
fn openat_path_is_translated_into_scratch_and_tracked() {
    let mut t = i386_tracer();
    let r = i386_regs(295, [0xffff_ff9c, 0x0804_0000, 0, 0], 0xffff_d000);
    let p = entry(&mut t, &r);
    match p.action {
        EntryAction::TranslatePath { arg, addr, open } => {
            assert_eq!(arg, abi_x86_32().reg_arg2);
            assert_eq!(addr, 0x0804_0000);
            assert!(open);
        }
        _ => panic!("expected a path translation"),
    }
    match t.entry_path(ROOTFS, "/dev/__kmsg__", true) {
        PathPlan::Scratch { translated, addr } => {
            assert_eq!(translated, format!("{}/dev/__kmsg__", ROOTFS));
            assert_eq!(addr, 0xffff_c000);
            t.scratch_written(translated.len());
        }
        _ => panic!("expected a scratch write"),
    }
    assert_eq!(t.scratch_offset, 48);
    assert!(t.pending_kmsg_open);
    let steps = exit(&mut t, &with_ret(r, 3));
    assert!(steps.is_empty());
    assert_eq!(t.kmsg_fd, Some(3));
    assert_eq!(t.open_fd_paths.get(&3), Some(&format!("{}/dev/__kmsg__", ROOTFS)));
    assert!(t.pending_open_path.is_none());
}

#[test]
fn untranslated_and_unreserved_paths() {
    let mut t = i386_tracer();
    assert!(matches!(t.entry_path(ROOTFS, "/proc/self/status", false), PathPlan::Keep));
    // no scratch area reserved yet
    match t.entry_path(ROOTFS, "/init.rc", false) {
        PathPlan::InPlace { translated } => assert_eq!(translated, format!("{}/init.rc", ROOTFS)),
        _ => panic!("expected an in-place rewrite"),
    }
    assert!(t.pending_open_path.is_none());
}

#[test]
fn failed_properties_open_reports_fake_fd() {
    let mut t = i386_tracer();
    let r = i386_regs(5, [0x0804_0000, 0, 0, 0], 0xffff_d000);
    entry(&mut t, &r);
    t.entry_path(ROOTFS, "/dev/__properties__", true);
    let steps = exit(&mut t, &with_ret(r, -13));
    assert_eq!(steps.len(), 1);
    assert!(matches!(steps[0], ExitStep::StopResult(42)));
    assert_eq!(t.properties_fd, Some(FAKE_PROPERTIES_FD));
    assert!(t.open_fd_paths.is_empty());
}

#[test]
fn file_backed_mmap2_becomes_anonymous() {
    let mut t = i386_tracer();
    let a = abi_x86_32();
    let mut r = i386_regs(192, [0, 0x20000, 3, 0x1], 0xffff_d000);
    set_syscall_arg(&mut r, a.reg_arg5, 42);
    set_syscall_arg(&mut r, a.reg_arg6, 7);
    let p = entry(&mut t, &r);
    match p.action {
        EntryAction::WriteRegs(w) => {
            assert_eq!(w.words[a.reg_arg4], 0x22);
            assert_eq!(w.words[a.reg_arg5], u64::MAX);
            assert_eq!(w.words[a.reg_arg6], 0);
            assert_eq!(w.words[a.reg_arg2], 0x20000);
        }
        _ => panic!("expected a register rewrite"),
    }
    exit(&mut t, &r);
    let anon = i386_regs(192, [0, 0x20000, 3, 0x22], 0xffff_d000);
    assert!(matches!(entry(&mut t, &anon).action, EntryAction::Nothing));
}

#[test]
fn poll_timeout_is_raised_and_result_silenced() {
    let mut t = i386_tracer();
    let a = abi_x86_32();
    let r = i386_regs(168, [0x1000, 1, (-1i64) as u64, 0], 0xffff_d000);
    let p = entry(&mut t, &r);
    assert_eq!(p.sleep_ms, 100);
    match p.action {
        EntryAction::WriteRegs(w) => assert_eq!(w.words[a.reg_arg3], 100),
        _ => panic!("expected a timeout rewrite"),
    }
    assert!(t.pending_poll_fake);
    let steps = exit(&mut t, &with_ret(r, 1));
    assert_eq!(steps.len(), 2);
    assert!(matches!(steps[0], ExitStep::ForceResult(0)));
    assert!(matches!(steps[1], ExitStep::SilencePoll));
    // a positive timeout is left alone
    let r = i386_regs(168, [0x1000, 1, 500, 0], 0xffff_d000);
    assert!(matches!(entry(&mut t, &r).action, EntryAction::Nothing));
}

#[test]
fn xattr_setter_runs_as_getpid() {
    let mut t = i386_tracer();
    let a = abi_x86_32();
    let r = i386_regs(227, [0x1000, 0x2000, 0x3000, 44], 0xffff_d000);
    match entry(&mut t, &r).action {
        EntryAction::WriteRegs(w) => {
            assert_eq!(w.words[a.reg_syscall], 20);
            assert_eq!(w.words[a.reg_arg4], 44);
        }
        _ => panic!("expected the syscall rewrite"),
    }
    let after = i386_regs(20, [0x1000, 0x2000, 0x3000, 44], 0xffff_d000);
    let steps = exit(&mut t, &with_ret(after, 4321));
    assert_eq!(steps.len(), 1);
    assert!(matches!(steps[0], ExitStep::ForceResult(0)));
}

#[test]
fn failed_exit_of_a_faked_syscall_and_socketcall() {
    let mut t = i386_tracer();
    let r = i386_regs(15, [0x1000, 0o755, 0, 0], 0xffff_d000);
    entry(&mut t, &r);
    let steps = exit(&mut t, &with_ret(r, -1));
    assert_eq!(steps.len(), 1);
    assert!(matches!(steps[0], ExitStep::ForceResult(0)));
    let r = i386_regs(102, [2, 0x1000, 0, 0], 0xffff_d000);
    entry(&mut t, &r);
    let steps = exit(&mut t, &with_ret(r, -98));
    assert_eq!(steps.len(), 1);
    assert!(matches!(steps[0], ExitStep::ForceResult(0)));
    entry(&mut t, &r);
    assert!(exit(&mut t, &with_ret(r, 5)).is_empty());
}

#[test]
fn writes_and_reads_after_execve() {
    let mut t = i386_tracer();
    t.past_first_execve = true;
    t.open_fd_paths.insert(7, "/proc/self/attr/exec".to_string());
    t.open_fd_paths.insert(8, "/proc/self/task/1/attr/current".to_string());
    t.kmsg_fd = Some(3);
    // a failed write of an exec context reports its count
    let r = i386_regs(4, [7, 0x5000, 21, 0], 0xffff_d000);
    entry(&mut t, &r);
    let steps = exit(&mut t, &with_ret(r, -22));
    assert_eq!(steps.len(), 1);
    assert!(matches!(steps[0], ExitStep::ForceResult(21)));
    // a short write to the kernel log is reported as such
    let r = i386_regs(4, [3, 0x5000, 10, 0], 0xffff_d000);
    entry(&mut t, &r);
    let steps = exit(&mut t, &with_ret(r, 10));
    assert!(matches!(steps[0], ExitStep::CaptureWrite { fd: 3, buf: 0x5000, len: 10, klog: true }));
    assert_eq!(t.post_execve_write_count, 1);
    // a read of attr/current gets the recovery context
    let r = i386_regs(3, [8, 0x6000, 100, 0], 0xffff_d000);
    entry(&mut t, &r);
    let steps = exit(&mut t, &with_ret(r, 44));
    assert_eq!(steps.len(), 2);
    match &steps[0] {
        ExitStep::CaptureRead { fd, buf, len, path } => {
            assert_eq!((*fd, *buf, *len), (8, 0x6000, 44));
            assert_eq!(path.as_deref(), Some("/proc/self/task/1/attr/current"));
        }
        _ => panic!("expected a read report"),
    }
    assert!(matches!(steps[1], ExitStep::FakeContext { buf: 0x6000, result: 16 }));
    assert_eq!(t.post_execve_read_count, 1);
}

#[test]
fn execve_entry_and_exit_schedule_abi_reset() {
    let mut t = i386_tracer();
    // first entry: no scratch area yet, so no 64-bit rewrite
    let r = i386_regs(11, [0x1000, 0x2000, 0x3000, 0], 0xffff_d000);
    let p = entry(&mut t, &r);
    assert!(p.inject.is_none());
    assert!(t.saw_execve);
    exit(&mut t, &with_ret(r, -38));
    assert!(t.reset_abi_next);
    // next entry: the scratch area from the previous entry is used
    let mut t = i386_tracer();
    entry(&mut t, &i386_regs(3, [0; 4], 0xffff_d000));
    exit(&mut t, &i386_regs(3, [0; 4], 0xffff_d000));
    let p = entry(&mut t, &r);
    let inj = p.inject.expect("a 64-bit execve rewrite");
    assert_eq!(inj.path_addr, 0x1000);
    assert_eq!(inj.argv, 0x2000);
    assert_eq!(inj.envp, 0x3000);
    assert_eq!(inj.scratch_addr, 0xffff_c000);
    exit(&mut t, &r);
    t.begin_iteration();
    assert!(t.abi.is_none());
    assert_eq!(t.post_execve_syscall_count, 0);
}

#[test]
fn history_keeps_the_newest_fifty() {
    let mut t = i386_tracer();
    for nr in 0..60i64 {
        let r = i386_regs(1000 + nr, [0; 4], 0xffff_d000);
        entry(&mut t, &r);
        exit(&mut t, &r);
    }
    assert_eq!(t.recent_syscalls.len(), RECENT_SYSCALLS_CAP);
    assert_eq!(t.recent_syscalls[0], 1010);
    assert_eq!(t.recent_syscalls[49], 1059);
}

#[test]
fn seccomp_results() {
    let mut t = i386_tracer();
    let p = t.on_seccomp_stop(&i386_regs(15, [0x1000, 0o755, 0, 0], 0));
    assert_eq!((p.nr, p.result), (15, 0));
    assert_eq!(p.fs_op, FsOp::Nothing);
    assert!(p.fresh_regs);
    let p = t.on_seccomp_stop(&i386_regs(21, [0x1000, 0x2000, 0x3000, 0], 0));
    assert_eq!(p.fs_op, FsOp::Mount { target: 0x2000, fstype: 0x3000 });
    let p = t.on_seccomp_stop(&i386_regs(39, [0x1000, 0, 0, 0], 0));
    assert_eq!(p.fs_op, FsOp::Mkdir { path: 0x1000 });
    let p = t.on_seccomp_stop(&i386_regs(14, [0x1000, 0, 0, 0], 0));
    assert_eq!(p.fs_op, FsOp::Mknod { path: 0x1000 });
    assert_eq!(p.result, 0);
    let p = t.on_seccomp_stop(&i386_regs(395, [0; 4], 0));
    assert_eq!(p.result, -38);
    let p = t.on_seccomp_stop(&i386_regs(33, [0x1000, 0, 0, 0], 0));
    assert_eq!((p.result, p.fs_op), (0, FsOp::Nothing));
    assert!(!t.in_syscall);
}

#[test]
fn seccomp_trap_inside_a_syscall_needs_no_fresh_read() {
    let mut t = i386_tracer();
    let r = i386_regs(15, [0; 4], 0xffff_d000);
    entry(&mut t, &r);
    let p = t.on_seccomp_stop(&r);
    assert!(!p.fresh_regs);
    assert!(!t.in_syscall);
}

#[test]
fn pause_streak_times_out_after_fifty() {
    let mut t = i386_tracer();
    for i in 1..=50u32 {
        let p = t.on_seccomp_stop(&i386_regs(29, [0; 4], 0));
        assert_eq!(p.result, -38);
        assert_eq!(p.sleep_ms, 100);
        assert_eq!(t.pause_count, i);
    }
    assert_eq!(t.on_seccomp_stop(&i386_regs(29, [0; 4], 0)).result, -110);
    let p = t.on_seccomp_stop(&i386_regs(15, [0; 4], 0));
    assert_eq!(p.sleep_ms, 0);
    assert_eq!(t.pause_count, 0);
    assert_eq!(t.on_seccomp_stop(&i386_regs(29, [0; 4], 0)).result, -38);
}

#[test]
fn repeated_traps_go_quiet() {
    let mut t = i386_tracer();
    let mut quiet = Vec::new();
    let mut summary = Vec::new();
    for _ in 0..7 {
        let p = t.on_seccomp_stop(&i386_regs(395, [0; 4], 0));
        quiet.push(p.quiet);
        summary.push(p.summary);
    }
    assert_eq!(quiet, vec![false, false, false, false, false, true, true]);
    assert_eq!(summary, vec![false, false, false, false, false, true, false]);
    assert_eq!(t.sigsys_repeat_count, 7);
    assert!(!t.on_seccomp_stop(&i386_regs(15, [0; 4], 0)).quiet);
    assert_eq!(t.sigsys_repeat_count, 1);
}

#[test]
fn entry_arms_follow_the_fixed_order() {
    let a = abi_x86_32();
    assert_eq!(entry_arm(20, &a), EntryArm::PidQuery);
    assert_eq!(entry_arm(64, &a), EntryArm::PidQuery);
    assert_eq!(entry_arm(5, &a), EntryArm::Path { arg: a.reg_arg1, open: true });
    assert_eq!(entry_arm(195, &a), EntryArm::Path { arg: a.reg_arg1, open: false });
    assert_eq!(entry_arm(300, &a), EntryArm::Path { arg: a.reg_arg2, open: false });
    assert_eq!(entry_arm(192, &a), EntryArm::Mmap);
    assert_eq!(entry_arm(168, &a), EntryArm::Poll);
    assert_eq!(entry_arm(226, &a), EntryArm::Xattr);
    assert_eq!(entry_arm(4, &a), EntryArm::Other);
    // on aarch64 the missing `open` is -1, which the open arm claims
    let arm = abi_aarch64();
    assert_eq!(entry_arm(-1, &arm), EntryArm::Path { arg: arm.reg_arg1, open: true });
}

#[test]
fn ptrace_probe_outcomes() {
    assert!(ptrace_probe_allows(0, 0));
    assert!(ptrace_probe_allows(-1, 1));
    assert!(!ptrace_probe_allows(-1, 3));
}
