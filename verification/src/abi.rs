//! Per-ABI syscall numbers and register layout of the traced child, and
//! the decisions that depend on them alone.
use vstd::prelude::*;
use crate::sys::{errno_enosys, errno_etimedout};

verus! {

/// Number of 64-bit words in the register file the tracer reads and writes
/// (enough for the `x86_64` `user_regs_struct` and the `aarch64`
/// `user_pt_regs`).
pub const NREGS: usize = 34;

/// The architecture of the tracer itself. On an `x86_64` host the child
/// may be a 64-bit or a 32-bit (i386 compat) program; on an `aarch64` host
/// it is always 64-bit.
#[derive(Clone, Copy, Debug, PartialEq, Eq, Structural)]
pub enum HostArch {
    X86_64,
    Aarch64,
}

/// Syscall numbers (`-1` where the ABI has no such syscall) and register
/// indices (into the register file read as 64-bit words) of one child ABI.
#[derive(Clone, Copy, Debug)]
pub struct ChildAbi {
    pub getpid: i64,
    pub getppid: i64,
    pub open: i64,
    pub openat: i64,
    pub openat2: i64,
    pub stat: i64,
    pub lstat: i64,
    pub newfstatat: i64,
    pub statx: i64,
    pub stat64: i64,
    pub lstat64: i64,
    pub fstat64: i64,
    pub access: i64,
    pub faccessat: i64,
    pub rt_sigprocmask: i64,
    pub readlink: i64,
    pub readlinkat: i64,
    pub chdir: i64,
    pub unlink: i64,
    pub unlinkat: i64,
    pub fchown: i64,
    pub fchmod: i64,
    pub capget: i64,
    pub ioprio_get: i64,
    pub ioprio_set: i64,
    pub chmod: i64,
    pub lchown: i64,
    pub chown: i64,
    pub fchmodat: i64,
    pub fchownat: i64,
    pub execve: i64,
    pub mount: i64,
    pub chroot: i64,
    pub mkdir: i64,
    pub unshare: i64,
    pub mknod: i64,
    pub setxattr: i64,
    pub lsetxattr: i64,
    pub fsetxattr: i64,
    pub shmget: i64,
    pub shmat: i64,
    pub shmctl: i64,
    pub pause: i64,
    pub clone_nr: i64,
    pub fork_nr: i64,
    pub vfork_nr: i64,
    pub wait4_nr: i64,
    pub exit_group_nr: i64,
    pub write: i64,
    pub read: i64,
    pub mmap: i64,
    pub mmap2: i64,
    pub socketcall_nr: i64,
    pub poll_nr: i64,
    pub reg_syscall: usize,
    pub reg_ret: usize,
    pub reg_arg1: usize,
    pub reg_arg2: usize,
    pub reg_arg3: usize,
    pub reg_arg4: usize,
    pub reg_arg5: usize,
    pub reg_arg6: usize,
    pub reg_sp: usize,
}

impl ChildAbi {
    /// Every register index lies inside the register file.
    pub open spec fn regs_in_range(self) -> bool {
        &&& self.reg_syscall < NREGS
        &&& self.reg_ret < NREGS
        &&& self.reg_arg1 < NREGS
        &&& self.reg_arg2 < NREGS
        &&& self.reg_arg3 < NREGS
        &&& self.reg_arg4 < NREGS
        &&& self.reg_arg5 < NREGS
        &&& self.reg_arg6 < NREGS
        &&& self.reg_sp < NREGS
    }
}

/// The syscall numbers and register layout of a x86_64 child.
#[verifier::allow_in_spec]
pub fn abi_x86_64() -> ChildAbi
    returns
        (ChildAbi {
            getpid: 39,
            getppid: 110,
            open: 2,
            openat: 257,
            openat2: 437,
            stat: 4,
            lstat: 6,
            newfstatat: 262,
            statx: 332,
            stat64: -1i64,
            lstat64: -1i64,
            fstat64: -1i64,
            access: 21,
            faccessat: 48,
            rt_sigprocmask: 14,
            readlink: 89,
            readlinkat: 267,
            chdir: 80,
            unlink: 87,
            unlinkat: 263,
            fchown: 93,
            fchmod: 91,
            capget: 125,
            ioprio_get: 252,
            ioprio_set: 251,
            chmod: 90,
            lchown: 94,
            chown: 182,
            fchmodat: 268,
            fchownat: 260,
            execve: 59,
            mount: 165,
            chroot: 161,
            mkdir: 83,
            unshare: 272,
            mknod: 133,
            setxattr: 188,
            lsetxattr: 189,
            fsetxattr: 190,
            shmget: 29,
            shmat: 30,
            shmctl: 31,
            pause: 34,
            clone_nr: 56,
            fork_nr: 57,
            vfork_nr: 58,
            wait4_nr: 61,
            exit_group_nr: 231,
            write: 1,
            read: 0,
            mmap: 9,
            mmap2: -1i64,
            socketcall_nr: -1i64,
            poll_nr: 7,
            reg_syscall: 15,
            reg_ret: 10,
            reg_arg1: 14,
            reg_arg2: 13,
            reg_arg3: 12,
            reg_arg4: 7,
            reg_arg5: 9,
            reg_arg6: 8,
            reg_sp: 19,
        }),
{
    ChildAbi {
        getpid: 39,
        getppid: 110,
        open: 2,
        openat: 257,
        openat2: 437,
        stat: 4,
        lstat: 6,
        newfstatat: 262,
        statx: 332,
        stat64: -1i64,
        lstat64: -1i64,
        fstat64: -1i64,
        access: 21,
        faccessat: 48,
        rt_sigprocmask: 14,
        readlink: 89,
        readlinkat: 267,
        chdir: 80,
        unlink: 87,
        unlinkat: 263,
        fchown: 93,
        fchmod: 91,
        capget: 125,
        ioprio_get: 252,
        ioprio_set: 251,
        chmod: 90,
        lchown: 94,
        chown: 182,
        fchmodat: 268,
        fchownat: 260,
        execve: 59,
        mount: 165,
        chroot: 161,
        mkdir: 83,
        unshare: 272,
        mknod: 133,
        setxattr: 188,
        lsetxattr: 189,
        fsetxattr: 190,
        shmget: 29,
        shmat: 30,
        shmctl: 31,
        pause: 34,
        clone_nr: 56,
        fork_nr: 57,
        vfork_nr: 58,
        wait4_nr: 61,
        exit_group_nr: 231,
        write: 1,
        read: 0,
        mmap: 9,
        mmap2: -1i64,
        socketcall_nr: -1i64,
        poll_nr: 7,
        reg_syscall: 15,
        reg_ret: 10,
        reg_arg1: 14,
        reg_arg2: 13,
        reg_arg3: 12,
        reg_arg4: 7,
        reg_arg5: 9,
        reg_arg6: 8,
        reg_sp: 19,
    }
}

/// The syscall numbers and register layout of a x86_32 child.
#[verifier::allow_in_spec]
pub fn abi_x86_32() -> ChildAbi
    returns
        (ChildAbi {
            getpid: 20,
            getppid: 64,
            open: 5,
            openat: 295,
            openat2: 437,
            stat: 106,
            lstat: 107,
            newfstatat: 300,
            statx: 383,
            stat64: 195,
            lstat64: 196,
            fstat64: 197,
            access: 33,
            faccessat: 307,
            rt_sigprocmask: 175,
            readlink: 85,
            readlinkat: 303,
            chdir: 12,
            unlink: 10,
            unlinkat: 301,
            fchown: 95,
            fchmod: 94,
            capget: 184,
            ioprio_get: 290,
            ioprio_set: 289,
            chmod: 15,
            lchown: 16,
            chown: 182,
            fchmodat: 306,
            fchownat: 298,
            execve: 11,
            mount: 21,
            chroot: 61,
            mkdir: 39,
            unshare: 310,
            mknod: 14,
            setxattr: 226,
            lsetxattr: 227,
            fsetxattr: 228,
            shmget: 395,
            shmat: 397,
            shmctl: 396,
            pause: 29,
            clone_nr: 120,
            fork_nr: 2,
            vfork_nr: 190,
            wait4_nr: 114,
            exit_group_nr: 252,
            write: 4,
            read: 3,
            mmap: -1i64,
            mmap2: 192,
            socketcall_nr: 102,
            poll_nr: 168,
            reg_syscall: 15,
            reg_ret: 10,
            reg_arg1: 5,
            reg_arg2: 11,
            reg_arg3: 12,
            reg_arg4: 13,
            reg_arg5: 14,
            reg_arg6: 4,
            reg_sp: 19,
        }),
{
    ChildAbi {
        getpid: 20,
        getppid: 64,
        open: 5,
        openat: 295,
        openat2: 437,
        stat: 106,
        lstat: 107,
        newfstatat: 300,
        statx: 383,
        stat64: 195,
        lstat64: 196,
        fstat64: 197,
        access: 33,
        faccessat: 307,
        rt_sigprocmask: 175,
        readlink: 85,
        readlinkat: 303,
        chdir: 12,
        unlink: 10,
        unlinkat: 301,
        fchown: 95,
        fchmod: 94,
        capget: 184,
        ioprio_get: 290,
        ioprio_set: 289,
        chmod: 15,
        lchown: 16,
        chown: 182,
        fchmodat: 306,
        fchownat: 298,
        execve: 11,
        mount: 21,
        chroot: 61,
        mkdir: 39,
        unshare: 310,
        mknod: 14,
        setxattr: 226,
        lsetxattr: 227,
        fsetxattr: 228,
        shmget: 395,
        shmat: 397,
        shmctl: 396,
        pause: 29,
        clone_nr: 120,
        fork_nr: 2,
        vfork_nr: 190,
        wait4_nr: 114,
        exit_group_nr: 252,
        write: 4,
        read: 3,
        mmap: -1i64,
        mmap2: 192,
        socketcall_nr: 102,
        poll_nr: 168,
        reg_syscall: 15,
        reg_ret: 10,
        reg_arg1: 5,
        reg_arg2: 11,
        reg_arg3: 12,
        reg_arg4: 13,
        reg_arg5: 14,
        reg_arg6: 4,
        reg_sp: 19,
    }
}

/// The syscall numbers and register layout of a aarch64 child.
#[verifier::allow_in_spec]
pub fn abi_aarch64() -> ChildAbi
    returns
        (ChildAbi {
            getpid: 172,
            getppid: 173,
            open: -1i64,
            openat: 56,
            openat2: 437,
            stat: -1i64,
            lstat: -1i64,
            newfstatat: 79,
            statx: 291,
            stat64: -1i64,
            lstat64: -1i64,
            fstat64: -1i64,
            access: -1i64,
            faccessat: 48,
            rt_sigprocmask: 135,
            readlink: -1i64,
            readlinkat: 78,
            chdir: 49,
            unlink: -1i64,
            unlinkat: 35,
            fchown: 55,
            fchmod: 52,
            capget: 90,
            ioprio_get: 31,
            ioprio_set: 30,
            chmod: 53,
            lchown: -1i64,
            chown: -1i64,
            fchmodat: 53,
            fchownat: 54,
            execve: 221,
            mount: 40,
            chroot: 51,
            mkdir: 34,
            unshare: 97,
            mknod: -1i64,
            setxattr: 188,
            lsetxattr: 189,
            fsetxattr: 190,
            shmget: 194,
            shmat: 196,
            shmctl: 195,
            pause: -1i64,
            clone_nr: 220,
            fork_nr: -1i64,
            vfork_nr: -1i64,
            wait4_nr: 260,
            exit_group_nr: 94,
            write: 64,
            read: 63,
            mmap: 222,
            mmap2: -1i64,
            socketcall_nr: -1i64,
            poll_nr: -1i64,
            reg_syscall: 8,
            reg_ret: 0,
            reg_arg1: 0,
            reg_arg2: 1,
            reg_arg3: 2,
            reg_arg4: 3,
            reg_arg5: 4,
            reg_arg6: 5,
            reg_sp: 31,
        }),
{
    ChildAbi {
        getpid: 172,
        getppid: 173,
        open: -1i64,
        openat: 56,
        openat2: 437,
        stat: -1i64,
        lstat: -1i64,
        newfstatat: 79,
        statx: 291,
        stat64: -1i64,
        lstat64: -1i64,
        fstat64: -1i64,
        access: -1i64,
        faccessat: 48,
        rt_sigprocmask: 135,
        readlink: -1i64,
        readlinkat: 78,
        chdir: 49,
        unlink: -1i64,
        unlinkat: 35,
        fchown: 55,
        fchmod: 52,
        capget: 90,
        ioprio_get: 31,
        ioprio_set: 30,
        chmod: 53,
        lchown: -1i64,
        chown: -1i64,
        fchmodat: 53,
        fchownat: 54,
        execve: 221,
        mount: 40,
        chroot: 51,
        mkdir: 34,
        unshare: 97,
        mknod: -1i64,
        setxattr: 188,
        lsetxattr: 189,
        fsetxattr: 190,
        shmget: 194,
        shmat: 196,
        shmctl: 195,
        pause: -1i64,
        clone_nr: 220,
        fork_nr: -1i64,
        vfork_nr: -1i64,
        wait4_nr: 260,
        exit_group_nr: 94,
        write: 64,
        read: 63,
        mmap: 222,
        mmap2: -1i64,
        socketcall_nr: -1i64,
        poll_nr: -1i64,
        reg_syscall: 8,
        reg_ret: 0,
        reg_arg1: 0,
        reg_arg2: 1,
        reg_arg3: 2,
        reg_arg4: 3,
        reg_arg5: 4,
        reg_arg6: 5,
        reg_sp: 31,
    }
}

/// Which ABI the tracer uses for the current child: on `x86_64` it follows
/// the ELF class read from the child's executable (`Some(true)` 64-bit,
/// `Some(false)` 32-bit), falling back to 64-bit when detection failed; on
/// `aarch64` it is always the `aarch64` ABI.
pub open spec fn spec_select_abi(host: HostArch, is_64bit: Option<bool>) -> ChildAbi {
    match host {
        HostArch::X86_64 => match is_64bit {
            Some(false) => abi_x86_32(),
            _ => abi_x86_64(),
        },
        HostArch::Aarch64 => abi_aarch64(),
    }
}

pub fn select_abi(host: HostArch, is_64bit: Option<bool>) -> (r: ChildAbi)
    ensures
        r == spec_select_abi(host, is_64bit),
        r.regs_in_range(),
{
    match host {
        HostArch::X86_64 => match is_64bit {
            Some(false) => abi_x86_32(),
            _ => abi_x86_64(),
        },
        HostArch::Aarch64 => abi_aarch64(),
    }
}

/// Label of an ABI for log lines. On an `x86_64` host the ABI is told by
/// its `execve` number (59 for 64-bit, 11 for i386); on an `aarch64` host
/// the child is always 64-bit.
pub open spec fn spec_abi_label(host: HostArch, abi: ChildAbi) -> Seq<char> {
    match host {
        HostArch::X86_64 => if abi.execve == 59 {
            "64-bit (x86_64)"@
        } else if abi.execve == 11 {
            "32-bit (i386 compat)"@
        } else {
            "unknown-x86-abi"@
        },
        HostArch::Aarch64 => "64-bit (aarch64)"@,
    }
}

pub fn abi_label(host: HostArch, abi: ChildAbi) -> (r: &'static str)
    ensures
        r@ == spec_abi_label(host, abi),
{
    match host {
        HostArch::X86_64 => if abi.execve == 59 {
            "64-bit (x86_64)"
        } else if abi.execve == 11 {
            "32-bit (i386 compat)"
        } else {
            "unknown-x86-abi"
        },
        HostArch::Aarch64 => "64-bit (aarch64)",
    }
}

/// Syscall `nr` is the syscall whose number on an ABI is `field`; a field
/// of -1 marks a syscall the ABI lacks and names no syscall.
pub open spec fn names(nr: i64, field: i64) -> bool {
    field != -1 && nr == field
}

/// Whether syscall `nr` is the one numbered `field` (never for -1).
pub fn is_nr(nr: i64, field: i64) -> (r: bool)
    ensures
        r == names(nr, field),
{
    field != -1 && nr == field
}

/// The name of syscall `nr` for log lines: the first field of `abi`, in a
/// fixed order, that names `nr`; `"unknown"` when none does (in particular
/// for -1).
pub open spec fn spec_syscall_name(nr: i64, abi: ChildAbi) -> Seq<char> {
    if names(nr, abi.access) {
        "access"@
    } else if names(nr, abi.rt_sigprocmask) {
        "rt_sigprocmask"@
    } else if names(nr, abi.mount) {
        "mount"@
    } else if names(nr, abi.mknod) {
        "mknod"@
    } else if names(nr, abi.chroot) {
        "chroot"@
    } else if names(nr, abi.mkdir) {
        "mkdir"@
    } else if names(nr, abi.chmod) {
        "chmod"@
    } else if names(nr, abi.unshare) {
        "unshare"@
    } else if names(nr, abi.shmget) {
        "shmget"@
    } else if names(nr, abi.shmat) {
        "shmat"@
    } else if names(nr, abi.shmctl) {
        "shmctl"@
    } else if names(nr, abi.pause) {
        "pause"@
    } else if names(nr, abi.fchown) {
        "fchown"@
    } else if names(nr, abi.fchmod) {
        "fchmod"@
    } else if names(nr, abi.lchown) {
        "lchown"@
    } else if names(nr, abi.chown) {
        "chown"@
    } else if names(nr, abi.fchmodat) {
        "fchmodat"@
    } else if names(nr, abi.fchownat) {
        "fchownat"@
    } else if names(nr, abi.capget) {
        "capget"@
    } else if names(nr, abi.ioprio_get) {
        "ioprio_get"@
    } else if names(nr, abi.ioprio_set) {
        "ioprio_set"@
    } else if names(nr, abi.setxattr) {
        "setxattr"@
    } else if names(nr, abi.lsetxattr) {
        "lsetxattr"@
    } else if names(nr, abi.fsetxattr) {
        "fsetxattr"@
    } else if names(nr, abi.stat64) {
        "stat64"@
    } else if names(nr, abi.lstat64) {
        "lstat64"@
    } else if names(nr, abi.fstat64) {
        "fstat64"@
    } else if names(nr, abi.execve) {
        "execve"@
    } else if names(nr, abi.unlink) {
        "unlink"@
    } else if names(nr, abi.unlinkat) {
        "unlinkat"@
    } else if names(nr, abi.socketcall_nr) {
        "socketcall"@
    } else if names(nr, abi.poll_nr) {
        "poll"@
    } else {
        "unknown"@
    }
}

pub fn syscall_name(nr: i64, abi: &ChildAbi) -> (r: &'static str)
    ensures
        r@ == spec_syscall_name(nr, *abi),
{
    if is_nr(nr, abi.access) {
        "access"
    } else if is_nr(nr, abi.rt_sigprocmask) {
        "rt_sigprocmask"
    } else if is_nr(nr, abi.mount) {
        "mount"
    } else if is_nr(nr, abi.mknod) {
        "mknod"
    } else if is_nr(nr, abi.chroot) {
        "chroot"
    } else if is_nr(nr, abi.mkdir) {
        "mkdir"
    } else if is_nr(nr, abi.chmod) {
        "chmod"
    } else if is_nr(nr, abi.unshare) {
        "unshare"
    } else if is_nr(nr, abi.shmget) {
        "shmget"
    } else if is_nr(nr, abi.shmat) {
        "shmat"
    } else if is_nr(nr, abi.shmctl) {
        "shmctl"
    } else if is_nr(nr, abi.pause) {
        "pause"
    } else if is_nr(nr, abi.fchown) {
        "fchown"
    } else if is_nr(nr, abi.fchmod) {
        "fchmod"
    } else if is_nr(nr, abi.lchown) {
        "lchown"
    } else if is_nr(nr, abi.chown) {
        "chown"
    } else if is_nr(nr, abi.fchmodat) {
        "fchmodat"
    } else if is_nr(nr, abi.fchownat) {
        "fchownat"
    } else if is_nr(nr, abi.capget) {
        "capget"
    } else if is_nr(nr, abi.ioprio_get) {
        "ioprio_get"
    } else if is_nr(nr, abi.ioprio_set) {
        "ioprio_set"
    } else if is_nr(nr, abi.setxattr) {
        "setxattr"
    } else if is_nr(nr, abi.lsetxattr) {
        "lsetxattr"
    } else if is_nr(nr, abi.fsetxattr) {
        "fsetxattr"
    } else if is_nr(nr, abi.stat64) {
        "stat64"
    } else if is_nr(nr, abi.lstat64) {
        "lstat64"
    } else if is_nr(nr, abi.fstat64) {
        "fstat64"
    } else if is_nr(nr, abi.execve) {
        "execve"
    } else if is_nr(nr, abi.unlink) {
        "unlink"
    } else if is_nr(nr, abi.unlinkat) {
        "unlinkat"
    } else if is_nr(nr, abi.socketcall_nr) {
        "socketcall"
    } else if is_nr(nr, abi.poll_nr) {
        "poll"
    } else {
        "unknown"
    }
}

/// The syscalls whose result is forced to 0 at syscall exit: the
/// permission and ownership changes, `capget`, the I/O-priority calls,
/// `mount`, `rt_sigprocmask`, `mknod` and the extended-attribute setters.
/// A field of -1 (a syscall the ABI lacks) never matches.
pub open spec fn is_fake_success(nr: i64, abi: ChildAbi) -> bool {
    names(nr, abi.chmod) || names(nr, abi.fchmod) || names(nr, abi.fchown) || names(nr, abi.lchown) || names(nr, abi.chown) || names(nr, abi.fchmodat) || names(nr, abi.fchownat) || names(nr, abi.capget) || names(nr, abi.ioprio_get) || names(nr, abi.ioprio_set) || names(nr, abi.mount) || names(nr, abi.rt_sigprocmask) || names(nr, abi.mknod) || names(nr, abi.setxattr) || names(nr, abi.lsetxattr) || names(nr, abi.fsetxattr)
}

pub fn compute_exit_return_value(syscall_nr: i64, abi: &ChildAbi) -> (r: Option<i64>)
    ensures
        r == (if is_fake_success(syscall_nr, *abi) {
            Some(0i64)
        } else {
            None
        }),
{
    if is_nr(syscall_nr, abi.chmod)
        || is_nr(syscall_nr, abi.fchmod)
        || is_nr(syscall_nr, abi.fchown)
        || is_nr(syscall_nr, abi.lchown)
        || is_nr(syscall_nr, abi.chown)
        || is_nr(syscall_nr, abi.fchmodat)
        || is_nr(syscall_nr, abi.fchownat)
        || is_nr(syscall_nr, abi.capget)
        || is_nr(syscall_nr, abi.ioprio_get)
        || is_nr(syscall_nr, abi.ioprio_set)
        || is_nr(syscall_nr, abi.mount)
        || is_nr(syscall_nr, abi.rt_sigprocmask)
        || is_nr(syscall_nr, abi.mknod)
        || is_nr(syscall_nr, abi.setxattr)
        || is_nr(syscall_nr, abi.lsetxattr)
        || is_nr(syscall_nr, abi.fsetxattr)
    {
        Some(0)
    } else {
        None
    }
}

/// Whether the seccomp-trap handler leaves out its register write-back.
/// It never does: the write-back always runs, with freshly read registers
/// when the trap arrives after the syscall-exit stop.
pub fn should_skip_sigsys_setregs(in_syscall_at_sigsys: bool, syscall_nr: i64, abi: &ChildAbi) -> (r: bool)
    ensures
        !r,
{
    false
}

/// The result written for a seccomp-trapped `pause()`: `-ENOSYS`.
pub fn sigsys_ret_for_pause() -> (r: i64)
    ensures
        r == -38,
{
    let e = errno_enosys();
    -(e as i64)
}

/// After this many consecutive trapped `pause()` calls the result becomes
/// `-ETIMEDOUT`.
pub const PAUSE_TIMEOUT_THRESHOLD: u32 = 50;

/// The result written for the `pause_count`-th consecutive trapped
/// `pause()`: `-ETIMEDOUT` once the count exceeds the threshold, `-ENOSYS`
/// before.
pub open spec fn spec_pause_ret_after(pause_count: u32) -> i64 {
    if pause_count > PAUSE_TIMEOUT_THRESHOLD {
        -110i64
    } else {
        -38i64
    }
}

pub fn pause_ret_after(pause_count: u32) -> (r: i64)
    ensures
        r == spec_pause_ret_after(pause_count),
{
    if pause_count > PAUSE_TIMEOUT_THRESHOLD {
        let e = errno_etimedout();
        -(e as i64)
    } else {
        sigsys_ret_for_pause()
    }
}

/// A trapped `pause()` never reports success or `-EINTR`: it reports
/// `-ENOSYS` or, after the threshold, `-ETIMEDOUT`.
pub proof fn lemma_pause_result_is_an_error(pause_count: u32)
    ensures
        spec_pause_ret_after(pause_count) == -38 || spec_pause_ret_after(pause_count) == -110,
        spec_pause_ret_after(pause_count) != 0,
        spec_pause_ret_after(pause_count) != -4,
{
}

/// Once the `pause()` result has become `-ETIMEDOUT` it stays so as the
/// streak grows.
pub proof fn lemma_pause_timeout_persists(c1: u32, c2: u32)
    requires
        c1 <= c2,
        spec_pause_ret_after(c1) == -110,
    ensures
        spec_pause_ret_after(c2) == -110,
{
}

/// -1, the mark of a syscall an ABI lacks, names no syscall: its name is
/// `"unknown"` and its result is never forced.
pub proof fn lemma_sentinel_names_nothing(abi: ChildAbi)
    ensures
        spec_syscall_name(-1i64, abi) == "unknown"@,
        !is_fake_success(-1i64, abi),
{
}

/// The ABIs a tracer can select: the `x86_64`, i386 and `aarch64` tables.
pub open spec fn is_supported_abi(a: ChildAbi) -> bool {
    a == abi_x86_64() || a == abi_x86_32() || a == abi_aarch64()
}

/// Every ABI the tracer selects is one of the supported tables.
pub proof fn lemma_selected_abi_supported(host: HostArch, is_64bit: Option<bool>)
    ensures
        is_supported_abi(spec_select_abi(host, is_64bit)),
{
}

/// A number held by any of the syscalls a log line can name never prints
/// as `"unknown"`, whatever the ABI; `"unknown"` is kept for numbers no
/// such syscall of the ABI holds.
pub proof fn lemma_named_syscalls_are_never_unknown(abi: ChildAbi)
    ensures
        abi.access != -1 ==> spec_syscall_name(abi.access, abi) != "unknown"@,
        abi.rt_sigprocmask != -1 ==> spec_syscall_name(abi.rt_sigprocmask, abi) != "unknown"@,
        abi.mount != -1 ==> spec_syscall_name(abi.mount, abi) != "unknown"@,
        abi.mknod != -1 ==> spec_syscall_name(abi.mknod, abi) != "unknown"@,
        abi.chroot != -1 ==> spec_syscall_name(abi.chroot, abi) != "unknown"@,
        abi.mkdir != -1 ==> spec_syscall_name(abi.mkdir, abi) != "unknown"@,
        abi.chmod != -1 ==> spec_syscall_name(abi.chmod, abi) != "unknown"@,
        abi.unshare != -1 ==> spec_syscall_name(abi.unshare, abi) != "unknown"@,
        abi.shmget != -1 ==> spec_syscall_name(abi.shmget, abi) != "unknown"@,
        abi.shmat != -1 ==> spec_syscall_name(abi.shmat, abi) != "unknown"@,
        abi.shmctl != -1 ==> spec_syscall_name(abi.shmctl, abi) != "unknown"@,
        abi.pause != -1 ==> spec_syscall_name(abi.pause, abi) != "unknown"@,
        abi.fchown != -1 ==> spec_syscall_name(abi.fchown, abi) != "unknown"@,
        abi.fchmod != -1 ==> spec_syscall_name(abi.fchmod, abi) != "unknown"@,
        abi.lchown != -1 ==> spec_syscall_name(abi.lchown, abi) != "unknown"@,
        abi.chown != -1 ==> spec_syscall_name(abi.chown, abi) != "unknown"@,
        abi.fchmodat != -1 ==> spec_syscall_name(abi.fchmodat, abi) != "unknown"@,
        abi.fchownat != -1 ==> spec_syscall_name(abi.fchownat, abi) != "unknown"@,
        abi.capget != -1 ==> spec_syscall_name(abi.capget, abi) != "unknown"@,
        abi.ioprio_get != -1 ==> spec_syscall_name(abi.ioprio_get, abi) != "unknown"@,
        abi.ioprio_set != -1 ==> spec_syscall_name(abi.ioprio_set, abi) != "unknown"@,
        abi.setxattr != -1 ==> spec_syscall_name(abi.setxattr, abi) != "unknown"@,
        abi.lsetxattr != -1 ==> spec_syscall_name(abi.lsetxattr, abi) != "unknown"@,
        abi.fsetxattr != -1 ==> spec_syscall_name(abi.fsetxattr, abi) != "unknown"@,
        abi.stat64 != -1 ==> spec_syscall_name(abi.stat64, abi) != "unknown"@,
        abi.lstat64 != -1 ==> spec_syscall_name(abi.lstat64, abi) != "unknown"@,
        abi.fstat64 != -1 ==> spec_syscall_name(abi.fstat64, abi) != "unknown"@,
        abi.execve != -1 ==> spec_syscall_name(abi.execve, abi) != "unknown"@,
        abi.unlink != -1 ==> spec_syscall_name(abi.unlink, abi) != "unknown"@,
        abi.unlinkat != -1 ==> spec_syscall_name(abi.unlinkat, abi) != "unknown"@,
        abi.socketcall_nr != -1 ==> spec_syscall_name(abi.socketcall_nr, abi) != "unknown"@,
        abi.poll_nr != -1 ==> spec_syscall_name(abi.poll_nr, abi) != "unknown"@,
{
    reveal_strlit("access");
    reveal_strlit("capget");
    reveal_strlit("chmod");
    reveal_strlit("chown");
    reveal_strlit("chroot");
    reveal_strlit("execve");
    reveal_strlit("fchmod");
    reveal_strlit("fchmodat");
    reveal_strlit("fchown");
    reveal_strlit("fchownat");
    reveal_strlit("fsetxattr");
    reveal_strlit("fstat64");
    reveal_strlit("ioprio_get");
    reveal_strlit("ioprio_set");
    reveal_strlit("lchown");
    reveal_strlit("lsetxattr");
    reveal_strlit("lstat64");
    reveal_strlit("mkdir");
    reveal_strlit("mknod");
    reveal_strlit("mount");
    reveal_strlit("pause");
    reveal_strlit("poll");
    reveal_strlit("rt_sigprocmask");
    reveal_strlit("setxattr");
    reveal_strlit("shmat");
    reveal_strlit("shmctl");
    reveal_strlit("shmget");
    reveal_strlit("socketcall");
    reveal_strlit("stat64");
    reveal_strlit("unlink");
    reveal_strlit("unlinkat");
    reveal_strlit("unshare");
    reveal_strlit("unknown");
    assert("access"@.len() != "unknown"@.len());
    assert("capget"@.len() != "unknown"@.len());
    assert("chmod"@.len() != "unknown"@.len());
    assert("chown"@.len() != "unknown"@.len());
    assert("chroot"@.len() != "unknown"@.len());
    assert("execve"@.len() != "unknown"@.len());
    assert("fchmod"@.len() != "unknown"@.len());
    assert("fchmodat"@.len() != "unknown"@.len());
    assert("fchown"@.len() != "unknown"@.len());
    assert("fchownat"@.len() != "unknown"@.len());
    assert("fsetxattr"@.len() != "unknown"@.len());
    assert("fstat64"@[0] != "unknown"@[0]);
    assert("ioprio_get"@.len() != "unknown"@.len());
    assert("ioprio_set"@.len() != "unknown"@.len());
    assert("lchown"@.len() != "unknown"@.len());
    assert("lsetxattr"@.len() != "unknown"@.len());
    assert("lstat64"@[0] != "unknown"@[0]);
    assert("mkdir"@.len() != "unknown"@.len());
    assert("mknod"@.len() != "unknown"@.len());
    assert("mount"@.len() != "unknown"@.len());
    assert("pause"@.len() != "unknown"@.len());
    assert("poll"@.len() != "unknown"@.len());
    assert("rt_sigprocmask"@.len() != "unknown"@.len());
    assert("setxattr"@.len() != "unknown"@.len());
    assert("shmat"@.len() != "unknown"@.len());
    assert("shmctl"@.len() != "unknown"@.len());
    assert("shmget"@.len() != "unknown"@.len());
    assert("socketcall"@.len() != "unknown"@.len());
    assert("stat64"@.len() != "unknown"@.len());
    assert("unlink"@.len() != "unknown"@.len());
    assert("unlinkat"@.len() != "unknown"@.len());
    assert("unshare"@[2] != "unknown"@[2]);
}

/// On every supported ABI each syscall a log line can name is printed
/// under its own name. The one number two of these syscalls share
/// (`chmod` and `fchmodat` on `aarch64`, both 53) prints as the first,
/// `chmod`.
pub proof fn lemma_supported_syscall_names(abi: ChildAbi)
    requires
        is_supported_abi(abi),
    ensures
        abi.access != -1 ==> spec_syscall_name(abi.access, abi) == "access"@,
        abi.rt_sigprocmask != -1 ==> spec_syscall_name(abi.rt_sigprocmask, abi) == "rt_sigprocmask"@,
        abi.mount != -1 ==> spec_syscall_name(abi.mount, abi) == "mount"@,
        abi.mknod != -1 ==> spec_syscall_name(abi.mknod, abi) == "mknod"@,
        abi.chroot != -1 ==> spec_syscall_name(abi.chroot, abi) == "chroot"@,
        abi.mkdir != -1 ==> spec_syscall_name(abi.mkdir, abi) == "mkdir"@,
        abi.chmod != -1 ==> spec_syscall_name(abi.chmod, abi) == "chmod"@,
        abi.unshare != -1 ==> spec_syscall_name(abi.unshare, abi) == "unshare"@,
        abi.shmget != -1 ==> spec_syscall_name(abi.shmget, abi) == "shmget"@,
        abi.shmat != -1 ==> spec_syscall_name(abi.shmat, abi) == "shmat"@,
        abi.shmctl != -1 ==> spec_syscall_name(abi.shmctl, abi) == "shmctl"@,
        abi.pause != -1 ==> spec_syscall_name(abi.pause, abi) == "pause"@,
        abi.fchown != -1 ==> spec_syscall_name(abi.fchown, abi) == "fchown"@,
        abi.fchmod != -1 ==> spec_syscall_name(abi.fchmod, abi) == "fchmod"@,
        abi.lchown != -1 ==> spec_syscall_name(abi.lchown, abi) == "lchown"@,
        abi.chown != -1 ==> spec_syscall_name(abi.chown, abi) == "chown"@,
        abi.fchmodat != -1 && abi.fchmodat != abi.chmod ==> spec_syscall_name(abi.fchmodat, abi) == "fchmodat"@,
        abi.fchownat != -1 ==> spec_syscall_name(abi.fchownat, abi) == "fchownat"@,
        abi.capget != -1 ==> spec_syscall_name(abi.capget, abi) == "capget"@,
        abi.ioprio_get != -1 ==> spec_syscall_name(abi.ioprio_get, abi) == "ioprio_get"@,
        abi.ioprio_set != -1 ==> spec_syscall_name(abi.ioprio_set, abi) == "ioprio_set"@,
        abi.setxattr != -1 ==> spec_syscall_name(abi.setxattr, abi) == "setxattr"@,
        abi.lsetxattr != -1 ==> spec_syscall_name(abi.lsetxattr, abi) == "lsetxattr"@,
        abi.fsetxattr != -1 ==> spec_syscall_name(abi.fsetxattr, abi) == "fsetxattr"@,
        abi.stat64 != -1 ==> spec_syscall_name(abi.stat64, abi) == "stat64"@,
        abi.lstat64 != -1 ==> spec_syscall_name(abi.lstat64, abi) == "lstat64"@,
        abi.fstat64 != -1 ==> spec_syscall_name(abi.fstat64, abi) == "fstat64"@,
        abi.execve != -1 ==> spec_syscall_name(abi.execve, abi) == "execve"@,
        abi.unlink != -1 ==> spec_syscall_name(abi.unlink, abi) == "unlink"@,
        abi.unlinkat != -1 ==> spec_syscall_name(abi.unlinkat, abi) == "unlinkat"@,
        abi.socketcall_nr != -1 ==> spec_syscall_name(abi.socketcall_nr, abi) == "socketcall"@,
        abi.poll_nr != -1 ==> spec_syscall_name(abi.poll_nr, abi) == "poll"@,
        abi == abi_aarch64() ==> spec_syscall_name(abi.fchmodat, abi) == "chmod"@,
{
}

/// Each of the permission, ownership, capability, I/O-priority, `mount`,
/// `rt_sigprocmask`, `mknod` and extended-attribute setter syscalls has
/// its result forced to 0 at syscall exit, on every ABI that has it.
pub proof fn lemma_forced_syscalls(abi: ChildAbi)
    ensures
        abi.chmod != -1 ==> is_fake_success(abi.chmod, abi),
        abi.fchmod != -1 ==> is_fake_success(abi.fchmod, abi),
        abi.fchown != -1 ==> is_fake_success(abi.fchown, abi),
        abi.lchown != -1 ==> is_fake_success(abi.lchown, abi),
        abi.chown != -1 ==> is_fake_success(abi.chown, abi),
        abi.fchmodat != -1 ==> is_fake_success(abi.fchmodat, abi),
        abi.fchownat != -1 ==> is_fake_success(abi.fchownat, abi),
        abi.capget != -1 ==> is_fake_success(abi.capget, abi),
        abi.ioprio_get != -1 ==> is_fake_success(abi.ioprio_get, abi),
        abi.ioprio_set != -1 ==> is_fake_success(abi.ioprio_set, abi),
        abi.mount != -1 ==> is_fake_success(abi.mount, abi),
        abi.rt_sigprocmask != -1 ==> is_fake_success(abi.rt_sigprocmask, abi),
        abi.mknod != -1 ==> is_fake_success(abi.mknod, abi),
        abi.setxattr != -1 ==> is_fake_success(abi.setxattr, abi),
        abi.lsetxattr != -1 ==> is_fake_success(abi.lsetxattr, abi),
        abi.fsetxattr != -1 ==> is_fake_success(abi.fsetxattr, abi),
{
}

/// On every supported ABI the syscalls outside that list keep the
/// kernel's result at syscall exit: file lookups and opens, `execve`,
/// process queries, reads and writes, `mkdir`, `chroot`, `unshare`,
/// `pause` and shared memory.
pub proof fn lemma_unforced_syscalls(abi: ChildAbi)
    requires
        is_supported_abi(abi),
    ensures
        !is_fake_success(abi.access, abi),
        !is_fake_success(abi.open, abi),
        !is_fake_success(abi.openat, abi),
        !is_fake_success(abi.stat, abi),
        !is_fake_success(abi.execve, abi),
        !is_fake_success(abi.getpid, abi),
        !is_fake_success(abi.getppid, abi),
        !is_fake_success(abi.read, abi),
        !is_fake_success(abi.write, abi),
        !is_fake_success(abi.mkdir, abi),
        !is_fake_success(abi.chroot, abi),
        !is_fake_success(abi.unshare, abi),
        !is_fake_success(abi.pause, abi),
        !is_fake_success(abi.shmget, abi),
        !is_fake_success(abi.shmat, abi),
        !is_fake_success(abi.shmctl, abi),
        !is_fake_success(abi.unlink, abi),
        !is_fake_success(abi.unlinkat, abi),
        !is_fake_success(abi.readlink, abi),
        !is_fake_success(abi.chdir, abi),
{
}

/// A number that none of the syscalls a log line can name holds on the
/// ABI prints as `"unknown"`.
pub proof fn lemma_unnamed_numbers_are_unknown(nr: i64, abi: ChildAbi)
    requires
        !names(nr, abi.access) && !names(nr, abi.rt_sigprocmask) && !names(nr, abi.mount) && !names(nr, abi.mknod) && !names(nr, abi.chroot) && !names(nr, abi.mkdir) && !names(nr, abi.chmod) && !names(nr, abi.unshare) && !names(nr, abi.shmget) && !names(nr, abi.shmat) && !names(nr, abi.shmctl) && !names(nr, abi.pause) && !names(nr, abi.fchown) && !names(nr, abi.fchmod) && !names(nr, abi.lchown) && !names(nr, abi.chown) && !names(nr, abi.fchmodat) && !names(nr, abi.fchownat) && !names(nr, abi.capget) && !names(nr, abi.ioprio_get) && !names(nr, abi.ioprio_set) && !names(nr, abi.setxattr) && !names(nr, abi.lsetxattr) && !names(nr, abi.fsetxattr) && !names(nr, abi.stat64) && !names(nr, abi.lstat64) && !names(nr, abi.fstat64) && !names(nr, abi.execve) && !names(nr, abi.unlink) && !names(nr, abi.unlinkat) && !names(nr, abi.socketcall_nr) && !names(nr, abi.poll_nr),
    ensures
        spec_syscall_name(nr, abi) == "unknown"@,
{
}

} // verus!
