//! The child's register file, read as 64-bit words, and the accessors that
//! go through a `ChildAbi`'s register indices.
use vstd::prelude::*;
use crate::abi::{ChildAbi, NREGS};
use crate::sys::{map_anonymous, map_private, map_shared};

verus! {

/// The register file of a stopped child as 64-bit words: the
/// `user_regs_struct` of an `x86_64` host (27 words, the rest zero) or the
/// `user_pt_regs` of an `aarch64` host (34 words).
#[derive(Clone, Copy, Debug)]
pub struct Regs {
    pub words: [u64; NREGS],
}

impl Regs {
    /// A register file of zeros.
    pub fn zeroed() -> (r: Regs)
        ensures
            forall|i: int| 0 <= i < NREGS ==> r.words@[i] == 0,
    {
        Regs { words: [0u64; NREGS] }
    }
}

/// The syscall number the child requested (`orig_rax` / `x8`), read as a
/// signed value.
pub fn get_syscall_num(regs: &Regs, abi: &ChildAbi) -> (r: i64)
    requires
        abi.reg_syscall < NREGS,
    ensures
        r == regs.words@[abi.reg_syscall as int] as i64,
{
    regs.words[abi.reg_syscall] as i64
}

/// The register word at index `arg`.
pub fn get_syscall_arg(regs: &Regs, arg: usize) -> (r: u64)
    requires
        arg < NREGS,
    ensures
        r == regs.words@[arg as int],
{
    regs.words[arg]
}

/// Writes the syscall's return value (`rax` / `x0`); no other word changes.
pub fn set_syscall_ret(regs: &mut Regs, abi: &ChildAbi, val: i64)
    requires
        abi.reg_ret < NREGS,
    ensures
        final(regs).words@ == old(regs).words@.update(abi.reg_ret as int, val as u64),
{
    regs.words[abi.reg_ret] = val as u64;
}

/// Writes the syscall number (`orig_rax` / `x8`); no other word changes.
pub fn set_syscall_num(regs: &mut Regs, abi: &ChildAbi, val: i64)
    requires
        abi.reg_syscall < NREGS,
    ensures
        final(regs).words@ == old(regs).words@.update(abi.reg_syscall as int, val as u64),
{
    regs.words[abi.reg_syscall] = val as u64;
}

/// Writes the register word at index `arg`; no other word changes.
pub fn set_syscall_arg(regs: &mut Regs, arg: usize, val: u64)
    requires
        arg < NREGS,
    ensures
        final(regs).words@ == old(regs).words@.update(arg as int, val),
{
    regs.words[arg] = val;
}

/// `mmap` flags with `MAP_SHARED` cleared and `MAP_ANONYMOUS` and
/// `MAP_PRIVATE` set.
pub open spec fn spec_anonymous_flags(flags: i32) -> i32 {
    (flags & !0x01i32) | 0x20i32 | 0x02i32
}

/// Rewrites file-backed shared `mmap` flags into anonymous private ones:
/// `MAP_SHARED` is cleared, `MAP_ANONYMOUS` and `MAP_PRIVATE` are set, and
/// every other bit is kept.
pub fn rewrite_mmap_flags_shared_to_anonymous(flags: i32) -> (r: i32)
    ensures
        r == spec_anonymous_flags(flags),
        r & 0x01 == 0,
        r & 0x20 == 0x20,
        r & 0x02 == 0x02,
        r & !0x23i32 == flags & !0x23i32,
{
    let shared = map_shared();
    let anonymous = map_anonymous();
    let private = map_private();
    let r = (flags & !shared) | anonymous | private;
    assert(r & 0x01 == 0 && r & 0x20 == 0x20 && r & 0x02 == 0x02 && r & !0x23i32 == flags & !0x23i32)
        by (bit_vector)
        requires
            r == (flags & !0x01i32) | 0x20i32 | 0x02i32,
    ;
    r
}

/// Rewriting flags that are already anonymous and private changes nothing
/// more: the rewrite is idempotent.
pub proof fn lemma_anonymous_flags_idempotent(flags: i32)
    ensures
        spec_anonymous_flags(spec_anonymous_flags(flags)) == spec_anonymous_flags(flags),
{
    assert(((((flags & !0x01i32) | 0x20i32 | 0x02i32) & !0x01i32) | 0x20i32 | 0x02i32)
        == ((flags & !0x01i32) | 0x20i32 | 0x02i32)) by (bit_vector);
}

/// Where the `syscall` instruction used for the 64-bit `execve` is placed
/// in the child's code.
pub const EXECVE_TRAMPOLINE_ADDR: u64 = 0x0804_8c59;

/// The word written at `EXECVE_TRAMPOLINE_ADDR`: `syscall` (`0f 05`), a
/// breakpoint (`cc`) and a zero byte, lowest byte first.
pub const EXECVE_TRAMPOLINE_WORD: i64 = 0x00cc_050f;

/// `x86_64` register file indices used by the 64-bit `execve` rewrite.
pub const X64_RDI: usize = 14;
pub const X64_RSI: usize = 13;
pub const X64_RDX: usize = 12;
pub const X64_RAX: usize = 10;
pub const X64_RIP: usize = 16;
pub const X64_ORIG_RAX: usize = 15;
pub const X64_CS: usize = 17;
pub const X64_SS: usize = 20;

/// The registers with which a stopped 32-bit child runs a 64-bit `execve`:
/// path, `argv` and `envp` in `rdi`/`rsi`/`rdx`, syscall 59 in `rax`, `rip`
/// at the trampoline, the pending 32-bit syscall skipped (`orig_rax` = -1),
/// and the 64-bit code and data segments (0x33, 0x2b).
pub open spec fn spec_execve_trampoline_regs(words: Seq<u64>, path: u64, argv: u64, envp: u64) -> Seq<u64> {
    words.update(X64_RDI as int, path).update(X64_RSI as int, argv).update(X64_RDX as int, envp).update(
        X64_RAX as int,
        59,
    ).update(X64_RIP as int, EXECVE_TRAMPOLINE_ADDR).update(X64_ORIG_RAX as int, 0xffff_ffff_ffff_ffffu64).update(
        X64_CS as int,
        0x33,
    ).update(X64_SS as int, 0x2b)
}

pub fn execve_trampoline_regs(regs: &Regs, path: u64, argv: u64, envp: u64) -> (r: Regs)
    ensures
        r.words@ == spec_execve_trampoline_regs(regs.words@, path, argv, envp),
{
    let mut r = *regs;
    set_syscall_arg(&mut r, X64_RDI, path);
    set_syscall_arg(&mut r, X64_RSI, argv);
    set_syscall_arg(&mut r, X64_RDX, envp);
    set_syscall_arg(&mut r, X64_RAX, 59);
    set_syscall_arg(&mut r, X64_RIP, EXECVE_TRAMPOLINE_ADDR);
    set_syscall_arg(&mut r, X64_ORIG_RAX, 0xffff_ffff_ffff_ffffu64);
    set_syscall_arg(&mut r, X64_CS, 0x33);
    set_syscall_arg(&mut r, X64_SS, 0x2b);
    r
}

} // verus!
