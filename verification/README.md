# kr64_ptrace

A ptrace-based syscall emulator that runs a guest Android `init` (and the
recovery it forks) inside an unprivileged app, verified with Verus.

The library (`src/`) holds the tracer's logic: what each ptrace stop is
answered with, how syscall numbers are named and results forced, how guest
paths are rewritten, and how strings, buffers and `pollfd` arrays are laid
out in the child's memory. Each public function there has a contract:

- `abi` — syscall numbers and register layout of the `x86_64`, i386 and
  `aarch64` child ABIs; syscall names; which results are forced.
- `elf` — telling a 32-bit from a 64-bit child by its ELF header.
- `status` — decoding `waitpid` status words.
- `regs` — the register file and its accessors; the `mmap` flag rewrite;
  the registers of the 64-bit `execve` rewrite.
- `paths` — mapping guest paths into the rootfs; recognising the kernel
  log and property-area paths.
- `memory` — the word layout of strings and buffers read from and written
  to the child's memory, the refusal of null addresses, and the step-wise
  drivers that read a string or clear `pollfd` results one word at a time.
- `tracer` — the state machine driven by the ptrace stops: what is
  remembered between stops and what each stop asks for.
- `diag` — the text of log lines.
- `sys` — values and decoders taken from the `libc` crate.

`app/` is the loop around it: it resumes the children, waits for their
stops, reads and writes registers and memory with `ptrace`, and hands each
outcome to `tracer::Tracer` or to the memory drivers of `memory`
(`StringRead`, `PollfdClear`). Register transfers with their
`GETREGSET`/`SETREGSET` fallbacks, file access under the rootfs and
logging stay there unverified.
