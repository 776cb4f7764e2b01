//! Decoding of the `waitpid` status word.
use vstd::prelude::*;
use crate::sys::{w_exit_status, w_if_exited, w_if_signaled, w_if_stopped, w_stop_sig, w_term_sig};

verus! {

/// What a `waitpid` status word reports.
#[derive(Clone, Copy, Debug, PartialEq, Eq, Structural)]
pub enum WaitStatus {
    /// The child exited with this code.
    Exited(u8),
    /// The child was killed by this signal.
    Signaled(u8),
    /// The child stopped with this signal; `event` is the ptrace event
    /// number carried in the upper 16 bits (0 for none).
    Stopped { sig: u8, event: u16 },
    /// Anything else (for instance a continued child).
    Other,
}

/// The ptrace event number of a status word: bits 16 to 31.
pub open spec fn status_event(status: i32) -> u16 {
    (((status as u32) >> 16u32) & 0xffffu32) as u16
}

/// `waitpid` status decoding, in the order exited, signaled, stopped.
pub open spec fn spec_decode_wait_status(status: i32) -> WaitStatus {
    if status & 0x7f == 0 {
        WaitStatus::Exited(((status >> 8) & 0xff) as u8)
    } else if 1 <= status & 0x7f && status & 0x7f <= 126 {
        WaitStatus::Signaled((status & 0x7f) as u8)
    } else if status & 0xff == 0x7f {
        WaitStatus::Stopped { sig: ((status >> 8) & 0xff) as u8, event: status_event(status) }
    } else {
        WaitStatus::Other
    }
}

pub fn decode_wait_status(status: i32) -> (r: WaitStatus)
    ensures
        r == spec_decode_wait_status(status),
{
    assert(0 <= (status >> 8) & 0xff <= 255 && 0 <= status & 0x7f <= 127) by (bit_vector);
    assert(0 <= ((status as u32) >> 16u32) & 0xffffu32 <= 0xffff) by (bit_vector);
    if w_if_exited(status) {
        WaitStatus::Exited(w_exit_status(status) as u8)
    } else if w_if_signaled(status) {
        WaitStatus::Signaled(w_term_sig(status) as u8)
    } else if w_if_stopped(status) {
        let event = (((status as u32) >> 16u32) & 0xffffu32) as u16;
        WaitStatus::Stopped { sig: w_stop_sig(status) as u8, event }
    } else {
        WaitStatus::Other
    }
}

} // verus!
