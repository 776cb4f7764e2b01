//! Telling a 32-bit (i386) from a 64-bit (x86_64) child by the first 20
//! bytes of its ELF header.
use vstd::prelude::*;

verus! {

/// `e_machine` of an ELF header: the little-endian 16-bit value at bytes
/// 18 and 19.
pub open spec fn e_machine(hdr: Seq<u8>) -> int {
    hdr[18] + 256 * hdr[19]
}

/// The header starts with the ELF magic `\x7fELF`.
pub open spec fn has_elf_magic(hdr: Seq<u8>) -> bool {
    hdr[0] == 0x7f && hdr[1] == 0x45 && hdr[2] == 0x4c && hdr[3] == 0x46
}

/// Bitness of the program whose header starts with `hdr`: `None` without
/// the ELF magic; otherwise `EI_CLASS` (byte 4) decides when it is 1
/// (32-bit) or 2 (64-bit), and `e_machine` (3 = EM_386, 62 = EM_X86_64)
/// decides when it is neither.
pub open spec fn spec_classify_elf_bitness(hdr: Seq<u8>) -> Option<bool> {
    if !has_elf_magic(hdr) {
        None
    } else if hdr[4] == 1 {
        Some(false)
    } else if hdr[4] == 2 {
        Some(true)
    } else if e_machine(hdr) == 3 {
        Some(false)
    } else if e_machine(hdr) == 62 {
        Some(true)
    } else {
        None
    }
}

pub fn classify_elf_bitness(hdr: &[u8; 20]) -> (r: Option<bool>)
    ensures
        r == spec_classify_elf_bitness(hdr@),
{
    if !(hdr[0] == 0x7f && hdr[1] == 0x45 && hdr[2] == 0x4c && hdr[3] == 0x46) {
        return None;
    }
    let ei_class = hdr[4];
    let em_386: u16 = 3;
    let em_x86_64: u16 = 62;
    let e_machine_value: u16 = hdr[18] as u16 + (hdr[19] as u16) * 256;
    if ei_class == 1 {
        Some(false)
    } else if ei_class == 2 {
        Some(true)
    } else if e_machine_value == em_386 {
        Some(false)
    } else if e_machine_value == em_x86_64 {
        Some(true)
    } else {
        None
    }
}

} // verus!
