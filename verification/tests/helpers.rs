use std::collections::VecDeque;

use kr64_ptrace::abi::{abi_aarch64, abi_x86_32, abi_x86_64, compute_exit_return_value, syscall_name};
use kr64_ptrace::diag::{append_decimal, format_syscall_buffer};
use kr64_ptrace::memory::{
    bytes_read_is_empty, bytes_read_step, capget_data_words, capget_plan, capget_second_word,
    in_place_write_plan, string_write_plan, PollNext, PollfdClear, ReadNext, StringRead, clear_revents, execve_image,
    in_place_write_fits, padded_c_string, pollfd_scan_count, string_read_result,
    string_read_step, string_words, word_addr, BytesStep, StringStep,
};
use kr64_ptrace::paths::{
    is_kmsg_path, is_properties_path, mount_makes_dir, rootfs_host_path, translate_path,
};
use kr64_ptrace::regs::{execve_trampoline_regs, Regs, EXECVE_TRAMPOLINE_ADDR};
use kr64_ptrace::status::{decode_wait_status, WaitStatus};

#[test]
fn history_line_names_known_syscalls() {
    let list: VecDeque<i64> = vec![14, 20, 9999].into_iter().collect();
    assert_eq!(
        format_syscall_buffer(&list, Some(abi_x86_64())),
        "nr=14 [rt_sigprocmask], nr=20, nr=9999"
    );
    let list: VecDeque<i64> = vec![15, -1].into_iter().collect();
    assert_eq!(format_syscall_buffer(&list, Some(abi_x86_32())), "nr=15 [chmod], nr=-1");
    assert_eq!(format_syscall_buffer(&list, None), "nr=15, nr=-1");
    assert_eq!(format_syscall_buffer(&VecDeque::new(), None), "");
}

#[test]
fn decimal_text_covers_the_extremes() {
    let mut s = String::new();
    append_decimal(&mut s, i64::MIN);
    assert_eq!(s, "-9223372036854775808");
    let mut s = String::from("x");
    append_decimal(&mut s, 0);
    append_decimal(&mut s, 1234567890);
    assert_eq!(s, "x01234567890");
}

#[test]
fn wait_status_decoding() {
    assert_eq!(decode_wait_status(0x0100), WaitStatus::Exited(1));
    assert_eq!(decode_wait_status(0x0009), WaitStatus::Signaled(9));
    assert_eq!(decode_wait_status(0x857f), WaitStatus::Stopped { sig: 133, event: 0 });
    assert_eq!(decode_wait_status(0x1_057f), WaitStatus::Stopped { sig: 5, event: 1 });
    assert_eq!(decode_wait_status(0xffff), WaitStatus::Other);
}

#[test]
fn string_words_are_nul_terminated_and_padded() {
    let w = string_words("abcdefgh");
    assert_eq!(w, vec![i64::from_le_bytes(*b"abcdefgh"), 0]);
    let w = string_words("ab");
    assert_eq!(w, vec![i64::from_le_bytes([b'a', b'b', 0, 0, 0, 0, 0, 0])]);
    assert_eq!(padded_c_string("").len(), 8);
}

#[test]
fn string_read_stops_at_nul_and_on_failure() {
    let mut acc = Vec::new();
    assert!(matches!(
        string_read_step(&mut acc, i64::from_le_bytes(*b"/dev/__k")),
        StringStep::More
    ));
    match string_read_step(&mut acc, i64::from_le_bytes(*b"msg__\0zz")) {
        StringStep::Done(Some(s)) => assert_eq!(s, "/dev/__kmsg__"),
        _ => panic!("expected the string"),
    }
    let mut acc = Vec::new();
    assert!(matches!(string_read_step(&mut acc, -1), StringStep::Done(None)));
    let acc = vec![b'o', b'k'];
    assert_eq!(string_read_result(&acc), Some("ok".to_string()));
}

#[test]
fn lossy_decoding_replaces_invalid_bytes() {
    let acc = vec![b'a', 0xff, b'b'];
    assert_eq!(string_read_result(&acc), Some("a\u{fffd}b".to_string()));
}

#[test]
fn byte_reads_take_what_is_asked() {
    assert!(bytes_read_is_empty(0, 5));
    assert!(bytes_read_is_empty(0x1000, 0));
    assert!(!bytes_read_is_empty(0x1000, 5));
    let mut acc = Vec::new();
    assert!(matches!(bytes_read_step(&mut acc, 10, i64::from_le_bytes(*b"12345678")), BytesStep::More));
    assert!(matches!(bytes_read_step(&mut acc, 10, i64::from_le_bytes(*b"9abcdefg")), BytesStep::Complete));
    assert_eq!(acc, b"123456789a".to_vec());
    let mut acc = Vec::new();
    assert!(matches!(bytes_read_step(&mut acc, 4, -1), BytesStep::Failed));
    let mut acc = vec![1u8];
    assert!(matches!(bytes_read_step(&mut acc, 4, -1), BytesStep::Complete));
}

#[test]
fn pollfd_and_capability_words() {
    assert_eq!(pollfd_scan_count(0, 4), 0);
    assert_eq!(pollfd_scan_count(0x1000, 0), 0);
    assert_eq!(pollfd_scan_count(0x1000, 3), 3);
    assert_eq!(pollfd_scan_count(0x1000, 100), 32);
    assert_eq!(clear_revents(0x0008_0001_0000_0003), 0x0000_0001_0000_0003);
    assert_eq!(capget_data_words(None), (-1, -1));
    assert_eq!(capget_data_words(Some(0x1234_5678_0000_0000)), (-1, 0x1234_5678_ffff_ffff));
    assert_eq!(word_addr(u64::MAX - 7, 1), 0);
    assert!(in_place_write_fits(3, 4));
    assert!(!in_place_write_fits(4, 4));
}

#[test]
fn execve_rewrite_layout() {
    let img = execve_image("/sbin/recovery");
    assert_eq!(img.len(), 16 + 3);
    assert_eq!(&img[..14], b"/sbin/recovery");
    assert_eq!(&img[14..16], &[0, 0]);
    assert_eq!(&img[16..], &[0x0f, 0x05, 0xcc]);
    let mut regs = Regs::zeroed();
    regs.words[5] = 77;
    let r = execve_trampoline_regs(&regs, 0x1000, 0x2000, 0x3000);
    assert_eq!(r.words[14], 0x1000);
    assert_eq!(r.words[13], 0x2000);
    assert_eq!(r.words[12], 0x3000);
    assert_eq!(r.words[10], 59);
    assert_eq!(r.words[16], EXECVE_TRAMPOLINE_ADDR);
    assert_eq!(r.words[15], u64::MAX);
    assert_eq!(r.words[17], 0x33);
    assert_eq!(r.words[20], 0x2b);
    assert_eq!(r.words[5], 77);
}

#[test]
fn host_paths_for_redone_fs_syscalls() {
    assert_eq!(rootfs_host_path("/r", "/dev/null"), "/r/dev/null");
    assert_eq!(rootfs_host_path("/r", "dev/null"), "dev/null");
    assert!(mount_makes_dir("tmpfs"));
    assert!(mount_makes_dir("devpts"));
    assert!(!mount_makes_dir("proc"));
    assert!(!mount_makes_dir(""));
}

#[test]
fn translation_is_idempotent_under_data() {
    let rootfs = "/data/user/0/io.twoyi/rootfs";
    for p in ["/init.rc", "/dev/null", "/proc/cmdline", "/system/bin/sh", "rel", "/sys"] {
        let once = translate_path(rootfs, p);
        assert_eq!(translate_path(rootfs, &once), once);
    }
    assert_eq!(translate_path(rootfs, "/proc/cmdline"), format!("{}/twrp-cmdline", rootfs));
    assert_eq!(translate_path(rootfs, "/vendor"), "/vendor");
    assert_eq!(translate_path(rootfs, "/devices"), format!("{}/devices", rootfs));
}

#[test]
fn written_string_reads_back() {
    for s in ["/dev/null", "", "/data/user/0/io.twoyi/rootfs/dev/__kmsg__", "ünïcode/路径"] {
        let words = string_words(s);
        let mut acc = Vec::new();
        let mut result = None;
        for w in words {
            match string_read_step(&mut acc, w) {
                StringStep::Done(r) => {
                    result = Some(r);
                    break;
                }
                StringStep::More => {}
            }
        }
        match result {
            Some(Some(got)) => assert_eq!(got, s),
            _ => panic!("the read did not end with a string"),
        }
    }
}

#[test]
fn watched_paths_are_recognised_after_translation() {
    let rootfs = "/data/user/0/io.twoyi/rootfs";
    assert!(is_kmsg_path(&translate_path(rootfs, "/dev/__kmsg__")));
    assert!(is_properties_path(&translate_path(rootfs, "/dev/__properties__")));
    // `/dev/kmsg` is recognised by name only, so its translation is not
    assert!(is_kmsg_path("/dev/kmsg"));
    assert!(!is_kmsg_path(&translate_path(rootfs, "/dev/kmsg")));
    for p in ["/init.rc", "/dev/null", "/proc/cmdline", "/sys/class"] {
        let t = translate_path(rootfs, p);
        assert!(t.len() > p.len());
    }
}

#[test]
fn absent_syscalls_name_nothing() {
    for abi in [abi_x86_32(), abi_x86_64(), abi_aarch64()] {
        assert_eq!(syscall_name(-1, &abi), "unknown");
        assert_eq!(compute_exit_return_value(-1, &abi), None);
    }
    assert_eq!(syscall_name(abi_aarch64().pause, &abi_aarch64()), "unknown");
}

fn run_read(addr: u64, memory: &[(u64, i64)]) -> (Option<String>, usize) {
    let mut read = StringRead::begin(addr);
    let mut peeks = 0;
    loop {
        match read.next() {
            ReadNext::Done(r) => return (r, peeks),
            ReadNext::Peek(at) => {
                peeks += 1;
                let w = memory.iter().find(|(a, _)| *a == at).map_or(-1, |(_, w)| *w);
                read.feed(w);
            }
        }
    }
}

#[test]
fn string_read_driver() {
    assert_eq!(run_read(0, &[]), (None, 0));
    let mem = [
        (0x1000, i64::from_le_bytes(*b"/dev/nul")),
        (0x1008, i64::from_le_bytes(*b"l\0\0\0\0\0\0\0")),
    ];
    assert_eq!(run_read(0x1000, &mem), (Some("/dev/null".to_string()), 2));
    // the first word unreadable
    assert_eq!(run_read(0x2000, &mem), (None, 1));
    // unreadable after some bytes: what was gathered
    assert_eq!(run_read(0x1000, &mem[..1]), (Some("/dev/nul".to_string()), 2));
}

#[test]
fn write_plans() {
    assert!(string_write_plan(0, "abc").is_none());
    let plan = string_write_plan(0x1000, "abcdefgh").unwrap();
    assert_eq!(plan, vec![(0x1000, i64::from_le_bytes(*b"abcdefgh")), (0x1008, 0)]);
    assert!(in_place_write_plan(0, "ab", "abc").is_none());
    assert!(in_place_write_plan(0x1000, "abc", "abc").is_none());
    assert_eq!(
        in_place_write_plan(0x1000, "ab", "abc").unwrap(),
        vec![(0x1000, i64::from_le_bytes([b'a', b'b', 0, 0, 0, 0, 0, 0]))]
    );
}

#[test]
fn capget_plans() {
    assert_eq!(capget_plan(0), None);
    assert_eq!(capget_plan(0x1000), Some((0x1000, -1, 0x1008)));
    assert_eq!(capget_second_word(-1, 14), -1);
    assert_eq!(capget_second_word(-1, 0), -1);
    assert_eq!(capget_second_word(0x1234_5678_0000_0000, 0), 0x1234_5678_ffff_ffff);
}

fn run_clear(ptr: u64, nfds: u64, memory: &mut Vec<(u64, i64)>, fail_poke_at: Option<u64>) -> u64 {
    let mut clear = PollfdClear::begin(ptr, nfds);
    loop {
        match clear.next() {
            PollNext::Done(n) => return n,
            PollNext::Peek(at) => {
                let w = memory.iter().find(|(a, _)| *a == at).map_or(-1, |(_, w)| *w);
                if let Some((addr, word)) = clear.on_peek(w) {
                    let ok = fail_poke_at != Some(addr);
                    if ok {
                        for e in memory.iter_mut() {
                            if e.0 == addr {
                                e.1 = word;
                            }
                        }
                    }
                    clear.on_poke(ok);
                }
            }
        }
    }
}

#[test]
fn pollfd_clearing_counts_changed_entries() {
    let mut mem = vec![(0x100, 0x0008_0001_0000_0003), (0x108, 0x0000_0001_0000_0004), (0x110, 0x0001_0001_0000_0005)];
    assert_eq!(run_clear(0x100, 3, &mut mem, None), 2);
    assert_eq!(mem[0].1, 0x0000_0001_0000_0003);
    assert_eq!(mem[2].1, 0x0000_0001_0000_0005);
    assert_eq!(run_clear(0, 3, &mut mem, None), 0);
    // a failed peek stops the clearing
    let mut mem = vec![(0x100, 0x0008_0001_0000_0003)];
    assert_eq!(run_clear(0x100, 3, &mut mem, None), 1);
    // a failed poke stops it too
    let mut mem = vec![(0x100, 0x0008_0001_0000_0003), (0x108, 0x0008_0001_0000_0004)];
    assert_eq!(run_clear(0x100, 2, &mut mem, Some(0x100)), 0);
}
