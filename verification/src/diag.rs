//! Text for the tracer's log lines.
use vstd::prelude::*;
use std::collections::VecDeque;
use crate::abi::{ChildAbi, spec_syscall_name, syscall_name};
use crate::paths::str_eq;

verus! {

/// The decimal digit `d` (0..10).
pub open spec fn digit_char(d: int) -> char {
    if d == 0 {
        '0'
    } else if d == 1 {
        '1'
    } else if d == 2 {
        '2'
    } else if d == 3 {
        '3'
    } else if d == 4 {
        '4'
    } else if d == 5 {
        '5'
    } else if d == 6 {
        '6'
    } else if d == 7 {
        '7'
    } else if d == 8 {
        '8'
    } else {
        '9'
    }
}

/// The decimal digits of `n`, most significant first, without leading
/// zeros (a single `0` for zero).
pub open spec fn nat_digits(n: nat) -> Seq<char>
    decreases n,
{
    if n < 10 {
        seq![digit_char(n as int)]
    } else {
        nat_digits(n / 10) + seq![digit_char((n % 10) as int)]
    }
}

/// `n` in decimal, with a leading `-` when negative.
pub open spec fn decimal(n: int) -> Seq<char> {
    if n < 0 {
        seq!['-'] + nat_digits((-n) as nat)
    } else {
        nat_digits(n as nat)
    }
}

fn digit_str(d: u64) -> (r: &'static str)
    requires
        d < 10,
    ensures
        r@ == seq![digit_char(d as int)],
{
    proof {
        reveal_strlit("0");
        reveal_strlit("1");
        reveal_strlit("2");
        reveal_strlit("3");
        reveal_strlit("4");
        reveal_strlit("5");
        reveal_strlit("6");
        reveal_strlit("7");
        reveal_strlit("8");
        reveal_strlit("9");
    }
    if d == 0 {
        "0"
    } else if d == 1 {
        "1"
    } else if d == 2 {
        "2"
    } else if d == 3 {
        "3"
    } else if d == 4 {
        "4"
    } else if d == 5 {
        "5"
    } else if d == 6 {
        "6"
    } else if d == 7 {
        "7"
    } else if d == 8 {
        "8"
    } else {
        "9"
    }
}

fn append_digits(out: &mut String, n: u64)
    ensures
        final(out)@ == old(out)@ + nat_digits(n as nat),
    decreases n,
{
    if n >= 10 {
        append_digits(out, n / 10);
    }
    out.append(digit_str(n % 10));
    proof {
        if n >= 10 {
            assert(final(out)@ =~= old(out)@ + nat_digits(n as nat));
        } else {
            assert(final(out)@ =~= old(out)@ + nat_digits(n as nat));
        }
    }
}

/// Appends `n` in decimal to `out`.
pub fn append_decimal(out: &mut String, n: i64)
    ensures
        final(out)@ == old(out)@ + decimal(n as int),
{
    if n < 0 {
        proof {
            reveal_strlit("-");
        }
        out.append("-");
        let magnitude: u64 = if n == i64::MIN {
            0x8000_0000_0000_0000u64
        } else {
            (-n) as u64
        };
        append_digits(out, magnitude);
        assert(final(out)@ =~= old(out)@ + decimal(n as int));
    } else {
        append_digits(out, n as u64);
    }
}

/// The entry for syscall `nr` in the history line: `nr=N`, followed by
/// ` [name]` when the ABI is known and names it.
pub open spec fn spec_history_entry(nr: i64, abi: Option<ChildAbi>) -> Seq<char> {
    match abi {
        Some(a) => if spec_syscall_name(nr, a) == "unknown"@ {
            "nr="@ + decimal(nr as int)
        } else {
            "nr="@ + decimal(nr as int) + " ["@ + spec_syscall_name(nr, a) + "]"@
        },
        None => "nr="@ + decimal(nr as int),
    }
}

/// The history line: the entries of `list`, oldest first, separated by
/// `", "`.
pub open spec fn spec_format_syscall_buffer(list: Seq<i64>, abi: Option<ChildAbi>) -> Seq<char>
    decreases list.len(),
{
    if list.len() == 0 {
        Seq::empty()
    } else if list.len() == 1 {
        spec_history_entry(list[0], abi)
    } else {
        spec_format_syscall_buffer(list.drop_last(), abi) + ", "@ + spec_history_entry(
            list.last(),
            abi,
        )
    }
}

fn append_history_entry(out: &mut String, nr: i64, abi: Option<ChildAbi>)
    ensures
        final(out)@ == old(out)@ + spec_history_entry(nr, abi),
{
    out.append("nr=");
    append_decimal(out, nr);
    let ghost head = out@;
    match abi {
        Some(a) => {
            let name = syscall_name(nr, &a);
            if !str_eq(name, "unknown") {
                out.append(" [");
                out.append(name);
                out.append("]");
                assert(out@ =~= head + " ["@ + spec_syscall_name(nr, a) + "]"@);
            }
        },
        None => {},
    }
    assert(final(out)@ =~= old(out)@ + spec_history_entry(nr, abi));
}

/// Formats the rolling syscall history for a log line: `nr=N [name]`
/// entries (the name left out when unknown or when no ABI is known),
/// oldest first, separated by `", "`.
pub fn format_syscall_buffer(list: &VecDeque<i64>, abi: Option<ChildAbi>) -> (r: String)
    ensures
        r@ == spec_format_syscall_buffer(list@, abi),
{
    let mut out = String::new();
    let n = list.len();
    let mut i: usize = 0;
    while i < n
        invariant
            n == list@.len(),
            i <= n,
            out@ == spec_format_syscall_buffer(list@.subrange(0, i as int), abi),
        decreases n - i,
    {
        let nr = list[i];
        if i > 0 {
            out.append(", ");
        }
        append_history_entry(&mut out, nr, abi);
        proof {
            let prefix = list@.subrange(0, i + 1);
            assert(prefix.drop_last() =~= list@.subrange(0, i as int));
            assert(prefix.last() == nr);
            if i == 0 {
                assert(prefix.len() == 1);
                assert(out@ =~= spec_format_syscall_buffer(prefix, abi));
            } else {
                assert(out@ =~= spec_format_syscall_buffer(prefix, abi));
            }
        }
        i = i + 1;
    }
    assert(list@.subrange(0, n as int) =~= list@);
    out
}

} // verus!
