//! Word-level layout of the data the tracer reads from and writes to the
//! child's memory with `PTRACE_PEEKDATA` / `PTRACE_POKEDATA`.
//!
//! A word is 8 bytes in the host's byte order; both hosts the tracer runs
//! on (`x86_64`, `aarch64`) are little-endian, so byte `k` of a word is bits
//! `8k..8k+8`. Addresses are computed modulo 2^64.
use vstd::prelude::*;
use vstd::string::*;
use vstd::utf8::{
    decode_utf8, encode_scalar, encode_utf8, last_continuation_byte, leading_byte_width_1,
    leading_byte_width_2, leading_byte_width_3, leading_byte_width_4,
    second_last_continuation_byte, third_last_continuation_byte, valid_utf8,
};

verus! {

/// Byte `k` (0..8) of a word.
pub open spec fn word_byte(w: i64, k: int) -> u8 {
    (((w as u64) >> ((8 * k) as u64)) & 0xffu64) as u8
}

/// The 8 bytes of a word, lowest first.
pub open spec fn word_bytes(w: i64) -> Seq<u8> {
    Seq::new(8, |k: int| word_byte(w, k))
}

/// The word whose 8 bytes, lowest first, are `b[0..8]`.
pub open spec fn bytes_word(b: Seq<u8>) -> i64 {
    ((b[0] as u64) | ((b[1] as u64) << 8u64) | ((b[2] as u64) << 16u64) | ((b[3] as u64)
        << 24u64) | ((b[4] as u64) << 32u64) | ((b[5] as u64) << 40u64) | ((b[6] as u64)
        << 48u64) | ((b[7] as u64) << 56u64)) as i64
}

/// The address of word `index` of a buffer starting at `addr`.
pub open spec fn spec_word_addr(addr: u64, index: u64) -> u64 {
    ((addr as int + 8 * index as int) % 0x1_0000_0000_0000_0000) as u64
}

pub fn word_addr(addr: u64, index: u64) -> (r: u64)
    requires
        index < 0x2000_0000_0000_0000,
    ensures
        r == spec_word_addr(addr, index),
{
    addr.wrapping_add(index * 8)
}

fn byte_of(w: i64, k: u64) -> (r: u8)
    requires
        k < 8,
    ensures
        r == word_byte(w, k as int),
{
    (((w as u64) >> (8 * k)) & 0xffu64) as u8
}

/// `String::from_utf8_lossy`: the characters of `bytes`, with every
/// invalid UTF-8 sequence replaced by U+FFFD.
pub uninterp spec fn utf8_lossy(bytes: Seq<u8>) -> Seq<char>;

/// Calls `String::from_utf8_lossy` and takes the owned string. The result
/// is named by `utf8_lossy` and depends on the bytes alone; as the
/// function's documentation says, bytes that are valid UTF-8 decode to
/// exactly the characters they encode. What replaces invalid sequences is
/// left unsaid.
#[verifier::external_body]
pub(crate) fn lossy_string(bytes: &[u8]) -> (r: String)
    ensures
        r@ == utf8_lossy(bytes@),
        valid_utf8(bytes@) ==> r@ == decode_utf8(bytes@),
{
    String::from_utf8_lossy(bytes).into_owned()
}

/// A NUL-terminated string longer than this many bytes is cut off.
pub const STRING_READ_LIMIT: usize = 4096;

/// The outcome of feeding one peeked word to a string read.
pub enum StringStep {
    /// The read is over, with this result.
    Done(Option<String>),
    /// Read the next word.
    More,
}

/// The bytes of `word` before its first NUL, and whether it holds a NUL.
pub open spec fn bytes_before_nul(w: i64) -> (Seq<u8>, bool)
    decreases 8int,
{
    bytes_before_nul_from(w, 0)
}

pub open spec fn bytes_before_nul_from(w: i64, k: int) -> (Seq<u8>, bool)
    decreases 8 - k,
{
    if k >= 8 || k < 0 {
        (Seq::empty(), false)
    } else if word_byte(w, k) == 0 {
        (Seq::empty(), true)
    } else {
        let rest = bytes_before_nul_from(w, k + 1);
        (seq![word_byte(w, k)] + rest.0, rest.1)
    }
}

/// What a string read yields once it stops without a NUL: nothing if no
/// byte was read, else the bytes read so far.
pub open spec fn spec_string_result(acc: Seq<u8>) -> Option<Seq<char>> {
    if acc.len() == 0 {
        None
    } else {
        Some(utf8_lossy(acc))
    }
}

/// Feeds one word peeked from the child to a NUL-terminated string read.
/// A peek result of -1 ends the read. The bytes before the word's first
/// NUL are kept; a NUL ends the read with the string; past 4096 bytes the
/// read ends with what it has.
pub fn string_read_step(acc: &mut Vec<u8>, word: i64) -> (r: StringStep)
    requires
        old(acc)@.len() <= STRING_READ_LIMIT,
    ensures
        word == -1 ==> final(acc)@ == old(acc)@ && (r matches StringStep::Done(res) && (match res {
            Some(s) => spec_string_result(old(acc)@) == Some(s@),
            None => spec_string_result(old(acc)@) is None,
        })),
        word != -1 ==> {
            let (kept, nul) = bytes_before_nul(word);
            &&& final(acc)@ == old(acc)@ + kept
            &&& nul ==> (r matches StringStep::Done(Some(s)) && s@ == utf8_lossy(final(acc)@))
            &&& !nul && final(acc)@.len() > STRING_READ_LIMIT ==> (r matches StringStep::Done(
                res,
            ) && (match res {
                Some(s) => spec_string_result(final(acc)@) == Some(s@),
                None => spec_string_result(final(acc)@) is None,
            }))
            &&& !nul && final(acc)@.len() <= STRING_READ_LIMIT ==> r is More
        },
{
    if word == -1 {
        return StringStep::Done(string_read_result(acc));
    }
    let mut k: u64 = 0;
    while k < 8
        invariant
            k <= 8,
            word != -1,
            old(acc)@.len() <= STRING_READ_LIMIT,
            old(acc)@ + bytes_before_nul_from(word, 0).0 == acc@ + bytes_before_nul_from(
                word,
                k as int,
            ).0,
            bytes_before_nul_from(word, 0).1 == bytes_before_nul_from(word, k as int).1,
            acc@.len() <= old(acc)@.len() + k,
        decreases 8 - k,
    {
        let b = byte_of(word, k);
        if b == 0 {
            assert(bytes_before_nul_from(word, k as int).0 =~= Seq::<u8>::empty());
            assert(acc@ =~= old(acc)@ + bytes_before_nul(word).0);
            let s = lossy_string(acc.as_slice());
            return StringStep::Done(Some(s));
        }
        acc.push(b);
        proof {
            let rest = bytes_before_nul_from(word, k + 1);
            assert(bytes_before_nul_from(word, k as int).0 == seq![b] + rest.0);
            assert(acc@ + rest.0 =~= old(acc)@ + bytes_before_nul_from(word, 0).0);
        }
        k = k + 1;
    }
    assert(bytes_before_nul_from(word, 8).0 =~= Seq::<u8>::empty());
    assert(acc@ =~= old(acc)@ + bytes_before_nul(word).0);
    if acc.len() > STRING_READ_LIMIT {
        StringStep::Done(string_read_result(acc))
    } else {
        StringStep::More
    }
}

/// The result of a string read that stopped without a NUL.
pub fn string_read_result(acc: &Vec<u8>) -> (r: Option<String>)
    ensures
        match r {
            Some(s) => spec_string_result(acc@) == Some(s@),
            None => spec_string_result(acc@) is None,
        },
{
    if acc.len() == 0 {
        None
    } else {
        Some(lossy_string(acc.as_slice()))
    }
}

/// The outcome of feeding one peeked word to a read of a fixed number of
/// bytes.
pub enum BytesStep {
    /// Read the next word.
    More,
    /// The read is over and the bytes gathered are its result.
    Complete,
    /// The very first peek failed: the buffer is unreadable.
    Failed,
}

/// A fixed-length read of `len` bytes at `addr` needs no peek at all: it
/// yields no bytes when the address is null or the length is zero.
pub fn bytes_read_is_empty(addr: u64, len: usize) -> (r: bool)
    ensures
        r == (addr == 0 || len == 0),
{
    addr == 0 || len == 0
}

/// Feeds one word peeked from the child to a read of exactly `len` bytes.
/// A peek result of -1 fails the read when nothing was read yet and ends it
/// with the bytes read so far otherwise; any other word contributes its
/// lowest `min(8, remaining)` bytes.
pub fn bytes_read_step(acc: &mut Vec<u8>, len: usize, word: i64) -> (r: BytesStep)
    requires
        old(acc)@.len() < len,
    ensures
        word == -1 ==> final(acc)@ == old(acc)@ && (if old(acc)@.len() == 0 {
            r is Failed
        } else {
            r is Complete
        }),
        word != -1 ==> {
            let take = if len - old(acc)@.len() < 8 {
                len - old(acc)@.len()
            } else {
                8
            };
            &&& final(acc)@ == old(acc)@ + word_bytes(word).subrange(0, take)
            &&& (if final(acc)@.len() < len {
                r is More
            } else {
                r is Complete
            })
        },
{
    if word == -1 {
        if acc.len() == 0 {
            return BytesStep::Failed;
        }
        return BytesStep::Complete;
    }
    let remaining = len - acc.len();
    let take: u64 = if remaining < 8 {
        remaining as u64
    } else {
        8
    };
    let ghost start = acc@;
    let mut k: u64 = 0;
    while k < take
        invariant
            take <= 8,
            k <= take,
            acc@ == start + word_bytes(word).subrange(0, k as int),
        decreases take - k,
    {
        let b = byte_of(word, k);
        acc.push(b);
        k = k + 1;
        assert(acc@ =~= start + word_bytes(word).subrange(0, k as int));
    }
    if acc.len() < len {
        BytesStep::More
    } else {
        BytesStep::Complete
    }
}

/// The word whose bytes, lowest first, are `b[0..8]`.
fn word_from_bytes(b: &Vec<u8>, at: usize) -> (r: i64)
    requires
        at + 8 <= b.len(),
    ensures
        r == bytes_word(b@.subrange(at as int, at + 8)),
{
    let ghost s = b@.subrange(at as int, at + 8);
    assert(s[0] == b@[at as int] && s[1] == b@[at + 1] && s[2] == b@[at + 2] && s[3] == b@[at
        + 3] && s[4] == b@[at + 4] && s[5] == b@[at + 5] && s[6] == b@[at + 6] && s[7] == b@[at
        + 7]);
    let v: u64 = (b[at] as u64) | ((b[at + 1] as u64) << 8u64) | ((b[at + 2] as u64) << 16u64) | ((b[at
        + 3] as u64) << 24u64) | ((b[at + 4] as u64) << 32u64) | ((b[at + 5] as u64) << 40u64) | ((b[at
        + 6] as u64) << 48u64) | ((b[at + 7] as u64) << 56u64);
    #[verifier::truncate]
    (v as i64)
}

/// `b` padded with zero bytes up to the next multiple of 8.
pub open spec fn zero_padded(b: Seq<u8>) -> Seq<u8> {
    b + Seq::new((((b.len() + 7) / 8) * 8 - b.len()) as nat, |i: int| 0u8)
}

/// The words that hold `b`, padded with zeros to a whole number of words.
pub open spec fn spec_words_of(b: Seq<u8>) -> Seq<i64> {
    let p = zero_padded(b);
    Seq::new(p.len() / 8, |i: int| bytes_word(p.subrange(8 * i, 8 * i + 8)))
}

/// The bytes written for a string: its UTF-8 bytes and a terminating NUL.
pub open spec fn c_string_bytes(s: &str) -> Seq<u8> {
    s.spec_bytes().push(0u8)
}

/// The bytes of `s` with a terminating NUL, zero-padded to a whole number
/// of 8-byte words.
pub fn padded_c_string(s: &str) -> (r: Vec<u8>)
    requires
        s.spec_bytes().len() + 8 < usize::MAX,
    ensures
        r@ == zero_padded(c_string_bytes(s)),
        r@.len() % 8 == 0,
{
    let src = s.as_bytes();
    let n = src.len();
    let mut bytes: Vec<u8> = Vec::new();
    let mut i: usize = 0;
    while i < n
        invariant
            n == src@.len(),
            src@ == s.spec_bytes(),
            i <= n,
            bytes@ == src@.subrange(0, i as int),
        decreases n - i,
    {
        bytes.push(src[i]);
        i = i + 1;
        assert(bytes@ =~= src@.subrange(0, i as int));
    }
    bytes.push(0u8);
    assert(bytes@ =~= c_string_bytes(s));
    let total = (bytes.len() + 7) / 8 * 8;
    while bytes.len() < total
        invariant
            total == ((c_string_bytes(s).len() + 7) / 8) * 8,
            c_string_bytes(s).len() <= bytes@.len() <= total,
            bytes@ == c_string_bytes(s) + Seq::new(
                (bytes@.len() - c_string_bytes(s).len()) as nat,
                |j: int| 0u8,
            ),
        decreases total - bytes.len(),
    {
        bytes.push(0u8);
        assert(bytes@ =~= c_string_bytes(s) + Seq::new(
            (bytes@.len() - c_string_bytes(s).len()) as nat,
            |j: int| 0u8,
        ));
    }
    assert(bytes@ =~= zero_padded(c_string_bytes(s)));
    bytes
}

/// The words `PTRACE_POKEDATA` writes, one after the other from the
/// string's address, to store `s` as a NUL-terminated string: its bytes and
/// the NUL, zero-padded to a whole number of words.
pub fn string_words(s: &str) -> (r: Vec<i64>)
    requires
        s.spec_bytes().len() + 8 < usize::MAX,
    ensures
        r@ == spec_words_of(c_string_bytes(s)),
{
    let bytes = padded_c_string(s);
    let total = bytes.len();
    let count = total / 8;
    let mut words: Vec<i64> = Vec::new();
    let mut w: usize = 0;
    while w < count
        invariant
            count * 8 == total,
            total == bytes@.len(),
            bytes@ == zero_padded(c_string_bytes(s)),
            w <= count,
            words@.len() == w,
            forall|j: int|
                0 <= j < w ==> words@[j] == bytes_word(bytes@.subrange(8 * j, 8 * j + 8)),
        decreases count - w,
    {
        words.push(word_from_bytes(&bytes, w * 8));
        w = w + 1;
    }
    assert(words@ =~= spec_words_of(c_string_bytes(s)));
    words
}

/// The scratch image written below the child's stack to run a 64-bit
/// `execve` on behalf of a 32-bit child: the program path as a
/// NUL-terminated string padded to a whole word, followed by the
/// `syscall` instruction (`0f 05`) and a breakpoint (`cc`).
pub open spec fn spec_execve_image(path: &str) -> Seq<u8> {
    zero_padded(c_string_bytes(path)) + seq![0x0fu8, 0x05u8, 0xccu8]
}

pub fn execve_image(path: &str) -> (r: Vec<u8>)
    requires
        path.spec_bytes().len() + 8 < usize::MAX,
    ensures
        r@ == spec_execve_image(path),
{
    let mut image = padded_c_string(path);
    image.push(0x0fu8);
    image.push(0x05u8);
    image.push(0xccu8);
    assert(image@ =~= spec_execve_image(path));
    image
}

/// An in-place rewrite of a string in the child is only done when the new
/// string is strictly shorter (in bytes) than the one already there.
pub fn in_place_write_fits(new_len: usize, existing_len: usize) -> (r: bool)
    ensures
        r == (new_len < existing_len),
{
    new_len < existing_len
}

/// At most this many `struct pollfd` entries have their `revents` cleared.
pub const POLLFD_SCAN_LIMIT: u64 = 32;

/// The number of `struct pollfd` entries (8 bytes each) visited when
/// clearing `revents`: none for a null array, else `min(nfds, 32)`.
pub fn pollfd_scan_count(pollfd_ptr: u64, nfds: u64) -> (r: u64)
    ensures
        r == (if pollfd_ptr == 0 || nfds == 0 {
            0
        } else if nfds < POLLFD_SCAN_LIMIT {
            nfds
        } else {
            POLLFD_SCAN_LIMIT
        }),
{
    if pollfd_ptr == 0 || nfds == 0 {
        0
    } else if nfds < POLLFD_SCAN_LIMIT {
        nfds
    } else {
        POLLFD_SCAN_LIMIT
    }
}

/// A `struct pollfd` word with its `revents` field (bytes 6 and 7) set to
/// zero and `fd` and `events` kept.
pub fn clear_revents(word: i64) -> (r: i64)
    ensures
        r == word & 0x0000_FFFF_FFFF_FFFFi64,
        word_bytes(r).subrange(0, 6) == word_bytes(word).subrange(0, 6),
        word_byte(r, 6) == 0 && word_byte(r, 7) == 0,
{
    let r = word & 0x0000_FFFF_FFFF_FFFFi64;
    assert(forall|k: u64|
        k < 6 ==> #[trigger] (((r as u64) >> (8 * k)) & 0xffu64) == (((word as u64) >> (8 * k))
            & 0xffu64)) by (bit_vector)
        requires
            r == word & 0x0000_FFFF_FFFF_FFFFi64,
    ;
    assert(((r as u64) >> 48u64) & 0xffu64 == 0 && ((r as u64) >> 56u64) & 0xffu64 == 0)
        by (bit_vector)
        requires
            r == word & 0x0000_FFFF_FFFF_FFFFi64,
    ;
    assert forall|k: int| 0 <= k < 6 implies word_bytes(r).subrange(0, 6)[k] == word_bytes(
        word,
    ).subrange(0, 6)[k] by {
        let ku = k as u64;
        assert((((r as u64) >> (8 * ku)) & 0xffu64) == (((word as u64) >> (8 * ku)) & 0xffu64));
    }
    assert(word_bytes(r).subrange(0, 6) =~= word_bytes(word).subrange(0, 6));
    r
}

/// The two words written over a `struct __user_cap_data_struct` (three
/// 32-bit fields) to grant every capability: all ones in the first word;
/// in the second, the low 32 bits (`inheritable`) set to all ones and the
/// high 32 bits kept from the word already there, or all ones when that
/// word could not be read.
pub fn capget_data_words(existing: Option<i64>) -> (r: (i64, i64))
    ensures
        r.0 == -1,
        r.1 == (match existing {
            Some(w) => ((w as u64) | 0xFFFF_FFFFu64) as i64,
            None => -1i64,
        }),
{
    match existing {
        Some(w) => (-1, ((w as u64) | 0xFFFF_FFFFu64) as i64),
        None => (-1, -1),
    }
}

/// Splitting a word into its 8 bytes and assembling them again gives the
/// word back.
pub proof fn lemma_word_bytes_roundtrip(w: i64)
    ensures
        bytes_word(word_bytes(w)) == w,
{
    let b = word_bytes(w);
    assert(b[0] == word_byte(w, 0) && b[1] == word_byte(w, 1) && b[2] == word_byte(w, 2) && b[3]
        == word_byte(w, 3) && b[4] == word_byte(w, 4) && b[5] == word_byte(w, 5) && b[6]
        == word_byte(w, 6) && b[7] == word_byte(w, 7));
    let u = w as u64;
    assert(((((u >> 0u64) & 0xffu64) as u8 as u64) | ((((u >> 8u64) & 0xffu64) as u8 as u64)
        << 8u64) | ((((u >> 16u64) & 0xffu64) as u8 as u64) << 16u64) | ((((u >> 24u64)
        & 0xffu64) as u8 as u64) << 24u64) | ((((u >> 32u64) & 0xffu64) as u8 as u64) << 32u64)
        | ((((u >> 40u64) & 0xffu64) as u8 as u64) << 40u64) | ((((u >> 48u64) & 0xffu64) as u8
        as u64) << 48u64) | ((((u >> 56u64) & 0xffu64) as u8 as u64) << 56u64)) == u)
        by (bit_vector);
    assert((u as i64) == w) by (bit_vector)
        requires
            u == w as u64,
    ;
}

/// What a NUL-terminated string read yields when fed `words`, peeked one
/// after the other, having gathered `acc` so far: the outcome `Some(r)`
/// once the read ends with result `r`, `None` when the words run out
/// first. Each word goes through `string_read_step`.
pub open spec fn spec_read_words(acc: Seq<u8>, words: Seq<i64>) -> Option<Option<Seq<char>>>
    decreases words.len(),
{
    if words.len() == 0 {
        None
    } else if words[0] == -1 {
        Some(spec_string_result(acc))
    } else {
        let (kept, nul) = bytes_before_nul(words[0]);
        let next = acc + kept;
        if nul {
            Some(Some(utf8_lossy(next)))
        } else if next.len() > STRING_READ_LIMIT {
            Some(spec_string_result(next))
        } else {
            spec_read_words(next, words.drop_first())
        }
    }
}

/// Assembling 8 bytes into a word and splitting it again gives the bytes
/// back.
proof fn lemma_chunk_roundtrip(c: Seq<u8>)
    requires
        c.len() == 8,
    ensures
        word_bytes(bytes_word(c)) == c,
{
    let (b0, b1, b2, b3, b4, b5, b6, b7) = (c[0], c[1], c[2], c[3], c[4], c[5], c[6], c[7]);
    let u: u64 = (b0 as u64) | ((b1 as u64) << 8u64) | ((b2 as u64) << 16u64) | ((b3 as u64)
        << 24u64) | ((b4 as u64) << 32u64) | ((b5 as u64) << 40u64) | ((b6 as u64) << 48u64) | ((
    b7 as u64) << 56u64);
    assert(((u >> 0u64) & 0xffu64) as u8 == b0 && ((u >> 8u64) & 0xffu64) as u8 == b1 && ((u
        >> 16u64) & 0xffu64) as u8 == b2 && ((u >> 24u64) & 0xffu64) as u8 == b3 && ((u >> 32u64)
        & 0xffu64) as u8 == b4 && ((u >> 40u64) & 0xffu64) as u8 == b5 && ((u >> 48u64)
        & 0xffu64) as u8 == b6 && ((u >> 56u64) & 0xffu64) as u8 == b7) by (bit_vector)
        requires
            u == (b0 as u64) | ((b1 as u64) << 8u64) | ((b2 as u64) << 16u64) | ((b3 as u64)
                << 24u64) | ((b4 as u64) << 32u64) | ((b5 as u64) << 40u64) | ((b6 as u64)
                << 48u64) | ((b7 as u64) << 56u64),
    ;
    let w = bytes_word(c);
    assert((w as u64) == u) by (bit_vector)
        requires
            w == u as i64,
    ;
    assert(word_bytes(w) =~= c);
}

/// The word of all ones has all its bytes equal to 0xFF.
proof fn lemma_all_ones_word(w: i64)
    requires
        w == -1,
    ensures
        word_byte(w, 0) == 0xff,
{
    assert((((w as u64) >> 0u64) & 0xffu64) as u8 == 0xff) by (bit_vector)
        requires
            w == -1,
    ;
}

/// From byte `k` on, a word with no zero byte keeps all its bytes.
proof fn lemma_before_nul_without_zero(w: i64, k: int)
    requires
        0 <= k <= 8,
        forall|j: int| k <= j < 8 ==> #[trigger] word_bytes(w)[j] != 0,
    ensures
        bytes_before_nul_from(w, k) == (word_bytes(w).subrange(k, 8), false),
    decreases 8 - k,
{
    if k < 8 {
        assert(word_bytes(w)[k] == word_byte(w, k));
        lemma_before_nul_without_zero(w, k + 1);
        assert(word_bytes(w).subrange(k, 8) =~= seq![word_byte(w, k)] + word_bytes(w).subrange(
            k + 1,
            8,
        ));
    } else {
        assert(word_bytes(w).subrange(8, 8) =~= Seq::<u8>::empty());
    }
}

/// From byte `k` on, a word whose first zero byte is at `z` keeps the
/// bytes before it.
proof fn lemma_before_nul_with_zero(w: i64, k: int, z: int)
    requires
        0 <= k <= z < 8,
        word_bytes(w)[z] == 0,
        forall|j: int| k <= j < z ==> #[trigger] word_bytes(w)[j] != 0,
    ensures
        bytes_before_nul_from(w, k) == (word_bytes(w).subrange(k, z), true),
    decreases z - k,
{
    assert(word_bytes(w)[k] == word_byte(w, k));
    if k < z {
        lemma_before_nul_with_zero(w, k + 1, z);
        assert(word_bytes(w).subrange(k, z) =~= seq![word_byte(w, k)] + word_bytes(w).subrange(
            k + 1,
            z,
        ));
    } else {
        assert(word_bytes(w).subrange(k, k) =~= Seq::<u8>::empty());
    }
}

/// The UTF-8 encoding of a scalar holds no byte above 0xF7, and no zero
/// byte unless the scalar is 0.
proof fn lemma_scalar_bytes(v: u32)
    ensures
        forall|i: int| 0 <= i < encode_scalar(v).len() ==> #[trigger] encode_scalar(v)[i] <= 0xf7,
        v != 0 ==> forall|i: int| 0 <= i < encode_scalar(v).len() ==> #[trigger] encode_scalar(v)[i] != 0,
{
    let l1 = leading_byte_width_1(v);
    let l2 = leading_byte_width_2(v);
    let l3 = leading_byte_width_3(v);
    let l4 = leading_byte_width_4(v);
    let c1 = last_continuation_byte(v);
    let c2 = second_last_continuation_byte(v);
    let c3 = third_last_continuation_byte(v);
    assert(0xc0 <= l2 <= 0xdf) by (bit_vector)
        requires
            l2 == 0xC0 | ((v >> 6) & 0x1F) as u8,
    ;
    assert(0xe0 <= l3 <= 0xef) by (bit_vector)
        requires
            l3 == 0xE0 | ((v >> 12) & 0x0F) as u8,
    ;
    assert(0xf0 <= l4 <= 0xf7) by (bit_vector)
        requires
            l4 == 0xF0 | ((v >> 18) & 0x7) as u8,
    ;
    assert(0x80 <= c1 <= 0xbf) by (bit_vector)
        requires
            c1 == 0x80 | (v & 0x3F) as u8,
    ;
    assert(0x80 <= c2 <= 0xbf) by (bit_vector)
        requires
            c2 == 0x80 | ((v >> 6) & 0x3F) as u8,
    ;
    assert(0x80 <= c3 <= 0xbf) by (bit_vector)
        requires
            c3 == 0x80 | ((v >> 12) & 0x3F) as u8,
    ;
    if v <= 0x7f {
        assert(l1 as u32 == v) by (bit_vector)
            requires
                l1 == (v & 0x7F) as u8,
                v <= 0x7f,
        ;
    }
}

/// The UTF-8 encoding of a string holds no byte above 0xF7, and no zero
/// byte unless the string holds a NUL character.
proof fn lemma_encoded_bytes(s: Seq<char>)
    ensures
        forall|i: int| 0 <= i < encode_utf8(s).len() ==> #[trigger] encode_utf8(s)[i] <= 0xf7,
        (forall|i: int| 0 <= i < s.len() ==> #[trigger] s[i] != '\0') ==> forall|i: int|
            0 <= i < encode_utf8(s).len() ==> #[trigger] encode_utf8(s)[i] != 0,
    decreases s.len(),
{
    if s.len() > 0 {
        let head = encode_scalar(s[0] as u32);
        let rest = s.drop_first();
        lemma_scalar_bytes(s[0] as u32);
        lemma_encoded_bytes(rest);
        assert(encode_utf8(s) == head + encode_utf8(rest));
        if forall|i: int| 0 <= i < s.len() ==> #[trigger] s[i] != '\0' {
            assert(s[0] != '\0');
            vstd::utf8::char_u32_cast(s[0], s[0] as u32);
            assert(s[0] as u32 != 0);
            assert forall|i: int| 0 <= i < rest.len() implies #[trigger] rest[i] != '\0' by {
                assert(rest[i] == s[i + 1]);
            }
        }
    }
}

/// The read of the words of `b` (NUL-terminated and zero-padded), begun
/// at word `i` with the first `8 * i` bytes gathered, ends with `b`.
proof fn lemma_read_words_from(b: Seq<u8>, i: int)
    requires
        forall|j: int| 0 <= j < b.len() ==> #[trigger] b[j] != 0 && b[j] != 0xff,
        b.len() <= STRING_READ_LIMIT,
        0 <= 8 * i <= b.len(),
    ensures
        ({
            let words = spec_words_of(b.push(0u8));
            spec_read_words(b.subrange(0, 8 * i), words.subrange(i, words.len() as int)) == Some(
                Some(utf8_lossy(b)),
            )
        }),
    decreases b.len() - 8 * i,
{
    let p = zero_padded(b.push(0u8));
    let words = spec_words_of(b.push(0u8));
    let n = words.len();
    assert(p.len() == ((b.len() + 1 + 7) / 8) * 8);
    assert(p.len() >= b.len() + 1);
    assert(n == p.len() / 8);
    assert(i < n);
    let rest = words.subrange(i, n as int);
    let c = p.subrange(8 * i, 8 * i + 8);
    let w = bytes_word(c);
    assert(rest[0] == w);
    lemma_chunk_roundtrip(c);
    assert(word_bytes(w) == c);
    assert forall|j: int| 0 <= j < 8 && 8 * i + j < b.len() implies #[trigger] c[j] == b[8 * i + j] by {
        assert(p[8 * i + j] == b.push(0u8)[8 * i + j]);
    }
    assert(p[b.len() as int] == 0) by {
        assert(b.push(0u8)[b.len() as int] == 0);
    }
    if w == -1 {
        lemma_all_ones_word(w);
        assert(word_bytes(w)[0] == word_byte(w, 0));
        if 8 * i < b.len() {
            assert(c[0] == b[8 * i]);
        } else {
            assert(c[0] == p[b.len() as int]);
        }
        assert(false);
    }
    let acc = b.subrange(0, 8 * i);
    if 8 * i + 8 <= b.len() {
        assert forall|j: int| 0 <= j < 8 implies #[trigger] word_bytes(w)[j] != 0 by {
            assert(c[j] == b[8 * i + j]);
        }
        lemma_before_nul_without_zero(w, 0);
        assert(bytes_before_nul(w) == (c, false));
        assert(acc + c =~= b.subrange(0, 8 * (i + 1)));
        lemma_read_words_from(b, i + 1);
        assert(rest.drop_first() =~= words.subrange(i + 1, n as int));
    } else {
        let z = b.len() - 8 * i;
        assert(c[z] == p[b.len() as int]);
        assert forall|j: int| 0 <= j < z implies #[trigger] word_bytes(w)[j] != 0 by {
            assert(c[j] == b[8 * i + j]);
        }
        lemma_before_nul_with_zero(w, 0, z);
        assert(bytes_before_nul(w) == (c.subrange(0, z), true));
        assert forall|j: int| 0 <= j < z implies #[trigger] c.subrange(0, z)[j] == b.subrange(
            8 * i,
            b.len() as int,
        )[j] by {
            assert(c[j] == b[8 * i + j]);
        }
        assert(acc + c.subrange(0, z) =~= b);
    }
}

/// What is written for a string is read back: reading, word after word,
/// the words `string_words` gives for a string with no NUL character and
/// at most `STRING_READ_LIMIT` bytes ends with exactly its bytes (turned
/// into characters by `String::from_utf8_lossy`, which gives back the
/// string's own characters since they are valid UTF-8).
pub proof fn lemma_string_read_back(s: Seq<char>)
    requires
        forall|i: int| 0 <= i < s.len() ==> #[trigger] s[i] != '\0',
        encode_utf8(s).len() <= STRING_READ_LIMIT,
    ensures
        spec_read_words(Seq::empty(), spec_words_of(encode_utf8(s).push(0u8))) == Some(
            Some(utf8_lossy(encode_utf8(s))),
        ),
{
    let b = encode_utf8(s);
    lemma_encoded_bytes(s);
    lemma_read_words_from(b, 0);
    let words = spec_words_of(b.push(0u8));
    assert(words.subrange(0, words.len() as int) =~= words);
    assert(b.subrange(0, 0) =~= Seq::<u8>::empty());
}

/// The bytes a string read has gathered after being fed `words`, begun
/// with `acc`, as long as it has not ended.
pub open spec fn read_gathered(acc: Seq<u8>, words: Seq<i64>) -> Seq<u8>
    decreases words.len(),
{
    if words.len() == 0 {
        acc
    } else {
        read_gathered(acc + bytes_before_nul(words[0]).0, words.drop_first())
    }
}

proof fn lemma_gathered_push(acc: Seq<u8>, fed: Seq<i64>, w: i64)
    ensures
        read_gathered(acc, fed.push(w)) == read_gathered(acc, fed) + bytes_before_nul(w).0,
    decreases fed.len(),
{
    if fed.len() == 0 {
        assert(fed.push(w) =~= seq![w]);
        assert(seq![w].drop_first() =~= Seq::<i64>::empty());
        assert(read_gathered(acc, seq![w]) == read_gathered(
            acc + bytes_before_nul(w).0,
            seq![w].drop_first(),
        ));
    } else {
        assert(fed.push(w)[0] == fed[0]);
        assert(fed.push(w).drop_first() =~= fed.drop_first().push(w));
        lemma_gathered_push(acc + bytes_before_nul(fed[0]).0, fed.drop_first(), w);
        assert((acc + bytes_before_nul(fed[0]).0 + bytes_before_nul(w).0) =~= (acc
            + bytes_before_nul(fed[0]).0) + bytes_before_nul(w).0);
    }
}

/// A read that has not ended after `fed` goes on, with the next word, as a
/// read of that one word begun with the bytes gathered so far.
proof fn lemma_read_words_push(acc: Seq<u8>, fed: Seq<i64>, w: i64)
    requires
        spec_read_words(acc, fed) is None,
    ensures
        spec_read_words(acc, fed.push(w)) == spec_read_words(read_gathered(acc, fed), seq![w]),
    decreases fed.len(),
{
    if fed.len() == 0 {
        assert(fed.push(w) =~= seq![w]);
    } else {
        assert(fed.push(w)[0] == fed[0]);
        assert(fed.push(w).drop_first() =~= fed.drop_first().push(w));
        lemma_read_words_push(acc + bytes_before_nul(fed[0]).0, fed.drop_first(), w);
    }
}

/// A word with no NUL keeps all its 8 bytes.
proof fn lemma_no_nul_keeps_eight(w: i64, k: int)
    requires
        0 <= k <= 8,
        !bytes_before_nul_from(w, k).1,
    ensures
        bytes_before_nul_from(w, k).0.len() == 8 - k,
    decreases 8 - k,
{
    if k < 8 {
        lemma_no_nul_keeps_eight(w, k + 1);
    }
}

/// The outcome of a string read as characters.
pub open spec fn outcome_view(o: Option<Option<String>>) -> Option<Option<Seq<char>>> {
    match o {
        Some(Some(s)) => Some(Some(s@)),
        Some(None) => Some(None),
        None => None,
    }
}

/// A NUL-terminated string read from the child in progress: it reads word
/// after word from `addr`; `outcome` is its result once it has ended.
pub struct StringRead {
    pub addr: u64,
    /// The number of words fed so far.
    pub index: u64,
    /// The bytes gathered so far.
    pub acc: Vec<u8>,
    pub outcome: Option<Option<String>>,
    /// The words fed so far.
    pub fed: Ghost<Seq<i64>>,
}

/// What a string read asks for next.
pub enum ReadNext {
    /// Peek the word at this address and feed it.
    Peek(u64),
    /// The read is over with this result.
    Done(Option<String>),
}

impl StringRead {
    /// A read from a null address has ended with nothing; any other read
    /// has the outcome `spec_read_words` gives for the words fed, and
    /// while it goes on it has gathered 8 bytes per word, at most
    /// `STRING_READ_LIMIT`.
    pub open spec fn wf(&self) -> bool {
        &&& self.fed@.len() == self.index
        &&& if self.addr == 0 {
            &&& self.outcome == Some(None::<String>)
            &&& self.index == 0
        } else {
            outcome_view(self.outcome) == spec_read_words(Seq::empty(), self.fed@)
        }
        &&& self.outcome is None ==> {
            &&& self.acc@ == read_gathered(Seq::empty(), self.fed@)
            &&& self.acc@.len() == 8 * self.index
            &&& self.acc@.len() <= STRING_READ_LIMIT
        }
    }

    /// Starts a read at `addr`; a null address yields nothing, without a
    /// peek.
    pub fn begin(addr: u64) -> (r: StringRead)
        ensures
            r.addr == addr,
            r.index == 0,
            r.fed@ == Seq::<i64>::empty(),
            r.outcome == (if addr == 0 {
                Some(None::<String>)
            } else {
                None
            }),
            r.wf(),
    {
        StringRead {
            addr,
            index: 0,
            acc: Vec::new(),
            outcome: if addr == 0 {
                Some(None)
            } else {
                None
            },
            fed: Ghost(Seq::empty()),
        }
    }

    /// The next word to peek (word `index` from `addr`), or the result.
    pub fn next(&self) -> (r: ReadNext)
        requires
            self.wf(),
        ensures
            self.outcome is None ==> r == ReadNext::Peek(spec_word_addr(self.addr, self.index)),
            self.outcome matches Some(o) ==> (r matches ReadNext::Done(x) && x == o),
    {
        match &self.outcome {
            Some(Some(s)) => ReadNext::Done(Some(s.clone())),
            Some(None) => ReadNext::Done(None),
            None => ReadNext::Peek(word_addr(self.addr, self.index)),
        }
    }

    /// Feeds the word peeked at the address `next` asked for.
    pub fn feed(&mut self, word: i64)
        requires
            old(self).wf(),
            old(self).outcome is None,
        ensures
            final(self).addr == old(self).addr,
            final(self).index == old(self).index + 1,
            final(self).fed@ == old(self).fed@.push(word),
            final(self).wf(),
    {
        let ghost old_fed = self.fed@;
        let ghost old_acc = self.acc@;
        let step = string_read_step(&mut self.acc, word);
        self.index = self.index + 1;
        self.fed = Ghost(old_fed.push(word));
        match step {
            StringStep::Done(r) => {
                self.outcome = Some(r);
            },
            StringStep::More => {},
        }
        proof {
            lemma_read_words_push(Seq::empty(), old_fed, word);
            lemma_gathered_push(Seq::empty(), old_fed, word);
            let one = seq![word];
            assert(one[0] == word);
            assert(one.drop_first() =~= Seq::<i64>::empty());
            assert(spec_read_words(old_acc + bytes_before_nul(word).0, one.drop_first()) is None);
            assert(old_acc == read_gathered(Seq::empty(), old_fed));
            if word != -1 && !bytes_before_nul(word).1 {
                lemma_no_nul_keeps_eight(word, 0);
            }
            assert(spec_read_words(Seq::empty(), self.fed@) == spec_read_words(old_acc, one));
        }
    }
}

/// The words to store, each with its address, for the bytes `b`
/// (zero-padded to whole words) at `addr`.
pub open spec fn spec_write_plan(addr: u64, b: Seq<u8>) -> Seq<(u64, i64)> {
    let w = spec_words_of(b);
    Seq::new(w.len(), |i: int| (spec_word_addr(addr, i as u64), w[i]))
}

/// The `PTRACE_POKEDATA` writes (address, word) that store `s` as a
/// NUL-terminated string at `addr`, word after word; none for a null
/// address, which is never written.
pub fn string_write_plan(addr: u64, s: &str) -> (r: Option<Vec<(u64, i64)>>)
    requires
        s.spec_bytes().len() + 8 < usize::MAX,
    ensures
        match r {
            Some(p) => addr != 0 && p@ == spec_write_plan(addr, c_string_bytes(s)),
            None => addr == 0,
        },
{
    if addr == 0 {
        return None;
    }
    let words = string_words(s);
    let n = words.len();
    let ghost b = c_string_bytes(s);
    assert(zero_padded(b).len() == ((b.len() + 7) / 8) * 8);
    assert(n == zero_padded(b).len() / 8);
    assert(n < 0x2000_0000_0000_0000) by (nonlinear_arith)
        requires
            n == ((b.len() + 7) / 8) * 8 / 8,
            b.len() + 7 < usize::MAX,
            usize::MAX <= u64::MAX,
    ;
    let mut plan: Vec<(u64, i64)> = Vec::new();
    let mut i: usize = 0;
    while i < n
        invariant
            n == words@.len(),
            n < 0x2000_0000_0000_0000,
            words@ == spec_words_of(b),
            i <= n,
            plan@ =~= spec_write_plan(addr, b).subrange(0, i as int),
        decreases n - i,
    {
        plan.push((word_addr(addr, i as u64), words[i]));
        i = i + 1;
        assert(plan@ =~= spec_write_plan(addr, b).subrange(0, i as int));
    }
    assert(spec_write_plan(addr, b).subrange(0, n as int) =~= spec_write_plan(addr, b));
    Some(plan)
}

/// The writes that put `s` in place of the string `existing` at `addr`:
/// only for a non-null address and a strictly shorter `s` (in bytes).
pub fn in_place_write_plan(addr: u64, s: &str, existing: &str) -> (r: Option<Vec<(u64, i64)>>)
    requires
        s.spec_bytes().len() + 8 < usize::MAX,
    ensures
        match r {
            Some(p) => addr != 0 && s.len() < existing.len() && p@ == spec_write_plan(
                addr,
                c_string_bytes(s),
            ),
            None => addr == 0 || s.len() >= existing.len(),
        },
{
    if addr == 0 || !in_place_write_fits(s.len(), existing.len()) {
        return None;
    }
    string_write_plan(addr, s)
}

/// The two writes that grant every capability in the
/// `__user_cap_data_struct` at `addr`: all ones at `addr`, then the second
/// word (see `capget_second_word`) at `addr + 8`. None for a null address,
/// which is never written.
pub fn capget_plan(addr: u64) -> (r: Option<(u64, i64, u64)>)
    ensures
        r == (if addr == 0 {
            None
        } else {
            Some((addr, -1i64, spec_word_addr(addr, 1)))
        }),
{
    if addr == 0 {
        None
    } else {
        Some((addr, capget_data_words(None).0, word_addr(addr, 1)))
    }
}

/// The second word written over a `__user_cap_data_struct`, from the word
/// peeked at `addr + 8` and the errno after the peek: a peek result of -1
/// with a non-zero errno means the peek failed, and all ones are written;
/// otherwise the peeked word with its low 32 bits set.
pub fn capget_second_word(peeked: i64, errno: i32) -> (r: i64)
    ensures
        r == (if peeked == -1 && errno != 0 {
            -1i64
        } else {
            ((peeked as u64) | 0xFFFF_FFFFu64) as i64
        }),
{
    let existing = if peeked == -1 && errno != 0 {
        None
    } else {
        Some(peeked)
    };
    capget_data_words(existing).1
}

/// The number of `pollfd` words in `ws` whose `revents` field (the top 16
/// bits) is not zero.
pub open spec fn changed_count(ws: Seq<i64>) -> nat
    decreases ws.len(),
{
    if ws.len() == 0 {
        0
    } else {
        changed_count(ws.drop_last()) + (if ws.last() & 0x0000_FFFF_FFFF_FFFFi64 != ws.last() {
            1nat
        } else {
            0nat
        })
    }
}

/// Clearing the `revents` fields of a `pollfd` array in progress.
pub struct PollfdClear {
    pub ptr: u64,
    /// How many entries are visited: `pollfd_scan_count(ptr, nfds)`.
    pub count: u64,
    /// The entry at hand.
    pub index: u64,
    /// Entries whose `revents` was cleared so far.
    pub zeroed: u64,
    /// A peek or poke failed: no further entry is visited.
    pub finished: bool,
    /// The words peeked for the entries dealt with so far, in order.
    pub seen: Ghost<Seq<i64>>,
    /// The word peeked for the entry at hand while its poke is pending.
    pub pending: Ghost<Option<i64>>,
}

/// What clearing a `pollfd` array asks for next.
#[derive(Clone, Copy, Debug, PartialEq, Eq, Structural)]
pub enum PollNext {
    /// Peek the entry's word at this address and hand it to `on_peek`.
    Peek(u64),
    /// Clearing is over; this many entries were cleared.
    Done(u64),
}

impl PollfdClear {
    /// Entries `0 .. index` were dealt with, none of them read as -1, and
    /// `zeroed` counts those among them whose `revents` was not zero.
    pub open spec fn wf(&self) -> bool {
        &&& self.zeroed <= self.index <= self.count <= POLLFD_SCAN_LIMIT
        &&& self.seen@.len() == self.index
        &&& self.zeroed == changed_count(self.seen@)
        &&& forall|i: int| 0 <= i < self.seen@.len() ==> #[trigger] self.seen@[i] != -1
        &&& self.pending@ matches Some(w) ==> {
            &&& !self.finished
            &&& self.index < self.count
            &&& w != -1
            &&& w & 0x0000_FFFF_FFFF_FFFFi64 != w
        }
    }

    /// Starts clearing the array of `nfds` entries at `pollfd_ptr`.
    pub fn begin(pollfd_ptr: u64, nfds: u64) -> (r: PollfdClear)
        ensures
            r.ptr == pollfd_ptr,
            r.count == (if pollfd_ptr == 0 || nfds == 0 {
                0
            } else if nfds < POLLFD_SCAN_LIMIT {
                nfds
            } else {
                POLLFD_SCAN_LIMIT
            }),
            r.index == 0,
            r.zeroed == 0,
            !r.finished,
            r.seen@ == Seq::<i64>::empty(),
            r.pending@ is None,
            r.wf(),
    {
        PollfdClear {
            ptr: pollfd_ptr,
            count: pollfd_scan_count(pollfd_ptr, nfds),
            index: 0,
            zeroed: 0,
            finished: false,
            seen: Ghost(Seq::empty()),
            pending: Ghost(None),
        }
    }

    /// The next entry to peek (8 bytes each), or the number cleared once
    /// every entry was visited or a peek or poke failed: the number of
    /// entries dealt with whose `revents` was not zero.
    pub fn next(&self) -> (r: PollNext)
        requires
            self.wf(),
            self.pending@ is None,
        ensures
            r == (if self.finished || self.index >= self.count {
                PollNext::Done(self.zeroed)
            } else {
                PollNext::Peek(spec_word_addr(self.ptr, self.index))
            }),
            r matches PollNext::Done(n) ==> n == changed_count(self.seen@),
    {
        if self.finished || self.index >= self.count {
            PollNext::Done(self.zeroed)
        } else {
            PollNext::Peek(word_addr(self.ptr, self.index))
        }
    }

    /// Handles the word peeked for the entry at hand. A peek result of -1
    /// ends the clearing; an entry whose `revents` is already zero is
    /// passed over; otherwise the entry's address and cleared word are
    /// returned for a poke, whose outcome goes to `on_poke`.
    pub fn on_peek(&mut self, word: i64) -> (r: Option<(u64, i64)>)
        requires
            old(self).wf(),
            old(self).pending@ is None,
            !old(self).finished,
            old(self).index < old(self).count,
        ensures
            final(self).ptr == old(self).ptr,
            final(self).count == old(self).count,
            final(self).zeroed == old(self).zeroed,
            word == -1 ==> {
                &&& r is None
                &&& final(self).finished
                &&& final(self).index == old(self).index
                &&& final(self).seen@ == old(self).seen@
                &&& final(self).pending@ is None
            },
            word != -1 && word & 0x0000_FFFF_FFFF_FFFFi64 == word ==> {
                &&& r is None
                &&& !final(self).finished
                &&& final(self).index == old(self).index + 1
                &&& final(self).seen@ == old(self).seen@.push(word)
                &&& final(self).pending@ is None
            },
            word != -1 && word & 0x0000_FFFF_FFFF_FFFFi64 != word ==> {
                &&& r == Some(
                    (spec_word_addr(old(self).ptr, old(self).index), word & 0x0000_FFFF_FFFF_FFFFi64),
                )
                &&& !final(self).finished
                &&& final(self).index == old(self).index
                &&& final(self).seen@ == old(self).seen@
                &&& final(self).pending@ == Some(word)
            },
            final(self).wf(),
    {
        if word == -1 {
            self.finished = true;
            return None;
        }
        let cleared = clear_revents(word);
        if cleared == word {
            let ghost old_seen = self.seen@;
            self.index = self.index + 1;
            self.seen = Ghost(old_seen.push(word));
            proof {
                assert(self.seen@.drop_last() =~= old_seen);
            }
            None
        } else {
            self.pending = Ghost(Some(word));
            Some((word_addr(self.ptr, self.index), cleared))
        }
    }

    /// Handles the outcome of the poke `on_peek` asked for: a success
    /// counts the entry and moves on, a failure ends the clearing.
    pub fn on_poke(&mut self, ok: bool)
        requires
            old(self).wf(),
            old(self).pending@ is Some,
        ensures
            final(self).ptr == old(self).ptr,
            final(self).count == old(self).count,
            final(self).pending@ is None,
            ok ==> {
                &&& !final(self).finished
                &&& final(self).zeroed == old(self).zeroed + 1
                &&& final(self).index == old(self).index + 1
                &&& final(self).seen@ == old(self).seen@.push(old(self).pending@->0)
            },
            !ok ==> {
                &&& final(self).finished
                &&& final(self).zeroed == old(self).zeroed
                &&& final(self).index == old(self).index
                &&& final(self).seen@ == old(self).seen@
            },
            final(self).wf(),
    {
        let ghost w = self.pending@->0;
        let ghost old_seen = self.seen@;
        if ok {
            self.zeroed = self.zeroed + 1;
            self.index = self.index + 1;
            self.seen = Ghost(old_seen.push(w));
            proof {
                assert(self.seen@.drop_last() =~= old_seen);
            }
        } else {
            self.finished = true;
        }
        self.pending = Ghost(None);
    }
}

} // verus!
