//! Mapping of guest paths into the rootfs, and classification of the paths
//! the tracer watches for (`__kmsg__`, `__properties__`).
use vstd::prelude::*;
use vstd::string::*;

verus! {

/// `p` is a prefix of `s`.
pub open spec fn has_prefix(s: Seq<char>, p: Seq<char>) -> bool {
    p.len() <= s.len() && s.subrange(0, p.len() as int) == p
}

/// The path is absolute: its first character is `/`.
pub open spec fn is_absolute(s: Seq<char>) -> bool {
    s.len() > 0 && s[0] == '/'
}

/// The characters after the last `/` of `s` (all of `s` when it holds no
/// `/`).
pub open spec fn last_component(s: Seq<char>) -> Seq<char>
    decreases s.len(),
{
    if s.len() == 0 {
        Seq::empty()
    } else if s.last() == '/' {
        Seq::empty()
    } else {
        last_component(s.drop_last()).push(s.last())
    }
}

/// Whether `prefix` is `s` or a directory above it: `s == dir` or `s`
/// starts with `dir` followed by `/`.
pub open spec fn under_dir(s: Seq<char>, dir_slash: Seq<char>, dir: Seq<char>) -> bool {
    has_prefix(s, dir_slash) || s == dir
}

/// The host path a guest path maps to.
///
/// Relative paths are kept. `/proc/cmdline` maps to the rootfs's
/// `twrp-cmdline`. Paths under `/proc/`, `/data/` and `/apex/` are kept.
/// `/dev` and `/sys` (and everything below them) are moved into the rootfs.
/// `/system` and `/vendor` (and everything below them) are kept. Every
/// other absolute path is moved into the rootfs.
pub open spec fn spec_translate_path(rootfs: Seq<char>, path: Seq<char>) -> Seq<char> {
    if !is_absolute(path) {
        path
    } else if path == "/proc/cmdline"@ {
        rootfs + "/twrp-cmdline"@
    } else if has_prefix(path, "/proc/"@) || has_prefix(path, "/data/"@) || has_prefix(
        path,
        "/apex/"@,
    ) {
        path
    } else if under_dir(path, "/dev/"@, "/dev"@) {
        rootfs + path
    } else if under_dir(path, "/sys/"@, "/sys"@) {
        rootfs + path
    } else if under_dir(path, "/system/"@, "/system"@) {
        path
    } else if under_dir(path, "/vendor/"@, "/vendor"@) {
        path
    } else {
        rootfs + path
    }
}

/// `a` and `b` hold the same characters.
pub fn str_eq(a: &str, b: &str) -> (r: bool)
    ensures
        r == (a@ == b@),
{
    let n = a.unicode_len();
    let m = b.unicode_len();
    if n != m {
        return false;
    }
    let mut i: usize = 0;
    while i < n
        invariant
            n == a@.len(),
            m == b@.len(),
            n == m,
            i <= n,
            forall|j: int| 0 <= j < i ==> a@[j] == b@[j],
        decreases n - i,
    {
        if a.get_char(i) != b.get_char(i) {
            return false;
        }
        i = i + 1;
    }
    assert(a@ =~= b@);
    true
}

/// `s` starts with `prefix`.
pub fn str_starts_with(s: &str, prefix: &str) -> (r: bool)
    ensures
        r == has_prefix(s@, prefix@),
{
    let n = s.unicode_len();
    let m = prefix.unicode_len();
    if m > n {
        return false;
    }
    let mut i: usize = 0;
    while i < m
        invariant
            n == s@.len(),
            m == prefix@.len(),
            m <= n,
            i <= m,
            forall|j: int| 0 <= j < i ==> s@[j] == prefix@[j],
        decreases m - i,
    {
        if s.get_char(i) != prefix.get_char(i) {
            assert(s@.subrange(0, m as int)[i as int] != prefix@[i as int]);
            return false;
        }
        i = i + 1;
    }
    assert(s@.subrange(0, m as int) =~= prefix@);
    true
}

/// `needle` occurs somewhere in `s`.
pub open spec fn contains_seq(s: Seq<char>, needle: Seq<char>) -> bool {
    exists|i: int|
        0 <= i && i + needle.len() <= s.len() && #[trigger] s.subrange(i, i + needle.len())
            == needle
}

/// The characters of `s`.
pub fn chars_of(s: &str) -> (r: Vec<char>)
    ensures
        r@ == s@,
{
    let n = s.unicode_len();
    let mut out: Vec<char> = Vec::new();
    let mut i: usize = 0;
    while i < n
        invariant
            n == s@.len(),
            i <= n,
            out@ == s@.subrange(0, i as int),
        decreases n - i,
    {
        out.push(s.get_char(i));
        i = i + 1;
        assert(out@ =~= s@.subrange(0, i as int));
    }
    assert(s@.subrange(0, n as int) =~= s@);
    out
}

/// `needle` matches `hay` at position `at`.
fn matches_at(hay: &Vec<char>, needle: &Vec<char>, at: usize) -> (r: bool)
    requires
        at + needle@.len() <= hay@.len(),
    ensures
        r == (hay@.subrange(at as int, at + needle@.len()) == needle@),
{
    let m = needle.len();
    let mut j: usize = 0;
    while j < m
        invariant
            m == needle@.len(),
            at + m <= hay@.len(),
            hay@.len() == hay.len(),
            j <= m,
            forall|k: int| 0 <= k < j ==> hay@[at + k] == needle@[k],
        decreases m - j,
    {
        if hay[at + j] != needle[j] {
            assert(hay@.subrange(at as int, at + m)[j as int] != needle@[j as int]);
            return false;
        }
        j = j + 1;
    }
    assert(hay@.subrange(at as int, at + m) =~= needle@);
    true
}

/// `s` contains `needle`.
pub fn str_contains(s: &str, needle: &str) -> (r: bool)
    ensures
        r == contains_seq(s@, needle@),
{
    let hay = chars_of(s);
    let pat = chars_of(needle);
    let n = hay.len();
    let m = pat.len();
    if m > n {
        assert(!contains_seq(s@, needle@));
        return false;
    }
    if m == 0 {
        assert(s@.subrange(0int, 0int + needle@.len()) =~= needle@);
        return true;
    }
    let mut i: usize = 0;
    while i <= n - m
        invariant
            n == s@.len(),
            m == needle@.len(),
            hay@ == s@,
            pat@ == needle@,
            1 <= m <= n,
            i <= n - m + 1,
            forall|k: int| 0 <= k < i ==> #[trigger] s@.subrange(k, k + m) != needle@,
        decreases n - m + 1 - i,
    {
        if matches_at(&hay, &pat, i) {
            assert(s@.subrange(i as int, i + m) == needle@);
            return true;
        }
        i = i + 1;
    }
    assert forall|k: int| 0 <= k && k + needle@.len() <= s@.len() implies #[trigger] s@.subrange(
        k,
        k + needle@.len(),
    ) != needle@ by {}
    false
}

/// The first character of `s` is `/`.
pub fn str_is_absolute(s: &str) -> (r: bool)
    ensures
        r == is_absolute(s@),
{
    let n = s.unicode_len();
    n > 0 && s.get_char(0) == '/'
}

/// `s` is `dir` or lies below it.
fn str_under_dir(s: &str, dir_slash: &str, dir: &str) -> (r: bool)
    ensures
        r == under_dir(s@, dir_slash@, dir@),
{
    str_starts_with(s, dir_slash) || str_eq(s, dir)
}

/// `rootfs` followed by `suffix`.
fn join(rootfs: &str, suffix: &str) -> (r: String)
    ensures
        r@ == rootfs@ + suffix@,
{
    let mut out = String::from_str(rootfs);
    out.append(suffix);
    out
}

/// Translates a guest path to a host path by prepending the rootfs where
/// the guest must see the rootfs's copy.
pub fn translate_path(rootfs: &str, path: &str) -> (r: String)
    ensures
        r@ == spec_translate_path(rootfs@, path@),
{
    if !str_is_absolute(path) {
        return String::from_str(path);
    }
    if str_eq(path, "/proc/cmdline") {
        return join(rootfs, "/twrp-cmdline");
    }
    if str_starts_with(path, "/proc/") || str_starts_with(path, "/data/") || str_starts_with(
        path,
        "/apex/",
    ) {
        return String::from_str(path);
    }
    if str_under_dir(path, "/dev/", "/dev") {
        return join(rootfs, path);
    }
    if str_under_dir(path, "/sys/", "/sys") {
        return join(rootfs, path);
    }
    if str_under_dir(path, "/system/", "/system") {
        return String::from_str(path);
    }
    if str_under_dir(path, "/vendor/", "/vendor") {
        return String::from_str(path);
    }
    join(rootfs, path)
}

proof fn lemma_last_component_split(s: Seq<char>, k: int)
    requires
        0 <= k < s.len(),
        s[s.len() - k - 1] != '/',
    ensures
        last_component(s.subrange(0, s.len() - k)) == last_component(
            s.subrange(0, s.len() - k - 1),
        ).push(s[s.len() - k - 1]),
{
    let t = s.subrange(0, s.len() - k);
    assert(t.drop_last() =~= s.subrange(0, s.len() - k - 1));
    assert(t.last() == s[s.len() - k - 1]);
}

/// The final component of `s` (what follows its last `/`) is `name`.
pub fn last_component_is(s: &str, name: &str) -> (r: bool)
    ensures
        r == (last_component(s@) == name@),
{
    let n = s.unicode_len();
    let mut k: usize = 0;
    assert(s@.subrange(0, n as int) =~= s@);
    assert(s@.subrange(n as int, n as int) =~= Seq::<char>::empty());
    assert(last_component(s@) =~= last_component(s@.subrange(0, n as int)) + s@.subrange(n as int, n as int));
    while k < n && s.get_char(n - 1 - k) != '/'
        invariant
            n == s@.len(),
            k <= n,
            last_component(s@) == last_component(s@.subrange(0, n - k)) + s@.subrange(
                n - k,
                n as int,
            ),
        decreases n - k,
    {
        proof {
            lemma_last_component_split(s@, k as int);
            assert(s@.subrange(n - k - 1, n as int) =~= seq![s@[n - k - 1]] + s@.subrange(
                n - k,
                n as int,
            ));
        }
        k = k + 1;
    }
    proof {
        let t = s@.subrange(0, n - k);
        if k < n {
            assert(t.last() == '/');
        } else {
            assert(t.len() == 0);
        }
        assert(last_component(t) =~= Seq::<char>::empty());
        assert(last_component(s@) =~= s@.subrange(n - k, n as int));
    }
    let tail = s.substring_char(n - k, n);
    str_eq(tail, name)
}

/// An absolute path that is `/dev/__kmsg__`, `/dev/kmsg`, or whose final
/// component is `__kmsg__`.
pub open spec fn spec_is_kmsg_path(path: Seq<char>) -> bool {
    is_absolute(path) && (path == "/dev/__kmsg__"@ || path == "/dev/kmsg"@ || last_component(
        path,
    ) == "__kmsg__"@)
}

/// Whether a path opened by the child is a kernel-message log.
pub fn is_kmsg_path(path: &str) -> (r: bool)
    ensures
        r == spec_is_kmsg_path(path@),
{
    if !str_is_absolute(path) {
        return false;
    }
    if str_eq(path, "/dev/__kmsg__") || str_eq(path, "/dev/kmsg") {
        return true;
    }
    last_component_is(path, "__kmsg__")
}

/// An absolute path that is `/dev/__properties__` or whose final component
/// is `__properties__`.
pub open spec fn spec_is_properties_path(path: Seq<char>) -> bool {
    is_absolute(path) && (path == "/dev/__properties__"@ || last_component(path)
        == "__properties__"@)
}

/// Whether a path opened by the child is the property-area file.
pub fn is_properties_path(path: &str) -> (r: bool)
    ensures
        r == spec_is_properties_path(path@),
{
    if !str_is_absolute(path) {
        return false;
    }
    if str_eq(path, "/dev/__properties__") {
        return true;
    }
    last_component_is(path, "__properties__")
}

/// The host path the tracer creates for a guest path it redoes a
/// file-system syscall on: inside the rootfs when absolute, else as given.
pub open spec fn spec_rootfs_host_path(rootfs: Seq<char>, path: Seq<char>) -> Seq<char> {
    if is_absolute(path) {
        rootfs + path
    } else {
        path
    }
}

pub fn rootfs_host_path(rootfs: &str, path: &str) -> (r: String)
    ensures
        r@ == spec_rootfs_host_path(rootfs@, path@),
{
    if str_is_absolute(path) {
        join(rootfs, path)
    } else {
        String::from_str(path)
    }
}

/// A trapped `mount` of these file system types gets its target directory
/// created in the rootfs; other types (`proc`, `sysfs`, ...) exist on the
/// host already.
pub open spec fn spec_mount_makes_dir(fstype: Seq<char>) -> bool {
    fstype == "tmpfs"@ || fstype == "devpts"@
}

pub fn mount_makes_dir(fstype: &str) -> (r: bool)
    ensures
        r == spec_mount_makes_dir(fstype@),
{
    str_eq(fstype, "tmpfs") || str_eq(fstype, "devpts")
}

/// Characters appended after an absolute path leave its prefixes alone.
proof fn lemma_prefix_of_concat(a: Seq<char>, b: Seq<char>, p: Seq<char>)
    requires
        has_prefix(a, p),
    ensures
        has_prefix(a + b, p),
{
    assert((a + b).subrange(0, p.len() as int) =~= a.subrange(0, p.len() as int));
}

/// A path under `/data/` is never `/proc/cmdline`.
proof fn lemma_data_is_not_cmdline(t: Seq<char>)
    requires
        has_prefix(t, "/data/"@),
    ensures
        t != "/proc/cmdline"@,
{
    reveal_strlit("/data/");
    reveal_strlit("/proc/cmdline");
    if t == "/proc/cmdline"@ {
        assert(t.subrange(0, 6)[1] == 'd');
        assert(t[1] == 'p');
    }
}

/// Translating a path twice gives what translating it once gives, for a
/// rootfs under `/data/`: every translated path is either kept as it was
/// or lies under the rootfs, which translation keeps.
pub proof fn lemma_translate_idempotent(rootfs: Seq<char>, path: Seq<char>)
    requires
        has_prefix(rootfs, "/data/"@),
    ensures
        spec_translate_path(rootfs, spec_translate_path(rootfs, path)) == spec_translate_path(
            rootfs,
            path,
        ),
{
    reveal_strlit("/data/");
    let t = spec_translate_path(rootfs, path);
    if t != path {
        if path == "/proc/cmdline"@ {
            lemma_prefix_of_concat(rootfs, "/twrp-cmdline"@, "/data/"@);
        } else {
            lemma_prefix_of_concat(rootfs, path, "/data/"@);
        }
        assert(has_prefix(t, "/data/"@));
        lemma_data_is_not_cmdline(t);
        assert(t.subrange(0, 6)[0] == '/');
        assert(t[0] == '/');
    }
}

/// `a + b` ends with the final component of `b` when `b` starts with `/`.
proof fn lemma_last_component_of_concat(a: Seq<char>, b: Seq<char>)
    requires
        is_absolute(b),
    ensures
        last_component(a + b) == last_component(b),
    decreases b.len(),
{
    let ab = a + b;
    assert(ab.last() == b.last());
    if b.last() != '/' {
        assert(b.len() > 1);
        assert(ab.drop_last() =~= a + b.drop_last());
        lemma_last_component_of_concat(a, b.drop_last());
    }
}

/// For an absolute rootfs, translating an absolute path other than
/// `/proc/cmdline` gives an absolute path with the same final component.
pub proof fn lemma_translate_keeps_last_component(rootfs: Seq<char>, path: Seq<char>)
    requires
        is_absolute(rootfs),
        is_absolute(path),
        path != "/proc/cmdline"@,
    ensures
        is_absolute(spec_translate_path(rootfs, path)),
        last_component(spec_translate_path(rootfs, path)) == last_component(path),
{
    let t = spec_translate_path(rootfs, path);
    if t != path {
        assert(t == rootfs + path);
        lemma_last_component_of_concat(rootfs, path);
        assert(t[0] == rootfs[0]);
    }
}

/// A path under `/dev/` is not `/proc/cmdline`.
proof fn lemma_dev_is_not_cmdline(path: Seq<char>)
    requires
        has_prefix(path, "/dev/"@),
    ensures
        path != "/proc/cmdline"@,
{
    reveal_strlit("/dev/");
    reveal_strlit("/proc/cmdline");
    if path == "/proc/cmdline"@ {
        assert(path.subrange(0, 5)[1] == 'd');
        assert(path[1] == 'p');
    }
}

/// A kernel-log device under `/dev/` whose final component is `__kmsg__`
/// is still recognised once translated into an absolute rootfs.
pub proof fn lemma_translated_kmsg_recognised(rootfs: Seq<char>, path: Seq<char>)
    requires
        is_absolute(rootfs),
        has_prefix(path, "/dev/"@),
        last_component(path) == "__kmsg__"@,
    ensures
        spec_is_kmsg_path(spec_translate_path(rootfs, path)),
{
    reveal_strlit("/dev/");
    assert(path[0] == "/dev/"@[0]);
    lemma_dev_is_not_cmdline(path);
    lemma_translate_keeps_last_component(rootfs, path);
}

/// The property area under `/dev/` (final component `__properties__`) is
/// still recognised once translated into an absolute rootfs.
pub proof fn lemma_translated_properties_recognised(rootfs: Seq<char>, path: Seq<char>)
    requires
        is_absolute(rootfs),
        has_prefix(path, "/dev/"@),
        last_component(path) == "__properties__"@,
    ensures
        spec_is_properties_path(spec_translate_path(rootfs, path)),
{
    reveal_strlit("/dev/");
    assert(path[0] == "/dev/"@[0]);
    lemma_dev_is_not_cmdline(path);
    lemma_translate_keeps_last_component(rootfs, path);
}

/// With a non-empty rootfs, a path that translation changes gets longer:
/// the rootfs is put in front of it (or of `/twrp-cmdline`), so the
/// translation never fits where the original string was.
pub proof fn lemma_translation_lengthens(rootfs: Seq<char>, path: Seq<char>)
    requires
        rootfs.len() > 0,
    ensures
        spec_translate_path(rootfs, path) != path ==> spec_translate_path(rootfs, path).len()
            > path.len(),
{
    reveal_strlit("/proc/cmdline");
    reveal_strlit("/twrp-cmdline");
}

/// The first characters of a path under a directory are the directory's
/// own (`dir_slash` is the directory followed by `/`).
proof fn lemma_under_dir_chars(path: Seq<char>, dir_slash: Seq<char>, dir: Seq<char>, k: int)
    requires
        under_dir(path, dir_slash, dir),
        dir_slash == dir.push('/'),
        0 <= k < dir.len(),
    ensures
        k < path.len(),
        path[k] == dir[k],
        path.len() >= dir.len(),
{
    if has_prefix(path, dir_slash) {
        assert(path.subrange(0, dir_slash.len() as int)[k] == dir_slash[k]);
    }
}

/// Paths under `/system` and `/vendor` (the directories themselves and
/// everything below them) are the host's own and are never moved into the
/// rootfs: translation keeps them as they are, whatever the rootfs.
pub proof fn lemma_system_and_vendor_kept(rootfs: Seq<char>, path: Seq<char>)
    requires
        under_dir(path, "/system/"@, "/system"@) || under_dir(path, "/vendor/"@, "/vendor"@),
    ensures
        spec_translate_path(rootfs, path) == path,
{
    reveal_strlit("/system/");
    reveal_strlit("/system");
    reveal_strlit("/vendor/");
    reveal_strlit("/vendor");
    reveal_strlit("/dev/");
    reveal_strlit("/dev");
    reveal_strlit("/sys/");
    reveal_strlit("/sys");
    reveal_strlit("/proc/cmdline");
    assert("/system/"@ =~= "/system"@.push('/'));
    assert("/vendor/"@ =~= "/vendor"@.push('/'));
    assert("/dev/"@ =~= "/dev"@.push('/'));
    assert("/sys/"@ =~= "/sys"@.push('/'));
    let sys = under_dir(path, "/system/"@, "/system"@);
    let d = if sys { "/system"@ } else { "/vendor"@ };
    let ds = if sys { "/system/"@ } else { "/vendor/"@ };
    lemma_under_dir_chars(path, ds, d, 0);
    lemma_under_dir_chars(path, ds, d, 1);
    lemma_under_dir_chars(path, ds, d, 4);
    lemma_under_dir_chars(path, ds, d, 6);
    assert(is_absolute(path));
    if path == "/proc/cmdline"@ {
        assert(path[1] == 'p');
    }
    if under_dir(path, "/dev/"@, "/dev"@) {
        lemma_under_dir_chars(path, "/dev/"@, "/dev"@, 1);
    }
    if under_dir(path, "/sys/"@, "/sys"@) {
        lemma_under_dir_chars(path, "/sys/"@, "/sys"@, 1);
        if has_prefix(path, "/sys/"@) {
            assert(path.subrange(0, 5)[4] == '/');
        }
    }
}

/// Paths under `/dev` and `/sys` (the directories themselves and
/// everything below them) are moved into the rootfs.
pub proof fn lemma_dev_and_sys_moved(rootfs: Seq<char>, path: Seq<char>)
    requires
        under_dir(path, "/dev/"@, "/dev"@) || under_dir(path, "/sys/"@, "/sys"@),
    ensures
        spec_translate_path(rootfs, path) == rootfs + path,
{
    reveal_strlit("/dev/");
    reveal_strlit("/dev");
    reveal_strlit("/sys/");
    reveal_strlit("/sys");
    reveal_strlit("/proc/");
    reveal_strlit("/data/");
    reveal_strlit("/apex/");
    reveal_strlit("/proc/cmdline");
    assert("/dev/"@ =~= "/dev"@.push('/'));
    assert("/sys/"@ =~= "/sys"@.push('/'));
    let dev = under_dir(path, "/dev/"@, "/dev"@);
    let d = if dev { "/dev"@ } else { "/sys"@ };
    let ds = if dev { "/dev/"@ } else { "/sys/"@ };
    lemma_under_dir_chars(path, ds, d, 0);
    lemma_under_dir_chars(path, ds, d, 1);
    assert(is_absolute(path));
    if path == "/proc/cmdline"@ {
        assert(path[1] == 'p');
    }
    if has_prefix(path, "/proc/"@) {
        assert(path.subrange(0, 6)[1] == 'p');
    }
    if has_prefix(path, "/data/"@) {
        assert(path.subrange(0, 6)[1] == 'd');
        lemma_under_dir_chars(path, ds, d, 2);
        assert(path.subrange(0, 6)[2] == 'a');
    }
    if has_prefix(path, "/apex/"@) {
        assert(path.subrange(0, 6)[1] == 'a');
    }
}

/// A relative path is never translated.
pub proof fn lemma_relative_kept(rootfs: Seq<char>, path: Seq<char>)
    requires
        !is_absolute(path),
    ensures
        spec_translate_path(rootfs, path) == path,
{
}

/// What translation does with the other absolute paths: `/proc/cmdline`
/// becomes the rootfs's `twrp-cmdline`; the rest of `/proc/`, and paths
/// under `/data/` and `/apex/`, are kept; an absolute path under none of
/// the directories that have their own rule is moved into the rootfs.
pub proof fn lemma_other_absolute_paths(rootfs: Seq<char>, path: Seq<char>)
    requires
        is_absolute(path),
    ensures
        path == "/proc/cmdline"@ ==> spec_translate_path(rootfs, path) == rootfs
            + "/twrp-cmdline"@,
        path != "/proc/cmdline"@ && (has_prefix(path, "/proc/"@) || has_prefix(path, "/data/"@)
            || has_prefix(path, "/apex/"@)) ==> spec_translate_path(rootfs, path) == path,
        !has_prefix(path, "/proc/"@) && !has_prefix(path, "/data/"@) && !has_prefix(path, "/apex/"@)
            && !under_dir(path, "/dev/"@, "/dev"@) && !under_dir(path, "/sys/"@, "/sys"@)
            && !under_dir(path, "/system/"@, "/system"@) && !under_dir(path, "/vendor/"@, "/vendor"@)
            ==> spec_translate_path(rootfs, path) == rootfs + path,
{
    reveal_strlit("/proc/cmdline");
    reveal_strlit("/proc/");
    if path == "/proc/cmdline"@ {
        assert(path.subrange(0, 6) =~= "/proc/"@);
    }
}

} // verus!
