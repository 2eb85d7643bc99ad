//! Self-update: reading the latest release tag, choosing the release archive
//! for the platform, and the order of steps that replaces the running binary.
use vstd::prelude::*;
use crate::text::{chars_of, concat2, concat3, concat5, find, find_chars, occurs_at, skip_whitespace,
    skip_whitespace_from, str_eq};

verus! {

/// Where the latest release is described.
pub const API_URL: &'static str = "https://api.github.com/repos/Harsh-2002/MD/releases/latest";

/// Where release archives are downloaded from.
pub const DOWNLOAD_BASE: &'static str = "https://github.com/Harsh-2002/MD/releases/download";

/// The first index at or after `from` where `c` stands in `s`, as
/// `str::find` with a `char` pattern gives it.
pub open spec fn find_char_from(s: Seq<char>, c: char, from: int) -> Option<int>
    decreases s.len() - from,
{
    if from < 0 || from >= s.len() {
        None
    } else if s[from] == c {
        Some(from)
    } else {
        find_char_from(s, c, from + 1)
    }
}

/// The string value that `json` gives for `key`: after the first occurrence
/// of the quoted key, optional whitespace, a `:`, optional whitespace, and a
/// `"`, the characters up to the next `"`. `None` when any of these is missing.
pub open spec fn extracted(json: Seq<char>, key: Seq<char>) -> Option<Seq<char>> {
    let pattern = seq!['"'] + key + seq!['"'];
    match find(json, pattern) {
        None => None,
        Some(p) => {
            let i = skip_whitespace_from(json, p + pattern.len());
            if i < json.len() && json[i] == ':' {
                let k = skip_whitespace_from(json, i + 1);
                if k < json.len() && json[k] == '"' {
                    match find_char_from(json, '"', k + 1) {
                        Some(e) => Some(json.subrange(k + 1, e)),
                        None => None,
                    }
                } else {
                    None
                }
            } else {
                None
            }
        },
    }
}

/// A release tag without its leading `v`, if it has one.
pub open spec fn without_v(tag: Seq<char>) -> Seq<char> {
    if tag.len() > 0 && tag[0] == 'v' {
        tag.drop_first()
    } else {
        tag
    }
}

/// The target triple of the release archive for an operating system and
/// architecture (as `std::env::consts` name them), and whether the binary
/// was built against musl.
pub open spec fn target_for(os: Seq<char>, arch: Seq<char>, musl: bool) -> Option<Seq<char>> {
    if os == "macos"@ && arch == "aarch64"@ {
        Some("aarch64-apple-darwin"@)
    } else if os == "macos"@ && arch == "x86_64"@ {
        Some("x86_64-apple-darwin"@)
    } else if os == "linux"@ && arch == "aarch64"@ {
        if musl {
            Some("aarch64-unknown-linux-musl"@)
        } else {
            Some("aarch64-unknown-linux-gnu"@)
        }
    } else if os == "linux"@ && arch == "x86_64"@ {
        if musl {
            Some("x86_64-unknown-linux-musl"@)
        } else {
            Some("x86_64-unknown-linux-gnu"@)
        }
    } else if os == "linux"@ && arch == "arm"@ {
        Some("armv7-unknown-linux-gnueabihf"@)
    } else if os == "windows"@ && arch == "x86_64"@ {
        Some("x86_64-pc-windows-msvc"@)
    } else if os == "windows"@ && arch == "aarch64"@ {
        Some("aarch64-pc-windows-msvc"@)
    } else {
        None
    }
}

/// Pre-built binaries exist for exactly seven platforms (macOS and Windows
/// on x86_64 and aarch64, Linux on x86_64, aarch64 and arm); the musl flag
/// changes the archive only on Linux x86_64 and aarch64, where it chooses the
/// `musl` build over the `gnu` one.
pub proof fn lemma_target_table(os: Seq<char>, arch: Seq<char>, musl: bool)
    ensures
        target_for(os, arch, musl) is Some == (os == "macos"@ && (arch == "x86_64"@ || arch
            == "aarch64"@) || os == "windows"@ && (arch == "x86_64"@ || arch == "aarch64"@)
            || os == "linux"@ && (arch == "x86_64"@ || arch == "aarch64"@ || arch == "arm"@)),
        !(os == "linux"@ && (arch == "x86_64"@ || arch == "aarch64"@)) ==> target_for(
            os,
            arch,
            true,
        ) == target_for(os, arch, false),
        os == "linux"@ && arch == "x86_64"@ ==> target_for(os, arch, true) == Some(
            "x86_64-unknown-linux-musl"@,
        ) && target_for(os, arch, false) == Some("x86_64-unknown-linux-gnu"@),
        os == "linux"@ && arch == "aarch64"@ ==> target_for(os, arch, true) == Some(
            "aarch64-unknown-linux-musl"@,
        ) && target_for(os, arch, false) == Some("aarch64-unknown-linux-gnu"@),
        target_for(os, arch, musl) != target_for(os, arch, !musl) ==> os == "linux"@,
{
    reveal_strlit("linux");
    reveal_strlit("macos");
    reveal_strlit("windows");
    reveal_strlit("x86_64");
    reveal_strlit("aarch64");
    reveal_strlit("arm");
    reveal_strlit("x86_64-unknown-linux-musl");
    reveal_strlit("x86_64-unknown-linux-gnu");
    reveal_strlit("aarch64-unknown-linux-musl");
    reveal_strlit("aarch64-unknown-linux-gnu");
    assert("linux"@[0] != "macos"@[0]);
    assert("linux"@.len() != "windows"@.len());
    assert("macos"@.len() != "windows"@.len());
    assert("x86_64"@.len() != "aarch64"@.len());
    assert("x86_64-unknown-linux-musl"@.len() != "x86_64-unknown-linux-gnu"@.len());
    assert("aarch64-unknown-linux-musl"@.len() != "aarch64-unknown-linux-gnu"@.len());
}

/// The message that refuses a platform without a pre-built binary.
pub open spec fn unsupported_platform_message(os: Seq<char>, arch: Seq<char>) -> Seq<char> {
    "Unsupported platform: "@ + os + "/"@ + arch
        + ". Pre-built binaries available for: linux (x86_64, aarch64, armv7), macOS (x86_64, aarch64), Windows (x86_64, aarch64)"@
}

/// The download address of the release archive for `tag` and `target`.
pub open spec fn release_url_text(tag: Seq<char>, target: Seq<char>) -> Seq<char> {
    DOWNLOAD_BASE@ + "/"@ + tag + "/mdx-"@ + target + ".tar.gz"@
}

/// The decimal digit for `d` (below 10).
pub open spec fn digit_char(d: nat) -> char {
    ((48 + d) as u32) as char
}

/// The decimal notation of `n`, without leading zeros.
pub open spec fn decimal(n: nat) -> Seq<char>
    decreases n,
{
    if n < 10 {
        seq![digit_char(n)]
    } else {
        decimal(n / 10) + seq![digit_char(n % 10)]
    }
}

/// Every character of `s` is whitespace.
pub open spec fn all_whitespace(s: Seq<char>) -> bool {
    forall|i: int| 0 <= i < s.len() ==> crate::text::is_whitespace(#[trigger] s[i])
}

/// `c` does not occur in `s`.
pub open spec fn free_of(s: Seq<char>, c: char) -> bool {
    forall|i: int| 0 <= i < s.len() ==> s[i] != c
}

proof fn lemma_skip_run(s: Seq<char>, a: int, n: int)
    requires
        0 <= a,
        0 <= n,
        a + n < s.len(),
        forall|i: int| a <= i < a + n ==> crate::text::is_whitespace(#[trigger] s[i]),
        !crate::text::is_whitespace(s[a + n]),
    ensures
        skip_whitespace_from(s, a) == a + n,
    decreases n,
{
    if n > 0 {
        lemma_skip_run(s, a + 1, n - 1);
    }
}

proof fn lemma_find_char_run(s: Seq<char>, c: char, a: int, n: int)
    requires
        0 <= a,
        0 <= n,
        a + n < s.len(),
        forall|i: int| a <= i < a + n ==> s[i] != c,
        s[a + n] == c,
    ensures
        find_char_from(s, c, a) == Some(a + n),
    decreases n,
{
    if n > 0 {
        lemma_find_char_run(s, c, a + 1, n - 1);
    }
}

/// A string value written after its key is read back: in a text made of
/// `before`, the quoted `key`, optional whitespace, a colon, optional
/// whitespace, and `value` in quotes (followed by anything), where the quoted
/// key does not occur earlier and `value` holds no quote, `extracted` gives
/// `value`.
pub proof fn lemma_extract_written_value(
    before: Seq<char>,
    key: Seq<char>,
    space1: Seq<char>,
    space2: Seq<char>,
    value: Seq<char>,
    after: Seq<char>,
)
    requires
        all_whitespace(space1),
        all_whitespace(space2),
        free_of(value, '"'),
        forall|j: int|
            0 <= j < before.len() ==> !occurs_at(
                before + (seq!['"'] + key + seq!['"']) + space1 + seq![':'] + space2 + seq!['"']
                    + value + seq!['"'] + after,
                seq!['"'] + key + seq!['"'],
                j,
            ),
    ensures
        extracted(
            before + (seq!['"'] + key + seq!['"']) + space1 + seq![':'] + space2 + seq!['"'] + value
                + seq!['"'] + after,
            key,
        ) == Some(value),
{
    let pattern = seq!['"'] + key + seq!['"'];
    let json = before + pattern + space1 + seq![':'] + space2 + seq!['"'] + value + seq!['"']
        + after;
    let p = before.len() as int;
    assert(json.subrange(p, p + pattern.len()) =~= pattern);
    crate::text::lemma_find_first(json, pattern, p);
    let a = p + pattern.len();
    assert forall|i: int| a <= i < a + space1.len() implies crate::text::is_whitespace(
        #[trigger] json[i],
    ) by {
        assert(json[i] == space1[i - a]);
    }
    assert(json[a + space1.len()] == ':');
    lemma_skip_run(json, a, space1.len() as int);
    let b = a + space1.len() + 1;
    assert forall|i: int| b <= i < b + space2.len() implies crate::text::is_whitespace(
        #[trigger] json[i],
    ) by {
        assert(json[i] == space2[i - b]);
    }
    assert(json[b + space2.len()] == '"');
    lemma_skip_run(json, b, space2.len() as int);
    let k = b + space2.len();
    assert forall|i: int| k + 1 <= i < k + 1 + value.len() implies json[i] != '"' by {
        assert(json[i] == value[i - (k + 1)]);
    }
    assert(json[k + 1 + value.len()] == '"');
    lemma_find_char_run(json, '"', k + 1, value.len() as int);
    assert(json.subrange(k + 1, k + 1 + value.len()) =~= value);
}

proof fn lemma_skip_whitespace_extend(s: Seq<char>, t: Seq<char>, i: int)
    requires
        0 <= i,
        skip_whitespace_from(s, i) < s.len(),
    ensures
        skip_whitespace_from(s + t, i) == skip_whitespace_from(s, i),
    decreases s.len() - i,
{
    if i < s.len() && crate::text::is_whitespace(s[i]) {
        assert((s + t)[i] == s[i]);
        lemma_skip_whitespace_extend(s, t, i + 1);
    } else {
        assert((s + t)[i] == s[i]);
    }
}

proof fn lemma_skip_whitespace_at_least(s: Seq<char>, i: int)
    ensures
        skip_whitespace_from(s, i) >= i,
    decreases s.len() - i,
{
    if 0 <= i < s.len() && crate::text::is_whitespace(s[i]) {
        lemma_skip_whitespace_at_least(s, i + 1);
    }
}

proof fn lemma_find_char_extend(s: Seq<char>, t: Seq<char>, c: char, i: int)
    requires
        0 <= i,
        find_char_from(s, c, i) is Some,
    ensures
        find_char_from(s + t, c, i) == find_char_from(s, c, i),
    decreases s.len() - i,
{
    assert((s + t)[i] == s[i]);
    if s[i] != c {
        lemma_find_char_extend(s, t, c, i + 1);
    }
}

/// Text appended after a value that was read leaves the value read unchanged.
pub proof fn lemma_extract_ignores_appended(json: Seq<char>, key: Seq<char>, more: Seq<char>)
    ensures
        extracted(json, key) is Some ==> extracted(json + more, key) == extracted(json, key),
{
    if let Some(v) = extracted(json, key) {
        let pattern = seq!['"'] + key + seq!['"'];
        let whole = json + more;
        crate::text::lemma_find(json, pattern);
        let p = find(json, pattern)->0;
        assert(whole.subrange(p, p + pattern.len()) =~= json.subrange(p, p + pattern.len()));
        assert forall|j: int| 0 <= j < p implies !occurs_at(whole, pattern, j) by {
            if occurs_at(whole, pattern, j) {
                assert(whole.subrange(j, j + pattern.len()) =~= json.subrange(j, j + pattern.len()));
                assert(occurs_at(json, pattern, j));
            }
        }
        crate::text::lemma_find_first(whole, pattern, p);
        let i = skip_whitespace_from(json, p + pattern.len());
        lemma_skip_whitespace_at_least(json, p + pattern.len());
        assert(i < json.len() && json[i] == ':');
        lemma_skip_whitespace_extend(json, more, p + pattern.len());
        assert(whole[i] == json[i]);
        let k = skip_whitespace_from(json, i + 1);
        lemma_skip_whitespace_at_least(json, i + 1);
        assert(k < json.len() && json[k] == '"');
        lemma_skip_whitespace_extend(json, more, i + 1);
        assert(whole[k] == json[k]);
        lemma_find_char_extend(json, more, '"', k + 1);
        lemma_find_char_from_first(json, '"', k + 1);
        let e = find_char_from(json, '"', k + 1)->0;
        assert(whole.subrange(k + 1, e) =~= json.subrange(k + 1, e));
    }
}

/// Whatever `extracted` gives holds no quote.
pub proof fn lemma_extracted_has_no_quote(json: Seq<char>, key: Seq<char>)
    ensures
        extracted(json, key) matches Some(v) ==> free_of(v, '"'),
{
    if let Some(v) = extracted(json, key) {
        let pattern = seq!['"'] + key + seq!['"'];
        let p = find(json, pattern)->0;
        let i = skip_whitespace_from(json, p + pattern.len());
        let k = skip_whitespace_from(json, i + 1);
        lemma_find_char_from_first(json, '"', k + 1);
    }
}

proof fn lemma_find_char_from_first(s: Seq<char>, c: char, from: int)
    requires
        0 <= from,
    ensures
        find_char_from(s, c, from) matches Some(e) ==> from <= e < s.len() && s[e] == c && forall|
            i: int,
        | from <= i < e ==> s[i] != c,
    decreases s.len() - from,
{
    if from < s.len() && s[from] != c {
        lemma_find_char_from_first(s, c, from + 1);
    }
}

/// The first index at or after `from` where `c` stands in `s`.
fn find_char(s: &Vec<char>, c: char, from: usize) -> (r: Option<usize>)
    requires
        from <= s.len(),
    ensures
        r matches Some(k) ==> find_char_from(s@, c, from as int) == Some(k as int) && from <= k
            < s.len(),
        r is None ==> find_char_from(s@, c, from as int) is None,
{
    let mut i = from;
    while i < s.len()
        invariant
            from <= i <= s.len(),
            find_char_from(s@, c, from as int) == find_char_from(s@, c, i as int),
        decreases s.len() - i,
    {
        if s[i] == c {
            return Some(i);
        }
        i = i + 1;
    }
    None
}

/// The string value that `json` gives for `key` (see `extracted`): the text
/// between the quotes that follow the first `"key"` and a colon.
pub fn extract_json_string(json: &str, key: &str) -> (r: Option<String>)
    ensures
        match extracted(json@, key@) {
            Some(v) => r matches Some(s) && s@ == v,
            None => r is None,
        },
{
    proof {
        reveal_strlit("\"");
    }
    let j = chars_of(json);
    let quoted = concat3("\"", key, "\"");
    let pattern = chars_of(quoted.as_str());
    let ghost pat = seq!['"'] + key@ + seq!['"'];
    assert(pattern@ == pat);
    let p = match find_chars(&j, &pattern) {
        Some(p) => p,
        None => return None,
    };
    proof {
        crate::text::lemma_find(json@, pat);
        assert(occurs_at(json@, pat, p as int));
    }
    let i = skip_whitespace(&j, p + pattern.len());
    if !(i < j.len() && j[i] == ':') {
        return None;
    }
    let k = skip_whitespace(&j, i + 1);
    if !(k < j.len() && j[k] == '"') {
        return None;
    }
    match find_char(&j, '"', k + 1) {
        Some(e) => Some(String::from_str(json.substring_char(k + 1, e))),
        None => None,
    }
}

/// `tag` without its leading `v`, if it has one.
pub fn strip_v(tag: &str) -> (r: String)
    ensures
        r@ == without_v(tag@),
{
    let t = chars_of(tag);
    if t.len() > 0 && t[0] == 'v' {
        assert(tag@.subrange(1, tag@.len() as int) == tag@.drop_first());
        String::from_str(tag.substring_char(1, t.len()))
    } else {
        String::from_str(tag)
    }
}

/// The target triple of the release archive for this platform, or the
/// message that refuses it.
pub fn detect_target(os: &str, arch: &str, musl: bool) -> (r: Result<&'static str, String>)
    ensures
        match target_for(os@, arch@, musl) {
            Some(t) => r matches Ok(s) && s@ == t,
            None => r matches Err(msg) && msg@ == unsupported_platform_message(os@, arch@),
        },
{
    if str_eq(os, "macos") && str_eq(arch, "aarch64") {
        Ok("aarch64-apple-darwin")
    } else if str_eq(os, "macos") && str_eq(arch, "x86_64") {
        Ok("x86_64-apple-darwin")
    } else if str_eq(os, "linux") && str_eq(arch, "aarch64") {
        if musl {
            Ok("aarch64-unknown-linux-musl")
        } else {
            Ok("aarch64-unknown-linux-gnu")
        }
    } else if str_eq(os, "linux") && str_eq(arch, "x86_64") {
        if musl {
            Ok("x86_64-unknown-linux-musl")
        } else {
            Ok("x86_64-unknown-linux-gnu")
        }
    } else if str_eq(os, "linux") && str_eq(arch, "arm") {
        Ok("armv7-unknown-linux-gnueabihf")
    } else if str_eq(os, "windows") && str_eq(arch, "x86_64") {
        Ok("x86_64-pc-windows-msvc")
    } else if str_eq(os, "windows") && str_eq(arch, "aarch64") {
        Ok("aarch64-pc-windows-msvc")
    } else {
        Err(concat5(
            "Unsupported platform: ",
            os,
            "/",
            arch,
            ". Pre-built binaries available for: linux (x86_64, aarch64, armv7), macOS (x86_64, aarch64), Windows (x86_64, aarch64)",
        ))
    }
}

/// The download address of the release archive for `tag` and `target`.
pub fn release_url(tag: &str, target: &str) -> (r: String)
    ensures
        r@ == release_url_text(tag@, target@),
{
    let mut r = concat3(DOWNLOAD_BASE, "/", tag);
    r.append("/mdx-");
    r.append(target);
    r.append(".tar.gz");
    r
}

/// The one-character string for the digit `d`.
fn digit_str(d: u32) -> (r: &'static str)
    requires
        d < 10,
    ensures
        r@ == seq![digit_char(d as nat)],
{
    proof {
        reveal_strlit("0");
        reveal_strlit("1");
        reveal_strlit("2");
        reveal_strlit("3");
        reveal_strlit("4");
        reveal_strlit("5");
        reveal_strlit("6");
        reveal_strlit("7");
        reveal_strlit("8");
        reveal_strlit("9");
    }
    match d {
        0 => "0",
        1 => "1",
        2 => "2",
        3 => "3",
        4 => "4",
        5 => "5",
        6 => "6",
        7 => "7",
        8 => "8",
        _ => "9",
    }
}

/// The decimal notation of `n`.
pub fn decimal_string(n: u32) -> (r: String)
    ensures
        r@ == decimal(n as nat),
    decreases n,
{
    if n < 10 {
        String::from_str(digit_str(n))
    } else {
        let mut r = decimal_string(n / 10);
        r.append(digit_str(n % 10));
        r
    }
}

/// The name of the temporary directory an update of process `pid` works in.
pub fn temp_dir_name(pid: u32) -> (r: String)
    ensures
        r@ == "mdx-update-"@ + decimal(pid as nat),
{
    let d = decimal_string(pid);
    concat2("mdx-update-", d.as_str())
}

} // verus!
