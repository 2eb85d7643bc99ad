//! Unix path strings: joining a relative path onto a base, taking the last
//! component, and choosing the bash start-up file.
use vstd::prelude::*;
use crate::text::{chars_of, concat2, concat3};

verus! {

/// `base` joined with `rel` as `Path::join` does on Unix: an absolute `rel`
/// replaces `base`; otherwise a `/` is put between them unless `base` is empty
/// or already ends in one.
pub open spec fn joined(base: Seq<char>, rel: Seq<char>) -> Seq<char> {
    if rel.len() > 0 && rel[0] == '/' {
        rel
    } else if base.len() == 0 || base.last() == '/' {
        base + rel
    } else {
        base + seq!['/'] + rel
    }
}

/// The index of the last `/` in `s`, or -1 when there is none.
pub open spec fn last_separator(s: Seq<char>) -> int
    decreases s.len(),
{
    if s.len() == 0 {
        -1
    } else if s.last() == '/' {
        s.len() - 1
    } else {
        last_separator(s.drop_last())
    }
}

/// The last component of the path `s`, as `Path::file_name` gives it on Unix:
/// trailing `/` and `.` components are passed over, a final `..` gives `None`,
/// and so does a path with no other component.
pub open spec fn file_name(s: Seq<char>) -> Option<Seq<char>>
    decreases s.len(),
{
    if s.len() == 0 {
        None
    } else if s.last() == '/' {
        file_name(s.drop_last())
    } else {
        let start = last_separator(s) + 1;
        let seg = s.skip(start);
        proof {
            lemma_last_separator_bounds(s);
        }
        if seg == seq!['.'] {
            file_name(s.take(start))
        } else if seg == seq!['.', '.'] {
            None
        } else {
            Some(seg)
        }
    }
}

/// A single path component: not empty, no `/`, and neither `.` nor `..`.
pub open spec fn is_plain_name(name: Seq<char>) -> bool {
    &&& name.len() > 0
    &&& forall|i: int| 0 <= i < name.len() ==> name[i] != '/'
    &&& name != seq!['.']
    &&& name != seq!['.', '.']
}

/// The `.bashrc` in `home` when it exists, else the `.bash_profile` there.
pub open spec fn bash_rc_path(home: Seq<char>, bashrc_exists: bool) -> Seq<char> {
    if bashrc_exists {
        joined(home, ".bashrc"@)
    } else {
        joined(home, ".bash_profile"@)
    }
}

/// Where the last separator of `s` stands, and that none follows it.
pub proof fn lemma_last_separator_bounds(s: Seq<char>)
    ensures
        -1 <= last_separator(s) < s.len(),
        last_separator(s) >= 0 ==> s[last_separator(s)] == '/',
        forall|i: int| last_separator(s) < i < s.len() ==> s[i] != '/',
    decreases s.len(),
{
    if s.len() > 0 && s.last() != '/' {
        lemma_last_separator_bounds(s.drop_last());
        assert forall|i: int| last_separator(s) < i < s.len() implies s[i] != '/' by {
            if i < s.len() - 1 {
                assert(s[i] == s.drop_last()[i]);
            }
        }
    }
}

proof fn lemma_last_separator_append(a: Seq<char>, b: Seq<char>)
    requires
        forall|i: int| 0 <= i < b.len() ==> b[i] != '/',
    ensures
        last_separator(a + b) == last_separator(a),
    decreases b.len(),
{
    if b.len() == 0 {
        assert(a + b == a);
    } else {
        assert((a + b).drop_last() == a + b.drop_last());
        lemma_last_separator_append(a, b.drop_last());
    }
}

/// The last component of a path made by joining a plain name onto any base
/// is that name.
pub proof fn lemma_file_name_of_joined(base: Seq<char>, name: Seq<char>)
    requires
        is_plain_name(name),
    ensures
        file_name(joined(base, name)) == Some(name),
{
    let prefix = if base.len() == 0 || base.last() == '/' {
        base
    } else {
        base + seq!['/']
    };
    assert(joined(base, name) == prefix + name);
    let s = prefix + name;
    lemma_last_separator_append(prefix, name);
    lemma_last_separator_bounds(prefix);
    if prefix.len() > 0 {
        assert(prefix.last() == '/');
        assert(last_separator(prefix) == prefix.len() - 1);
    }
    assert(last_separator(s) + 1 == prefix.len());
    assert(s.last() == name.last());
    assert(s.skip(prefix.len() as int) == name);
}

/// A path separator on Windows.
pub open spec fn is_windows_separator(c: char) -> bool {
    c == '/' || c == '\\'
}

/// A bare drive such as `C:`.
pub open spec fn is_bare_drive(s: Seq<char>) -> bool {
    &&& s.len() == 2
    &&& (65 <= (s[0] as u32) <= 90 || 97 <= (s[0] as u32) <= 122)
    &&& s[1] == ':'
}

/// The path begins like a verbatim Windows path (`\\?\`, with either separator).
pub open spec fn looks_verbatim(s: Seq<char>) -> bool {
    &&& s.len() >= 4
    &&& is_windows_separator(s[0])
    &&& is_windows_separator(s[1])
    &&& s[2] == '?'
    &&& is_windows_separator(s[3])
}

/// A relative path with neither a root nor a drive or other prefix.
pub open spec fn is_plain_relative(rel: Seq<char>) -> bool {
    &&& rel.len() >= 2
    &&& !is_windows_separator(rel[0])
    &&& rel[1] != ':'
}

/// A plain relative path `rel` joined onto `base`, which does not look
/// verbatim, as `Path::join` does on Windows: a `\` is put between them
/// unless `base` is empty, ends in a separator, or is a bare drive.
pub open spec fn windows_joined(base: Seq<char>, rel: Seq<char>) -> Seq<char> {
    if base.len() > 0 && !is_windows_separator(base.last()) && !is_bare_drive(base) {
        base + seq!['\\'] + rel
    } else {
        base + rel
    }
}

/// Whether `s` begins like a verbatim Windows path.
pub fn is_verbatim_like(s: &str) -> (r: bool)
    ensures
        r == looks_verbatim(s@),
{
    let c = chars_of(s);
    c.len() >= 4 && (c[0] == '/' || c[0] == '\\') && (c[1] == '/' || c[1] == '\\') && c[2] == '?'
        && (c[3] == '/' || c[3] == '\\')
}

/// The plain relative path `rel` joined onto `base` as `Path::join` does on
/// Windows, for a `base` that does not look verbatim (see `windows_joined`).
pub fn join_windows_path(base: &str, rel: &str) -> (r: String)
    requires
        is_plain_relative(rel@),
        !looks_verbatim(base@),
    ensures
        r@ == windows_joined(base@, rel@),
{
    let b = chars_of(base);
    let n = b.len();
    let bare_drive = n == 2 && ((65 <= b[0] as u32 && b[0] as u32 <= 90) || (97 <= b[0] as u32
        && b[0] as u32 <= 122)) && b[1] == ':';
    if n > 0 && b[n - 1] != '/' && b[n - 1] != '\\' && !bare_drive {
        proof {
            reveal_strlit("\\");
        }
        concat3(base, "\\", rel)
    } else {
        concat2(base, rel)
    }
}

/// `base` joined with `rel`, as `Path::join` does on Unix.
pub fn join_path(base: &str, rel: &str) -> (r: String)
    ensures
        r@ == joined(base@, rel@),
{
    let b = chars_of(base);
    let r = chars_of(rel);
    if r.len() > 0 && r[0] == '/' {
        String::from_str(rel)
    } else if b.len() == 0 || b[b.len() - 1] == '/' {
        concat2(base, rel)
    } else {
        proof {
            reveal_strlit("/");
        }
        concat3(base, "/", rel)
    }
}

/// The last component of the path `path` (see `file_name`).
pub fn path_file_name(path: &str) -> (r: Option<String>)
    ensures
        r matches Some(name) ==> file_name(path@) == Some(name@),
        r is None ==> file_name(path@) is None,
{
    let s = chars_of(path);
    let mut end: usize = s.len();
    assert(s@.take(end as int) == s@);
    loop
        invariant
            end <= s.len(),
            file_name(path@) == file_name(s@.take(end as int)),
            s@ == path@,
        decreases end,
    {
        let ghost t = s@.take(end as int);
        if end == 0 {
            return None;
        }
        if s[end - 1] == '/' {
            assert(t.drop_last() == s@.take(end - 1));
            end = end - 1;
        } else {
            let mut start: usize = end - 1;
            assert(t.drop_last() == s@.take(start as int));
            while start > 0 && s[start - 1] != '/'
                invariant
                    start < end <= s.len(),
                    last_separator(t) == last_separator(s@.take(start as int)),
                    t == s@.take(end as int),
                decreases start,
            {
                assert(s@.take(start as int).drop_last() == s@.take(start - 1));
                start = start - 1;
            }
            proof {
                if start > 0 {
                    assert(s@.take(start as int).last() == '/');
                } else {
                    assert(s@.take(0) =~= Seq::<char>::empty());
                }
            }
            assert(last_separator(t) + 1 == start);
            let ghost seg = t.skip(start as int);
            if end - start == 1 && s[start] == '.' {
                assert(seg =~= seq!['.']);
                assert(t.take(start as int) == s@.take(start as int));
                end = start;
            } else if end - start == 2 && s[start] == '.' && s[start + 1] == '.' {
                assert(seg =~= seq!['.', '.']);
                return None;
            } else {
                proof {
                    if seg =~= seq!['.'] {
                        assert(seg[0] == s@[start as int]);
                    }
                    if seg =~= seq!['.', '.'] {
                        assert(seg[0] == s@[start as int]);
                        assert(seg[1] == s@[start + 1]);
                    }
                }
                let name = path.substring_char(start, end);
                assert(name@ == seg);
                return Some(String::from_str(name));
            }
        }
    }
}

/// The bash start-up file to extend: `home/.bashrc` when it exists, else
/// `home/.bash_profile`.
pub fn bash_rc(home: &str, bashrc_exists: bool) -> (r: String)
    ensures
        r@ == bash_rc_path(home@, bashrc_exists),
{
    if bashrc_exists {
        join_path(home, ".bashrc")
    } else {
        join_path(home, ".bash_profile")
    }
}

} // verus!
