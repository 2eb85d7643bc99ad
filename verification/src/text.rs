//! Character-level text operations on the views of `&str` and `String`:
//! whitespace, substring search and concatenation.
use vstd::prelude::*;

verus! {

/// Unicode `White_Space`: the characters that `char::is_whitespace` accepts.
pub open spec fn is_whitespace(c: char) -> bool {
    let u = c as u32;
    ||| 0x09 <= u <= 0x0d
    ||| u == 0x20
    ||| u == 0x85
    ||| u == 0xa0
    ||| u == 0x1680
    ||| 0x2000 <= u <= 0x200a
    ||| u == 0x2028
    ||| u == 0x2029
    ||| u == 0x202f
    ||| u == 0x205f
    ||| u == 0x3000
}

/// The index of the first character at or after `i` that is not whitespace
/// (the length of `s` when there is none).
pub open spec fn skip_whitespace_from(s: Seq<char>, i: int) -> int
    decreases s.len() - i,
{
    if 0 <= i < s.len() && is_whitespace(s[i]) {
        skip_whitespace_from(s, i + 1)
    } else {
        i
    }
}

/// `s` without its leading whitespace, as `str::trim_start` gives it.
pub open spec fn trim_start(s: Seq<char>) -> Seq<char> {
    s.skip(skip_whitespace_from(s, 0))
}

/// The index just past the last character of `s` that is not whitespace
/// (0 when there is none).
pub open spec fn trim_end_len(s: Seq<char>) -> nat
    decreases s.len(),
{
    if s.len() > 0 && is_whitespace(s.last()) {
        trim_end_len(s.drop_last())
    } else {
        s.len()
    }
}

/// `s` without leading and trailing whitespace, as `str::trim` gives it.
pub open spec fn trim(s: Seq<char>) -> Seq<char> {
    trim_start(s.take(trim_end_len(s) as int))
}

/// `pat` occurs in `s` starting at index `i`.
pub open spec fn occurs_at(s: Seq<char>, pat: Seq<char>, i: int) -> bool {
    &&& 0 <= i
    &&& i + pat.len() <= s.len()
    &&& s.subrange(i, i + pat.len()) == pat
}

/// The first index at or after `i` where `pat` occurs in `s`.
pub open spec fn find_from(s: Seq<char>, pat: Seq<char>, i: int) -> Option<int>
    decreases s.len() + 1 - i,
{
    if i < 0 || i + pat.len() > s.len() {
        None
    } else if occurs_at(s, pat, i) {
        Some(i)
    } else {
        find_from(s, pat, i + 1)
    }
}

/// The first index where `pat` occurs in `s`, as `str::find` gives it
/// (counted in characters).
pub open spec fn find(s: Seq<char>, pat: Seq<char>) -> Option<int> {
    find_from(s, pat, 0)
}

/// `pat` occurs somewhere in `s`.
pub open spec fn contains(s: Seq<char>, pat: Seq<char>) -> bool {
    exists|i: int| occurs_at(s, pat, i)
}

/// What `find_from` returns is the first occurrence at or after `i`.
pub proof fn lemma_find_from(s: Seq<char>, pat: Seq<char>, i: int)
    requires
        0 <= i,
    ensures
        find_from(s, pat, i) matches Some(k) ==> {
            &&& i <= k
            &&& occurs_at(s, pat, k)
            &&& forall|j: int| i <= j < k ==> !occurs_at(s, pat, j)
        },
        find_from(s, pat, i) is None ==> forall|j: int| i <= j ==> !occurs_at(s, pat, j),
    decreases s.len() + 1 - i,
{
    if i + pat.len() > s.len() {
    } else if occurs_at(s, pat, i) {
    } else {
        lemma_find_from(s, pat, i + 1);
        assert forall|j: int| i <= j && find_from(s, pat, i) is None implies !occurs_at(
            s,
            pat,
            j,
        ) by {
            if j > i {
            }
        }
    }
}

/// `find` gives the first occurrence, and `None` exactly when there is none.
pub proof fn lemma_find(s: Seq<char>, pat: Seq<char>)
    ensures
        find(s, pat) matches Some(k) ==> {
            &&& occurs_at(s, pat, k)
            &&& forall|j: int| 0 <= j < k ==> !occurs_at(s, pat, j)
        },
        find(s, pat) is None <==> !contains(s, pat),
{
    lemma_find_from(s, pat, 0);
    if find(s, pat) is None {
        assert forall|j: int| !occurs_at(s, pat, j) by {
            if j < 0 {
            }
        }
    }
}

/// When `pat` occurs at `k` and nowhere before, `find` gives `k`.
pub proof fn lemma_find_first(s: Seq<char>, pat: Seq<char>, k: int)
    requires
        occurs_at(s, pat, k),
        forall|j: int| 0 <= j < k ==> !occurs_at(s, pat, j),
    ensures
        find(s, pat) == Some(k),
{
    lemma_find(s, pat);
    match find(s, pat) {
        Some(k2) => {
            if k2 < k {
            } else if k2 > k {
            }
        },
        None => {},
    }
}

/// Whether `c` is whitespace in the sense of `char::is_whitespace`.
pub fn is_whitespace_char(c: char) -> (b: bool)
    ensures
        b == is_whitespace(c),
{
    let u = c as u32;
    (0x09 <= u && u <= 0x0d) || u == 0x20 || u == 0x85 || u == 0xa0 || u == 0x1680 || (0x2000
        <= u && u <= 0x200a) || u == 0x2028 || u == 0x2029 || u == 0x202f || u == 0x205f || u
        == 0x3000
}

/// The characters of `s`, in order.
pub fn chars_of(s: &str) -> (out: Vec<char>)
    ensures
        out@ == s@,
{
    let mut out: Vec<char> = Vec::new();
    for c in it: s.chars()
        invariant
            it.seq() == s@,
            out@ == it.seq().take(it.index() as int),
    {
        assert(it.seq().take(it.index() + 1) == it.seq().take(it.index() as int).push(c));
        out.push(c);
    }
    out
}

/// The index of the first character of `s` at or after `from` that is not whitespace.
pub fn skip_whitespace(s: &Vec<char>, from: usize) -> (i: usize)
    requires
        from <= s.len(),
    ensures
        i == skip_whitespace_from(s@, from as int),
        from <= i <= s.len(),
{
    let mut i = from;
    while i < s.len() && is_whitespace_char(s[i])
        invariant
            from <= i <= s.len(),
            skip_whitespace_from(s@, from as int) == skip_whitespace_from(s@, i as int),
        decreases s.len() - i,
    {
        i = i + 1;
    }
    i
}

/// Whether `pat` occurs in `s` at index `i`.
pub fn occurs_at_index(s: &Vec<char>, pat: &Vec<char>, i: usize) -> (b: bool)
    ensures
        b == occurs_at(s@, pat@, i as int),
{
    if i > s.len() || pat.len() > s.len() - i {
        return false;
    }
    let mut j: usize = 0;
    while j < pat.len()
        invariant
            i + pat.len() <= s.len(),
            j <= pat.len(),
            s@.subrange(i as int, i + j) == pat@.take(j as int),
        decreases pat.len() - j,
    {
        if s[i + j] != pat[j] {
            assert(s@.subrange(i as int, i + pat.len())[j as int] != pat@[j as int]);
            return false;
        }
        assert(s@.subrange(i as int, i + j + 1) == s@.subrange(i as int, i + j).push(s@[i + j]));
        assert(pat@.take(j + 1) == pat@.take(j as int).push(pat@[j as int]));
        j = j + 1;
    }
    assert(pat@.take(pat.len() as int) == pat@);
    true
}

/// The first index where `pat` occurs in `s`, counted in characters.
pub fn find_chars(s: &Vec<char>, pat: &Vec<char>) -> (r: Option<usize>)
    ensures
        r matches Some(k) ==> find(s@, pat@) == Some(k as int),
        r is None ==> find(s@, pat@) is None,
{
    if pat.len() > s.len() {
        return None;
    }
    let last = s.len() - pat.len();
    let mut i: usize = 0;
    loop
        invariant
            last == s.len() - pat.len(),
            pat.len() <= s.len(),
            i <= last,
            find(s@, pat@) == find_from(s@, pat@, i as int),
        decreases last - i,
    {
        if occurs_at_index(s, pat, i) {
            return Some(i);
        }
        if i == last {
            assert(find_from(s@, pat@, i + 1) is None);
            return None;
        }
        i = i + 1;
    }
}

/// Whether `needle` occurs in `haystack`, as `str::contains` with a string pattern.
pub fn contains_str(haystack: &str, needle: &str) -> (b: bool)
    ensures
        b == contains(haystack@, needle@),
{
    let h = chars_of(haystack);
    let n = chars_of(needle);
    let r = find_chars(&h, &n);
    proof {
        lemma_find(haystack@, needle@);
    }
    r.is_some()
}

/// Whether `a` and `b` hold the same characters.
pub fn str_eq(a: &str, b: &str) -> (r: bool)
    ensures
        r == (a@ == b@),
{
    let x = chars_of(a);
    let y = chars_of(b);
    if x.len() != y.len() {
        return false;
    }
    let mut i: usize = 0;
    while i < x.len()
        invariant
            x.len() == y.len(),
            x@ == a@,
            y@ == b@,
            i <= x.len(),
            x@.take(i as int) == y@.take(i as int),
        decreases x.len() - i,
    {
        if x[i] != y[i] {
            assert(x@[i as int] != y@[i as int]);
            assert(x@ != y@);
            return false;
        }
        assert(x@.take(i + 1) == x@.take(i as int).push(x@[i as int]));
        assert(y@.take(i + 1) == y@.take(i as int).push(y@[i as int]));
        i = i + 1;
    }
    assert(x@.take(i as int) == x@);
    assert(y@.take(i as int) == y@);
    true
}

/// The length of `s` without its trailing whitespace (see `trim_end_len`).
pub fn trim_end_index(s: &Vec<char>) -> (end: usize)
    ensures
        end == trim_end_len(s@),
        end <= s.len(),
{
    let mut end = s.len();
    assert(s@.take(end as int) == s@);
    while end > 0 && is_whitespace_char(s[end - 1])
        invariant
            end <= s.len(),
            trim_end_len(s@) == trim_end_len(s@.take(end as int)),
        decreases end,
    {
        assert(s@.take(end as int).drop_last() == s@.take(end - 1));
        end = end - 1;
    }
    end
}

/// `s` without leading and trailing whitespace, as `str::trim` gives it.
pub fn trim_str(s: &str) -> (r: String)
    ensures
        r@ == trim(s@),
{
    let c = chars_of(s);
    let end = trim_end_index(&c);
    let ghost t = s@.take(end as int);
    let mut start: usize = 0;
    while start < end && is_whitespace_char(c[start])
        invariant
            start <= end <= c.len(),
            c@ == s@,
            t == s@.take(end as int),
            skip_whitespace_from(t, 0) == skip_whitespace_from(t, start as int),
        decreases end - start,
    {
        start = start + 1;
    }
    assert(s@.subrange(start as int, end as int) == t.skip(start as int));
    String::from_str(s.substring_char(start, end))
}

/// `a` followed by `b`.
pub fn concat2(a: &str, b: &str) -> (r: String)
    ensures
        r@ == a@ + b@,
{
    let mut r = String::from_str(a);
    r.append(b);
    r
}

/// `a`, `b` and `c`, one after the other.
pub fn concat3(a: &str, b: &str, c: &str) -> (r: String)
    ensures
        r@ == a@ + b@ + c@,
{
    let mut r = String::from_str(a);
    r.append(b);
    r.append(c);
    r
}

/// `a`, `b`, `c` and `d`, one after the other.
pub fn concat4(a: &str, b: &str, c: &str, d: &str) -> (r: String)
    ensures
        r@ == a@ + b@ + c@ + d@,
{
    let mut r = String::from_str(a);
    r.append(b);
    r.append(c);
    r.append(d);
    r
}

/// `a`, `b`, `c`, `d` and `e`, one after the other.
pub fn concat5(a: &str, b: &str, c: &str, d: &str, e: &str) -> (r: String)
    ensures
        r@ == a@ + b@ + c@ + d@ + e@,
{
    let mut r = String::from_str(a);
    r.append(b);
    r.append(c);
    r.append(d);
    r.append(e);
    r
}

} // verus!
