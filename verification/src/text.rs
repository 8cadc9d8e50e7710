use vstd::prelude::*;

verus! {

broadcast use vstd::string::group_string_axioms;

/// `p` occurs in `s` starting at index `i`.
pub open spec fn occurs_at(s: Seq<char>, p: Seq<char>, i: int) -> bool {
    0 <= i && i + p.len() <= s.len() && s.subrange(i, i + p.len()) == p
}

/// `p` occurs somewhere in `s`.
pub open spec fn contains_text(s: Seq<char>, p: Seq<char>) -> bool {
    exists|i: int| occurs_at(s, p, i)
}

/// The greatest index below `k` at which `p` occurs in `s`, if any.
pub open spec fn last_occurrence_below(s: Seq<char>, p: Seq<char>, k: int) -> Option<int>
    decreases k,
{
    if k <= 0 {
        None
    } else if occurs_at(s, p, k - 1) {
        Some(k - 1)
    } else {
        last_occurrence_below(s, p, k - 1)
    }
}

/// The index of the last occurrence of `p` in `s`, if any.
pub open spec fn last_occurrence(s: Seq<char>, p: Seq<char>) -> Option<int> {
    last_occurrence_below(s, p, s.len() + 1int)
}

/// The index of the first line feed at or after `i`, or the length of `s`.
pub open spec fn newline_from(s: Seq<char>, i: int) -> int
    decreases s.len() - i,
{
    if i >= s.len() || s[i] == '\n' {
        i
    } else {
        newline_from(s, i + 1)
    }
}

/// The first line of `s`, without its line feed.
pub open spec fn first_line(s: Seq<char>) -> Seq<char> {
    s.take(newline_from(s, 0))
}

/// Unicode's White_Space property, which `char::is_whitespace` tests.
pub open spec fn is_white_space(c: char) -> bool {
    ||| '\u{9}' <= c <= '\u{d}'
    ||| c == ' '
    ||| c == '\u{85}'
    ||| c == '\u{a0}'
    ||| c == '\u{1680}'
    ||| '\u{2000}' <= c <= '\u{200a}'
    ||| c == '\u{2028}'
    ||| c == '\u{2029}'
    ||| c == '\u{202f}'
    ||| c == '\u{205f}'
    ||| c == '\u{3000}'
}

/// The first index in `i..end` that holds no white space, or `end`.
pub open spec fn skip_white_from(s: Seq<char>, i: int, end: int) -> int
    decreases end - i,
{
    if i < end && is_white_space(s[i]) {
        skip_white_from(s, i + 1, end)
    } else {
        i
    }
}

/// The end of `s[start..j]` once its trailing white space is removed.
pub open spec fn skip_white_back(s: Seq<char>, start: int, j: int) -> int
    decreases j - start,
{
    if j > start && is_white_space(s[j - 1]) {
        skip_white_back(s, start, j - 1)
    } else {
        j
    }
}

/// `s` without leading and trailing white space.
pub open spec fn trimmed(s: Seq<char>) -> Seq<char> {
    let a = skip_white_from(s, 0, s.len() as int);
    s.subrange(a, skip_white_back(s, a, s.len() as int))
}

/// The text after which SpaceEngine's log names the selected body.
pub open spec fn body_marker() -> Seq<char> {
    "Body full def:"@
}

/// The code of the selected body that a SpaceEngine log ends with: the
/// first line after the last "Body full def:", trimmed; none when the marker
/// is absent or nothing follows it.
pub open spec fn body_code(log: Seq<char>) -> Option<Seq<char>> {
    match last_occurrence(log, body_marker()) {
        None => None,
        Some(i) => {
            let rest = log.skip(i + body_marker().len());
            if rest.len() == 0 {
                None
            } else {
                Some(trimmed(first_line(rest)))
            }
        },
    }
}

/// The characters of `s`, in order.
fn chars_of(s: &str) -> (v: Vec<char>)
    ensures
        v@ == s@,
{
    let mut v: Vec<char> = Vec::new();
    for c in it: s.chars()
        invariant
            v@ == it.seq().take(it.index() as int),
    {
        v.push(c);
    }
    v
}

/// Whether `p` occurs in `s` at index `i`.
fn matches_at(s: &Vec<char>, p: &Vec<char>, i: usize) -> (r: bool)
    ensures
        r == occurs_at(s@, p@, i as int),
{
    if i > s.len() || p.len() > s.len() - i {
        return false;
    }
    let mut j: usize = 0;
    while j < p.len()
        invariant
            i + p.len() <= s.len(),
            j <= p.len(),
            forall|k: int| 0 <= k < j ==> s@[i + k] == p@[k],
        decreases p.len() - j,
    {
        if s[i + j] != p[j] {
            assert(s@.subrange(i as int, i + p.len())[j as int] != p@[j as int]);
            return false;
        }
        j = j + 1;
    }
    assert(s@.subrange(i as int, i + p.len()) =~= p@);
    true
}

/// Whether `c` is white space, as `char::is_whitespace` decides.
pub fn is_whitespace_char(c: char) -> (r: bool)
    ensures
        r == is_white_space(c),
{
    ('\u{9}' <= c && c <= '\u{d}') || c == ' ' || c == '\u{85}' || c == '\u{a0}' || c
        == '\u{1680}' || ('\u{2000}' <= c && c <= '\u{200a}') || c == '\u{2028}' || c
        == '\u{2029}' || c == '\u{202f}' || c == '\u{205f}' || c == '\u{3000}'
}

/// The index of the last occurrence of `p` in `s`.
fn find_last(s: &Vec<char>, p: &Vec<char>) -> (r: Option<usize>)
    requires
        p.len() > 0,
    ensures
        match r {
            Some(i) => last_occurrence(s@, p@) == Some(i as int) && occurs_at(s@, p@, i as int),
            None => last_occurrence(s@, p@) is None,
        },
{
    if p.len() > s.len() {
        let ghost n: int = s@.len() + 1int;
        assert forall|k: int| k <= n implies last_occurrence_below(s@, p@, k) is None by {
            lemma_none_below_too_long(s@, p@, k);
        }
        return None;
    }
    let mut k: usize = s.len() - p.len() + 1;
    assert forall|j: int| k <= j <= s@.len() + 1 implies last_occurrence_below(s@, p@, j)
        == last_occurrence_below(s@, p@, k as int) by {
        lemma_below_unchanged(s@, p@, k as int, j);
    }
    while k > 0
        invariant
            0 < p.len() <= s.len(),
            k <= s.len() - p.len() + 1,
            last_occurrence(s@, p@) == last_occurrence_below(s@, p@, k as int),
        decreases k,
    {
        if matches_at(s, p, k - 1) {
            return Some(k - 1);
        }
        k = k - 1;
    }
    None
}

/// Past the end of possible matches, lowering the bound changes nothing.
proof fn lemma_below_unchanged(s: Seq<char>, p: Seq<char>, k: int, j: int)
    requires
        s.len() - p.len() + 1 <= k <= j,
    ensures
        last_occurrence_below(s, p, j) == last_occurrence_below(s, p, k),
    decreases j - k,
{
    if j > k {
        assert(!occurs_at(s, p, j - 1));
        lemma_below_unchanged(s, p, k, j - 1);
    }
}

/// A pattern longer than the text occurs nowhere.
proof fn lemma_none_below_too_long(s: Seq<char>, p: Seq<char>, k: int)
    requires
        p.len() > s.len(),
    ensures
        last_occurrence_below(s, p, k) is None,
    decreases k,
{
    if k > 0 {
        lemma_none_below_too_long(s, p, k - 1);
    }
}

/// The characters of `s` from index `lo` up to `hi`.
fn copy_range(s: &Vec<char>, lo: usize, hi: usize) -> (r: Vec<char>)
    requires
        lo <= hi <= s.len(),
    ensures
        r@ == s@.subrange(lo as int, hi as int),
{
    let mut r: Vec<char> = Vec::new();
    let mut i = lo;
    while i < hi
        invariant
            lo <= i <= hi <= s.len(),
            r@ == s@.subrange(lo as int, i as int),
        decreases hi - i,
    {
        r.push(s[i]);
        i = i + 1;
        assert(r@ =~= s@.subrange(lo as int, i as int));
    }
    r
}

/// The first line of `s`, without its line feed.
fn first_line_of(s: &Vec<char>) -> (r: Vec<char>)
    ensures
        r@ == first_line(s@),
        r@.len() <= s@.len(),
        r@ == s@.take(r@.len() as int),
{
    let mut e: usize = 0;
    while e < s.len() && s[e] != '\n'
        invariant
            e <= s.len(),
            newline_from(s@, e as int) == newline_from(s@, 0),
        decreases s.len() - e,
    {
        e = e + 1;
    }
    let r = copy_range(s, 0, e);
    assert(r@ =~= s@.take(e as int));
    r
}

/// The bounds of `s` once leading and trailing white space are removed.
fn trim_bounds(s: &Vec<char>) -> (r: (usize, usize))
    ensures
        r.0 <= r.1 <= s.len(),
        s@.subrange(r.0 as int, r.1 as int) == trimmed(s@),
{
    let n = s.len();
    let mut a: usize = 0;
    while a < n && is_whitespace_char(s[a])
        invariant
            n == s.len(),
            a <= n,
            skip_white_from(s@, a as int, n as int) == skip_white_from(s@, 0, n as int),
        decreases n - a,
    {
        a = a + 1;
    }
    let mut b: usize = n;
    while b > a && is_whitespace_char(s[b - 1])
        invariant
            n == s.len(),
            a <= b <= n,
            a == skip_white_from(s@, 0, n as int),
            skip_white_back(s@, a as int, b as int) == skip_white_back(s@, a as int, n as int),
        decreases b,
    {
        b = b - 1;
    }
    (a, b)
}

/// Extracts the code of the selected body from the text of SpaceEngine's
/// log: the first line after the last "Body full def:", with surrounding
/// white space removed. None when the marker is absent or ends the text.
pub fn parse_body_code(log: &str) -> (code: Option<String>)
    ensures
        code matches Some(c) ==> body_code(log@) == Some(c@),
        code is None <==> body_code(log@) is None,
{
    let s = chars_of(log);
    let marker = chars_of("Body full def:");
    proof {
        reveal_strlit("Body full def:");
    }
    match find_last(&s, &marker) {
        None => None,
        Some(i) => {
            assert(occurs_at(s@, marker@, i as int));
            let n = s.len();
            assert(i + marker.len() <= n);
            let start = i + marker.len();
            if start == s.len() {
                assert(s@.skip(start as int).len() == 0);
                return None;
            }
            let rest = copy_range(&s, start, s.len());
            assert(rest@ =~= s@.skip(start as int));
            let line = first_line_of(&rest);
            let (a, b) = trim_bounds(&line);
            assert(line@ =~= s@.subrange(start as int, start + line.len()));
            assert(s@.subrange(start + a, start + b) =~= line@.subrange(a as int, b as int));
            let text = log.substring_char(start + a, start + b);
            Some(String::from_str(text))
        },
    }
}

/// Whether a window title names SpaceEngine.
pub fn title_names_space_engine(title: &str) -> (r: bool)
    ensures
        r == contains_text(title@, "SpaceEngine"@),
{
    let s = chars_of(title);
    let p = chars_of("SpaceEngine");
    let mut i: usize = 0;
    while i < s.len()
        invariant
            s@ == title@,
            p@ == "SpaceEngine"@,
            forall|j: int| 0 <= j < i ==> !occurs_at(s@, p@, j),
        decreases s.len() - i,
    {
        if matches_at(&s, &p, i) {
            assert(occurs_at(title@, "SpaceEngine"@, i as int));
            return true;
        }
        i = i + 1;
    }
    if matches_at(&s, &p, i) {
        assert(occurs_at(title@, "SpaceEngine"@, i as int));
        return true;
    }
    assert forall|j: int| !occurs_at(s@, p@, j) by {
        if j > i {
            assert(s@.len() < j + p@.len() || p@.len() == 0 || j > s@.len());
        }
    }
    false
}

proof fn lemma_last_occurrence_below(s: Seq<char>, p: Seq<char>, k: int)
    ensures
        match last_occurrence_below(s, p, k) {
            Some(i) => i < k && occurs_at(s, p, i) && forall|j: int| i < j < k ==> !occurs_at(s, p, j),
            None => forall|j: int| j < k ==> !occurs_at(s, p, j),
        },
    decreases k,
{
    if k > 0 {
        lemma_last_occurrence_below(s, p, k - 1);
    }
}

/// The last occurrence is an occurrence with none after it, and there is
/// none exactly when the pattern occurs nowhere.
pub proof fn law_last_occurrence(s: Seq<char>, p: Seq<char>)
    ensures
        match last_occurrence(s, p) {
            Some(i) => occurs_at(s, p, i) && forall|j: int| j > i ==> !occurs_at(s, p, j),
            None => !contains_text(s, p),
        },
{
    lemma_last_occurrence_below(s, p, s.len() + 1int);
    assert forall|j: int| j > s.len() implies !occurs_at(s, p, j) by {}
}

proof fn lemma_newline_from(s: Seq<char>, i: int)
    requires
        0 <= i <= s.len(),
    ensures
        i <= newline_from(s, i) <= s.len(),
        forall|j: int| i <= j < newline_from(s, i) ==> s[j] != '\n',
    decreases s.len() - i,
{
    if i < s.len() && s[i] != '\n' {
        lemma_newline_from(s, i + 1);
    }
}

proof fn lemma_skip_white_from(s: Seq<char>, i: int, end: int)
    requires
        0 <= i <= end <= s.len(),
    ensures
        i <= skip_white_from(s, i, end) <= end,
        skip_white_from(s, i, end) < end ==> !is_white_space(s[skip_white_from(s, i, end)]),
    decreases end - i,
{
    if i < end && is_white_space(s[i]) {
        lemma_skip_white_from(s, i + 1, end);
    }
}

proof fn lemma_skip_white_back(s: Seq<char>, start: int, j: int)
    requires
        0 <= start <= j <= s.len(),
    ensures
        start <= skip_white_back(s, start, j) <= j,
        skip_white_back(s, start, j) > start ==> !is_white_space(s[skip_white_back(s, start, j) - 1]),
    decreases j - start,
{
    if j > start && is_white_space(s[j - 1]) {
        lemma_skip_white_back(s, start, j - 1);
    }
}

/// A body code read from the log is one line, with no white space at
/// either end.
pub proof fn law_body_code_is_trimmed_line(log: Seq<char>)
    ensures
        body_code(log) matches Some(c) ==> {
            &&& forall|k: int| 0 <= k < c.len() ==> c[k] != '\n'
            &&& c.len() > 0 ==> !is_white_space(c[0]) && !is_white_space(c.last())
        },
{
    law_last_occurrence(log, body_marker());
    if let Some(i) = last_occurrence(log, body_marker()) {
        let rest = log.skip(i + body_marker().len());
        if rest.len() > 0 {
            lemma_newline_from(rest, 0);
            let line = first_line(rest);
            let a = skip_white_from(line, 0, line.len() as int);
            lemma_skip_white_from(line, 0, line.len() as int);
            lemma_skip_white_back(line, a, line.len() as int);
            let c = trimmed(line);
            assert forall|k: int| 0 <= k < c.len() implies c[k] != '\n' by {
                assert(c[k] == rest[a + k]);
            }
        }
    }
}

} // verus!
