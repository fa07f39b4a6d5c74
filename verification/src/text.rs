//! Character-level text helpers shared by the rest of the library: views of
//! strings as `Seq<char>`, trimming, line and word splitting, searching,
//! joining, decimal rendering and lexicographic order.
use vstd::prelude::*;
use vstd::string::*;

verus! {

// ---------------------------------------------------------------------------
// Conversions between `&str`/`String` and vectors of characters
// ---------------------------------------------------------------------------

/// The characters of `s`, in order.
pub fn chars_of(s: &str) -> (v: Vec<char>)
    ensures
        v@ == s@,
{
    let mut v: Vec<char> = Vec::new();
    for c in it: s.chars()
        invariant
            v@ == it.seq().take(it.index() as int),
    {
        v.push(c);
    }
    v
}

/// Appends one character: `String::push`.
#[verifier::external_body]
pub(crate) fn push_char(s: &mut String, c: char)
    ensures
        final(s)@ == old(s)@.push(c),
{
    s.push(c)
}

/// Removes the last character: `String::pop`.
#[verifier::external_body]
pub(crate) fn pop_char(s: &mut String) -> (c: Option<char>)
    ensures
        old(s)@.len() == 0 ==> c is None && final(s)@ == old(s)@,
        old(s)@.len() > 0 ==> c == Some(old(s)@.last()) && final(s)@ == old(s)@.drop_last(),
{
    s.pop()
}

/// A string holding exactly the characters of `v`.
pub fn string_of(v: &Vec<char>) -> (s: String)
    ensures
        s@ == v@,
{
    let mut s = String::new();
    let mut i: usize = 0;
    while i < v.len()
        invariant
            i <= v.len(),
            s@ == v@.take(i as int),
        decreases v.len() - i,
    {
        push_char(&mut s, v[i]);
        i = i + 1;
        assert(s@ =~= v@.take(i as int));
    }
    assert(v@.take(v.len() as int) =~= v@);
    s
}

/// An owned copy of a string slice.
pub fn owned(s: &str) -> (r: String)
    ensures
        r@ == s@,
{
    s.to_owned()
}

/// `a + b` as a new string.
pub fn concat2(a: &str, b: &str) -> (r: String)
    ensures
        r@ == a@ + b@,
{
    let mut r = a.to_owned();
    r.append(b);
    r
}

/// `a + b + c` as a new string.
pub fn concat3(a: &str, b: &str, c: &str) -> (r: String)
    ensures
        r@ == a@ + b@ + c@,
{
    let mut r = a.to_owned();
    r.append(b);
    r.append(c);
    r
}

/// Character-wise equality of two string slices.
pub fn str_eq(a: &str, b: &str) -> (r: bool)
    ensures
        r == (a@ == b@),
{
    let x = chars_of(a);
    let y = chars_of(b);
    seq_eq(&x, &y)
}

/// Element-wise equality of two character vectors.
pub fn seq_eq(a: &Vec<char>, b: &Vec<char>) -> (r: bool)
    ensures
        r == (a@ == b@),
{
    if a.len() != b.len() {
        return false;
    }
    let mut i: usize = 0;
    while i < a.len()
        invariant
            i <= a.len(),
            a.len() == b.len(),
            forall|k: int| 0 <= k < i ==> a@[k] == b@[k],
        decreases a.len() - i,
    {
        if a[i] != b[i] {
            return false;
        }
        i = i + 1;
    }
    assert(a@ =~= b@);
    true
}

// ---------------------------------------------------------------------------
// Whitespace and trimming
// ---------------------------------------------------------------------------

/// Unicode `White_Space`, the set that `char::is_whitespace` documents.
pub open spec fn is_space(c: char) -> bool {
    ||| c == '\t'
    ||| c == '\n'
    ||| c == '\u{0B}'
    ||| c == '\u{0C}'
    ||| c == '\r'
    ||| c == ' '
    ||| c == '\u{85}'
    ||| c == '\u{A0}'
    ||| c == '\u{1680}'
    ||| ('\u{2000}' <= c && c <= '\u{200A}')
    ||| c == '\u{2028}'
    ||| c == '\u{2029}'
    ||| c == '\u{202F}'
    ||| c == '\u{205F}'
    ||| c == '\u{3000}'
}

/// Whether `c` is Unicode whitespace.
pub fn is_space_char(c: char) -> (r: bool)
    ensures
        r == is_space(c),
{
    c == '\t' || c == '\n' || c == '\u{0B}' || c == '\u{0C}' || c == '\r' || c == ' '
        || c == '\u{85}' || c == '\u{A0}' || c == '\u{1680}' || ('\u{2000}' <= c && c
        <= '\u{200A}') || c == '\u{2028}' || c == '\u{2029}' || c == '\u{202F}' || c
        == '\u{205F}' || c == '\u{3000}'
}

/// `s` without its leading whitespace.
pub open spec fn trim_start(s: Seq<char>) -> Seq<char>
    decreases s.len(),
{
    if s.len() > 0 && is_space(s[0]) {
        trim_start(s.drop_first())
    } else {
        s
    }
}

/// `s` without its trailing whitespace.
pub open spec fn trim_end(s: Seq<char>) -> Seq<char>
    decreases s.len(),
{
    if s.len() > 0 && is_space(s.last()) {
        trim_end(s.drop_last())
    } else {
        s
    }
}

/// `s` without leading and trailing whitespace, as `str::trim` gives it.
pub open spec fn trim(s: Seq<char>) -> Seq<char> {
    trim_end(trim_start(s))
}

proof fn lemma_trim_start_skip(s: Seq<char>, i: int)
    requires
        0 <= i <= s.len(),
        forall|k: int| 0 <= k < i ==> is_space(#[trigger] s[k]),
        i == s.len() || !is_space(s[i]),
    ensures
        trim_start(s) == s.skip(i),
    decreases i,
{
    if i == 0 {
        assert(s.skip(0) =~= s);
    } else {
        assert(is_space(s[0]));
        let t = s.drop_first();
        assert forall|k: int| 0 <= k < i - 1 implies is_space(#[trigger] t[k]) by {
            assert(t[k] == s[k + 1]);
        }
        lemma_trim_start_skip(t, i - 1);
        assert(t.skip(i - 1) =~= s.skip(i));
    }
}

proof fn lemma_trim_end_take(s: Seq<char>, j: int)
    requires
        0 <= j <= s.len(),
        forall|k: int| j <= k < s.len() ==> is_space(#[trigger] s[k]),
        j == 0 || !is_space(s[j - 1]),
    ensures
        trim_end(s) == s.take(j),
    decreases s.len() - j,
{
    if j == s.len() {
        assert(s.take(j) =~= s);
    } else {
        assert(is_space(s.last()));
        let t = s.drop_last();
        assert forall|k: int| j <= k < t.len() implies is_space(#[trigger] t[k]) by {
            assert(t[k] == s[k]);
        }
        lemma_trim_end_take(t, j);
        assert(t.take(j) =~= s.take(j));
    }
}

/// `str::trim` on a character vector.
pub fn trim_chars(s: &Vec<char>) -> (r: Vec<char>)
    ensures
        r@ == trim(s@),
{
    let mut i: usize = 0;
    while i < s.len() && is_space_char(s[i])
        invariant
            i <= s.len(),
            forall|k: int| 0 <= k < i ==> is_space(#[trigger] s@[k]),
        decreases s.len() - i,
    {
        i = i + 1;
    }
    proof {
        lemma_trim_start_skip(s@, i as int);
    }
    let ghost t = s@.skip(i as int);
    let mut j: usize = s.len();
    while j > i && is_space_char(s[j - 1])
        invariant
            i <= j <= s.len(),
            t == s@.skip(i as int),
            forall|k: int| j <= k < s.len() ==> is_space(#[trigger] s@[k]),
        decreases j,
    {
        j = j - 1;
    }
    proof {
        assert forall|k: int| j - i <= k < t.len() implies is_space(#[trigger] t[k]) by {
            assert(t[k] == s@[k + i]);
        }
        if j > i {
            assert(t[j - i - 1] == s@[j - 1]);
        }
        lemma_trim_end_take(t, j - i);
    }
    let mut r: Vec<char> = Vec::new();
    let mut k: usize = i;
    while k < j
        invariant
            i <= k <= j <= s.len(),
            r@ == s@.subrange(i as int, k as int),
        decreases j - k,
    {
        r.push(s[k]);
        k = k + 1;
        assert(r@ =~= s@.subrange(i as int, k as int));
    }
    assert(t.take(j - i) =~= s@.subrange(i as int, j as int));
    r
}

/// `str::trim` on a string slice.
pub fn trim_str(s: &str) -> (r: Vec<char>)
    ensures
        r@ == trim(s@),
{
    let v = chars_of(s);
    trim_chars(&v)
}


// ---------------------------------------------------------------------------
// Lines and words
// ---------------------------------------------------------------------------

/// `l` without one trailing carriage return.
pub open spec fn strip_cr(l: Seq<char>) -> Seq<char> {
    if l.len() > 0 && l.last() == '\r' {
        l.drop_last()
    } else {
        l
    }
}

/// Lines of `s` that follow the pending line `cur`, as `str::lines` splits
/// them: at each `\n`, dropping one `\r` before it; a last line without `\n`
/// is kept as it is, and an empty one is not produced.
pub open spec fn lines_from(s: Seq<char>, cur: Seq<char>) -> Seq<Seq<char>>
    decreases s.len(),
{
    if s.len() == 0 {
        if cur.len() > 0 {
            seq![cur]
        } else {
            seq![]
        }
    } else if s[0] == '\n' {
        seq![strip_cr(cur)] + lines_from(s.drop_first(), seq![])
    } else {
        lines_from(s.drop_first(), cur.push(s[0]))
    }
}

/// `str::lines`.
pub open spec fn lines(s: Seq<char>) -> Seq<Seq<char>> {
    lines_from(s, seq![])
}

/// The views of a vector of character vectors.
pub open spec fn views(v: Seq<Vec<char>>) -> Seq<Seq<char>> {
    v.map_values(|l: Vec<char>| l@)
}

/// The views of a vector of strings.
pub open spec fn string_views(v: Seq<String>) -> Seq<Seq<char>> {
    v.map_values(|l: String| l@)
}

fn strip_cr_vec(l: Vec<char>) -> (r: Vec<char>)
    ensures
        r@ == strip_cr(l@),
{
    let mut l = l;
    if l.len() > 0 && l[l.len() - 1] == '\r' {
        l.pop();
    }
    l
}

/// `str::lines` on a character vector.
pub fn lines_of(s: &Vec<char>) -> (r: Vec<Vec<char>>)
    ensures
        views(r@) == lines(s@),
{
    let mut out: Vec<Vec<char>> = Vec::new();
    let mut cur: Vec<char> = Vec::new();
    let mut i: usize = 0;
    assert(s@.skip(0) =~= s@);
    assert(views(out@) =~= seq![]);
    assert(cur@ =~= seq![]);
    while i < s.len()
        invariant
            i <= s.len(),
            views(out@) + lines_from(s@.skip(i as int), cur@) == lines(s@),
        decreases s.len() - i,
    {
        let ghost rest = s@.skip(i as int);
        assert(rest[0] == s@[i as int]);
        assert(rest.drop_first() =~= s@.skip(i + 1));
        if s[i] == '\n' {
            let line = strip_cr_vec(cur);
            let ghost old_out = out@;
            out.push(line);
            assert(views(out@) =~= views(old_out).push(line@));
            assert(views(out@) + lines_from(s@.skip(i + 1), seq![]) =~= views(old_out)
                + lines_from(rest, cur@)) by {
                assert(lines_from(rest, cur@) == seq![strip_cr(cur@)] + lines_from(
                    rest.drop_first(),
                    seq![],
                ));
            }
            cur = Vec::new();
            assert(cur@ =~= seq![]);
        } else {
            let ghost old_cur = cur@;
            cur.push(s[i]);
            assert(lines_from(rest, old_cur) == lines_from(rest.drop_first(), old_cur.push(s@[i as int])));
        }
        i = i + 1;
    }
    assert(s@.skip(i as int) =~= seq![]);
    if cur.len() > 0 {
        let ghost old_out = out@;
        out.push(cur);
        assert(views(out@) =~= views(old_out).push(cur@));
        assert(views(out@) =~= views(old_out) + seq![cur@]);
    } else {
        assert(views(out@) + seq![] =~= views(out@));
    }
    out
}

/// Words of `s` that follow the pending word `cur`, as `str::split_whitespace`
/// gives them: maximal runs of non-whitespace characters.
pub open spec fn words_from(s: Seq<char>, cur: Seq<char>) -> Seq<Seq<char>>
    decreases s.len(),
{
    if s.len() == 0 {
        if cur.len() > 0 {
            seq![cur]
        } else {
            seq![]
        }
    } else if is_space(s[0]) {
        (if cur.len() > 0 {
            seq![cur]
        } else {
            seq![]
        }) + words_from(s.drop_first(), seq![])
    } else {
        words_from(s.drop_first(), cur.push(s[0]))
    }
}

/// `str::split_whitespace`.
pub open spec fn words(s: Seq<char>) -> Seq<Seq<char>> {
    words_from(s, seq![])
}

/// `str::split_whitespace` on a character vector.
pub fn words_of(s: &Vec<char>) -> (r: Vec<Vec<char>>)
    ensures
        views(r@) == words(s@),
{
    let mut out: Vec<Vec<char>> = Vec::new();
    let mut cur: Vec<char> = Vec::new();
    let mut i: usize = 0;
    assert(s@.skip(0) =~= s@);
    assert(views(out@) =~= seq![]);
    assert(cur@ =~= seq![]);
    while i < s.len()
        invariant
            i <= s.len(),
            views(out@) + words_from(s@.skip(i as int), cur@) == words(s@),
        decreases s.len() - i,
    {
        let ghost rest = s@.skip(i as int);
        assert(rest[0] == s@[i as int]);
        assert(rest.drop_first() =~= s@.skip(i + 1));
        if is_space_char(s[i]) {
            let ghost old_out = out@;
            let ghost old_cur = cur@;
            if cur.len() > 0 {
                out.push(cur);
                assert(views(out@) =~= views(old_out) + seq![old_cur]);
            } else {
                assert(views(out@) =~= views(old_out) + seq![]);
            }
            assert(views(out@) + words_from(s@.skip(i + 1), seq![]) =~= views(old_out)
                + words_from(rest, old_cur));
            cur = Vec::new();
            assert(cur@ =~= seq![]);
        } else {
            let ghost old_cur = cur@;
            cur.push(s[i]);
            assert(words_from(rest, old_cur) == words_from(rest.drop_first(), old_cur.push(s@[i as int])));
        }
        i = i + 1;
    }
    assert(s@.skip(i as int) =~= seq![]);
    if cur.len() > 0 {
        let ghost old_out = out@;
        out.push(cur);
        assert(views(out@) =~= views(old_out) + seq![cur@]);
    } else {
        assert(views(out@) + seq![] =~= views(out@));
    }
    out
}

// ---------------------------------------------------------------------------
// Prefixes, substrings and splitting
// ---------------------------------------------------------------------------

/// `s` starts with `p`.
pub open spec fn has_prefix(s: Seq<char>, p: Seq<char>) -> bool {
    p.len() <= s.len() && s.take(p.len() as int) == p
}

/// `s` ends with `p`.
pub open spec fn has_suffix(s: Seq<char>, p: Seq<char>) -> bool {
    p.len() <= s.len() && s.skip(s.len() - p.len()) == p
}

/// `t` occurs in `s` at position `i`.
pub open spec fn occurs_at(s: Seq<char>, t: Seq<char>, i: int) -> bool {
    0 <= i && i + t.len() <= s.len() && s.subrange(i, i + t.len()) == t
}

/// `t` occurs somewhere in `s` (`str::contains`).
pub open spec fn contains_text(s: Seq<char>, t: Seq<char>) -> bool {
    exists|i: int| occurs_at(s, t, i)
}

/// The first position at or after `i` where `t` occurs in `s`, or -1.
pub open spec fn find_from(s: Seq<char>, t: Seq<char>, i: int) -> int
    decreases s.len() + 1 - i,
{
    if i < 0 || i + t.len() > s.len() {
        -1
    } else if occurs_at(s, t, i) {
        i
    } else {
        find_from(s, t, i + 1)
    }
}

/// The first position where `t` occurs in `s`, or -1.
pub open spec fn find(s: Seq<char>, t: Seq<char>) -> int {
    find_from(s, t, 0)
}

/// `str::split_once`: the parts before and after the first occurrence of `t`.
pub open spec fn split_once(s: Seq<char>, t: Seq<char>) -> Option<(Seq<char>, Seq<char>)> {
    let i = find(s, t);
    if i < 0 {
        None
    } else {
        Some((s.take(i), s.skip(i + t.len())))
    }
}

proof fn lemma_find_from_found(s: Seq<char>, t: Seq<char>, i: int, j: int)
    requires
        0 <= i <= j,
        occurs_at(s, t, j),
        forall|k: int| i <= k < j ==> !occurs_at(s, t, k),
    ensures
        find_from(s, t, i) == j,
    decreases j - i,
{
    if i < j {
        lemma_find_from_found(s, t, i + 1, j);
    }
}

proof fn lemma_find_from_absent(s: Seq<char>, t: Seq<char>, i: int)
    requires
        0 <= i,
        forall|k: int| i <= k ==> !occurs_at(s, t, k),
    ensures
        find_from(s, t, i) == -1,
    decreases s.len() + 1 - i,
{
    if i + t.len() <= s.len() {
        lemma_find_from_absent(s, t, i + 1);
    }
}

/// Whether `t` occurs in `s` at position `i`.
pub fn occurs_at_exec(s: &Vec<char>, t: &Vec<char>, i: usize) -> (r: bool)
    ensures
        r == occurs_at(s@, t@, i as int),
{
    if t.len() > s.len() || i > s.len() - t.len() {
        return false;
    }
    let mut k: usize = 0;
    while k < t.len()
        invariant
            k <= t.len(),
            i + t.len() <= s.len(),
            forall|m: int| 0 <= m < k ==> s@[i + m] == t@[m],
        decreases t.len() - k,
    {
        if s[i + k] != t[k] {
            assert(s@.subrange(i as int, i + t.len())[k as int] != t@[k as int]);
            return false;
        }
        k = k + 1;
    }
    assert(s@.subrange(i as int, i + t.len()) =~= t@);
    true
}

/// The first position where `t` occurs in `s`.
pub fn find_exec(s: &Vec<char>, t: &Vec<char>) -> (r: Option<usize>)
    ensures
        r is Some <==> find(s@, t@) >= 0,
        r matches Some(i) ==> find(s@, t@) == i && occurs_at(s@, t@, i as int),
        find(s@, t@) >= 0 <==> contains_text(s@, t@),
{
    if t.len() > s.len() {
        proof {
            assert forall|k: int| 0 <= k implies !occurs_at(s@, t@, k) by {}
            lemma_find_from_absent(s@, t@, 0);
        }
        return None;
    }
    let last = s.len() - t.len();
    let mut i: usize = 0;
    loop
        invariant
            t.len() <= s.len(),
            last == s.len() - t.len(),
            i <= last,
            forall|k: int| 0 <= k < i ==> !occurs_at(s@, t@, k),
        ensures
            forall|k: int| 0 <= k <= last ==> !occurs_at(s@, t@, k),
        decreases last - i,
    {
        if occurs_at_exec(s, t, i) {
            proof {
                lemma_find_from_found(s@, t@, 0, i as int);
            }
            return Some(i);
        }
        if i == last {
            break;
        }
        i = i + 1;
    }
    proof {
        assert forall|k: int| 0 <= k implies !occurs_at(s@, t@, k) by {}
        lemma_find_from_absent(s@, t@, 0);
    }
    None
}

/// Whether `t` occurs in `s`.
pub fn contains_exec(s: &Vec<char>, t: &Vec<char>) -> (r: bool)
    ensures
        r == contains_text(s@, t@),
{
    find_exec(s, t).is_some()
}

/// Whether `s` starts with `p`.
pub fn has_prefix_exec(s: &Vec<char>, p: &Vec<char>) -> (r: bool)
    ensures
        r == has_prefix(s@, p@),
{
    let r = occurs_at_exec(s, p, 0);
    assert(s@.subrange(0, p@.len() as int) =~= s@.take(p@.len() as int));
    r
}

/// Whether `s` ends with `p`.
pub fn has_suffix_exec(s: &Vec<char>, p: &Vec<char>) -> (r: bool)
    ensures
        r == has_suffix(s@, p@),
{
    if p.len() > s.len() {
        return false;
    }
    let r = occurs_at_exec(s, p, s.len() - p.len());
    assert(s@.subrange(s.len() - p.len(), s.len() as int) =~= s@.skip(s.len() - p.len()));
    r
}

/// `s[from..to]` as a new vector.
pub fn slice_of(s: &Vec<char>, from: usize, to: usize) -> (r: Vec<char>)
    requires
        from <= to <= s.len(),
    ensures
        r@ == s@.subrange(from as int, to as int),
{
    let mut r: Vec<char> = Vec::new();
    let mut k: usize = from;
    while k < to
        invariant
            from <= k <= to <= s.len(),
            r@ == s@.subrange(from as int, k as int),
        decreases to - k,
    {
        r.push(s[k]);
        k = k + 1;
        assert(r@ =~= s@.subrange(from as int, k as int));
    }
    r
}

/// `str::split_once` on character vectors.
pub fn split_once_exec(s: &Vec<char>, t: &Vec<char>) -> (r: Option<(Vec<char>, Vec<char>)>)
    ensures
        match split_once(s@, t@) {
            None => r is None,
            Some((a, b)) => r matches Some((x, y)) && x@ == a && y@ == b,
        },
{
    match find_exec(s, t) {
        None => None,
        Some(i) => {
            assert(i + t.len() <= s.len());
            let a = slice_of(s, 0, i);
            let b = slice_of(s, i + t.len(), s.len());
            assert(a@ =~= s@.take(i as int));
            assert(b@ =~= s@.skip(i + t.len()));
            Some((a, b))
        },
    }
}

/// `s` without leading and trailing occurrences of `c` (`str::trim_matches`).
pub open spec fn trim_char(s: Seq<char>, c: char) -> Seq<char>
    decreases s.len(),
{
    if s.len() > 0 && s[0] == c {
        trim_char(s.drop_first(), c)
    } else if s.len() > 0 && s.last() == c {
        trim_char(s.drop_last(), c)
    } else {
        s
    }
}

/// `str::trim_matches` with a single character.
pub fn trim_char_exec(s: Vec<char>, c: char) -> (r: Vec<char>)
    ensures
        r@ == trim_char(s@, c),
    decreases s.len(),
{
    if s.len() > 0 && s[0] == c {
        let rest = slice_of(&s, 1, s.len());
        assert(rest@ =~= s@.drop_first());
        trim_char_exec(rest, c)
    } else if s.len() > 0 && s[s.len() - 1] == c {
        let rest = slice_of(&s, 0, s.len() - 1);
        assert(rest@ =~= s@.drop_last());
        trim_char_exec(rest, c)
    } else {
        s
    }
}

// ---------------------------------------------------------------------------
// Joining
// ---------------------------------------------------------------------------

/// `parts.join(sep)`.
pub open spec fn join(parts: Seq<Seq<char>>, sep: Seq<char>) -> Seq<char>
    decreases parts.len(),
{
    if parts.len() == 0 {
        seq![]
    } else if parts.len() == 1 {
        parts[0]
    } else {
        join(parts.drop_last(), sep) + sep + parts.last()
    }
}

/// `parts.join(sep)` for strings.
pub fn join_strings(parts: &Vec<String>, sep: &str) -> (r: String)
    ensures
        r@ == join(string_views(parts@), sep@),
{
    let mut r = String::new();
    let mut i: usize = 0;
    while i < parts.len()
        invariant
            i <= parts.len(),
            r@ == join(string_views(parts@).take(i as int), sep@),
        decreases parts.len() - i,
    {
        let ghost old_r = r@;
        if i > 0 {
            r.append(sep);
        }
        r.append(parts[i].as_str());
        i = i + 1;
        assert(string_views(parts@).take(i as int).drop_last() =~= string_views(parts@).take(
            i - 1,
        ));
        if i == 1 {
            assert(old_r =~= seq![]);
            assert(r@ =~= string_views(parts@).take(i as int)[0]);
        }
    }
    assert(string_views(parts@).take(parts.len() as int) =~= string_views(parts@));
    r
}

// ---------------------------------------------------------------------------
// Decimal rendering
// ---------------------------------------------------------------------------

/// The ASCII digit for `d < 10`.
pub open spec fn digit(d: nat) -> char {
    if d == 0 {
        '0'
    } else if d == 1 {
        '1'
    } else if d == 2 {
        '2'
    } else if d == 3 {
        '3'
    } else if d == 4 {
        '4'
    } else if d == 5 {
        '5'
    } else if d == 6 {
        '6'
    } else if d == 7 {
        '7'
    } else if d == 8 {
        '8'
    } else {
        '9'
    }
}

/// `n` in decimal, as `to_string` renders an unsigned integer.
pub open spec fn decimal(n: nat) -> Seq<char>
    decreases n,
{
    if n < 10 {
        seq![digit(n)]
    } else {
        decimal(n / 10).push(digit(n % 10))
    }
}

/// `n` in decimal, zero-padded to at least two characters (`{n:02}`).
pub open spec fn pad2(n: nat) -> Seq<char> {
    if n < 10 {
        seq!['0', digit(n)]
    } else {
        decimal(n)
    }
}

fn digit_exec(d: u64) -> (c: char)
    requires
        d < 10,
    ensures
        c == digit(d as nat),
{
    if d == 0 {
        '0'
    } else if d == 1 {
        '1'
    } else if d == 2 {
        '2'
    } else if d == 3 {
        '3'
    } else if d == 4 {
        '4'
    } else if d == 5 {
        '5'
    } else if d == 6 {
        '6'
    } else if d == 7 {
        '7'
    } else if d == 8 {
        '8'
    } else {
        '9'
    }
}

/// The decimal digits of `n`.
pub fn decimal_chars(n: u128) -> (r: Vec<char>)
    ensures
        r@ == decimal(n as nat),
    decreases n,
{
    if n < 10 {
        let mut v: Vec<char> = Vec::new();
        v.push(digit_exec(n as u64));
        assert(v@ =~= seq![digit(n as nat)]);
        v
    } else {
        let mut v = decimal_chars(n / 10);
        v.push(digit_exec((n % 10) as u64));
        v
    }
}

/// `n.to_string()`.
pub fn decimal_string(n: u64) -> (r: String)
    ensures
        r@ == decimal(n as nat),
{
    string_of(&decimal_chars(n as u128))
}

/// `n.to_string()` for a wide integer.
pub fn decimal_string_wide(n: u128) -> (r: String)
    ensures
        r@ == decimal(n as nat),
{
    string_of(&decimal_chars(n))
}

/// `format!("{n:02}")`.
pub fn pad2_string(n: u64) -> (r: String)
    ensures
        r@ == pad2(n as nat),
{
    if n < 10 {
        let mut v: Vec<char> = Vec::new();
        v.push('0');
        v.push(digit_exec(n));
        assert(v@ =~= seq!['0', digit(n as nat)]);
        string_of(&v)
    } else {
        decimal_string(n)
    }
}

// ---------------------------------------------------------------------------
// Decimal parsing
// ---------------------------------------------------------------------------

/// The value of an ASCII digit, or `None` for any other character.
pub open spec fn digit_value(c: char) -> Option<nat> {
    if c == '0' {
        Some(0)
    } else if c == '1' {
        Some(1)
    } else if c == '2' {
        Some(2)
    } else if c == '3' {
        Some(3)
    } else if c == '4' {
        Some(4)
    } else if c == '5' {
        Some(5)
    } else if c == '6' {
        Some(6)
    } else if c == '7' {
        Some(7)
    } else if c == '8' {
        Some(8)
    } else if c == '9' {
        Some(9)
    } else {
        None
    }
}

/// The value of a run of ASCII digits, or `None` when `s` holds another
/// character. The empty run has value 0.
pub open spec fn digits_value(s: Seq<char>) -> Option<nat>
    decreases s.len(),
{
    if s.len() == 0 {
        Some(0)
    } else {
        match (digits_value(s.drop_last()), digit_value(s.last())) {
            (Some(v), Some(d)) => Some(v * 10 + d),
            _ => None,
        }
    }
}

/// A non-empty run of ASCII digits and its value.
pub open spec fn unsigned_value(s: Seq<char>) -> Option<nat> {
    if s.len() == 0 {
        None
    } else {
        digits_value(s)
    }
}

/// What `str::parse::<u64>` accepts: an optional `+`, then digits, within range.
pub open spec fn parse_u64_text(s: Seq<char>) -> Option<u64> {
    let body = if s.len() > 0 && s[0] == '+' {
        s.drop_first()
    } else {
        s
    };
    match unsigned_value(body) {
        Some(v) => if v <= u64::MAX {
            Some(v as u64)
        } else {
            None
        },
        None => None,
    }
}

/// What `str::parse::<u32>` accepts.
pub open spec fn parse_u32_text(s: Seq<char>) -> Option<u32> {
    match parse_u64_text(s) {
        Some(v) => if v <= u32::MAX {
            Some(v as u32)
        } else {
            None
        },
        None => None,
    }
}

/// What `str::parse::<i32>` accepts: an optional sign, then digits, within range.
pub open spec fn parse_i32_text(s: Seq<char>) -> Option<i32> {
    if s.len() > 0 && s[0] == '-' {
        match unsigned_value(s.drop_first()) {
            Some(v) => if v <= 0x8000_0000 {
                Some((0 - v) as i32)
            } else {
                None
            },
            None => None,
        }
    } else {
        match parse_u64_text(s) {
            Some(v) => if v <= i32::MAX {
                Some(v as i32)
            } else {
                None
            },
            None => None,
        }
    }
}

fn digit_value_exec(c: char) -> (r: Option<u64>)
    ensures
        match digit_value(c) {
            Some(d) => r == Some(d as u64),
            None => r is None,
        },
{
    if c == '0' {
        Some(0)
    } else if c == '1' {
        Some(1)
    } else if c == '2' {
        Some(2)
    } else if c == '3' {
        Some(3)
    } else if c == '4' {
        Some(4)
    } else if c == '5' {
        Some(5)
    } else if c == '6' {
        Some(6)
    } else if c == '7' {
        Some(7)
    } else if c == '8' {
        Some(8)
    } else if c == '9' {
        Some(9)
    } else {
        None
    }
}

proof fn lemma_digits_prefix_none(s: Seq<char>, i: int)
    requires
        0 <= i <= s.len(),
        digits_value(s.take(i)) is None,
    ensures
        digits_value(s) is None,
    decreases s.len() - i,
{
    if i < s.len() {
        assert(s.take(i + 1).drop_last() =~= s.take(i));
        lemma_digits_prefix_none(s, i + 1);
    } else {
        assert(s.take(i) =~= s);
    }
}

proof fn lemma_digits_prefix_big(s: Seq<char>, i: int, bound: nat)
    requires
        0 <= i <= s.len(),
        digits_value(s.take(i)) matches Some(v) && v > bound,
    ensures
        digits_value(s) matches Some(w) ==> w > bound,
    decreases s.len() - i,
{
    if i < s.len() {
        assert(s.take(i + 1).drop_last() =~= s.take(i));
        if digits_value(s.take(i + 1)) is None {
            lemma_digits_prefix_none(s, i + 1);
        } else {
            lemma_digits_prefix_big(s, i + 1, bound);
        }
    } else {
        assert(s.take(i) =~= s);
    }
}

/// The value of `s[from..]` as a run of digits, when it is at most `u64::MAX`.
fn digits_from(s: &Vec<char>, from: usize) -> (r: Option<u64>)
    requires
        from <= s.len(),
    ensures
        match digits_value(s@.skip(from as int)) {
            Some(v) => if v <= u64::MAX {
                r == Some(v as u64)
            } else {
                r is None
            },
            None => r is None,
        },
{
    let ghost t = s@.skip(from as int);
    let mut acc: u64 = 0;
    let mut i: usize = from;
    assert(t.take(0) =~= seq![]);
    while i < s.len()
        invariant
            from <= i <= s.len(),
            t == s@.skip(from as int),
            digits_value(t.take(i - from)) == Some(acc as nat),
        decreases s.len() - i,
    {
        let k = i - from;
        assert(t.take(k + 1).drop_last() =~= t.take(k as int));
        assert(t.take(k + 1).last() == s@[i as int]);
        match digit_value_exec(s[i]) {
            None => {
                proof {
                    lemma_digits_prefix_none(t, k + 1);
                }
                return None;
            },
            Some(d) => {
                if acc > (u64::MAX - d) / 10 {
                    proof {
                        assert(acc * 10 + d > u64::MAX) by (nonlinear_arith)
                            requires
                                acc > (u64::MAX - d) / 10,
                                d < 10,
                        ;
                        lemma_digits_prefix_big(t, k + 1, u64::MAX as nat);
                    }
                    return None;
                }
                proof {
                    assert(acc * 10 + d <= u64::MAX) by (nonlinear_arith)
                        requires
                            acc <= (u64::MAX - d) / 10,
                            d < 10,
                    ;
                }
                acc = acc * 10 + d;
            },
        }
        i = i + 1;
    }
    assert(t.take(i - from) =~= t);
    Some(acc)
}

/// `str::parse::<u64>` on a character vector.
pub fn parse_u64_chars(s: &Vec<char>) -> (r: Option<u64>)
    ensures
        r == parse_u64_text(s@),
{
    let start: usize = if s.len() > 0 && s[0] == '+' {
        1
    } else {
        0
    };
    let ghost body = if s@.len() > 0 && s@[0] == '+' {
        s@.drop_first()
    } else {
        s@
    };
    assert(s@.skip(start as int) =~= body);
    if start == s.len() {
        return None;
    }
    digits_from(s, start)
}

/// `str::parse::<u32>` on a character vector.
pub fn parse_u32_chars(s: &Vec<char>) -> (r: Option<u32>)
    ensures
        r == parse_u32_text(s@),
{
    match parse_u64_chars(s) {
        Some(v) => if v <= 0xffff_ffff {
            Some(v as u32)
        } else {
            None
        },
        None => None,
    }
}

/// `str::parse::<i32>` on a character vector.
pub fn parse_i32_chars(s: &Vec<char>) -> (r: Option<i32>)
    ensures
        r == parse_i32_text(s@),
{
    if s.len() > 0 && s[0] == '-' {
        if s.len() == 1 {
            return None;
        }
        assert(s@.skip(1) =~= s@.drop_first());
        match digits_from(s, 1) {
            Some(v) => if v <= 0x8000_0000 {
                Some((0 - (v as i64)) as i32)
            } else {
                None
            },
            None => None,
        }
    } else {
        match parse_u64_chars(s) {
            Some(v) => if v <= 0x7fff_ffff {
                Some(v as i32)
            } else {
                None
            },
            None => None,
        }
    }
}

// ---------------------------------------------------------------------------
// Lexicographic order
// ---------------------------------------------------------------------------

/// `a < b` in the order of `str`'s `Ord`: lexicographic by code point.
pub open spec fn lex_lt(a: Seq<char>, b: Seq<char>) -> bool
    decreases a.len(),
{
    if b.len() == 0 {
        false
    } else if a.len() == 0 {
        true
    } else if a[0] != b[0] {
        a[0] < b[0]
    } else {
        lex_lt(a.drop_first(), b.drop_first())
    }
}

/// `lex_lt` ignores a common prefix.
proof fn lemma_lex_skip(a: Seq<char>, b: Seq<char>, i: int)
    requires
        0 <= i <= a.len(),
        i <= b.len(),
        a.take(i) == b.take(i),
    ensures
        lex_lt(a, b) == lex_lt(a.skip(i), b.skip(i)),
    decreases i,
{
    if i > 0 {
        assert(a[0] == a.take(i)[0]);
        assert(b[0] == b.take(i)[0]);
        assert(a.drop_first().take(i - 1) =~= a.take(i).drop_first());
        assert(b.drop_first().take(i - 1) =~= b.take(i).drop_first());
        lemma_lex_skip(a.drop_first(), b.drop_first(), i - 1);
        assert(a.drop_first().skip(i - 1) =~= a.skip(i));
        assert(b.drop_first().skip(i - 1) =~= b.skip(i));
    } else {
        assert(a.skip(0) =~= a);
        assert(b.skip(0) =~= b);
    }
}

/// `lex_lt` is a strict total order.
pub proof fn lemma_lex_strict_total(a: Seq<char>, b: Seq<char>)
    ensures
        !(lex_lt(a, b) && lex_lt(b, a)),
        lex_lt(a, b) ==> a != b,
        a != b ==> lex_lt(a, b) || lex_lt(b, a),
    decreases a.len(),
{
    if a.len() > 0 && b.len() > 0 {
        if a[0] == b[0] {
            lemma_lex_strict_total(a.drop_first(), b.drop_first());
            if a != b {
                assert(a.drop_first() != b.drop_first()) by {
                    if a.drop_first() == b.drop_first() {
                        assert(a =~= seq![a[0]] + a.drop_first());
                        assert(b =~= seq![b[0]] + b.drop_first());
                    }
                }
            }
        }
    } else if a.len() == 0 && b.len() == 0 {
        assert(a =~= b);
    }
}

/// `lex_lt` is transitive.
pub proof fn lemma_lex_transitive(a: Seq<char>, b: Seq<char>, c: Seq<char>)
    requires
        lex_lt(a, b),
        lex_lt(b, c),
    ensures
        lex_lt(a, c),
    decreases a.len(),
{
    if a.len() > 0 && b.len() > 0 && c.len() > 0 && a[0] == b[0] && b[0] == c[0] {
        lemma_lex_transitive(a.drop_first(), b.drop_first(), c.drop_first());
    }
}

/// Three-way comparison in `str`'s order: negative, zero or positive.
pub fn lex_compare(a: &Vec<char>, b: &Vec<char>) -> (r: i8)
    ensures
        r < 0 <==> lex_lt(a@, b@),
        r == 0 <==> a@ == b@,
        r > 0 <==> lex_lt(b@, a@),
{
    proof {
        lemma_lex_strict_total(a@, b@);
    }
    let mut i: usize = 0;
    while i < a.len() && i < b.len()
        invariant
            i <= a.len(),
            i <= b.len(),
            a@.take(i as int) == b@.take(i as int),
        decreases a.len() - i,
    {
        if a[i] != b[i] {
            proof {
                lemma_lex_skip(a@, b@, i as int);
                lemma_lex_skip(b@, a@, i as int);
                assert(a@.skip(i as int)[0] == a@[i as int]);
                assert(b@.skip(i as int)[0] == b@[i as int]);
            }
            if a[i] < b[i] {
                return -1;
            } else {
                return 1;
            }
        }
        assert(a@.take(i + 1) =~= a@.take(i as int).push(a@[i as int]));
        assert(b@.take(i + 1) =~= b@.take(i as int).push(b@[i as int]));
        i = i + 1;
    }
    proof {
        lemma_lex_skip(a@, b@, i as int);
        lemma_lex_skip(b@, a@, i as int);
        if a.len() == b.len() {
            assert(a@ =~= a@.take(i as int));
            assert(b@ =~= b@.take(i as int));
        }
    }
    if a.len() == b.len() {
        0
    } else if a.len() < b.len() {
        -1
    } else {
        1
    }
}

// ---------------------------------------------------------------------------
// Lower-casing
// ---------------------------------------------------------------------------

/// What `str::to_lowercase` returns for a string with these characters.
pub uninterp spec fn lowercase(s: Seq<char>) -> Seq<char>;

/// `str::to_lowercase`: Unicode lower-casing, named by `lowercase`.
#[verifier::external_body]
pub(crate) fn to_lowercase(s: &str) -> (r: String)
    ensures
        r@ == lowercase(s@),
{
    s.to_lowercase()
}

} // verus!
