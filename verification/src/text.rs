//! Character-level string helpers with their specifications.
//!
//! Every helper works on the character sequence that a string views as, and
//! states its result over that sequence.

use vstd::prelude::*;

verus! {

/// `String::push` appends one character.
pub assume_specification[ String::push ](s: &mut String, ch: char)
    ensures
        final(s)@ == old(s)@.push(ch),
;

// ---------------------------------------------------------------------------
// Specifications
// ---------------------------------------------------------------------------

/// The character views of a sequence of strings.
pub open spec fn views(v: Seq<String>) -> Seq<Seq<char>> {
    v.map_values(|s: String| s@)
}

/// The character view of an optional string.
pub open spec fn opt_view(o: Option<String>) -> Option<Seq<char>> {
    match o {
        Some(s) => Some(s@),
        None => None,
    }
}

/// Unicode `White_Space`, the set that `char::is_whitespace` accepts.
pub open spec fn is_ws(c: char) -> bool {
    ||| ('\t' <= c && c <= '\r')
    ||| c == ' '
    ||| c == '\u{85}'
    ||| c == '\u{a0}'
    ||| c == '\u{1680}'
    ||| ('\u{2000}' <= c && c <= '\u{200a}')
    ||| c == '\u{2028}'
    ||| c == '\u{2029}'
    ||| c == '\u{202f}'
    ||| c == '\u{205f}'
    ||| c == '\u{3000}'
}

/// `s` with leading whitespace removed.
pub open spec fn trim_start(s: Seq<char>) -> Seq<char>
    decreases s.len(),
{
    if s.len() > 0 && is_ws(s[0]) {
        trim_start(s.drop_first())
    } else {
        s
    }
}

/// `s` with trailing whitespace removed.
pub open spec fn trim_end(s: Seq<char>) -> Seq<char>
    decreases s.len(),
{
    if s.len() > 0 && is_ws(s.last()) {
        trim_end(s.drop_last())
    } else {
        s
    }
}

/// `s` with leading and trailing whitespace removed (`str::trim`).
pub open spec fn trim(s: Seq<char>) -> Seq<char> {
    trim_end(trim_start(s))
}

/// `line` without one trailing carriage return.
pub open spec fn strip_cr(line: Seq<char>) -> Seq<char> {
    if line.len() > 0 && line.last() == '\r' {
        line.drop_last()
    } else {
        line
    }
}

/// The lines of `s`, where `cur` is the part of the current line read so far.
pub open spec fn lines_acc(s: Seq<char>, cur: Seq<char>) -> Seq<Seq<char>>
    decreases s.len(),
{
    if s.len() == 0 {
        if cur.len() == 0 {
            Seq::empty()
        } else {
            seq![cur]
        }
    } else if s[0] == '\n' {
        seq![strip_cr(cur)] + lines_acc(s.drop_first(), Seq::empty())
    } else {
        lines_acc(s.drop_first(), cur.push(s[0]))
    }
}

/// The lines of `s` as `str::lines` yields them: split at `\n`, a `\r`
/// before the `\n` dropped, and no empty line after a final `\n`.
pub open spec fn lines(s: Seq<char>) -> Seq<Seq<char>> {
    lines_acc(s, Seq::empty())
}

/// `p` is a prefix of `s`.
pub open spec fn starts_with(s: Seq<char>, p: Seq<char>) -> bool {
    p.len() <= s.len() && s.subrange(0, p.len() as int) == p
}

/// `p` is a suffix of `s`.
pub open spec fn ends_with(s: Seq<char>, p: Seq<char>) -> bool {
    p.len() <= s.len() && s.subrange(s.len() - p.len(), s.len() as int) == p
}

/// `p` occurs in `s` starting at index `i`.
pub open spec fn occurs_at(s: Seq<char>, p: Seq<char>, i: int) -> bool {
    0 <= i && i + p.len() <= s.len() && s.subrange(i, i + p.len()) == p
}

/// `p` occurs somewhere in `s`.
pub open spec fn contains(s: Seq<char>, p: Seq<char>) -> bool {
    exists|i: int| occurs_at(s, p, i)
}

/// `s` with every non-overlapping occurrence of `from`, scanning from the
/// left, replaced by `to` (`str::replace`).
pub open spec fn replace(s: Seq<char>, from: Seq<char>, to: Seq<char>) -> Seq<char>
    decreases s.len(),
{
    if from.len() == 0 || s.len() < from.len() {
        s
    } else if s.subrange(0, from.len() as int) == from {
        to + replace(s.skip(from.len() as int), from, to)
    } else {
        seq![s[0]] + replace(s.drop_first(), from, to)
    }
}

/// The decimal digit character for `d < 10`.
pub open spec fn digit(d: nat) -> char {
    seq!['0', '1', '2', '3', '4', '5', '6', '7', '8', '9'][d as int]
}

/// The decimal representation of `n` (`usize::to_string`).
pub open spec fn decimal(n: nat) -> Seq<char>
    decreases n,
{
    if n < 10 {
        seq![digit(n)]
    } else {
        decimal(n / 10).push(digit(n % 10))
    }
}

/// Index of the first occurrence of `c` in `s` at or after `i`, or `s.len()`.
pub open spec fn find_char_from(s: Seq<char>, c: char, i: int) -> int
    decreases s.len() - i,
{
    if i < 0 || i >= s.len() {
        s.len() as int
    } else if s[i] == c {
        i
    } else {
        find_char_from(s, c, i + 1)
    }
}

/// `str::split_once(c)`: the parts before and after the first `c`.
pub open spec fn split_once(s: Seq<char>, c: char) -> Option<(Seq<char>, Seq<char>)> {
    let i = find_char_from(s, c, 0);
    if i < s.len() {
        Some((s.subrange(0, i), s.skip(i + 1)))
    } else {
        None
    }
}

/// `str::strip_prefix`.
pub open spec fn strip_prefix(s: Seq<char>, p: Seq<char>) -> Option<Seq<char>> {
    if starts_with(s, p) {
        Some(s.skip(p.len() as int))
    } else {
        None
    }
}

/// `s` followed by spaces up to `width` characters (`format!("{:<width$}")`).
pub open spec fn pad_right(s: Seq<char>, width: nat) -> Seq<char> {
    if s.len() >= width {
        s
    } else {
        s + Seq::new((width - s.len()) as nat, |i: int| ' ')
    }
}

// ---------------------------------------------------------------------------
// Lemmas
// ---------------------------------------------------------------------------

/// `x` occurs in `a + x + b`.
pub proof fn lemma_contains_middle(a: Seq<char>, x: Seq<char>, b: Seq<char>)
    ensures
        contains(a + x + b, x),
{
    let s = a + x + b;
    assert(s.subrange(a.len() as int, (a.len() + x.len()) as int) =~= x);
    assert(occurs_at(s, x, a.len() as int));
}

/// The decimal representation of a number holds only the digits `0`-`9`.
pub proof fn lemma_decimal_digits(n: nat)
    ensures
        forall|i: int| 0 <= i < decimal(n).len() ==> '0' <= #[trigger] decimal(n)[i] <= '9',
    decreases n,
{
    if n >= 10 {
        lemma_decimal_digits(n / 10);
        let d = decimal(n / 10);
        assert forall|i: int| 0 <= i < decimal(n).len() implies '0' <= #[trigger] decimal(n)[i]
            <= '9' by {
            if i < d.len() {
                assert(decimal(n)[i] == d[i]);
            }
        }
    }
}

pub proof fn lemma_find_char_from(s: Seq<char>, c: char, i: int, j: int)
    requires
        0 <= i <= j <= s.len(),
        forall|k: int| i <= k < j ==> s[k] != c,
    ensures
        find_char_from(s, c, i) == find_char_from(s, c, j),
    decreases j - i,
{
    if i < j {
        lemma_find_char_from(s, c, i + 1, j);
    }
}

// ---------------------------------------------------------------------------
// Executable helpers
// ---------------------------------------------------------------------------

/// The characters of `s`, in order.
pub fn chars_of(s: &str) -> (v: Vec<char>)
    ensures
        v@ == s@,
{
    let mut v: Vec<char> = Vec::new();
    for c in it: s.chars()
        invariant
            v@ == it.seq().take(it.index() as int),
            it.seq() == s@,
    {
        v.push(c);
    }
    v
}

/// Appends `t` to `s`.
pub fn push_str(s: &mut String, t: &str)
    ensures
        final(s)@ == old(s)@ + t@,
{
    s.append(t);
}

/// Appends `v[lo..hi]` to `s`.
pub fn push_range(s: &mut String, v: &Vec<char>, lo: usize, hi: usize)
    requires
        lo <= hi <= v@.len(),
    ensures
        final(s)@ == old(s)@ + v@.subrange(lo as int, hi as int),
{
    let mut i = lo;
    while i < hi
        invariant
            lo <= i <= hi <= v@.len(),
            s@ == old(s)@ + v@.subrange(lo as int, i as int),
        decreases hi - i,
    {
        s.push(v[i]);
        assert(v@.subrange(lo as int, i + 1) == v@.subrange(lo as int, i as int).push(v@[i as int]));
        i = i + 1;
    }
}

/// A string holding `v[lo..hi]`.
pub fn string_of(v: &Vec<char>, lo: usize, hi: usize) -> (s: String)
    requires
        lo <= hi <= v@.len(),
    ensures
        s@ == v@.subrange(lo as int, hi as int),
{
    let mut s = String::new();
    push_range(&mut s, v, lo, hi);
    s
}

/// A copy of `s`.
pub fn copy_str(s: &str) -> (r: String)
    ensures
        r@ == s@,
{
    String::from_str(s)
}

/// Whether `c` is Unicode whitespace (`char::is_whitespace`).
pub fn is_whitespace(c: char) -> (b: bool)
    ensures
        b == is_ws(c),
{
    ('\t' <= c && c <= '\r') || c == ' ' || c == '\u{85}' || c == '\u{a0}' || c == '\u{1680}'
        || ('\u{2000}' <= c && c <= '\u{200a}') || c == '\u{2028}' || c == '\u{2029}'
        || c == '\u{202f}' || c == '\u{205f}' || c == '\u{3000}'
}

proof fn lemma_trim_start_skip(s: Seq<char>, i: int)
    requires
        0 <= i <= s.len(),
        forall|k: int| 0 <= k < i ==> is_ws(s[k]),
    ensures
        trim_start(s) == trim_start(s.skip(i)),
    decreases i,
{
    if i > 0 {
        assert(s.drop_first().skip(i - 1) == s.skip(i));
        lemma_trim_start_skip(s.drop_first(), i - 1);
    } else {
        assert(s.skip(0) == s);
    }
}

proof fn lemma_trim_end_take(s: Seq<char>, j: int)
    requires
        0 <= j <= s.len(),
        forall|k: int| j <= k < s.len() ==> is_ws(s[k]),
    ensures
        trim_end(s) == trim_end(s.take(j)),
    decreases s.len() - j,
{
    if j < s.len() {
        assert(s.drop_last().take(j) == s.take(j));
        lemma_trim_end_take(s.drop_last(), j);
    } else {
        assert(s.take(j) == s);
    }
}

/// `s.trim()` as characters.
pub fn trim_chars(v: &Vec<char>) -> (r: String)
    ensures
        r@ == trim(v@),
{
    let n = v.len();
    let mut i: usize = 0;
    while i < n && is_whitespace(v[i])
        invariant
            i <= n == v@.len(),
            forall|k: int| 0 <= k < i ==> is_ws(v@[k]),
        decreases n - i,
    {
        i = i + 1;
    }
    let mut j: usize = n;
    while j > i && is_whitespace(v[j - 1])
        invariant
            i <= j <= n == v@.len(),
            forall|k: int| j <= k < n ==> is_ws(v@[k]),
        decreases j,
    {
        j = j - 1;
    }
    proof {
        lemma_trim_start_skip(v@, i as int);
        let t = v@.skip(i as int);
        assert(!(t.len() > 0 && is_ws(t[0])));
        assert(trim_start(v@) == t);
        lemma_trim_end_take(t, (j - i) as int);
        let u = t.take((j - i) as int);
        assert(u == v@.subrange(i as int, j as int));
        assert(!(u.len() > 0 && is_ws(u.last())));
    }
    string_of(v, i, j)
}

/// `s.trim()`.
pub fn trim_str(s: &str) -> (r: String)
    ensures
        r@ == trim(s@),
{
    let v = chars_of(s);
    trim_chars(&v)
}

proof fn lemma_lines_step(s: Seq<char>, i: int, cur: Seq<char>)
    requires
        0 <= i < s.len(),
    ensures
        lines_acc(s.skip(i), cur) == (if s[i] == '\n' {
            seq![strip_cr(cur)] + lines_acc(s.skip(i + 1), Seq::empty())
        } else {
            lines_acc(s.skip(i + 1), cur.push(s[i]))
        }),
{
    assert(s.skip(i).drop_first() == s.skip(i + 1));
}

/// `s.lines()`, each line as an owned string.
pub fn lines_of(s: &str) -> (r: Vec<String>)
    ensures
        views(r@) == lines(s@),
{
    let v = chars_of(s);
    let n = v.len();
    let mut out: Vec<String> = Vec::new();
    let mut start: usize = 0;
    let mut i: usize = 0;
    assert(v@.skip(0) == v@);
    assert(views(out@) =~= Seq::<Seq<char>>::empty());
    assert(v@.subrange(0, 0) =~= Seq::<char>::empty());
    while i < n
        invariant
            start <= i <= n == v@.len(),
            v@ == s@,
            forall|k: int| start <= k < i ==> v@[k] != '\n',
            views(out@) + lines_acc(v@.skip(i as int), v@.subrange(start as int, i as int))
                == lines(s@),
        decreases n - i,
    {
        proof {
            lemma_lines_step(v@, i as int, v@.subrange(start as int, i as int));
        }
        if v[i] == '\n' {
            let mut end = i;
            if end > start && v[end - 1] == '\r' {
                end = end - 1;
            }
            let line = string_of(&v, start, end);
            proof {
                let cur = v@.subrange(start as int, i as int);
                assert(line@ == strip_cr(cur));
                assert(views(out@.push(line)) == views(out@).push(line@));
                assert(v@.subrange((i + 1) as int, (i + 1) as int) =~= Seq::<char>::empty());
            }
            out.push(line);
            i = i + 1;
            start = i;
        } else {
            proof {
                assert(v@.subrange(start as int, i as int).push(v@[i as int]) == v@.subrange(
                    start as int,
                    i + 1,
                ));
            }
            i = i + 1;
        }
    }
    proof {
        assert(v@.skip(n as int) =~= Seq::<char>::empty());
    }
    if start < n {
        let line = string_of(&v, start, n);
        proof {
            assert(views(out@.push(line)) == views(out@).push(line@));
        }
        out.push(line);
    }
    out
}

/// Whether `p` occurs in `v` at index `i`.
pub fn matches_at(v: &Vec<char>, p: &Vec<char>, i: usize) -> (b: bool)
    ensures
        b == occurs_at(v@, p@, i as int),
{
    if p.len() > v.len() || i > v.len() - p.len() {
        return false;
    }
    let mut k: usize = 0;
    while k < p.len()
        invariant
            i + p@.len() <= v@.len(),
            i + p.len() <= v.len(),
            k <= p@.len(),
            forall|m: int| 0 <= m < k ==> v@[i + m] == p@[m],
        decreases p.len() - k,
    {
        if v[i + k] != p[k] {
            assert(v@.subrange(i as int, i + p@.len())[k as int] != p@[k as int]);
            return false;
        }
        k = k + 1;
    }
    assert(v@.subrange(i as int, i + p@.len()) =~= p@);
    true
}

/// Whether `a` and `b` hold the same text.
pub fn same_text(a: &str, b: &str) -> (r: bool)
    ensures
        r == (a@ == b@),
{
    let v = chars_of(a);
    let w = chars_of(b);
    if v.len() != w.len() {
        return false;
    }
    let r = matches_at(&v, &w, 0);
    assert(v@ =~= v@.subrange(0, w@.len() as int));
    r
}

/// Whether `s` starts with `p`.
pub fn has_prefix(s: &str, p: &str) -> (b: bool)
    ensures
        b == starts_with(s@, p@),
{
    let v = chars_of(s);
    let pv = chars_of(p);
    matches_at(&v, &pv, 0)
}

/// Whether `s` ends with `p`.
pub fn has_suffix(s: &str, p: &str) -> (b: bool)
    ensures
        b == ends_with(s@, p@),
{
    let v = chars_of(s);
    let pv = chars_of(p);
    if pv.len() > v.len() {
        return false;
    }
    matches_at(&v, &pv, v.len() - pv.len())
}

/// Whether `p` occurs in `s`.
pub fn has_substring(s: &str, p: &str) -> (b: bool)
    ensures
        b == contains(s@, p@),
{
    let v = chars_of(s);
    let pv = chars_of(p);
    if pv.len() > v.len() {
        assert(forall|i: int| !occurs_at(s@, p@, i));
        return false;
    }
    let last = v.len() - pv.len();
    let mut i: usize = 0;
    loop
        invariant
            v@ == s@,
            pv@ == p@,
            pv@.len() <= v@.len(),
            last == v@.len() - pv@.len(),
            i <= last,
            forall|k: int| 0 <= k < i ==> !occurs_at(s@, p@, k),
        ensures
            forall|k: int| 0 <= k <= last ==> !occurs_at(s@, p@, k),
        decreases last - i,
    {
        if matches_at(&v, &pv, i) {
            return true;
        }
        if i == last {
            break;
        }
        i = i + 1;
    }
    assert(forall|k: int| !occurs_at(s@, p@, k));
    false
}

/// `s.strip_prefix(p)`.
pub fn strip_prefix_str(s: &str, p: &str) -> (r: Option<String>)
    ensures
        opt_view(r) == strip_prefix(s@, p@),
{
    let v = chars_of(s);
    let pv = chars_of(p);
    if matches_at(&v, &pv, 0) {
        Some(string_of(&v, pv.len(), v.len()))
    } else {
        None
    }
}

/// `s.split_once(c)`.
pub fn split_once_str(s: &str, c: char) -> (r: Option<(String, String)>)
    ensures
        match r {
            Some((a, b)) => split_once(s@, c) == Some((a@, b@)),
            None => split_once(s@, c) is None,
        },
{
    let v = chars_of(s);
    let mut i: usize = 0;
    while i < v.len()
        invariant
            v@ == s@,
            i <= v@.len(),
            forall|k: int| 0 <= k < i ==> v@[k] != c,
        decreases v.len() - i,
    {
        if v[i] == c {
            proof {
                lemma_find_char_from(v@, c, 0, i as int);
            }
            let a = string_of(&v, 0, i);
            let b = string_of(&v, i + 1, v.len());
            assert(b@ == v@.skip(i + 1));
            return Some((a, b));
        }
        i = i + 1;
    }
    proof {
        lemma_find_char_from(v@, c, 0, i as int);
    }
    None
}

/// The decimal digit character for `d < 10`.
pub fn digit_char(d: usize) -> (c: char)
    requires
        d < 10,
    ensures
        c == digit(d as nat),
{
    if d == 0 {
        '0'
    } else if d == 1 {
        '1'
    } else if d == 2 {
        '2'
    } else if d == 3 {
        '3'
    } else if d == 4 {
        '4'
    } else if d == 5 {
        '5'
    } else if d == 6 {
        '6'
    } else if d == 7 {
        '7'
    } else if d == 8 {
        '8'
    } else {
        '9'
    }
}

/// Appends the decimal representation of `n` to `s`.
pub fn push_decimal(s: &mut String, n: usize)
    ensures
        final(s)@ == old(s)@ + decimal(n as nat),
    decreases n,
{
    if n >= 10 {
        push_decimal(s, n / 10);
    }
    s.push(digit_char(n % 10));
    proof {
        if n >= 10 {
            assert(old(s)@ + decimal(n as nat) == old(s)@ + decimal((n / 10) as nat) + seq![
                digit((n % 10) as nat),
            ]);
        }
    }
}

/// Appends the decimal representation of a wide `n` to `s`.
pub fn push_wide_decimal(s: &mut String, n: u128)
    ensures
        final(s)@ == old(s)@ + decimal(n as nat),
    decreases n,
{
    if n >= 10 {
        push_wide_decimal(s, n / 10);
    }
    let d = (n % 10) as usize;
    s.push(digit_char(d));
    proof {
        if n >= 10 {
            assert(old(s)@ + decimal(n as nat) == old(s)@ + decimal((n / 10) as nat) + seq![
                digit((n % 10) as nat),
            ]);
        }
    }
}

/// The decimal representation of `n`.
pub fn decimal_string(n: usize) -> (s: String)
    ensures
        s@ == decimal(n as nat),
{
    let mut s = String::new();
    push_decimal(&mut s, n);
    s
}

proof fn lemma_replace_no_match(s: Seq<char>, from: Seq<char>, to: Seq<char>)
    requires
        from.len() > 0,
        s.len() >= from.len(),
        s.subrange(0, from.len() as int) != from,
    ensures
        replace(s, from, to) == seq![s[0]] + replace(s.drop_first(), from, to),
{
}

/// `s.replace(from, to)` for a non-empty `from`.
pub fn replace_str(s: &str, from: &str, to: &str) -> (r: String)
    requires
        from@.len() > 0,
    ensures
        r@ == replace(s@, from@, to@),
{
    let v = chars_of(s);
    let fv = chars_of(from);
    let n = v.len();
    let mut out = String::new();
    let mut i: usize = 0;
    assert(v@.skip(0) == v@);
    while i < n
        invariant
            i <= n == v@.len(),
            v@ == s@,
            fv@ == from@,
            fv@.len() > 0,
            out@ + replace(v@.skip(i as int), from@, to@) == replace(s@, from@, to@),
        decreases n - i,
    {
        let ghost rest = v@.skip(i as int);
        if matches_at(&v, &fv, i) {
            assert(rest.subrange(0, fv@.len() as int) == v@.subrange(i as int, i + fv@.len()));
            assert(rest.skip(fv@.len() as int) == v@.skip(i + fv@.len()));
            push_str(&mut out, to);
            i = i + fv.len();
        } else {
            proof {
                if rest.len() >= fv@.len() {
                    assert(rest.subrange(0, fv@.len() as int) == v@.subrange(
                        i as int,
                        i + fv@.len(),
                    ));
                    lemma_replace_no_match(rest, from@, to@);
                }
                assert(rest.drop_first() == v@.skip(i + 1));
                if rest.len() < fv@.len() {
                    // The remaining text is shorter than the pattern: copied as is.
                    assert(replace(rest, from@, to@) == rest);
                    assert(rest == seq![rest[0]] + rest.drop_first());
                    assert(replace(rest.drop_first(), from@, to@) == rest.drop_first());
                }
            }
            out.push(v[i]);
            i = i + 1;
        }
    }
    assert(v@.skip(i as int) =~= Seq::<char>::empty());
    out
}

/// Appends `t` to `s`, then spaces up to `width` characters of `t`.
pub fn push_padded(s: &mut String, t: &str, width: usize)
    ensures
        final(s)@ == old(s)@ + pad_right(t@, width as nat),
{
    let len = t.unicode_len();
    push_str(s, t);
    if len < width {
        let mut k: usize = len;
        while k < width
            invariant
                len <= k <= width,
                len == t@.len(),
                s@ == old(s)@ + t@ + Seq::new((k - len) as nat, |i: int| ' '),
            decreases width - k,
        {
            s.push(' ');
            assert(Seq::new((k - len) as nat, |i: int| ' ').push(' ') =~= Seq::new(
                (k + 1 - len) as nat,
                |i: int| ' ',
            ));
            k = k + 1;
        }
    } else {
        assert(Seq::new(0, |i: int| ' ') =~= Seq::<char>::empty());
    }
}


proof fn lemma_replace_prefix(x: Seq<char>, from: Seq<char>, to: Seq<char>, m: int)
    requires
        from.len() > 0,
        to.len() > 0,
        0 <= m <= replace(x, from, to).len(),
        forall|i: int| 0 <= i < m ==> replace(x, from, to)[i] != to[0],
    ensures
        m <= x.len(),
        x.take(m) == replace(x, from, to).take(m),
    decreases x.len(),
{
    let r = replace(x, from, to);
    if x.len() < from.len() {
        assert(r == x);
    } else if x.subrange(0, from.len() as int) == from {
        assert(r == to + replace(x.skip(from.len() as int), from, to));
        if m > 0 {
            assert(r[0] == to[0]);
        }
    } else if m > 0 {
        let rest = replace(x.drop_first(), from, to);
        assert(r == seq![x[0]] + rest);
        assert forall|i: int| 0 <= i < m - 1 implies rest[i] != to[0] by {
            assert(r[i + 1] == rest[i]);
        }
        lemma_replace_prefix(x.drop_first(), from, to, m - 1);
        assert(x.take(m) =~= seq![x[0]] + x.drop_first().take(m - 1));
        assert(r.take(m) =~= seq![x[0]] + rest.take(m - 1));
    }
}

/// What keeps a replacement of `from` by `to` from leaving or making an
/// occurrence of `w`: the first character of `to` occurs in `w` only at
/// its start and in `to` only at its start, and neither of `w` and `to`
/// starts with the other.
pub open spec fn replacement_separates(w: Seq<char>, to: Seq<char>) -> bool {
    &&& w.len() > 0
    &&& to.len() > 0
    &&& w[0] == to[0]
    &&& forall|k: int| 1 <= k < w.len() ==> #[trigger] w[k] != to[0]
    &&& forall|j: int| 1 <= j < to.len() ==> #[trigger] to[j] != to[0]
    &&& !starts_with(to, w)
    &&& !starts_with(w, to)
}

/// `to` followed by a text without `w` holds no `w` either, when `w` and
/// `to` are kept apart.
proof fn lemma_no_occurrence_after_to(to: Seq<char>, r: Seq<char>, w: Seq<char>)
    requires
        replacement_separates(w, to),
        !contains(r, w),
    ensures
        !contains(to + r, w),
{
    let out = to + r;
    if contains(out, w) {
        let i = choose|i: int| occurs_at(out, w, i);
        if i >= to.len() {
            assert(r.subrange(i - to.len(), i - to.len() + w.len()) =~= out.subrange(i, i + w.len()));
            assert(occurs_at(r, w, i - to.len()));
        } else if i >= 1 {
            assert(out.subrange(i, i + w.len())[0] == w[0]);
            assert(out[i] == to[i]);
        } else if w.len() <= to.len() {
            assert(to.subrange(0, w.len() as int) =~= out.subrange(0, w.len() as int));
            assert(starts_with(to, w));
        } else {
            let ow = out.subrange(0, w.len() as int);
            assert(out.subrange(0, to.len() as int) =~= to);
            assert(ow.subrange(0, to.len() as int) =~= out.subrange(0, to.len() as int));
            assert(w.subrange(0, to.len() as int) == to);
            assert(starts_with(w, to));
        }
    }
}

/// Where `s` does not start with `from`, its first character followed by
/// the replaced rest holds no `w` when the rest does not and `s` itself
/// did not (or `w` is `from`).
proof fn lemma_no_occurrence_after_char(s: Seq<char>, w: Seq<char>, from: Seq<char>, to: Seq<char>)
    requires
        from.len() > 0,
        s.len() >= from.len(),
        s.subrange(0, from.len() as int) != from,
        replacement_separates(w, to),
        w == from || !contains(s, w),
        !contains(replace(s.drop_first(), from, to), w),
    ensures
        !contains(seq![s[0]] + replace(s.drop_first(), from, to), w),
{
    let rest = s.drop_first();
    let r = replace(rest, from, to);
    let out = seq![s[0]] + r;
    if contains(out, w) {
        let i = choose|i: int| occurs_at(out, w, i);
        if i >= 1 {
            assert(r.subrange(i - 1, i - 1 + w.len()) =~= out.subrange(i, i + w.len()));
            assert(occurs_at(r, w, i - 1));
        } else {
            let m = w.len() - 1;
            assert(out.subrange(0, w.len() as int) == w);
            assert forall|k: int| 0 <= k < m implies r[k] != to[0] by {
                assert(out.subrange(0, w.len() as int)[k + 1] == r[k]);
            }
            lemma_replace_prefix(rest, from, to, m);
            assert(s.subrange(0, w.len() as int) =~= seq![s[0]] + rest.take(m));
            assert(r.take(m) =~= w.drop_first());
            assert(s.subrange(0, w.len() as int) =~= w);
            assert(occurs_at(s, w, 0));
        }
    }
}

/// Replacing `from` by `to` leaves no occurrence of `w` when `w` is `from`
/// itself or does not occur yet, as long as the replacement keeps `w` and
/// `to` apart ([`replacement_separates`]).
pub proof fn lemma_replace_leaves_none(s: Seq<char>, w: Seq<char>, from: Seq<char>, to: Seq<char>)
    requires
        from.len() > 0,
        replacement_separates(w, to),
        w == from || !contains(s, w),
    ensures
        !contains(replace(s, from, to), w),
    decreases s.len(),
{
    let n = from.len() as int;
    if s.len() < from.len() {
        assert(replace(s, from, to) == s);
        if contains(s, w) {
            let i = choose|i: int| occurs_at(s, w, i);
            assert(w.len() <= s.len());
        }
    } else if s.subrange(0, n) == from {
        let rest = s.skip(n);
        if w != from && contains(rest, w) {
            let i = choose|i: int| occurs_at(rest, w, i);
            assert(s.subrange(i + n, i + n + w.len()) =~= rest.subrange(i, i + w.len()));
            assert(occurs_at(s, w, i + n));
        }
        lemma_replace_leaves_none(rest, w, from, to);
        assert(replace(s, from, to) == to + replace(rest, from, to));
        lemma_no_occurrence_after_to(to, replace(rest, from, to), w);
    } else {
        let rest = s.drop_first();
        if w != from && contains(rest, w) {
            let i = choose|i: int| occurs_at(rest, w, i);
            assert(s.subrange(i + 1, i + 1 + w.len()) =~= rest.subrange(i, i + w.len()));
            assert(occurs_at(s, w, i + 1));
        }
        lemma_replace_leaves_none(rest, w, from, to);
        assert(replace(s, from, to) == seq![s[0]] + replace(rest, from, to));
        lemma_no_occurrence_after_char(s, w, from, to);
    }
}


proof fn lemma_replace_keeps_prefix(x: Seq<char>, from: Seq<char>, to: Seq<char>, m: int)
    requires
        from.len() > 0,
        0 <= m <= x.len(),
        forall|i: int| 0 <= i < m ==> x[i] != from[0],
    ensures
        m <= replace(x, from, to).len(),
        replace(x, from, to).take(m) == x.take(m),
    decreases x.len(),
{
    let r = replace(x, from, to);
    if x.len() < from.len() {
        assert(r == x);
    } else if x.subrange(0, from.len() as int) == from {
        if m > 0 {
            assert(x.subrange(0, from.len() as int)[0] == x[0]);
        }
    } else if m > 0 {
        let rest = replace(x.drop_first(), from, to);
        assert(r == seq![x[0]] + rest);
        lemma_replace_keeps_prefix(x.drop_first(), from, to, m - 1);
        assert(x.take(m) =~= seq![x[0]] + x.drop_first().take(m - 1));
        assert(r.take(m) =~= seq![x[0]] + rest.take(m - 1));
    }
}

/// Replacing `from` by `to` in a text that holds `from` gives a text that
/// holds `to`.
pub proof fn lemma_replace_puts(s: Seq<char>, from: Seq<char>, to: Seq<char>)
    requires
        from.len() > 0,
        contains(s, from),
    ensures
        contains(replace(s, from, to), to),
    decreases s.len(),
{
    let out = replace(s, from, to);
    let n = from.len() as int;
    let i = choose|i: int| occurs_at(s, from, i);
    if s.subrange(0, n) == from {
        let r = replace(s.skip(n), from, to);
        assert(out == to + r);
        assert(out.subrange(0, to.len() as int) =~= to);
        assert(occurs_at(out, to, 0));
    } else {
        assert(i != 0);
        let rest = s.drop_first();
        assert(rest.subrange(i - 1, i - 1 + n) =~= s.subrange(i, i + n));
        assert(occurs_at(rest, from, i - 1));
        lemma_replace_puts(rest, from, to);
        let r = replace(rest, from, to);
        assert(out == seq![s[0]] + r);
        let j = choose|j: int| occurs_at(r, to, j);
        assert(out.subrange(j + 1, j + 1 + to.len()) =~= r.subrange(j, j + to.len()));
        assert(occurs_at(out, to, j + 1));
    }
}

/// Replacing `from` by `to` keeps every occurrence of `v` that no
/// occurrence of `from` can overlap ([`replacement_separates`]`(v, from)`).
pub proof fn lemma_replace_keeps(s: Seq<char>, v: Seq<char>, from: Seq<char>, to: Seq<char>)
    requires
        replacement_separates(v, from),
        contains(s, v),
    ensures
        contains(replace(s, from, to), v),
    decreases s.len(),
{
    let out = replace(s, from, to);
    let n = from.len() as int;
    let i = choose|i: int| occurs_at(s, v, i);
    if s.len() < from.len() {
        assert(out == s);
    } else if s.subrange(0, n) == from {
        let rest = s.skip(n);
        let r = replace(rest, from, to);
        assert(out == to + r);
        if i >= n {
            assert(rest.subrange(i - n, i - n + v.len()) =~= s.subrange(i, i + v.len()));
            assert(occurs_at(rest, v, i - n));
            lemma_replace_keeps(rest, v, from, to);
            let j = choose|j: int| occurs_at(r, v, j);
            assert(out.subrange(j + to.len(), j + to.len() + v.len()) =~= r.subrange(j, j + v.len()));
            assert(occurs_at(out, v, j + to.len()));
        } else if i >= 1 {
            assert(s.subrange(i, i + v.len())[0] == v[0]);
            assert(s.subrange(0, n)[i] == from[i]);
            assert(false);
        } else if v.len() <= from.len() {
            assert(from.subrange(0, v.len() as int) =~= s.subrange(0, v.len() as int));
            assert(starts_with(from, v));
            assert(false);
        } else {
            assert(v.subrange(0, n) =~= s.subrange(0, n));
            assert(starts_with(v, from));
            assert(false);
        }
    } else {
        let rest = s.drop_first();
        let r = replace(rest, from, to);
        assert(out == seq![s[0]] + r);
        if i >= 1 {
            assert(rest.subrange(i - 1, i - 1 + v.len()) =~= s.subrange(i, i + v.len()));
            assert(occurs_at(rest, v, i - 1));
            lemma_replace_keeps(rest, v, from, to);
            let j = choose|j: int| occurs_at(r, v, j);
            assert(out.subrange(j + 1, j + 1 + v.len()) =~= r.subrange(j, j + v.len()));
            assert(occurs_at(out, v, j + 1));
        } else {
            let m = v.len() - 1;
            assert(s.subrange(0, v.len() as int) == v);
            assert forall|k: int| 0 <= k < m implies rest[k] != from[0] by {
                assert(s.subrange(0, v.len() as int)[k + 1] == rest[k]);
            }
            lemma_replace_keeps_prefix(rest, from, to, m);
            assert(rest.take(m) =~= v.drop_first());
            assert(out.subrange(0, v.len() as int) =~= seq![s[0]] + r.take(m));
            assert(out.subrange(0, v.len() as int) =~= v);
            assert(occurs_at(out, v, 0));
        }
    }
}

} // verus!
