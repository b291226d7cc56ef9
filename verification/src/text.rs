//! Character-level helpers on strings, each proved against a spec function.
use vstd::prelude::*;

verus! {

/// Trusted: calls `String::push`. The contract claims what its documentation
/// says: the character is appended at the end and nothing else changes.
#[verifier::external_body]
pub(crate) fn push_char(s: &mut String, c: char)
    ensures
        final(s)@ == old(s)@.push(c),
{
    s.push(c);
}

/// The characters of `s`, in order.
pub fn chars_of(s: &str) -> (r: Vec<char>)
    ensures
        r@ == s@,
{
    let mut r: Vec<char> = Vec::new();
    for c in it: s.chars()
        invariant
            r@ == it.seq().take(it.index() as int),
            it.seq() == s@,
    {
        r.push(c);
    }
    r
}

/// The string whose characters are `v`.
pub fn string_of(v: &Vec<char>) -> (r: String)
    ensures
        r@ == v@,
{
    let mut r = String::new();
    let mut i: usize = 0;
    while i < v.len()
        invariant
            i <= v.len(),
            r@ == v@.take(i as int),
        decreases v.len() - i,
    {
        push_char(&mut r, v[i]);
        assert(v@.take(i + 1) == v@.take(i as int).push(v@[i as int]));
        i = i + 1;
    }
    assert(v@.take(v.len() as int) == v@);
    r
}

} // verus!

verus! {

/// `c` occurs in `v` (`str::contains` with a `char` pattern).
pub fn contains_char(v: &Vec<char>, c: char) -> (r: bool)
    ensures
        r == v@.contains(c),
{
    let mut i: usize = 0;
    while i < v.len()
        invariant
            i <= v.len(),
            forall|j: int| 0 <= j < i ==> v@[j] != c,
        decreases v.len() - i,
    {
        if v[i] == c {
            assert(v@[i as int] == c);
            return true;
        }
        i = i + 1;
    }
    false
}

/// Appends `src[from..to]` to `out`.
pub fn extend_range(out: &mut Vec<char>, src: &Vec<char>, from: usize, to: usize)
    requires
        from <= to <= src.len(),
    ensures
        final(out)@ == old(out)@ + src@.subrange(from as int, to as int),
{
    let mut i: usize = from;
    while i < to
        invariant
            from <= i <= to <= src.len(),
            out@ == old(out)@ + src@.subrange(from as int, i as int),
        decreases to - i,
    {
        out.push(src[i]);
        assert(src@.subrange(from as int, i + 1) == src@.subrange(from as int, i as int).push(
            src@[i as int],
        ));
        i = i + 1;
    }
}

/// `n` copies of `c`.
pub open spec fn repeat_char(c: char, n: nat) -> Seq<char> {
    Seq::new(n, |i: int| c)
}

/// Appends `n` copies of `c` to `out`.
pub fn push_repeat(out: &mut Vec<char>, c: char, n: usize)
    ensures
        final(out)@ == old(out)@ + repeat_char(c, n as nat),
{
    let mut i: usize = 0;
    while i < n
        invariant
            i <= n,
            out@ == old(out)@ + repeat_char(c, i as nat),
        decreases n - i,
    {
        out.push(c);
        assert(repeat_char(c, (i + 1) as nat) == repeat_char(c, i as nat).push(c));
        i = i + 1;
    }
}

} // verus!

verus! {

/// `line` without one trailing carriage return.
pub open spec fn strip_cr(line: Seq<char>) -> Seq<char> {
    if line.len() > 0 && line.last() == '\r' {
        line.drop_last()
    } else {
        line
    }
}

/// The lines of `rest`, the current unfinished line being `cur`: split at
/// each `\n`, a `\r` just before the `\n` dropped, and no empty line after a
/// final line ending (`str::lines`).
pub open spec fn lines_from(rest: Seq<char>, cur: Seq<char>) -> Seq<Seq<char>>
    decreases rest.len(),
{
    if rest.len() == 0 {
        if cur.len() == 0 {
            Seq::empty()
        } else {
            seq![cur]
        }
    } else if rest[0] == '\n' {
        seq![strip_cr(cur)] + lines_from(rest.drop_first(), Seq::empty())
    } else {
        lines_from(rest.drop_first(), cur.push(rest[0]))
    }
}

pub open spec fn spec_lines(s: Seq<char>) -> Seq<Seq<char>> {
    lines_from(s, Seq::empty())
}

/// The lines of `s` as `str::lines` gives them.
pub fn split_lines(s: &str) -> (r: Vec<String>)
    ensures
        r.deep_view() == spec_lines(s@),
{
    let cs = chars_of(s);
    let mut out: Vec<String> = Vec::new();
    let mut cur: Vec<char> = Vec::new();
    let mut i: usize = 0;
    assert(cs@.skip(0) =~= cs@);
    assert(out.deep_view() =~= Seq::<Seq<char>>::empty());
    assert(cur@ =~= Seq::<char>::empty());
    while i < cs.len()
        invariant
            i <= cs.len(),
            cs@ == s@,
            out.deep_view() + lines_from(cs@.skip(i as int), cur@) == spec_lines(s@),
        decreases cs.len() - i,
    {
        let c = cs[i];
        let ghost rest = cs@.skip(i as int);
        assert(rest[0] == c);
        assert(rest.drop_first() =~= cs@.skip(i + 1));
        if c == '\n' {
            let n = cur.len();
            let line = if n > 0 && cur[n - 1] == '\r' {
                let mut t: Vec<char> = Vec::new();
                extend_range(&mut t, &cur, 0, n - 1);
                assert(t@ =~= strip_cr(cur@));
                string_of(&t)
            } else {
                string_of(&cur)
            };
            let ghost prev = out.deep_view();
            out.push(line);
            assert(out.deep_view() =~= prev.push(strip_cr(cur@)));
            assert(out.deep_view() + lines_from(cs@.skip(i + 1), Seq::empty()) =~= prev + (seq![
                strip_cr(cur@)] + lines_from(rest.drop_first(), Seq::empty())));
            cur = Vec::new();
        } else {
            cur.push(c);
        }
        i = i + 1;
    }
    assert(cs@.skip(i as int) =~= Seq::<char>::empty());
    if cur.len() > 0 {
        let ghost prev = out.deep_view();
        out.push(string_of(&cur));
        assert(out.deep_view() =~= prev + seq![cur@]);
    }
    assert(out.deep_view() =~= spec_lines(s@));
    out
}

} // verus!

verus! {

/// Unicode `White_Space`, what `char::is_whitespace` tests.
pub open spec fn is_unicode_whitespace(c: char) -> bool {
    ('\u{9}' <= c && c <= '\u{d}') || c == ' ' || c == '\u{85}' || c == '\u{a0}' || c
        == '\u{1680}' || ('\u{2000}' <= c && c <= '\u{200a}') || c == '\u{2028}' || c
        == '\u{2029}' || c == '\u{202f}' || c == '\u{205f}' || c == '\u{3000}'
}

pub fn is_whitespace(c: char) -> (r: bool)
    ensures
        r == is_unicode_whitespace(c),
{
    ('\u{9}' <= c && c <= '\u{d}') || c == ' ' || c == '\u{85}' || c == '\u{a0}' || c
        == '\u{1680}' || ('\u{2000}' <= c && c <= '\u{200a}') || c == '\u{2028}' || c
        == '\u{2029}' || c == '\u{202f}' || c == '\u{205f}' || c == '\u{3000}'
}

pub open spec fn skip_whitespace(s: Seq<char>) -> Seq<char>
    decreases s.len(),
{
    if s.len() > 0 && is_unicode_whitespace(s[0]) {
        skip_whitespace(s.drop_first())
    } else {
        s
    }
}

pub open spec fn take_word(s: Seq<char>) -> Seq<char>
    decreases s.len(),
{
    if s.len() > 0 && !is_unicode_whitespace(s[0]) {
        seq![s[0]] + take_word(s.drop_first())
    } else {
        Seq::empty()
    }
}

/// The first whitespace-separated word (`s.split_whitespace().next()`).
pub open spec fn spec_first_word(s: Seq<char>) -> Option<Seq<char>> {
    let t = skip_whitespace(s);
    if t.len() == 0 {
        None
    } else {
        Some(take_word(t))
    }
}

/// The first whitespace-separated word of `s`, if any.
pub fn first_word(s: &str) -> (r: Option<String>)
    ensures
        r.deep_view() == spec_first_word(s@),
{
    let cs = chars_of(s);
    let n = cs.len();
    let mut i: usize = 0;
    assert(cs@.skip(0) =~= cs@);
    while i < n && is_whitespace(cs[i])
        invariant
            i <= n,
            n == cs.len(),
            cs@ == s@,
            skip_whitespace(cs@.skip(i as int)) == skip_whitespace(s@),
        decreases n - i,
    {
        assert(cs@.skip(i as int).drop_first() =~= cs@.skip(i + 1));
        i = i + 1;
    }
    let ghost t = cs@.skip(i as int);
    assert(skip_whitespace(t) == t) by {
        if t.len() > 0 {
            assert(t[0] == cs@[i as int]);
        }
    }
    if i == n {
        assert(t.len() == 0);
        return None;
    }
    let start = i;
    while i < n && !is_whitespace(cs[i])
        invariant
            start <= i <= n,
            n == cs.len(),
            take_word(t) == cs@.subrange(start as int, i as int) + take_word(cs@.skip(i as int)),
        decreases n - i,
    {
        let ghost u = cs@.skip(i as int);
        assert(u[0] == cs@[i as int]);
        assert(u.drop_first() =~= cs@.skip(i + 1));
        assert(cs@.subrange(start as int, i + 1) =~= cs@.subrange(start as int, i as int) + seq![
            cs@[i as int]]);
        i = i + 1;
    }
    let ghost u = cs@.skip(i as int);
    assert(take_word(u) =~= Seq::<char>::empty()) by {
        if u.len() > 0 {
            assert(u[0] == cs@[i as int]);
        }
    }
    let mut w: Vec<char> = Vec::new();
    extend_range(&mut w, &cs, start, i);
    assert(w@ =~= take_word(t));
    Some(string_of(&w))
}

} // verus!
