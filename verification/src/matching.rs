//! Regular-expression matching on command output, through the `regex` crate.
use vstd::prelude::*;
use regex::Regex;

verus! {

/// A character with a special meaning in a `regex` pattern
/// (`regex_syntax::is_meta_character`).
pub open spec fn is_regex_meta(c: char) -> bool {
    c == '\\' || c == '.' || c == '+' || c == '*' || c == '?' || c == '(' || c == ')' || c == '|'
        || c == '[' || c == ']' || c == '{' || c == '}' || c == '^' || c == '$' || c == '#' || c
        == '&' || c == '-' || c == '~'
}

/// No meta character but `|`: the pattern is `|`-separated literal text.
pub open spec fn is_literal_alternation(p: Seq<char>) -> bool
    decreases p.len(),
{
    p.len() == 0 || ((p[0] == '|' || !is_regex_meta(p[0])) && is_literal_alternation(
        p.drop_first(),
    ))
}

/// No meta character at all: the pattern is one piece of literal text.
pub open spec fn is_plain_literal(p: Seq<char>) -> bool
    decreases p.len(),
{
    p.len() == 0 || (!is_regex_meta(p[0]) && is_plain_literal(p.drop_first()))
}

/// Literal text joined to literal text is literal text.
pub proof fn lemma_plain_literal_concat(a: Seq<char>, b: Seq<char>)
    requires
        is_plain_literal(a),
        is_plain_literal(b),
    ensures
        is_plain_literal(a + b),
    decreases a.len(),
{
    if a.len() == 0 {
        assert(a + b =~= b);
    } else {
        lemma_plain_literal_concat(a.drop_first(), b);
        assert((a + b).drop_first() =~= a.drop_first() + b);
    }
}

pub proof fn lemma_plain_literal(p: Seq<char>)
    requires
        is_plain_literal(p),
    ensures
        is_literal_alternation(p),
        !p.contains('|'),
    decreases p.len(),
{
    if p.len() > 0 {
        lemma_plain_literal(p.drop_first());
        assert(!p.contains('|')) by {
            if p.contains('|') {
                let k = choose|k: int| 0 <= k < p.len() && p[k] == '|';
                if k > 0 {
                    assert(p.drop_first()[k - 1] == '|');
                }
            }
        }
    }
}

/// Two `|`-separated literal patterns joined by `|` form one.
pub proof fn lemma_literal_alternation_join(a: Seq<char>, b: Seq<char>)
    requires
        is_literal_alternation(a),
        is_literal_alternation(b),
    ensures
        is_literal_alternation(a + seq!['|'] + b),
    decreases a.len(),
{
    if a.len() == 0 {
        assert(a + seq!['|'] + b =~= seq!['|'] + b);
        assert((seq!['|'] + b).drop_first() =~= b);
    } else {
        lemma_literal_alternation_join(a.drop_first(), b);
        assert((a + seq!['|'] + b).drop_first() =~= a.drop_first() + seq!['|'] + b);
    }
}

pub open spec fn alternatives_from(p: Seq<char>, cur: Seq<char>) -> Seq<Seq<char>>
    decreases p.len(),
{
    if p.len() == 0 {
        seq![cur]
    } else if p[0] == '|' {
        seq![cur] + alternatives_from(p.drop_first(), Seq::empty())
    } else {
        alternatives_from(p.drop_first(), cur.push(p[0]))
    }
}

/// The `|`-separated pieces of a pattern.
pub open spec fn literal_alternatives(p: Seq<char>) -> Seq<Seq<char>> {
    alternatives_from(p, Seq::empty())
}

/// `needle` occurs in `hay` as a contiguous run (`str::contains` on a `&str`).
pub open spec fn contains_text(hay: Seq<char>, needle: Seq<char>) -> bool {
    exists|i: int|
        0 <= i && i + needle.len() <= hay.len() && #[trigger] hay.subrange(i, i + needle.len())
            == needle
}

pub open spec fn contains_some_alternative(hay: Seq<char>, p: Seq<char>) -> bool {
    exists|j: int|
        0 <= j < literal_alternatives(p).len() && contains_text(
            hay,
            #[trigger] literal_alternatives(p)[j],
        )
}

/// What `Regex::new(pattern)` followed by `captures(haystack)` gives, each
/// group by its text: `None` when the pattern does not compile or does not
/// match; otherwise group 0 (the whole leftmost-first match) and then one
/// entry per capture group, `None` for a group that did not take part.
pub uninterp spec fn regex_first_captures(pattern: Seq<char>, haystack: Seq<char>) -> Option<
    Seq<Option<Seq<char>>>,
>;

/// `regex::Regex::new` then `regex::Regex::captures`. The contract names the
/// result (`regex_first_captures`) and states one fact that the crate
/// documents: a pattern without meta characters other than `|`
/// (`regex_syntax::is_meta_character`), and short enough to stay far below
/// the default size limit, compiles and matches exactly where one of its
/// `|`-separated pieces occurs literally. Nothing is said of the groups.
#[verifier::external_body]
fn regex_captures(pattern: &str, haystack: &str) -> (r: Option<Vec<Option<String>>>)
    ensures
        r.deep_view() == regex_first_captures(pattern@, haystack@),
        is_literal_alternation(pattern@) && pattern@.len() <= 256 ==> (r is Some
            <==> contains_some_alternative(haystack@, pattern@)),
{
    match Regex::new(pattern) {
        Ok(re) => re.captures(haystack).map(
            |caps| caps.iter().map(|m| m.map(|m| m.as_str().to_string())).collect(),
        ),
        Err(_) => None,
    }
}

/// Whether `pattern` matches somewhere in `haystack`.
pub fn text_matches(pattern: &str, haystack: &str) -> (r: bool)
    ensures
        r == (regex_first_captures(pattern@, haystack@) is Some),
        is_literal_alternation(pattern@) && pattern@.len() <= 256 ==> (r
            <==> contains_some_alternative(haystack@, pattern@)),
{
    regex_captures(pattern, haystack).is_some()
}

/// The text of each group of the first match of `pattern` in `haystack`.
pub fn first_captures(pattern: &str, haystack: &str) -> (r: Option<Vec<Option<String>>>)
    ensures
        r.deep_view() == regex_first_captures(pattern@, haystack@),
{
    regex_captures(pattern, haystack)
}

/// The text of group `i` of a match, if the group exists and took part.
pub fn group_text(groups: &Vec<Option<String>>, i: usize) -> (r: Option<String>)
    ensures
        r.deep_view() == (if i < groups.deep_view().len() {
            groups.deep_view()[i as int]
        } else {
            None
        }),
{
    if i < groups.len() {
        match &groups[i] {
            Some(s) => Some(s.clone()),
            None => None,
        }
    } else {
        None
    }
}

/// Whether the literal text `needle` occurs in `haystack`, asked of the
/// `regex` crate with `needle` as the pattern.
pub fn contains_literal(haystack: &str, needle: &str) -> (r: bool)
    requires
        is_plain_literal(needle@),
        needle@.len() <= 256,
    ensures
        r == contains_text(haystack@, needle@),
{
    proof {
        lemma_plain_literal(needle@);
        lemma_single_literal(haystack@, needle@);
    }
    text_matches(needle, haystack)
}

proof fn lemma_alternatives_no_bar(p: Seq<char>, cur: Seq<char>)
    requires
        !p.contains('|'),
    ensures
        alternatives_from(p, cur) == seq![cur + p],
    decreases p.len(),
{
    if p.len() == 0 {
        assert(cur + p =~= cur);
    } else {
        assert(p[0] != '|');
        assert(!p.drop_first().contains('|')) by {
            if p.drop_first().contains('|') {
                let k = choose|k: int| 0 <= k < p.drop_first().len() && p.drop_first()[k] == '|';
                assert(p[k + 1] == '|');
            }
        }
        lemma_alternatives_no_bar(p.drop_first(), cur.push(p[0]));
        assert(cur.push(p[0]) + p.drop_first() =~= cur + p);
    }
}

proof fn lemma_alternatives_prefix(a: Seq<char>, rest: Seq<char>, cur: Seq<char>)
    requires
        !a.contains('|'),
    ensures
        alternatives_from(a + rest, cur) == alternatives_from(rest, cur + a),
    decreases a.len(),
{
    if a.len() == 0 {
        assert(a + rest =~= rest);
        assert(cur + a =~= cur);
    } else {
        assert((a + rest)[0] == a[0]);
        assert((a + rest).drop_first() =~= a.drop_first() + rest);
        assert(!a.drop_first().contains('|')) by {
            if a.drop_first().contains('|') {
                let k = choose|k: int| 0 <= k < a.drop_first().len() && a.drop_first()[k] == '|';
                assert(a[k + 1] == '|');
            }
        }
        lemma_alternatives_prefix(a.drop_first(), rest, cur.push(a[0]));
        assert(cur.push(a[0]) + a.drop_first() =~= cur + a);
    }
}

/// A pattern without `|` is a single literal piece: it matches exactly
/// where it occurs.
pub proof fn lemma_single_literal(hay: Seq<char>, p: Seq<char>)
    requires
        !p.contains('|'),
    ensures
        contains_some_alternative(hay, p) <==> contains_text(hay, p),
{
    lemma_alternatives_no_bar(p, Seq::empty());
    assert(Seq::<char>::empty() + p =~= p);
    if contains_text(hay, p) {
        assert(literal_alternatives(p)[0] == p);
    }
}

/// A pattern `a|b` of two literal pieces matches where either occurs.
pub proof fn lemma_two_literals(hay: Seq<char>, a: Seq<char>, b: Seq<char>)
    requires
        !a.contains('|'),
        !b.contains('|'),
    ensures
        contains_some_alternative(hay, a + seq!['|'] + b) <==> (contains_text(hay, a)
            || contains_text(hay, b)),
{
    let p = a + seq!['|'] + b;
    lemma_alternatives_prefix(a, seq!['|'] + b, Seq::empty());
    assert(a + (seq!['|'] + b) =~= p);
    assert(Seq::<char>::empty() + a =~= a);
    let r = seq!['|'] + b;
    assert(r[0] == '|');
    assert(r.drop_first() =~= b);
    lemma_alternatives_no_bar(b, Seq::empty());
    assert(Seq::<char>::empty() + b =~= b);
    let alts = literal_alternatives(p);
    assert(alts =~= seq![a, b]);
    if contains_text(hay, a) {
        assert(alts[0] == a);
    }
    if contains_text(hay, b) {
        assert(alts[1] == b);
    }
}

} // verus!
