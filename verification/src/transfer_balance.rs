//! Token balances of the account, as `proton account <name> -t` lists them,
//! and the decision to ask again after a failed listing.
use vstd::prelude::*;
use crate::matching::{contains_literal, contains_text, first_captures, is_plain_literal, regex_first_captures};
use crate::text::{spec_lines, split_lines};

verus! {

/// The map that a list of (symbol, amount) pairs describes; a later pair
/// for the same symbol replaces an earlier one.
pub open spec fn pairs_map(s: Seq<(Seq<char>, Seq<char>)>) -> Map<Seq<char>, Seq<char>>
    decreases s.len(),
{
    if s.len() == 0 {
        Map::empty()
    } else {
        pairs_map(s.drop_last()).insert(s.last().0, s.last().1)
    }
}

pub open spec fn distinct_keys(s: Seq<(Seq<char>, Seq<char>)>) -> bool {
    forall|i: int, j: int| 0 <= i < j < s.len() ==> s[i].0 != s[j].0
}

proof fn lemma_pairs_map_dom(s: Seq<(Seq<char>, Seq<char>)>, k: Seq<char>)
    ensures
        pairs_map(s).dom().contains(k) <==> exists|i: int| 0 <= i < s.len() && s[i].0 == k,
    decreases s.len(),
{
    if s.len() > 0 {
        lemma_pairs_map_dom(s.drop_last(), k);
        if exists|i: int| 0 <= i < s.len() && s[i].0 == k {
            let i = choose|i: int| 0 <= i < s.len() && s[i].0 == k;
            if i < s.len() - 1 {
                assert(s.drop_last()[i].0 == k);
            }
        }
        if exists|i: int| 0 <= i < s.drop_last().len() && s.drop_last()[i].0 == k {
            let i = choose|i: int| 0 <= i < s.drop_last().len() && s.drop_last()[i].0 == k;
            assert(s[i].0 == k);
        }
    }
}

proof fn lemma_pairs_map_value(s: Seq<(Seq<char>, Seq<char>)>, i: int)
    requires
        distinct_keys(s),
        0 <= i < s.len(),
    ensures
        pairs_map(s).dom().contains(s[i].0),
        pairs_map(s)[s[i].0] == s[i].1,
    decreases s.len(),
{
    if i < s.len() - 1 {
        assert(s.drop_last()[i] == s[i]);
        lemma_pairs_map_value(s.drop_last(), i);
    }
}

proof fn lemma_pairs_map_update(s: Seq<(Seq<char>, Seq<char>)>, j: int, v: Seq<char>)
    requires
        distinct_keys(s),
        0 <= j < s.len(),
    ensures
        distinct_keys(s.update(j, (s[j].0, v))),
        pairs_map(s.update(j, (s[j].0, v))) == pairs_map(s).insert(s[j].0, v),
{
    let k = s[j].0;
    let t = s.update(j, (k, v));
    assert(distinct_keys(t)) by {
        assert forall|a: int, b: int| 0 <= a < b < t.len() implies t[a].0 != t[b].0 by {
            assert(t[a].0 == s[a].0);
            assert(t[b].0 == s[b].0);
        }
    }
    let m1 = pairs_map(t);
    let m2 = pairs_map(s).insert(k, v);
    assert forall|key: Seq<char>| m1.dom().contains(key) <==> m2.dom().contains(key) by {
        lemma_pairs_map_dom(t, key);
        lemma_pairs_map_dom(s, key);
        if exists|i: int| 0 <= i < s.len() && s[i].0 == key {
            let i = choose|i: int| 0 <= i < s.len() && s[i].0 == key;
            assert(t[i].0 == key);
        }
        if exists|i: int| 0 <= i < t.len() && t[i].0 == key {
            let i = choose|i: int| 0 <= i < t.len() && t[i].0 == key;
            assert(s[i].0 == key);
        }
    }
    assert forall|key: Seq<char>| m1.dom().contains(key) implies m1[key] == m2[key] by {
        lemma_pairs_map_dom(t, key);
        let i = choose|i: int| 0 <= i < t.len() && t[i].0 == key;
        lemma_pairs_map_value(t, i);
        if i != j {
            assert(s[i] == t[i]);
            lemma_pairs_map_value(s, i);
        }
    }
    assert(m1 =~= m2);
}

/// Token balances: symbol to amount, each as the CLI printed it.
pub struct Balances {
    entries: Vec<(String, String)>,
}

impl View for Balances {
    type V = Map<Seq<char>, Seq<char>>;

    closed spec fn view(&self) -> Map<Seq<char>, Seq<char>> {
        pairs_map(self.entries.deep_view())
    }
}

impl Balances {
    /// Each symbol is held once.
    pub closed spec fn wf(&self) -> bool {
        distinct_keys(self.entries.deep_view())
    }

    /// No balances.
    pub fn new() -> (r: Balances)
        ensures
            r.wf(),
            r@ == Map::<Seq<char>, Seq<char>>::empty(),
    {
        let r = Balances { entries: Vec::new() };
        assert(r.entries.deep_view() =~= Seq::<(Seq<char>, Seq<char>)>::empty());
        r
    }

    /// Records `amount` for `symbol`, replacing what it had.
    pub fn insert(&mut self, symbol: String, amount: String)
        requires
            old(self).wf(),
        ensures
            final(self).wf(),
            final(self)@ == old(self)@.insert(symbol@, amount@),
    {
        let ghost s = self.entries.deep_view();
        let mut i: usize = 0;
        while i < self.entries.len()
            invariant
                i <= self.entries.len(),
                s == self.entries.deep_view(),
                *self == *old(self),
                distinct_keys(s),
                forall|t: int| 0 <= t < i ==> s[t].0 != symbol@,
            decreases self.entries.len() - i,
        {
            if self.entries[i].0 == symbol {
                proof {
                    lemma_pairs_map_update(s, i as int, amount@);
                }
                let ghost k = s[i as int].0;
                self.entries.set(i, (symbol, amount));
                assert(self.entries.deep_view() =~= s.update(i as int, (k, amount@)));
                return;
            }
            i = i + 1;
        }
        self.entries.push((symbol, amount));
        assert(self.entries.deep_view() =~= s.push((symbol@, amount@)));
        assert(self.entries.deep_view().drop_last() =~= s);
        assert(distinct_keys(self.entries.deep_view())) by {
            let t = self.entries.deep_view();
            assert forall|a: int, b: int| 0 <= a < b < t.len() implies t[a].0 != t[b].0 by {
                if b < s.len() {
                    assert(t[a] == s[a] && t[b] == s[b]);
                } else {
                    assert(t[a] == s[a]);
                }
            }
        }
    }

    /// The amount recorded for `symbol`, or `default` when there is none.
    pub fn amount_or(&self, symbol: &str, default: &str) -> (r: String)
        requires
            self.wf(),
        ensures
            r@ == (if self@.dom().contains(symbol@) {
                self@[symbol@]
            } else {
                default@
            }),
    {
        let key = String::from_str(symbol);
        let ghost s = self.entries.deep_view();
        let mut i: usize = 0;
        while i < self.entries.len()
            invariant
                i <= self.entries.len(),
                s == self.entries.deep_view(),
                distinct_keys(s),
                key@ == symbol@,
                forall|t: int| 0 <= t < i ==> s[t].0 != symbol@,
            decreases self.entries.len() - i,
        {
            if self.entries[i].0 == key {
                proof {
                    lemma_pairs_map_value(s, i as int);
                }
                return self.entries[i].1.clone();
            }
            i = i + 1;
        }
        proof {
            lemma_pairs_map_dom(s, symbol@);
        }
        String::from_str(default)
    }

    /// Whether every recorded amount is exactly `amount` (true when there
    /// is none).
    pub fn all_amounts_are(&self, amount: &str) -> (r: bool)
        requires
            self.wf(),
        ensures
            r == (forall|k: Seq<char>| #[trigger] self@.dom().contains(k) ==> self@[k] == amount@),
    {
        let target = String::from_str(amount);
        let ghost s = self.entries.deep_view();
        let mut i: usize = 0;
        while i < self.entries.len()
            invariant
                i <= self.entries.len(),
                s == self.entries.deep_view(),
                distinct_keys(s),
                target@ == amount@,
                forall|t: int| 0 <= t < i ==> s[t].1 == amount@,
            decreases self.entries.len() - i,
        {
            if !(self.entries[i].1 == target) {
                proof {
                    lemma_pairs_map_value(s, i as int);
                    assert(self@.dom().contains(s[i as int].0) && self@[s[i as int].0] != amount@);
                }
                return false;
            }
            i = i + 1;
        }
        assert forall|k: Seq<char>| #[trigger] self@.dom().contains(k) implies self@[k]
            == amount@ by {
            lemma_pairs_map_dom(s, k);
            let t = choose|t: int| 0 <= t < s.len() && s[t].0 == k;
            lemma_pairs_map_value(s, t);
        }
        true
    }

    /// The (symbol, amount) pairs, each symbol once.
    pub fn to_pairs(&self) -> (r: Vec<(String, String)>)
        requires
            self.wf(),
        ensures
            distinct_keys(r.deep_view()),
            pairs_map(r.deep_view()) == self@,
    {
        let mut r: Vec<(String, String)> = Vec::new();
        let mut i: usize = 0;
        while i < self.entries.len()
            invariant
                i <= self.entries.len(),
                r.deep_view() == self.entries.deep_view().take(i as int),
            decreases self.entries.len() - i,
        {
            let ghost prev = r.deep_view();
            let a = self.entries[i].0.clone();
            let b = self.entries[i].1.clone();
            assert((a@, b@) == self.entries.deep_view()[i as int]);
            r.push((a, b));
            assert(r.deep_view() =~= prev.push(self.entries.deep_view()[i as int]));
            assert(r.deep_view() =~= self.entries.deep_view().take(i + 1));
            i = i + 1;
        }
        assert(self.entries.deep_view().take(i as int) =~= self.entries.deep_view());
        r
    }
}

/// The pattern a balance line of `proton account <name> -t` matches:
/// amount, symbol, a dash and the token contract.
pub open spec fn balance_line_pattern() -> Seq<char> {
    "(\\d+(?:\\.\\d+)?)\\s+(\\w+)\\s+-\\s+\\w+"@
}

/// The (symbol, amount) that a match of the balance line pattern gives:
/// group 2 and group 1.
pub open spec fn captured_balance(groups: Option<Seq<Option<Seq<char>>>>) -> Option<
    (Seq<char>, Seq<char>),
> {
    match groups {
        Some(g) => if g.len() > 2 && g[1] is Some && g[2] is Some {
            Some((g[2]->0, g[1]->0))
        } else {
            None
        },
        None => None,
    }
}

/// The balances recorded from the matches of successive lines; a later
/// line for the same symbol replaces an earlier one.
pub open spec fn balances_from(per_line: Seq<Option<Seq<Option<Seq<char>>>>>) -> Map<
    Seq<char>,
    Seq<char>,
>
    decreases per_line.len(),
{
    if per_line.len() == 0 {
        Map::empty()
    } else {
        let m = balances_from(per_line.drop_last());
        match captured_balance(per_line.last()) {
            Some(e) => m.insert(e.0, e.1),
            None => m,
        }
    }
}

/// The balances of the account from the matches of the balance line
/// pattern on each line of the CLI's output.
pub fn balances_from_captures(per_line: &Vec<Option<Vec<Option<String>>>>) -> (r: Balances)
    ensures
        r.wf(),
        r@ == balances_from(per_line.deep_view()),
{
    let mut r = Balances::new();
    let ghost v = per_line.deep_view();
    let mut i: usize = 0;
    while i < per_line.len()
        invariant
            i <= per_line.len(),
            v == per_line.deep_view(),
            r.wf(),
            r@ == balances_from(v.take(i as int)),
        decreases per_line.len() - i,
    {
        assert(v.take(i + 1).drop_last() =~= v.take(i as int));
        assert(v.take(i + 1).last() == v[i as int]);
        match &per_line[i] {
            Some(groups) => {
                if groups.len() > 2 {
                    match (&groups[1], &groups[2]) {
                        (Some(amount), Some(symbol)) => {
                            r.insert(symbol.clone(), amount.clone());
                        },
                        _ => {},
                    }
                }
            },
            None => {},
        }
        i = i + 1;
    }
    assert(v.take(per_line.len() as int) =~= v);
    r
}

/// The match of the balance line pattern on each line.
pub open spec fn balance_line_matches(output: Seq<char>) -> Seq<Option<Seq<Option<Seq<char>>>>> {
    spec_lines(output).map_values(|line: Seq<char>| regex_first_captures(balance_line_pattern(), line))
}

/// Reads the balances out of what `proton account <name> -t` printed.
pub fn parse_account_tokens(output: &str) -> (r: Balances)
    ensures
        r.wf(),
        r@ == balances_from(balance_line_matches(output@)),
{
    let lines = split_lines(output);
    let mut per_line: Vec<Option<Vec<Option<String>>>> = Vec::new();
    let mut i: usize = 0;
    while i < lines.len()
        invariant
            i <= lines.len(),
            lines.deep_view() == spec_lines(output@),
            per_line.deep_view() == balance_line_matches(output@).take(i as int),
        decreases lines.len() - i,
    {
        let caps = first_captures("(\\d+(?:\\.\\d+)?)\\s+(\\w+)\\s+-\\s+\\w+", lines[i].as_str());
        let ghost prev = per_line.deep_view();
        per_line.push(caps);
        assert(per_line.deep_view() =~= prev.push(caps.deep_view()));
        assert(balance_line_matches(output@).take(i + 1) =~= balance_line_matches(output@).take(
            i as int,
        ).push(regex_first_captures(balance_line_pattern(), lines.deep_view()[i as int])));
        i = i + 1;
    }
    assert(balance_line_matches(output@).take(lines.len() as int) =~= balance_line_matches(
        output@,
    ));
    balances_from_captures(&per_line)
}

/// How many times a failed balance listing is asked again.
pub const MAX_BALANCE_RETRIES: u32 = 5;

pub open spec fn spec_retry_balance_query(stderr: Seq<char>, retries_done: u32) -> bool {
    (contains_text(stderr, "AbortError: The user aborted a request"@) || contains_text(
        stderr,
        "Failed to get balance for account"@,
    )) && retries_done < MAX_BALANCE_RETRIES
}

/// After a failed `proton account -t`: ask again when the error is an
/// aborted request or a failed balance lookup and fewer than five retries
/// were made; otherwise the listing fails with that error.
pub fn retry_balance_query(stderr: &str, retries_done: u32) -> (r: bool)
    ensures
        r == spec_retry_balance_query(stderr@, retries_done),
        retries_done >= MAX_BALANCE_RETRIES ==> !r,
        r ==> contains_text(stderr@, "AbortError: The user aborted a request"@) || contains_text(
            stderr@,
            "Failed to get balance for account"@,
        ),
        retries_done < MAX_BALANCE_RETRIES && (contains_text(
            stderr@,
            "AbortError: The user aborted a request"@,
        ) || contains_text(stderr@, "Failed to get balance for account"@)) ==> r,
{
    proof {
        reveal_strlit("AbortError: The user aborted a request");
        reveal_strlit("Failed to get balance for account");
        reveal_with_fuel(is_plain_literal, 40);
    }
    let aborted = contains_literal(stderr, "AbortError: The user aborted a request");
    let failed = contains_literal(stderr, "Failed to get balance for account");
    (aborted || failed) && retries_done < MAX_BALANCE_RETRIES
}

/// No sixth retry: once five retries are made no error is asked again, and
/// before that exactly an aborted request or a failed balance lookup is.
pub proof fn lemma_balance_retries_bounded(stderr: Seq<char>, retries_done: u32)
    ensures
        retries_done >= 5 ==> !spec_retry_balance_query(stderr, retries_done),
        retries_done < 5 ==> (spec_retry_balance_query(stderr, retries_done) <==> (contains_text(
            stderr,
            "AbortError: The user aborted a request"@,
        ) || contains_text(stderr, "Failed to get balance for account"@))),
{
}

} // verus!
