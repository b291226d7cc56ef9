//! Unsigned decimal numerals: what `u64::from_str` accepts and what
//! `u64::to_string` prints, both written out and proved, and the lemmas
//! that relate the two.
use vstd::prelude::*;
use crate::text::chars_of;

verus! {

pub open spec fn is_ascii_digit(c: char) -> bool {
    '0' <= c && c <= '9'
}

pub open spec fn all_ascii_digits(s: Seq<char>) -> bool {
    forall|i: int| 0 <= i < s.len() ==> #[trigger] is_ascii_digit(s[i])
}

pub open spec fn digit_value(c: char) -> nat {
    (c as int - '0' as int) as nat
}

pub open spec fn digit_char(d: nat) -> char {
    (d + '0' as nat) as char
}

/// The number that a string of decimal digits denotes (most significant first).
pub open spec fn digits_value(s: Seq<char>) -> nat
    decreases s.len(),
{
    if s.len() == 0 {
        0
    } else {
        digits_value(s.drop_last()) * 10 + digit_value(s.last())
    }
}

/// The shortest decimal numeral of `n`: no leading zero, "0" for zero.
pub open spec fn decimal(n: nat) -> Seq<char>
    decreases n,
{
    if n < 10 {
        seq![digit_char(n)]
    } else {
        decimal(n / 10).push(digit_char(n % 10))
    }
}

/// The digits that `u64::from_str` reads: an optional leading `+` is dropped.
pub open spec fn unsigned_digits(s: Seq<char>) -> Seq<char> {
    if s.len() > 0 && s[0] == '+' {
        s.drop_first()
    } else {
        s
    }
}

/// `u64::from_str`: at least one ASCII digit after an optional `+`, and a
/// value that fits in 64 bits.
pub open spec fn spec_parse_u64(s: Seq<char>) -> Option<u64> {
    let d = unsigned_digits(s);
    if d.len() > 0 && all_ascii_digits(d) && digits_value(d) <= u64::MAX {
        Some(digits_value(d) as u64)
    } else {
        None
    }
}

/// `s.parse::<u64>().unwrap_or(0)`.
pub open spec fn parse_or_zero(s: Seq<char>) -> nat {
    match spec_parse_u64(s) {
        Some(v) => v as nat,
        None => 0,
    }
}

pub proof fn lemma_digits_value_prefix(s: Seq<char>, k: int)
    requires
        0 <= k <= s.len(),
    ensures
        digits_value(s.take(k)) <= digits_value(s),
    decreases s.len(),
{
    if k < s.len() {
        lemma_digits_value_prefix(s.drop_last(), k);
        assert(s.drop_last().take(k) == s.take(k));
    } else {
        assert(s.take(k) == s);
    }
}

pub proof fn lemma_digits_value_step(s: Seq<char>, i: int)
    requires
        0 <= i < s.len(),
    ensures
        digits_value(s.take(i + 1)) == digits_value(s.take(i)) * 10 + digit_value(s[i]),
{
    assert(s.take(i + 1).drop_last() == s.take(i));
}

/// Parses an unsigned decimal numeral exactly as `u64::from_str` does.
pub fn parse_u64(s: &str) -> (r: Option<u64>)
    ensures
        r == spec_parse_u64(s@),
{
    let cs = chars_of(s);
    let start: usize = if cs.len() > 0 && cs[0] == '+' { 1 } else { 0 };
    let ghost d = unsigned_digits(s@);
    assert(d == cs@.skip(start as int));
    if start >= cs.len() {
        return None;
    }
    let mut acc: u64 = 0;
    let mut i: usize = start;
    while i < cs.len()
        invariant
            start <= i <= cs.len(),
            cs@ == s@,
            d == cs@.skip(start as int),
            d == unsigned_digits(s@),
            d.len() > 0,
            all_ascii_digits(d.take(i - start)),
            acc as nat == digits_value(d.take(i - start)),
        decreases cs.len() - i,
    {
        let c = cs[i];
        let ghost k: int = i - start;
        assert(d[k] == c);
        if !('0' <= c && c <= '9') {
            assert(!is_ascii_digit(d[k]));
            assert(!all_ascii_digits(d));
            return None;
        }
        let dig: u64 = (c as u32 - '0' as u32) as u64;
        assert(dig as nat == digit_value(c));
        proof {
            lemma_digits_value_step(d, k);
        }
        if acc > (u64::MAX - dig) / 10 {
            assert(acc * 10 + dig > u64::MAX) by (nonlinear_arith)
                requires
                    acc > (u64::MAX - dig) / 10,
                    dig <= 9,
            ;
            proof {
                lemma_digits_value_prefix(d, k + 1);
            }
            assert(digits_value(d.take(k + 1)) > u64::MAX);
            assert(digits_value(d) > u64::MAX);
            return None;
        }
        assert(acc * 10 + dig <= u64::MAX) by (nonlinear_arith)
            requires
                acc <= (u64::MAX - dig) / 10,
                dig <= 9,
        ;
        acc = acc * 10 + dig;
        assert forall|j: int| 0 <= j < d.take(k + 1).len() implies #[trigger] is_ascii_digit(
            d.take(k + 1)[j],
        ) by {
            if j < k {
                assert(d.take(k + 1)[j] == d.take(k)[j]);
            }
        }
        i = i + 1;
    }
    assert(d.take(i - start) == d);
    Some(acc)
}

pub proof fn lemma_decimal_digits(n: nat)
    ensures
        decimal(n).len() >= 1,
        all_ascii_digits(decimal(n)),
        digits_value(decimal(n)) == n,
        n > 0 ==> decimal(n)[0] != '0',
    decreases n,
{
    if n >= 10 {
        lemma_decimal_digits(n / 10);
        assert(digit_value(digit_char(n % 10)) == n % 10);
        let p = decimal(n / 10);
        let q = decimal(n);
        assert(q.drop_last() == p);
        assert forall|i: int| 0 <= i < q.len() implies #[trigger] is_ascii_digit(q[i]) by {
            if i < p.len() {
                assert(q[i] == p[i]);
            }
        }
        assert(q[0] == p[0]);
        assert(q.last() == digit_char(n % 10));
        assert(digits_value(q) == digits_value(p) * 10 + n % 10);
        assert(n == (n / 10) * 10 + n % 10);
    } else {
        assert(digit_value(digit_char(n)) == n);
        assert(decimal(n).drop_last() =~= Seq::<char>::empty());
        assert(digits_value(Seq::<char>::empty()) == 0);
    }
}

/// Appends the shortest decimal numeral of `n` (what `u64::to_string` prints).
pub fn push_decimal(n: u64, out: &mut Vec<char>)
    ensures
        final(out)@ == old(out)@ + decimal(n as nat),
    decreases n,
{
    if n >= 10 {
        push_decimal(n / 10, out);
    }
    let c = char_of_digit((n % 10) as u8);
    out.push(c);
    proof {
        if n < 10 {
            assert(decimal(n as nat) == seq![digit_char(n as nat)]);
        }
    }
    assert(final(out)@ =~= old(out)@ + decimal(n as nat)) by {
        if n >= 10 {
            assert(decimal(n as nat) == decimal((n / 10) as nat).push(digit_char((n % 10) as nat)));
        }
    }
}

/// The ASCII digit for a value below ten.
pub fn char_of_digit(d: u8) -> (c: char)
    requires
        d < 10,
    ensures
        c == digit_char(d as nat),
{
    match d {
        0 => '0',
        1 => '1',
        2 => '2',
        3 => '3',
        4 => '4',
        5 => '5',
        6 => '6',
        7 => '7',
        8 => '8',
        _ => '9',
    }
}

/// Decimal numerals read back: printing a `u64` and parsing the text gives
/// the number again.
pub proof fn lemma_parse_decimal(n: u64)
    ensures
        spec_parse_u64(decimal(n as nat)) == Some(n),
{
    lemma_decimal_digits(n as nat);
    let d = decimal(n as nat);
    assert(is_ascii_digit(d[0]));
    assert(unsigned_digits(d) == d);
}

} // verus!
