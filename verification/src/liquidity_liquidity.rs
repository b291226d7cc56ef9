//! Liquidity deposits into the two `proton.swaps` pools: writing the amounts
//! the exchange reports back with their decimal point, reading its replies to
//! `liquidityadd`, planning the change of the offer each reply calls for, and
//! deciding whether to try again.
use vstd::prelude::*;
use crate::decimal::{
    all_ascii_digits, decimal, digits_value, is_ascii_digit, lemma_decimal_digits, parse_or_zero,
    parse_u64, push_decimal,
};
use crate::matching::{
    contains_literal, contains_text, first_captures, group_text, is_plain_literal,
    regex_first_captures,
};
use crate::text::{chars_of, contains_char, extend_range, push_repeat, repeat_char, string_of};

verus! {

/// A numeral of whole units written with `scale` digits after a point:
/// left-padded with zeros when it has no more than `scale` digits.
pub open spec fn place_point(d: Seq<char>, scale: nat) -> Seq<char> {
    if d.len() <= scale {
        seq!['0', '.'] + repeat_char('0', (scale - d.len()) as nat) + d
    } else {
        d.take(d.len() - scale) + seq!['.'] + d.skip(d.len() - scale)
    }
}

/// A reported amount as the exchange expects it: kept when it already has a
/// point, else read as a whole number of the smallest unit (0 when it is not
/// a `u64` numeral) and written with `scale` decimals.
pub open spec fn spec_format_with_dot(value: Seq<char>, scale: nat) -> Seq<char> {
    if value.contains('.') {
        value
    } else {
        place_point(decimal(parse_or_zero(value)), scale)
    }
}

fn format_with_point(value: &str, scale: usize) -> (r: String)
    ensures
        r@ == spec_format_with_dot(value@, scale as nat),
{
    let cs = chars_of(value);
    if contains_char(&cs, '.') {
        return string_of(&cs);
    }
    let n: u64 = match parse_u64(value) {
        Some(v) => v,
        None => 0,
    };
    let mut d: Vec<char> = Vec::new();
    push_decimal(n, &mut d);
    assert(d@ =~= decimal(parse_or_zero(value@)));
    let len = d.len();
    let mut out: Vec<char> = Vec::new();
    if len <= scale {
        out.push('0');
        out.push('.');
        push_repeat(&mut out, '0', scale - len);
        extend_range(&mut out, &d, 0, len);
        assert(d@.subrange(0, len as int) == d@);
    } else {
        extend_range(&mut out, &d, 0, len - scale);
        out.push('.');
        extend_range(&mut out, &d, len - scale, len);
        assert(d@.subrange(0, (len - scale) as int) == d@.take(len - scale));
        assert(d@.subrange((len - scale) as int, len as int) == d@.skip(len - scale));
    }
    assert(out@ =~= place_point(d@, scale as nat));
    string_of(&out)
}

/// Writes a whole number of 10^-4 units with four decimals ("12345" becomes
/// "1.2345", "5" becomes "0.0005"); a value that already has a point is kept.
pub fn format_with_dot(value: &str) -> (r: String)
    ensures
        r@ == spec_format_with_dot(value@, 4),
{
    format_with_point(value, 4)
}

/// Writes a whole number of 10^-6 units with six decimals ("1234567" becomes
/// "1.234567"); a value that already has a point is kept.
pub fn format_with_dot_6_decimals(value: &str) -> (r: String)
    ensures
        r@ == spec_format_with_dot(value@, 6),
{
    format_with_point(value, 6)
}

proof fn lemma_zeros_value(m: nat)
    ensures
        digits_value(repeat_char('0', m)) == 0,
    decreases m,
{
    if m > 0 {
        assert(repeat_char('0', m).drop_last() == repeat_char('0', (m - 1) as nat));
        lemma_zeros_value((m - 1) as nat);
    }
}

/// Leading zeros do not change the number a numeral denotes.
proof fn lemma_zeros_prefix_value(m: nat, d: Seq<char>)
    ensures
        digits_value(repeat_char('0', m) + d) == digits_value(d),
    decreases d.len(),
{
    let z = repeat_char('0', m);
    if d.len() == 0 {
        assert(z + d == z);
        lemma_zeros_value(m);
    } else {
        assert((z + d).drop_last() == z + d.drop_last());
        assert((z + d).last() == d.last());
        lemma_zeros_prefix_value(m, d.drop_last());
    }
}

/// Formatting is idempotent: an amount that has been given its point is
/// left as it is when formatted again.
pub proof fn lemma_format_with_dot_idempotent(value: Seq<char>, scale: nat)
    ensures
        spec_format_with_dot(spec_format_with_dot(value, scale), scale) == spec_format_with_dot(
            value,
            scale,
        ),
{
    if !value.contains('.') {
        let d = decimal(parse_or_zero(value));
        let r = place_point(d, scale);
        if d.len() <= scale {
            assert(r[1] == '.');
        } else {
            assert(r[d.len() - scale] == '.');
        }
        assert(r.contains('.'));
    }
}

/// A whole number given its point: a single point with exactly `scale`
/// digits after it, ASCII digits on both sides, no superfluous leading zero,
/// and the digits read without the point denote the number that was read.
pub proof fn lemma_format_with_dot_value(value: Seq<char>, scale: nat)
    requires
        !value.contains('.'),
    ensures
        ({
            let r = spec_format_with_dot(value, scale);
            let k: int = r.len() - scale - 1;
            &&& 1 <= k
            &&& r[k] == '.'
            &&& r.skip(k + 1).len() == scale
            &&& all_ascii_digits(r.take(k))
            &&& all_ascii_digits(r.skip(k + 1))
            &&& (r.take(k) == seq!['0'] || r[0] != '0')
            &&& digits_value(r.take(k) + r.skip(k + 1)) == parse_or_zero(value)
        }),
{
    let n = parse_or_zero(value);
    let d = decimal(n);
    lemma_decimal_digits(n);
    let r = place_point(d, scale);
    assert(r == spec_format_with_dot(value, scale));
    let k: int = r.len() - scale - 1;
    if d.len() <= scale {
        let z = repeat_char('0', (scale - d.len()) as nat);
        assert(k == 1);
        assert(r.take(k) =~= seq!['0']);
        assert(r.skip(k + 1) =~= z + d);
        assert forall|i: int| 0 <= i < (z + d).len() implies #[trigger] is_ascii_digit(
            (z + d)[i],
        ) by {
            if i >= z.len() {
                assert((z + d)[i] == d[i - z.len()]);
            }
        }
        assert(r.take(k) + r.skip(k + 1) =~= repeat_char('0', (scale - d.len() + 1) as nat) + d);
        lemma_zeros_prefix_value((scale - d.len() + 1) as nat, d);
    } else {
        let cut: int = d.len() - scale;
        assert(k == cut);
        assert(r.take(k) =~= d.take(cut));
        assert(r.skip(k + 1) =~= d.skip(cut));
        assert(r.take(k) + r.skip(k + 1) =~= d);
        assert forall|i: int| 0 <= i < d.take(cut).len() implies #[trigger] is_ascii_digit(
            d.take(cut)[i],
        ) by {
            assert(d.take(cut)[i] == d[i]);
        }
        assert forall|i: int| 0 <= i < d.skip(cut).len() implies #[trigger] is_ascii_digit(
            d.skip(cut)[i],
        ) by {
            assert(d.skip(cut)[i] == d[i + cut]);
        }
        if n == 0 {
            assert(d == seq!['0']);
            assert(r.take(k) =~= seq!['0']);
        } else {
            assert(r[0] == d[0]);
        }
    }
}

/// The two pools the bot provides liquidity to.
#[derive(PartialEq, Eq, Structural, Debug, Clone, Copy)]
pub enum LiquidityPool {
    /// `8,SNIPSXP`: token 1 is SNIPS (`snipcoins`), token 2 is XPR (`eosio.token`).
    SnipsXpr,
    /// `8,XPRUSDC`: token 1 is XPR (`eosio.token`), token 2 is XUSDC (`xtokens`).
    XprXusdc,
}

/// Token 1 or token 2 of a pool.
#[derive(PartialEq, Eq, Structural, Debug, Clone, Copy)]
pub enum Side {
    First,
    Second,
}

impl LiquidityPool {
    /// The number of decimals the amounts of a side are written with.
    pub open spec fn scale(self, side: Side) -> nat {
        match (self, side) {
            (LiquidityPool::XprXusdc, Side::Second) => 6,
            _ => 4,
        }
    }

    /// The side whose token is `symbol`, if any.
    pub open spec fn side_of(self, symbol: Seq<char>) -> Option<Side> {
        match self {
            LiquidityPool::SnipsXpr => if symbol == "SNIPS"@ {
                Some(Side::First)
            } else if symbol == "XPR"@ {
                Some(Side::Second)
            } else {
                None
            },
            LiquidityPool::XprXusdc => if symbol == "XPR"@ {
                Some(Side::First)
            } else if symbol == "XUSDC"@ {
                Some(Side::Second)
            } else {
                None
            },
        }
    }

    /// Whether an overdrawn balance of a token outside the pool still
    /// counts for the small-balance stop.
    pub open spec fn checks_other_tokens(self) -> bool {
        self == LiquidityPool::SnipsXpr
    }
}

/// The reply of `liquidityadd` that asks for a larger token 1 amount.
pub open spec fn token1_low(stdout: Seq<char>) -> bool {
    contains_text(stdout, "Token 1 amount too low"@) || contains_text(
        stdout,
        "Token 1 expected amount lower than minimum"@,
    )
}

/// The reply of `liquidityadd` that asks for a larger token 2 amount.
pub open spec fn token2_low(stdout: Seq<char>) -> bool {
    contains_text(stdout, "Token 2 amount too low"@) || contains_text(
        stdout,
        "Token 2 expected amount lower than minimum"@,
    )
}

pub open spec fn expected_pattern() -> Seq<char> {
    "Expected: (\\d+(?:\\.\\d+)?)"@
}

pub open spec fn overdrawn_pattern() -> Seq<char> {
    "assertion failure with message: Balance overdrawn. Need (\\d+(?:\\.\\d+)?) ([A-Z]+) but balance is (\\d+(?:\\.\\d+)?) for symbol ([A-Z]+) contract ([a-z1-5]+)"@
}

/// What the reply of a `liquidityadd` shows, as the patterns read it.
pub struct ReplyObservation {
    /// Token 1 was found too low.
    pub token1_low: bool,
    /// Token 2 was found too low.
    pub token2_low: bool,
    /// The groups of the first `Expected: <amount>`.
    pub expected: Option<Vec<Option<String>>>,
    /// The groups of the first overdrawn-balance assertion.
    pub overdrawn: Option<Vec<Option<String>>>,
}

/// Reads the reply of a `liquidityadd`.
pub fn observe_liquidity_reply(stdout: &str) -> (r: ReplyObservation)
    ensures
        r.token1_low == token1_low(stdout@),
        r.token2_low == token2_low(stdout@),
        contains_text(stdout@, "Token 1 amount too low"@) ==> r.token1_low,
        contains_text(stdout@, "Token 1 expected amount lower than minimum"@) ==> r.token1_low,
        contains_text(stdout@, "Token 2 amount too low"@) ==> r.token2_low,
        contains_text(stdout@, "Token 2 expected amount lower than minimum"@) ==> r.token2_low,
        r.expected.deep_view() == regex_first_captures(expected_pattern(), stdout@),
        r.overdrawn.deep_view() == regex_first_captures(overdrawn_pattern(), stdout@),
{
    proof {
        reveal_strlit("Token 1 amount too low");
        reveal_strlit("Token 1 expected amount lower than minimum");
        reveal_strlit("Token 2 amount too low");
        reveal_strlit("Token 2 expected amount lower than minimum");
        reveal_with_fuel(is_plain_literal, 50);
    }
    let a = contains_literal(stdout, "Token 1 amount too low");
    let b = contains_literal(stdout, "Token 1 expected amount lower than minimum");
    let c = contains_literal(stdout, "Token 2 amount too low");
    let d = contains_literal(stdout, "Token 2 expected amount lower than minimum");
    ReplyObservation {
        token1_low: a || b,
        token2_low: c || d,
        expected: first_captures("Expected: (\\d+(?:\\.\\d+)?)", stdout),
        overdrawn: first_captures(
            "assertion failure with message: Balance overdrawn. Need (\\d+(?:\\.\\d+)?) ([A-Z]+) but balance is (\\d+(?:\\.\\d+)?) for symbol ([A-Z]+) contract ([a-z1-5]+)",
            stdout,
        ),
    }
}

/// Group 1 of the `Expected:` match: the amount the exchange asks for.
pub open spec fn expected_amount(groups: Option<Seq<Option<Seq<char>>>>) -> Option<Seq<char>> {
    match groups {
        Some(g) => if g.len() > 1 && g[1] is Some {
            Some(g[1]->0)
        } else {
            None
        },
        None => None,
    }
}

/// Groups 3 and 4 of the overdrawn match: the balance and its token symbol.
pub open spec fn overdrawn_balance(groups: Option<Seq<Option<Seq<char>>>>) -> Option<
    (Seq<char>, Seq<char>),
> {
    match groups {
        Some(g) => if g.len() > 4 && g[3] is Some && g[4] is Some {
            Some((g[3]->0, g[4]->0))
        } else {
            None
        },
        None => None,
    }
}

/// What a step does with its amount.
#[derive(PartialEq, Eq, Structural, Debug, Clone, Copy)]
pub enum StepKind {
    /// Offer the amount the exchange expects of this side, and the matching
    /// amount of the other side.
    PinExpected(Side),
    /// Offer the whole balance of this side's token (unless it is too small
    /// to go on), and the matching amount of the other side.
    PinBalance(Side),
    /// An overdrawn token outside the pool: only the small-balance stop.
    CheckBalance,
}

/// One change of the offer, with its amount already written with the
/// side's decimals.
pub struct ReplyStep {
    pub kind: StepKind,
    pub amount: String,
}

/// What to do after a reply: the steps in order, whether the offer changed,
/// and whether the reply is taken as the deposit having gone through.
pub struct ReplyPlan {
    pub steps: Vec<ReplyStep>,
    pub updated: bool,
    pub accepted: bool,
}

pub open spec fn step_views(steps: Seq<ReplyStep>) -> Seq<(StepKind, Seq<char>)> {
    steps.map_values(|s: ReplyStep| (s.kind, s.amount@))
}

pub open spec fn expected_steps(
    pool: LiquidityPool,
    low: bool,
    side: Side,
    expected: Option<Seq<Option<Seq<char>>>>,
) -> Seq<(StepKind, Seq<char>)> {
    match expected_amount(expected) {
        Some(e) => if low {
            seq![(StepKind::PinExpected(side), spec_format_with_dot(e, pool.scale(side)))]
        } else {
            Seq::empty()
        },
        None => Seq::empty(),
    }
}

pub open spec fn balance_steps(pool: LiquidityPool, overdrawn: Option<Seq<Option<Seq<char>>>>) -> Seq<
    (StepKind, Seq<char>),
> {
    match overdrawn_balance(overdrawn) {
        Some((balance, symbol)) => match pool.side_of(symbol) {
            Some(side) => seq![
                (StepKind::PinBalance(side), spec_format_with_dot(balance, pool.scale(side))),
            ],
            None => if pool.checks_other_tokens() {
                seq![(StepKind::CheckBalance, spec_format_with_dot(balance, 4))]
            } else {
                Seq::empty()
            },
        },
        None => Seq::empty(),
    }
}

/// The steps a reply calls for: token 1 expected, token 2 expected, then
/// the overdrawn balance.
pub open spec fn spec_reply_steps(
    pool: LiquidityPool,
    token1_low: bool,
    token2_low: bool,
    expected: Option<Seq<Option<Seq<char>>>>,
    overdrawn: Option<Seq<Option<Seq<char>>>>,
) -> Seq<(StepKind, Seq<char>)> {
    expected_steps(pool, token1_low, Side::First, expected) + expected_steps(
        pool,
        token2_low,
        Side::Second,
        expected,
    ) + balance_steps(pool, overdrawn)
}

pub open spec fn spec_reply_updated(
    token1_low: bool,
    token2_low: bool,
    expected: Option<Seq<Option<Seq<char>>>>,
    overdrawn: Option<Seq<Option<Seq<char>>>>,
) -> bool {
    ((token1_low || token2_low) && expected_amount(expected) is Some) || overdrawn_balance(
        overdrawn,
    ) is Some
}

pub open spec fn spec_reply_accepted(
    token1_low: bool,
    token2_low: bool,
    expected: Option<Seq<Option<Seq<char>>>>,
    overdrawn: Option<Seq<Option<Seq<char>>>>,
) -> bool {
    !spec_reply_updated(token1_low, token2_low, expected, overdrawn) && !token1_low && !token2_low
        && overdrawn is None
}

fn side_of_symbol(pool: LiquidityPool, symbol: &String) -> (r: Option<Side>)
    ensures
        r == pool.side_of(symbol@),
{
    let snips = String::from_str("SNIPS");
    let xpr = String::from_str("XPR");
    let xusdc = String::from_str("XUSDC");
    match pool {
        LiquidityPool::SnipsXpr => if *symbol == snips {
            Some(Side::First)
        } else if *symbol == xpr {
            Some(Side::Second)
        } else {
            None
        },
        LiquidityPool::XprXusdc => if *symbol == xpr {
            Some(Side::First)
        } else if *symbol == xusdc {
            Some(Side::Second)
        } else {
            None
        },
    }
}

fn format_for_side(pool: LiquidityPool, side: Side, amount: &String) -> (r: String)
    ensures
        r@ == spec_format_with_dot(amount@, pool.scale(side)),
{
    match (pool, side) {
        (LiquidityPool::XprXusdc, Side::Second) => format_with_dot_6_decimals(amount.as_str()),
        _ => format_with_dot(amount.as_str()),
    }
}

/// The change of the offer that a `liquidityadd` reply calls for, in
/// `pool`, from what its patterns found.
pub fn plan_reply(pool: LiquidityPool, obs: &ReplyObservation) -> (r: ReplyPlan)
    ensures
        step_views(r.steps@) == spec_reply_steps(
            pool,
            obs.token1_low,
            obs.token2_low,
            obs.expected.deep_view(),
            obs.overdrawn.deep_view(),
        ),
        r.updated == spec_reply_updated(
            obs.token1_low,
            obs.token2_low,
            obs.expected.deep_view(),
            obs.overdrawn.deep_view(),
        ),
        r.accepted == spec_reply_accepted(
            obs.token1_low,
            obs.token2_low,
            obs.expected.deep_view(),
            obs.overdrawn.deep_view(),
        ),
{
    let ghost ev = obs.expected.deep_view();
    let ghost ov = obs.overdrawn.deep_view();
    let mut steps: Vec<ReplyStep> = Vec::new();
    let mut updated = false;
    let expected: Option<String> = match &obs.expected {
        Some(g) => group_text(g, 1),
        None => None,
    };
    assert(expected.deep_view() == expected_amount(ev));
    if obs.token1_low {
        match &expected {
            Some(e) => {
                steps.push(
                    ReplyStep { kind: StepKind::PinExpected(Side::First), amount: format_for_side(pool, Side::First, e) },
                );
                updated = true;
            },
            None => {},
        }
    }
    assert(step_views(steps@) =~= expected_steps(pool, obs.token1_low, Side::First, ev));
    let ghost after1 = steps@;
    if obs.token2_low {
        match &expected {
            Some(e) => {
                steps.push(
                    ReplyStep { kind: StepKind::PinExpected(Side::Second), amount: format_for_side(pool, Side::Second, e) },
                );
                updated = true;
            },
            None => {},
        }
    }
    assert(step_views(steps@) =~= expected_steps(pool, obs.token1_low, Side::First, ev)
        + expected_steps(pool, obs.token2_low, Side::Second, ev));
    let ghost after2 = steps@;
    let parts: Option<(String, String)> = match &obs.overdrawn {
        Some(g) => match (group_text(g, 3), group_text(g, 4)) {
            (Some(b), Some(sym)) => Some((b, sym)),
            _ => None,
        },
        None => None,
    };
    assert(parts.deep_view() == overdrawn_balance(ov));
    match &parts {
        Some((balance, symbol)) => {
            match side_of_symbol(pool, symbol) {
                Some(side) => {
                    steps.push(ReplyStep { kind: StepKind::PinBalance(side), amount: format_for_side(pool, side, balance) });
                },
                None => {
                    if pool == LiquidityPool::SnipsXpr {
                        steps.push(ReplyStep { kind: StepKind::CheckBalance, amount: format_with_dot(balance.as_str()) });
                    }
                },
            }
            updated = true;
        },
        None => {},
    }
    assert(step_views(steps@) =~= spec_reply_steps(pool, obs.token1_low, obs.token2_low, ev, ov));
    let accepted = !updated && !obs.token1_low && !obs.token2_low && obs.overdrawn.is_none();
    ReplyPlan { steps, updated, accepted }
}

/// At most this many `liquidityadd` attempts are made for one deposit.
pub const MAX_LIQUIDITY_ATTEMPTS: u32 = 4;

/// What follows a `liquidityadd` attempt.
#[derive(PartialEq, Eq, Structural, Debug, Clone, Copy)]
pub enum AttemptAction {
    /// The deposit is done.
    Stop,
    /// Try again with the offer as it now stands.
    Retry,
    /// Give up with the error of the command that failed.
    FailWithCommandError,
    /// Give up: the attempts are used up.
    FailAfterMaxAttempts,
}

pub open spec fn spec_after_liquidity_attempt(
    attempt: u32,
    command_failed: bool,
    accepted: bool,
) -> AttemptAction {
    if command_failed {
        if attempt >= MAX_LIQUIDITY_ATTEMPTS {
            AttemptAction::FailWithCommandError
        } else {
            AttemptAction::Retry
        }
    } else if accepted {
        AttemptAction::Stop
    } else if attempt >= MAX_LIQUIDITY_ATTEMPTS {
        AttemptAction::FailAfterMaxAttempts
    } else {
        AttemptAction::Retry
    }
}

/// After attempt number `attempt` (counting from 1): stop when the reply
/// was accepted; give up once the fourth attempt has not gone through;
/// otherwise try again.
pub fn after_liquidity_attempt(attempt: u32, command_failed: bool, accepted: bool) -> (r:
    AttemptAction)
    ensures
        r == spec_after_liquidity_attempt(attempt, command_failed, accepted),
        !command_failed && accepted ==> r == AttemptAction::Stop,
        command_failed && attempt < MAX_LIQUIDITY_ATTEMPTS ==> r == AttemptAction::Retry,
        command_failed && attempt >= MAX_LIQUIDITY_ATTEMPTS ==> r
            == AttemptAction::FailWithCommandError,
        !command_failed && !accepted && attempt < MAX_LIQUIDITY_ATTEMPTS ==> r
            == AttemptAction::Retry,
        !command_failed && !accepted && attempt >= MAX_LIQUIDITY_ATTEMPTS ==> r
            == AttemptAction::FailAfterMaxAttempts,
{
    if command_failed {
        if attempt >= MAX_LIQUIDITY_ATTEMPTS {
            AttemptAction::FailWithCommandError
        } else {
            AttemptAction::Retry
        }
    } else if accepted {
        AttemptAction::Stop
    } else if attempt >= MAX_LIQUIDITY_ATTEMPTS {
        AttemptAction::FailAfterMaxAttempts
    } else {
        AttemptAction::Retry
    }
}

/// No fifth attempt: from the fourth attempt on, nothing is tried again.
pub proof fn lemma_liquidity_attempts_bounded(attempt: u32, command_failed: bool, accepted: bool)
    requires
        attempt >= MAX_LIQUIDITY_ATTEMPTS,
    ensures
        spec_after_liquidity_attempt(attempt, command_failed, accepted) != AttemptAction::Retry,
{
}

/// A reply that no pattern matches changes nothing and ends the deposit.
pub proof fn lemma_unmatched_reply_accepted(
    pool: LiquidityPool,
    expected: Option<Seq<Option<Seq<char>>>>,
)
    ensures
        spec_reply_steps(pool, false, false, expected, None) =~= Seq::<(StepKind, Seq<char>)>::empty(),
        spec_reply_accepted(false, false, expected, None),
        spec_after_liquidity_attempt(1, false, spec_reply_accepted(false, false, expected, None))
            == AttemptAction::Stop,
{
}

/// The symbol-to-side table of each pool: in SNIPSXP, SNIPS is token 1 and
/// XPR token 2; in XPRUSDC, XPR is token 1 and XUSDC token 2. The XUSDC side
/// of XPRUSDC is written with six decimals, every other side with four.
pub proof fn lemma_pool_sides()
    ensures
        LiquidityPool::SnipsXpr.side_of("SNIPS"@) == Some(Side::First),
        LiquidityPool::SnipsXpr.side_of("XPR"@) == Some(Side::Second),
        LiquidityPool::SnipsXpr.side_of("XUSDC"@) is None,
        LiquidityPool::XprXusdc.side_of("XPR"@) == Some(Side::First),
        LiquidityPool::XprXusdc.side_of("XUSDC"@) == Some(Side::Second),
        LiquidityPool::XprXusdc.side_of("SNIPS"@) is None,
        LiquidityPool::SnipsXpr.scale(Side::First) == 4,
        LiquidityPool::SnipsXpr.scale(Side::Second) == 4,
        LiquidityPool::XprXusdc.scale(Side::First) == 4,
        LiquidityPool::XprXusdc.scale(Side::Second) == 6,
{
    reveal_strlit("SNIPS");
    reveal_strlit("XPR");
    reveal_strlit("XUSDC");
    assert("XPR"@.len() != "SNIPS"@.len());
    assert("XUSDC"@ != "SNIPS"@) by {
        assert("XUSDC"@[0] != "SNIPS"@[0]);
    }
    assert("XUSDC"@.len() != "XPR"@.len());
    assert("SNIPS"@.len() != "XPR"@.len());
}

/// An overdrawn-balance reply alone, for the token of either side of the
/// pool, plans exactly one step: offer that balance, with the side's
/// decimals, as that side's amount (SNIPS as token 1 of SNIPSXP, XPR as
/// token 2 of SNIPSXP and token 1 of XPRUSDC, XUSDC as token 2 of XPRUSDC).
pub proof fn lemma_overdrawn_pins_its_side(
    groups: Seq<Option<Seq<char>>>,
    balance: Seq<char>,
    symbol: Seq<char>,
    expected: Option<Seq<Option<Seq<char>>>>,
)
    requires
        groups.len() > 4,
        groups[3] == Some(balance),
        groups[4] == Some(symbol),
    ensures
        symbol == "SNIPS"@ ==> spec_reply_steps(
            LiquidityPool::SnipsXpr,
            false,
            false,
            expected,
            Some(groups),
        ) == seq![(StepKind::PinBalance(Side::First), spec_format_with_dot(balance, 4))],
        symbol == "XPR"@ ==> spec_reply_steps(
            LiquidityPool::SnipsXpr,
            false,
            false,
            expected,
            Some(groups),
        ) == seq![(StepKind::PinBalance(Side::Second), spec_format_with_dot(balance, 4))],
        symbol == "XPR"@ ==> spec_reply_steps(
            LiquidityPool::XprXusdc,
            false,
            false,
            expected,
            Some(groups),
        ) == seq![(StepKind::PinBalance(Side::First), spec_format_with_dot(balance, 4))],
        symbol == "XUSDC"@ ==> spec_reply_steps(
            LiquidityPool::XprXusdc,
            false,
            false,
            expected,
            Some(groups),
        ) == seq![(StepKind::PinBalance(Side::Second), spec_format_with_dot(balance, 6))],
        spec_reply_updated(false, false, expected, Some(groups)),
        !spec_reply_accepted(false, false, expected, Some(groups)),
{
    lemma_pool_sides();
    let e: Seq<(StepKind, Seq<char>)> = Seq::empty();
    let pools = seq![LiquidityPool::SnipsXpr, LiquidityPool::XprXusdc];
    assert forall|i: int| 0 <= i < 2 implies spec_reply_steps(
        #[trigger] pools[i],
        false,
        false,
        expected,
        Some(groups),
    ) =~= balance_steps(pools[i], Some(groups)) by {
        assert(expected_steps(pools[i], false, Side::First, expected) =~= e);
        assert(expected_steps(pools[i], false, Side::Second, expected) =~= e);
    }
    assert(pools[0] == LiquidityPool::SnipsXpr);
    assert(pools[1] == LiquidityPool::XprXusdc);
}

/// Each of the four "too low" phrases, anywhere in a reply, raises the flag
/// of its token, and a reply that raises a flag is never taken as the deposit
/// having gone through: it is retried or given up.
pub proof fn lemma_low_phrases_block_acceptance(
    stdout: Seq<char>,
    expected: Option<Seq<Option<Seq<char>>>>,
    overdrawn: Option<Seq<Option<Seq<char>>>>,
    attempt: u32,
)
    ensures
        contains_text(stdout, "Token 1 amount too low"@) ==> token1_low(stdout),
        contains_text(stdout, "Token 1 expected amount lower than minimum"@) ==> token1_low(stdout),
        contains_text(stdout, "Token 2 amount too low"@) ==> token2_low(stdout),
        contains_text(stdout, "Token 2 expected amount lower than minimum"@) ==> token2_low(stdout),
        (contains_text(stdout, "Token 1 amount too low"@) || contains_text(
            stdout,
            "Token 1 expected amount lower than minimum"@,
        ) || contains_text(stdout, "Token 2 amount too low"@) || contains_text(
            stdout,
            "Token 2 expected amount lower than minimum"@,
        )) ==> !spec_reply_accepted(token1_low(stdout), token2_low(stdout), expected, overdrawn)
            && spec_after_liquidity_attempt(
            attempt,
            false,
            spec_reply_accepted(token1_low(stdout), token2_low(stdout), expected, overdrawn),
        ) != AttemptAction::Stop,
{
}

/// For every attempt: a command that went through with an accepted reply
/// ends the deposit; a failed command or a reply that is not accepted is
/// retried before the fourth attempt and given up from the fourth on.
pub proof fn lemma_attempt_outcomes(attempt: u32, command_failed: bool, accepted: bool)
    ensures
        !command_failed && accepted ==> spec_after_liquidity_attempt(attempt, command_failed, accepted)
            == AttemptAction::Stop,
        (command_failed || !accepted) && attempt < 4 ==> spec_after_liquidity_attempt(
            attempt,
            command_failed,
            accepted,
        ) == AttemptAction::Retry,
        command_failed && attempt >= 4 ==> spec_after_liquidity_attempt(
            attempt,
            command_failed,
            accepted,
        ) == AttemptAction::FailWithCommandError,
        !command_failed && !accepted && attempt >= 4 ==> spec_after_liquidity_attempt(
            attempt,
            command_failed,
            accepted,
        ) == AttemptAction::FailAfterMaxAttempts,
{
}

} // verus!
