//! Decisions of the staking of liquidity tokens into `yield.farms`.
use vstd::prelude::*;
use crate::matching::{contains_literal, contains_text, is_plain_literal, lemma_plain_literal_concat};
use crate::transfer_balance::Balances;

verus! {

/// The amount every balance shows when the account holds no liquidity tokens.
pub open spec fn zero_lp_amount() -> Seq<char> {
    "0.00000000"@
}

/// Whether every listed balance reads exactly "0.00000000" (so staking has
/// nothing to work with; true when nothing is listed).
pub fn all_balances_zero(balances: &Balances) -> (r: bool)
    requires
        balances.wf(),
    ensures
        r == (forall|k: Seq<char>| #[trigger] balances@.dom().contains(k) ==> balances@[k]
            == zero_lp_amount()),
{
    balances.all_amounts_are("0.00000000")
}

/// How many more balance listings are made while every balance is zero.
pub const MAX_ZERO_BALANCE_RETRIES: u32 = 3;

/// How many times a staking transfer refused for an overdrawn balance is
/// tried again.
pub const MAX_STAKING_RETRIES: u32 = 3;

/// Whether a failed staking transfer failed for an overdrawn balance, which
/// calls for reading the balance again and retrying.
pub fn staking_error_is_overdrawn(message: &str) -> (r: bool)
    ensures
        r == contains_text(message@, "assertion failure with message: overdrawn balance"@),
{
    proof {
        reveal_strlit("assertion failure with message: overdrawn balance");
        reveal_strlit("assertion failure with ");
        reveal_strlit("message: overdrawn balance");
        reveal_with_fuel(is_plain_literal, 30);
        assert(is_plain_literal("assertion failure with "@));
        assert(is_plain_literal("message: overdrawn balance"@));
        lemma_plain_literal_concat("assertion failure with "@, "message: overdrawn balance"@);
        assert("assertion failure with message: overdrawn balance"@ =~= "assertion failure with "@
            + "message: overdrawn balance"@);
    }
    contains_literal(message, "assertion failure with message: overdrawn balance")
}

/// Counts one more failed retry; the second value says whether the retries
/// are used up.
pub fn count_retry(done_before: u32, limit: u32) -> (r: (u32, bool))
    ensures
        r.0 == (if done_before < u32::MAX {
            done_before + 1
        } else {
            done_before as int
        }),
        r.1 == (r.0 >= limit),
{
    let n = if done_before < u32::MAX {
        done_before + 1
    } else {
        done_before
    };
    (n, n >= limit)
}

} // verus!
