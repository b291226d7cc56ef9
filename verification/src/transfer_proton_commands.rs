//! Decisions taken on the replies of the deposit preparation and of the
//! transfers of excess balances to `proton.swaps`.
use vstd::prelude::*;
use crate::matching::{contains_literal, contains_text, is_plain_literal};

verus! {

/// What follows a step of preparing the deposit records.
#[derive(PartialEq, Eq, Structural, Debug, Clone, Copy)]
pub enum DepositPrepAction {
    /// The account lacks RAM for the records: buy some.
    BuyRam,
    /// The records are prepared.
    Done,
    /// RAM was bought: prepare again.
    RetryPrep,
    /// RAM could not be bought: give up.
    FailNoRam,
}

/// After a successful `depositprep`: buy RAM when the reply says the
/// account has insufficient RAM, else the preparation is done.
pub fn after_deposit_prep(stdout: &str) -> (r: DepositPrepAction)
    ensures
        r == (if contains_text(stdout@, "has insufficient ram"@) {
            DepositPrepAction::BuyRam
        } else {
            DepositPrepAction::Done
        }),
{
    proof {
        reveal_strlit("has insufficient ram");
        reveal_with_fuel(is_plain_literal, 25);
    }
    if contains_literal(stdout, "has insufficient ram") {
        DepositPrepAction::BuyRam
    } else {
        DepositPrepAction::Done
    }
}

/// After `buyrambytes`: prepare again when the purchase went through, else
/// give up.
pub fn after_ram_purchase(bought: bool) -> (r: DepositPrepAction)
    ensures
        r == (if bought {
            DepositPrepAction::RetryPrep
        } else {
            DepositPrepAction::FailNoRam
        }),
{
    if bought {
        DepositPrepAction::RetryPrep
    } else {
        DepositPrepAction::FailNoRam
    }
}

/// The reduction, in tenths of the balance, of the first retry after an
/// "overdrawn balance" refusal (the first transfer sends the whole balance);
/// each further refusal takes one tenth less.
pub const EXCESS_FIRST_REDUCTION_TENTHS: u32 = 9;

/// The smallest reduction tried, in tenths of the balance.
pub const EXCESS_LAST_REDUCTION_TENTHS: u32 = 8;

/// What follows a transfer of an excess balance.
#[derive(PartialEq, Eq, Structural, Debug, Clone, Copy)]
pub enum ExcessStep {
    /// The transfer was not refused: read the balances again.
    Done,
    /// Refused: send `tenths`/10 of the balance; the next reduction is `next_tenths`.
    Retry { tenths: u32, next_tenths: u32 },
    /// Refused after the last reduction: give up.
    GiveUp,
}

pub open spec fn spec_excess_step(stdout: Seq<char>, tenths: u32) -> ExcessStep {
    if contains_text(stdout, "overdrawn balance"@) {
        if tenths >= EXCESS_LAST_REDUCTION_TENTHS {
            ExcessStep::Retry { tenths, next_tenths: (tenths - 1) as u32 }
        } else {
            ExcessStep::GiveUp
        }
    } else {
        ExcessStep::Done
    }
}

/// After a transfer of an excess balance, the reduction factor standing at
/// `tenths`/10: on an "overdrawn balance" refusal retry with that factor
/// while it is at least 0.8, else give up; any other reply ends the transfer.
pub fn excess_transfer_step(stdout: &str, tenths: u32) -> (r: ExcessStep)
    ensures
        r == spec_excess_step(stdout@, tenths),
{
    proof {
        reveal_strlit("overdrawn balance");
        reveal_with_fuel(is_plain_literal, 20);
    }
    if contains_literal(stdout, "overdrawn balance") {
        if tenths >= EXCESS_LAST_REDUCTION_TENTHS {
            ExcessStep::Retry { tenths, next_tenths: tenths - 1 }
        } else {
            ExcessStep::GiveUp
        }
    } else {
        ExcessStep::Done
    }
}

/// From the first reduction, a run of refusals makes exactly two reduced
/// transfers (at 0.9 and 0.8) and then gives up.
pub proof fn lemma_excess_reductions(stdout: Seq<char>)
    requires
        contains_text(stdout, "overdrawn balance"@),
    ensures
        spec_excess_step(stdout, EXCESS_FIRST_REDUCTION_TENTHS) == (ExcessStep::Retry {
            tenths: 9,
            next_tenths: 8,
        }),
        spec_excess_step(stdout, 8) == (ExcessStep::Retry { tenths: 8, next_tenths: 7 }),
        spec_excess_step(stdout, 7) == ExcessStep::GiveUp,
{
}

} // verus!
