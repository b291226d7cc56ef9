//! The decision taken on each `withdrawall` reply.
use vstd::prelude::*;
use crate::matching::{
    contains_text, is_plain_literal, lemma_literal_alternation_join, lemma_plain_literal,
    lemma_plain_literal_concat, lemma_two_literals, text_matches,
};

verus! {

/// At most this many `withdrawall` attempts are made.
pub const MAX_WITHDRAW_ATTEMPTS: u32 = 3;

/// What follows a `withdrawall` attempt.
#[derive(PartialEq, Eq, Structural, Debug, Clone, Copy)]
pub enum WithdrawStep {
    /// The withdrawal went through.
    Done,
    /// Wait two seconds and try again.
    Retry,
    /// Give up.
    GiveUp,
}

/// The reply shows an aborted request or a missing deposit record.
pub open spec fn withdraw_refused(stdout: Seq<char>) -> bool {
    contains_text(stdout, "AbortError: The user aborted a request"@) || contains_text(
        stdout,
        "Please create record at deposit table first with depositprep"@,
    )
}

pub open spec fn spec_withdraw_step(command_succeeded: bool, stdout: Seq<char>, failed_before: u32) -> (
    WithdrawStep,
    u32,
) {
    if command_succeeded && !withdraw_refused(stdout) {
        (WithdrawStep::Done, failed_before)
    } else {
        let n: u32 = if failed_before < u32::MAX {
            (failed_before + 1) as u32
        } else {
            failed_before
        };
        (if n >= MAX_WITHDRAW_ATTEMPTS {
            WithdrawStep::GiveUp
        } else {
            WithdrawStep::Retry
        }, n)
    }
}

/// After a `withdrawall`: done when the command succeeded and its output
/// shows neither an aborted request nor a missing deposit record; otherwise
/// one more failure is counted and the third gives up.
pub fn withdraw_step(command_succeeded: bool, stdout: &str, failed_before: u32) -> (r: (
    WithdrawStep,
    u32,
))
    ensures
        r == spec_withdraw_step(command_succeeded, stdout@, failed_before),
        contains_text(stdout@, "AbortError: The user aborted a request"@) || contains_text(
            stdout@,
            "Please create record at deposit table first with depositprep"@,
        ) || !command_succeeded ==> r.0 != WithdrawStep::Done && r.1 == (if failed_before
            < u32::MAX {
            failed_before + 1
        } else {
            failed_before as int
        }),
        command_succeeded && !contains_text(stdout@, "AbortError: The user aborted a request"@)
            && !contains_text(
            stdout@,
            "Please create record at deposit table first with depositprep"@,
        ) ==> r == (WithdrawStep::Done, failed_before),
{
    let pattern = "AbortError: The user aborted a request|Please create record at deposit table first with depositprep";
    proof {
        let a1 = "AbortError: The user "@;
        let a2 = "aborted a request"@;
        let b1 = "Please create record "@;
        let b2 = "at deposit table "@;
        let b3 = "first with depositprep"@;
        reveal_strlit("AbortError: The user ");
        reveal_strlit("aborted a request");
        reveal_strlit("Please create record ");
        reveal_strlit("at deposit table ");
        reveal_strlit("first with depositprep");
        reveal_strlit("AbortError: The user aborted a request");
        reveal_strlit("Please create record at deposit table first with depositprep");
        reveal_strlit(
            "AbortError: The user aborted a request|Please create record at deposit table first with depositprep",
        );
        reveal_with_fuel(is_plain_literal, 30);
        assert(is_plain_literal(a1) && is_plain_literal(a2));
        assert(is_plain_literal(b1) && is_plain_literal(b2) && is_plain_literal(b3));
        let a = "AbortError: The user aborted a request"@;
        let b = "Please create record at deposit table first with depositprep"@;
        assert(a =~= a1 + a2);
        assert(b =~= b1 + b2 + b3);
        lemma_plain_literal_concat(a1, a2);
        lemma_plain_literal_concat(b1, b2);
        lemma_plain_literal_concat(b1 + b2, b3);
        lemma_plain_literal(a);
        lemma_plain_literal(b);
        lemma_literal_alternation_join(a, b);
        assert(pattern@ =~= a + seq!['|'] + b);
        lemma_two_literals(stdout@, a, b);
    }
    let refused = text_matches(pattern, stdout);
    if command_succeeded && !refused {
        (WithdrawStep::Done, failed_before)
    } else {
        let n: u32 = if failed_before < u32::MAX {
            failed_before + 1
        } else {
            failed_before
        };
        (if n >= MAX_WITHDRAW_ATTEMPTS {
            WithdrawStep::GiveUp
        } else {
            WithdrawStep::Retry
        }, n)
    }
}

/// No fourth attempt: a failure counted as the third gives up, and only a
/// failure can make the count grow.
pub proof fn lemma_withdraw_attempts_bounded(command_succeeded: bool, stdout: Seq<char>, failed_before: u32)
    requires
        failed_before + 1 >= MAX_WITHDRAW_ATTEMPTS,
    ensures
        spec_withdraw_step(command_succeeded, stdout, failed_before).0 != WithdrawStep::Retry,
{
}

/// A refusal phrase anywhere in the output, or a failed command, is never a
/// finished withdrawal: one more failure is counted, retried before the
/// third and given up at it; a successful command with neither phrase is.
pub proof fn lemma_withdraw_refusals(command_succeeded: bool, stdout: Seq<char>, failed_before: u32)
    ensures
        (contains_text(stdout, "AbortError: The user aborted a request"@) || contains_text(
            stdout,
            "Please create record at deposit table first with depositprep"@,
        ) || !command_succeeded) ==> ({
            let r = spec_withdraw_step(command_succeeded, stdout, failed_before);
            &&& r.0 != WithdrawStep::Done
            &&& failed_before < 2 ==> r == (WithdrawStep::Retry, (failed_before + 1) as u32)
            &&& 2 <= failed_before < u32::MAX ==> r == (WithdrawStep::GiveUp, (failed_before + 1) as u32)
        }),
        command_succeeded && !contains_text(stdout, "AbortError: The user aborted a request"@)
            && !contains_text(stdout, "Please create record at deposit table first with depositprep"@)
            ==> spec_withdraw_step(command_succeeded, stdout, failed_before) == (
            WithdrawStep::Done,
            failed_before,
        ),
{
}

} // verus!
