//! Watching the validator's internet connection: after three failed checks
//! in a row the validator is switched to its secondary identity, so that
//! another node can take over the voting.

use vstd::prelude::*;

verus! {

/// The number of failed checks in a row after which the identity is switched.
pub open spec fn failure_limit() -> i32 {
    3
}

/// The count of failed checks after a check, and whether to switch to the
/// secondary identity: a success resets the count, a failure adds one, and
/// the switch is due once the count reaches the limit.
pub open spec fn after_check(fail_count: i32, connected: bool) -> (i32, bool) {
    let count = if connected { 0 } else { (fail_count + 1) as i32 };
    (count, count >= failure_limit())
}

/// One connectivity check: the count of failed checks in a row after it,
/// and whether to switch to the secondary identity now.
pub fn netmon_step(fail_count: i32, connected: bool) -> (r: (i32, bool))
    requires
        connected || fail_count < i32::MAX,
    ensures
        r == after_check(fail_count, connected),
{
    let count = if connected { 0 } else { fail_count + 1 };
    (count, count >= 3)
}

/// The failed checks counted from a start of 0: the number of failures since
/// the latest success.
pub open spec fn count_after(checks: Seq<bool>) -> int
    decreases checks.len(),
{
    if checks.len() == 0 {
        0
    } else if checks.last() {
        0
    } else {
        count_after(checks.drop_last()) + 1
    }
}

/// Checks run in order from a count of 0.
pub open spec fn run_checks(checks: Seq<bool>) -> i32
    decreases checks.len(),
{
    if checks.len() == 0 {
        0
    } else {
        after_check(run_checks(checks.drop_last()), checks.last()).0
    }
}

/// The count is the number of failures since the latest success, and the
/// switch is due exactly after the third failure in a row and every failure
/// after it.
pub proof fn law_switch_after_three_failures(checks: Seq<bool>)
    requires
        checks.len() < i32::MAX,
    ensures
        run_checks(checks) == count_after(checks),
        checks.len() > 0 ==> (after_check(run_checks(checks.drop_last()), checks.last()).1
            <==> count_after(checks) >= 3),
    decreases checks.len(),
{
    if checks.len() > 0 {
        law_switch_after_three_failures(checks.drop_last());
        lemma_count_bounded(checks.drop_last());
    }
}

proof fn lemma_count_bounded(checks: Seq<bool>)
    ensures
        0 <= count_after(checks) <= checks.len(),
    decreases checks.len(),
{
    if checks.len() > 0 {
        lemma_count_bounded(checks.drop_last());
    }
}

} // verus!
