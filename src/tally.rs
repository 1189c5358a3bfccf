use vstd::prelude::*;
use crate::types::Proposal;

verus! {

/// Sum of the three tally counters of a proposal.
pub open spec fn total_weight(p: Proposal) -> int {
    p.yes_votes + p.no_votes + p.abstain_votes
}

/// The yes share of a tally in whole percent, rounded down.
pub open spec fn yes_share(yes: int, total: int) -> int {
    yes * 100 / total
}

/// The majority rule: a proposal passes when at least half of the weight is yes.
pub open spec fn passes_rule(yes: int, total: int) -> bool {
    yes_share(yes, total) >= 50
}

/// The total weight cast on `p`, or `None` when it does not fit in 64 bits.
pub fn total_votes(p: &Proposal) -> (r: Option<u64>)
    ensures
        total_weight(*p) <= u64::MAX ==> r == Some(total_weight(*p) as u64),
        total_weight(*p) > u64::MAX ==> r is None,
{
    match p.yes_votes.checked_add(p.no_votes) {
        Some(s) => s.checked_add(p.abstain_votes),
        None => None,
    }
}

/// `floor(yes * 100 / total)`, computed in 128 bits so that no weight overflows.
pub fn yes_percent(yes: u64, total: u64) -> (r: u64)
    requires
        0 < total,
        yes <= total,
    ensures
        r == yes_share(yes as int, total as int),
        r <= 100,
{
    let wide: u128 = (yes as u128) * 100;
    let q: u128 = wide / (total as u128);
    proof {
        let (y, t) = (yes as int, total as int);
        assert(y * 100 <= t * 100) by (nonlinear_arith)
            requires
                y <= t,
        ;
        assert(y * 100 / t <= 100) by (nonlinear_arith)
            requires
                y * 100 <= t * 100,
                0 < t,
        ;
    }
    q as u64
}

/// Whether a tally with `yes` of `total` weight passes the majority rule.
pub fn passes(yes: u64, total: u64) -> (r: bool)
    requires
        0 < total,
        yes <= total,
    ensures
        r == passes_rule(yes as int, total as int),
{
    yes_percent(yes, total) >= 50
}

} // verus!
