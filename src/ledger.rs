use vstd::prelude::*;
use crate::lifecycle::{
    add_weight, arguments_valid, check_arguments, counter, opened, resolution_error, vote_outcome,
};
use crate::tally::{passes_rule, total_weight};
use crate::types::{
    same_identity, CastVote, CreateProposal, ExecuteProposal, Identity, Proposal, ProposalCreated,
    ProposalExecuted, ProposalId, ProposalRejected, ProposalStatus, VoteCast, VoteChoice, VoterRecord,
    VotingError,
};

verus! {

/// The record store: the proposals and the voter records, each table keyed
/// uniquely. Records are only ever added, never removed.
pub struct Ledger {
    pub proposals: Vec<Proposal>,
    pub records: Vec<VoterRecord>,
}

impl Ledger {
    /// No two proposals share a key, no two voter records share a
    /// (proposal, voter) key, every record refers to a stored proposal, each
    /// tally counter is the weight recorded for it, and every settled proposal
    /// was settled by the rules.
    pub open spec fn wf(&self) -> bool {
        &&& forall|i: int, j: int|
            0 <= i < j < self.proposals@.len() ==> self.proposals@[i].key()
                != self.proposals@[j].key()
        &&& forall|i: int, j: int|
            0 <= i < j < self.records@.len() ==> self.records@[i].key() != self.records@[j].key()
        &&& forall|k: int|
            0 <= k < self.records@.len() ==> self.has_proposal(#[trigger] self.records@[k].proposal@)
        &&& self.tallies_recorded()
        &&& forall|i: int| 0 <= i < self.proposals@.len() ==> settled_soundly(#[trigger] self.proposals@[i])
    }

    /// Each tally counter of each proposal equals the total weight of the
    /// voter records on that proposal for that choice.
    pub open spec fn tallies_recorded(&self) -> bool {
        forall|i: int, c: VoteChoice|
            0 <= i < self.proposals@.len() ==> #[trigger] counter(self.proposals@[i], c)
                == recorded_weight(self.records@, self.proposals@[i].key(), c)
    }

    pub open spec fn has_proposal(&self, id: (Seq<u8>, Seq<char>)) -> bool {
        exists|i: int| 0 <= i < self.proposals@.len() && self.proposals@[i].key() == id
    }

    pub open spec fn has_record(&self, key: ((Seq<u8>, Seq<char>), Seq<u8>)) -> bool {
        exists|i: int| 0 <= i < self.records@.len() && self.records@[i].key() == key
    }

    /// An empty store.
    pub fn new() -> (r: Ledger)
        ensures
            r.wf(),
            r.proposals@.len() == 0,
            r.records@.len() == 0,
    {
        Ledger { proposals: Vec::new(), records: Vec::new() }
    }

    /// The position of the proposal stored under `id`, if any.
    pub fn find_proposal(&self, id: &ProposalId) -> (r: Option<usize>)
        ensures
            r is None <==> !self.has_proposal(id@),
            r matches Some(i) ==> i < self.proposals@.len() && self.proposals@[i as int].key()
                == id@,
    {
        let mut i: usize = 0;
        while i < self.proposals.len()
            invariant
                0 <= i <= self.proposals@.len(),
                forall|j: int| 0 <= j < i ==> self.proposals@[j].key() != id@,
            decreases self.proposals@.len() - i,
        {
            let p = &self.proposals[i];
            if same_identity(&p.creator, &id.creator) && p.title == id.title {
                return Some(i);
            }
            i = i + 1;
        }
        None
    }

    /// Whether `voter` holds a record on the proposal `id`.
    pub fn has_voted(&self, id: &ProposalId, voter: &Identity) -> (r: bool)
        ensures
            r == self.has_record((id@, voter@)),
    {
        let mut i: usize = 0;
        while i < self.records.len()
            invariant
                0 <= i <= self.records@.len(),
                forall|j: int| 0 <= j < i ==> self.records@[j].key() != (id@, voter@),
            decreases self.records@.len() - i,
        {
            let rec = &self.records[i];
            if rec.proposal.same(id) && same_identity(&rec.voter, voter) {
                return true;
            }
            i = i + 1;
        }
        false
    }

    /// The proposal stored under `id`.
    pub fn get(&self, id: &ProposalId) -> (r: Result<&Proposal, VotingError>)
        ensures
            r is Err <==> !self.has_proposal(id@),
            r is Err ==> r == Err::<&Proposal, VotingError>(VotingError::NotFound),
            r matches Ok(p) ==> exists|i: int|
                0 <= i < self.proposals@.len() && self.proposals@[i] == *p && p.key() == id@,
    {
        match self.find_proposal(id) {
            Some(i) => Ok(&self.proposals[i]),
            None => Err(VotingError::NotFound),
        }
    }
}

/// Total weight of the records in `records` on proposal `id` for `choice`.
pub open spec fn recorded_weight(
    records: Seq<VoterRecord>,
    id: (Seq<u8>, Seq<char>),
    choice: VoteChoice,
) -> int
    decreases records.len(),
{
    if records.len() == 0 {
        0
    } else {
        let last = records.last();
        recorded_weight(records.drop_last(), id, choice) + if last.proposal@ == id
            && last.vote_choice == choice {
            last.weight as int
        } else {
            0
        }
    }
}

/// An executed proposal passed the majority rule, a rejected one failed it,
/// and either had a positive total that fits in 64 bits.
pub open spec fn settled_soundly(p: Proposal) -> bool {
    p.status != ProposalStatus::Active ==> {
        &&& 0 < total_weight(p) <= u64::MAX
        &&& p.status == ProposalStatus::Executed <==> passes_rule(p.yes_votes as int, total_weight(p))
    }
}

proof fn lemma_recorded_push(records: Seq<VoterRecord>, r: VoterRecord, id: (Seq<u8>, Seq<char>), choice: VoteChoice)
    ensures
        recorded_weight(records.push(r), id, choice) == recorded_weight(records, id, choice) + if r.proposal@ == id && r.vote_choice == choice {
            r.weight as int
        } else {
            0
        },
{
    assert(records.push(r).drop_last() =~= records);
}

proof fn lemma_recorded_absent(records: Seq<VoterRecord>, id: (Seq<u8>, Seq<char>), choice: VoteChoice)
    requires
        forall|k: int| 0 <= k < records.len() ==> (#[trigger] records[k]).proposal@ != id,
    ensures
        recorded_weight(records, id, choice) == 0,
    decreases records.len(),
{
    if records.len() > 0 {
        let rest = records.drop_last();
        assert forall|k: int| 0 <= k < rest.len() implies (#[trigger] rest[k]).proposal@ != id by {
            assert(rest[k] == records[k]);
        }
        lemma_recorded_absent(rest, id, choice);
        assert(records[records.len() - 1].proposal@ != id);
    }
}

/// Adding a fresh proposal with zero tallies keeps the store well formed.
proof fn lemma_create_keeps(before: Ledger, after: Ledger, p: Proposal)
    requires
        before.wf(),
        !before.has_proposal(p.key()),
        p.status == ProposalStatus::Active,
        p.yes_votes == 0 && p.no_votes == 0 && p.abstain_votes == 0,
        after.proposals@ == before.proposals@.push(p),
        after.records@ == before.records@,
    ensures
        after.wf(),
{
    let n = before.proposals@.len() as int;
    assert forall|k: int| 0 <= k < after.records@.len() implies after.has_proposal(
        #[trigger] after.records@[k].proposal@,
    ) by {
        assert(before.has_proposal(before.records@[k].proposal@));
        let i = choose|i: int|
            0 <= i < before.proposals@.len() && before.proposals@[i].key()
                == before.records@[k].proposal@;
        assert(after.proposals@[i] == before.proposals@[i]);
    }
    assert forall|k: int| 0 <= k < before.records@.len() implies (
    #[trigger] before.records@[k]).proposal@ != p.key() by {
        assert(before.has_proposal(before.records@[k].proposal@));
    }
    assert forall|i: int, c: VoteChoice| 0 <= i < after.proposals@.len() implies #[trigger] counter(
        after.proposals@[i],
        c,
    ) == recorded_weight(after.records@, after.proposals@[i].key(), c) by {
        if i == n {
            lemma_recorded_absent(before.records@, p.key(), c);
        } else {
            assert(after.proposals@[i] == before.proposals@[i]);
        }
    }
    assert forall|i: int| 0 <= i < after.proposals@.len() implies settled_soundly(
        #[trigger] after.proposals@[i],
    ) by {
        if i < n {
            assert(after.proposals@[i] == before.proposals@[i]);
        }
    }
}

/// Recording a fresh vote and adding its weight to the proposal's counter
/// keeps the store well formed.
proof fn lemma_vote_keeps(before: Ledger, after: Ledger, i: int, rec: VoterRecord)
    requires
        before.wf(),
        0 <= i < before.proposals@.len(),
        before.proposals@[i].status == ProposalStatus::Active,
        rec.proposal@ == before.proposals@[i].key(),
        !before.has_record(rec.key()),
        counter(before.proposals@[i], rec.vote_choice) + rec.weight <= u64::MAX,
        after.proposals@ == before.proposals@.update(
            i,
            add_weight(before.proposals@[i], rec.vote_choice, rec.weight),
        ),
        after.records@ == before.records@.push(rec),
    ensures
        after.wf(),
{
    let p = before.proposals@[i];
    let n = before.records@.len() as int;
    assert forall|a: int, b: int| 0 <= a < b < after.records@.len() implies after.records@[a].key()
        != after.records@[b].key() by {
        if b == n {
            assert(after.records@[a] == before.records@[a]);
        } else {
            assert(after.records@[a] == before.records@[a]);
            assert(after.records@[b] == before.records@[b]);
        }
    }
    assert forall|k: int| 0 <= k < after.records@.len() implies after.has_proposal(
        #[trigger] after.records@[k].proposal@,
    ) by {
        if k == n {
            assert(after.proposals@[i].key() == p.key());
        } else {
            assert(after.records@[k] == before.records@[k]);
            assert(before.has_proposal(before.records@[k].proposal@));
            let j = choose|j: int|
                0 <= j < before.proposals@.len() && before.proposals@[j].key()
                    == before.records@[k].proposal@;
            assert(after.proposals@[j].key() == before.proposals@[j].key());
        }
    }
    assert forall|j: int, c: VoteChoice| 0 <= j < after.proposals@.len() implies #[trigger] counter(
        after.proposals@[j],
        c,
    ) == recorded_weight(after.records@, after.proposals@[j].key(), c) by {
        lemma_recorded_push(before.records@, rec, before.proposals@[j].key(), c);
        assert(counter(before.proposals@[j], c) == recorded_weight(
            before.records@,
            before.proposals@[j].key(),
            c,
        ));
        if j != i {
            assert(before.proposals@[j].key() != p.key());
        }
    }
    assert forall|j: int| 0 <= j < after.proposals@.len() implies settled_soundly(
        #[trigger] after.proposals@[j],
    ) by {
        assert(settled_soundly(before.proposals@[j]));
    }
}

/// Settling a proposal by the rules keeps the store well formed.
proof fn lemma_resolve_keeps(before: Ledger, after: Ledger, i: int, now: u64, execute: bool)
    requires
        before.wf(),
        0 <= i < before.proposals@.len(),
        resolution_error(before.proposals@[i], now, execute) is None,
        after.proposals@ == before.proposals@.update(
            i,
            Proposal {
                status: if execute {
                    ProposalStatus::Executed
                } else {
                    ProposalStatus::Rejected
                },
                ..before.proposals@[i]
            },
        ),
        after.records@ == before.records@,
    ensures
        after.wf(),
{
    assert forall|k: int| 0 <= k < after.records@.len() implies after.has_proposal(
        #[trigger] after.records@[k].proposal@,
    ) by {
        assert(before.has_proposal(before.records@[k].proposal@));
        let j = choose|j: int|
            0 <= j < before.proposals@.len() && before.proposals@[j].key()
                == before.records@[k].proposal@;
        assert(after.proposals@[j].key() == before.proposals@[j].key());
    }
    assert forall|j: int, c: VoteChoice| 0 <= j < after.proposals@.len() implies #[trigger] counter(
        after.proposals@[j],
        c,
    ) == recorded_weight(after.records@, after.proposals@[j].key(), c) by {
        assert(counter(before.proposals@[j], c) == recorded_weight(
            before.records@,
            before.proposals@[j].key(),
            c,
        ));
    }
    assert forall|j: int| 0 <= j < after.proposals@.len() implies settled_soundly(
        #[trigger] after.proposals@[j],
    ) by {
        assert(settled_soundly(before.proposals@[j]));
    }
}

/// Opens a proposal of `ctx.creator` under the key (creator, title). The
/// checks run in this order: the arguments are well formed, the key is not
/// taken, and the expiry time fits in 64 bits.
pub fn create_proposal(
    ledger: &mut Ledger,
    ctx: &CreateProposal,
    title: String,
    description: String,
    voting_period: u64,
) -> (r: Result<ProposalCreated, VotingError>)
    requires
        old(ledger).wf(),
    ensures
        final(ledger).wf(),
        final(ledger).records@ == old(ledger).records@,
        r is Err ==> *final(ledger) == *old(ledger),
        !arguments_valid(title, description, voting_period) ==> r == Err::<
            ProposalCreated,
            VotingError,
        >(VotingError::InvalidInput),
        arguments_valid(title, description, voting_period) && old(ledger).has_proposal(
            (ctx.creator@, title@),
        ) ==> r == Err::<ProposalCreated, VotingError>(VotingError::DuplicateProposal),
        arguments_valid(title, description, voting_period) && !old(ledger).has_proposal(
            (ctx.creator@, title@),
        ) && ctx.now + voting_period > u64::MAX ==> r == Err::<ProposalCreated, VotingError>(
            VotingError::ArithmeticOverflow,
        ),
        arguments_valid(title, description, voting_period) && !old(ledger).has_proposal(
            (ctx.creator@, title@),
        ) && ctx.now + voting_period <= u64::MAX ==> r == Ok::<ProposalCreated, VotingError>(
            ProposalCreated {
                proposal: ProposalId { creator: ctx.creator, title },
                creator: ctx.creator,
                title,
            },
        ) && final(ledger).proposals@ == old(ledger).proposals@.push(
            opened(ctx.creator, title, description, voting_period, ctx.now),
        ),
{
    if !check_arguments(&title, &description, voting_period) {
        return Err(VotingError::InvalidInput);
    }
    let id = ProposalId { creator: ctx.creator, title: title.clone() };
    if ledger.find_proposal(&id).is_some() {
        return Err(VotingError::DuplicateProposal);
    }
    let proposal = match Proposal::open(ctx, title, description, voting_period) {
        Ok(p) => p,
        Err(e) => {
            return Err(e);
        },
    };
    let ghost before = *ledger;
    let event = ProposalCreated {
        creator: proposal.creator,
        title: proposal.title.clone(),
        proposal: id,
    };
    ledger.proposals.push(proposal);
    proof {
        lemma_create_keeps(before, *ledger, proposal);
    }
    Ok(event)
}

/// Records the vote of `ctx.voter` on `ctx.proposal` and adds its weight to
/// the tally. The checks run in this order: the proposal exists, it is
/// active, its voting period has not ended, the weight is positive, the voter
/// has not voted on it, and the counter does not overflow.
pub fn cast_vote(ledger: &mut Ledger, ctx: &CastVote, vote_choice: VoteChoice, vote_weight: u64) -> (r:
    Result<VoteCast, VotingError>)
    requires
        old(ledger).wf(),
    ensures
        final(ledger).wf(),
        !old(ledger).has_proposal(ctx.proposal@) ==> r == Err::<VoteCast, VotingError>(
            VotingError::NotFound,
        ) && *final(ledger) == *old(ledger),
        forall|i: int|
            0 <= i < old(ledger).proposals@.len() && old(ledger).proposals@[i].key()
                == ctx.proposal@ ==> match vote_outcome(
                old(ledger).proposals@[i],
                old(ledger).has_record((ctx.proposal@, ctx.voter@)),
                ctx.now,
                vote_choice,
                vote_weight,
            ) {
                Err(e) => r == Err::<VoteCast, VotingError>(e) && *final(ledger) == *old(ledger),
                Ok(np) => r == Ok::<VoteCast, VotingError>(
                    VoteCast {
                        proposal: ctx.proposal,
                        voter: ctx.voter,
                        choice: vote_choice,
                        weight: vote_weight,
                    },
                ) && final(ledger).proposals@ == old(ledger).proposals@.update(i, np) && final(ledger).records@ == old(ledger).records@.push(
                    VoterRecord {
                        voter: ctx.voter,
                        proposal: ctx.proposal,
                        vote_choice,
                        weight: vote_weight,
                        voted_at: ctx.now,
                    },
                ),
            },
{
    let i = match ledger.find_proposal(&ctx.proposal) {
        Some(i) => i,
        None => {
            return Err(VotingError::NotFound);
        },
    };
    if let Err(e) = ledger.proposals[i].admit_vote(ctx.now, vote_weight) {
        return Err(e);
    }
    if ledger.has_voted(&ctx.proposal, &ctx.voter) {
        return Err(VotingError::DuplicateVote);
    }
    let mut p = ledger.proposals[i].clone_proposal();
    if let Err(e) = p.add_vote(vote_choice, vote_weight) {
        return Err(e);
    }
    let ghost before = *ledger;
    let rec = VoterRecord {
        voter: ctx.voter,
        proposal: ctx.proposal.duplicate(),
        vote_choice,
        weight: vote_weight,
        voted_at: ctx.now,
    };
    let ghost recorded = rec;
    ledger.proposals.set(i, p);
    ledger.records.push(rec);
    proof {
        lemma_vote_keeps(before, *ledger, i as int, recorded);
    }
    Ok(
        VoteCast {
            proposal: ctx.proposal.duplicate(),
            voter: ctx.voter,
            choice: vote_choice,
            weight: vote_weight,
        },
    )
}

/// Resolves the proposal at position `i`: `Executed` when `execute`, else
/// `Rejected`. Returns the total weight cast.
fn resolve_at(ledger: &mut Ledger, i: usize, now: u64, execute: bool) -> (r: Result<
    u64,
    VotingError,
>)
    requires
        old(ledger).wf(),
        i < old(ledger).proposals@.len(),
    ensures
        final(ledger).wf(),
        resolved(*old(ledger), i as int, now, execute, r, *final(ledger)),
{
    let mut p = ledger.proposals[i].clone_proposal();
    let total = match p.resolve(now, execute) {
        Ok(t) => t,
        Err(e) => {
            return Err(e);
        },
    };
    let ghost before = *ledger;
    ledger.proposals.set(i, p);
    proof {
        lemma_resolve_keeps(before, *ledger, i as int, now, execute);
    }
    Ok(total)
}

/// How a resolution of the proposal at `i` of `before` at time `now` ends:
/// either an error and no change, or the total weight and the new status.
pub open spec fn resolved(
    before: Ledger,
    i: int,
    now: u64,
    execute: bool,
    r: Result<u64, VotingError>,
    after: Ledger,
) -> bool {
    let p = before.proposals@[i];
    match resolution_error(p, now, execute) {
        Some(e) => r == Err::<u64, VotingError>(e) && after == before,
        None => {
            &&& r == Ok::<u64, VotingError>(total_weight(p) as u64)
            &&& after.records@ == before.records@
            &&& after.proposals@ == before.proposals@.update(
                i,
                Proposal {
                    status: if execute {
                        ProposalStatus::Executed
                    } else {
                        ProposalStatus::Rejected
                    },
                    ..p
                },
            )
        },
    }
}

/// Marks `ctx.proposal` executed. The checks run in this order: the proposal
/// exists, its voting period has ended, the total weight fits in 64 bits and
/// is positive, the yes share is at least half, and the proposal is active.
pub fn execute_proposal(ledger: &mut Ledger, ctx: &ExecuteProposal) -> (r: Result<
    ProposalExecuted,
    VotingError,
>)
    requires
        old(ledger).wf(),
    ensures
        final(ledger).wf(),
        !old(ledger).has_proposal(ctx.proposal@) ==> r == Err::<ProposalExecuted, VotingError>(
            VotingError::NotFound,
        ) && *final(ledger) == *old(ledger),
        forall|i: int|
            0 <= i < old(ledger).proposals@.len() && old(ledger).proposals@[i].key()
                == ctx.proposal@ ==> {
                let p = old(ledger).proposals@[i];
                &&& resolved(
                    *old(ledger),
                    i,
                    ctx.now,
                    true,
                    match r {
                        Ok(ev) => Ok::<u64, VotingError>(ev.total_votes),
                        Err(e) => Err(e),
                    },
                    *final(ledger),
                )
                &&& r matches Ok(ev) ==> ev == (ProposalExecuted {
                    proposal: ctx.proposal,
                    yes_votes: p.yes_votes,
                    no_votes: p.no_votes,
                    total_votes: ev.total_votes,
                })
            },
{
    let i = match ledger.find_proposal(&ctx.proposal) {
        Some(i) => i,
        None => {
            return Err(VotingError::NotFound);
        },
    };
    let yes_votes = ledger.proposals[i].yes_votes;
    let no_votes = ledger.proposals[i].no_votes;
    let total = match resolve_at(ledger, i, ctx.now, true) {
        Ok(t) => t,
        Err(e) => {
            return Err(e);
        },
    };
    Ok(ProposalExecuted { proposal: ctx.proposal.duplicate(), yes_votes, no_votes, total_votes: total })
}

/// Marks `ctx.proposal` rejected. The checks run in this order: the proposal
/// exists, its voting period has ended, the total weight fits in 64 bits and
/// is positive, the yes share is below half, and the proposal is active.
pub fn reject_proposal(ledger: &mut Ledger, ctx: &ExecuteProposal) -> (r: Result<
    ProposalRejected,
    VotingError,
>)
    requires
        old(ledger).wf(),
    ensures
        final(ledger).wf(),
        !old(ledger).has_proposal(ctx.proposal@) ==> r == Err::<ProposalRejected, VotingError>(
            VotingError::NotFound,
        ) && *final(ledger) == *old(ledger),
        forall|i: int|
            0 <= i < old(ledger).proposals@.len() && old(ledger).proposals@[i].key()
                == ctx.proposal@ ==> {
                let p = old(ledger).proposals@[i];
                &&& resolved(
                    *old(ledger),
                    i,
                    ctx.now,
                    false,
                    match r {
                        Ok(ev) => Ok::<u64, VotingError>(ev.total_votes),
                        Err(e) => Err(e),
                    },
                    *final(ledger),
                )
                &&& r matches Ok(ev) ==> ev == (ProposalRejected {
                    proposal: ctx.proposal,
                    yes_votes: p.yes_votes,
                    no_votes: p.no_votes,
                    total_votes: ev.total_votes,
                })
            },
{
    let i = match ledger.find_proposal(&ctx.proposal) {
        Some(i) => i,
        None => {
            return Err(VotingError::NotFound);
        },
    };
    let yes_votes = ledger.proposals[i].yes_votes;
    let no_votes = ledger.proposals[i].no_votes;
    let total = match resolve_at(ledger, i, ctx.now, false) {
        Ok(t) => t,
        Err(e) => {
            return Err(e);
        },
    };
    Ok(ProposalRejected { proposal: ctx.proposal.duplicate(), yes_votes, no_votes, total_votes: total })
}

} // verus!
