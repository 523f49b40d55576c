//! The vote tallying engine: pure bookkeeping that folds a cast vote or
//! a vote change into a proposal's running tally, together with the
//! ledger sums the engine's invariants are stated over.

use vstd::prelude::*;
use crate::types::{
    Vote, VoteType, Proposal, VotingResults, ExpertConsensus, MAX_VOTE_WEIGHT, PRS_SCALE,
};
use crate::validate::NS_PER_DAY;

verus! {

/// Saturating 64-bit addition.
pub open spec fn sat_add64(a: u64, b: u64) -> u64 {
    if a + b > u64::MAX {
        u64::MAX
    } else {
        (a + b) as u64
    }
}

/// Adds with saturation at the largest 64-bit value.
pub fn saturating_add64(a: u64, b: u64) -> (r: u64)
    ensures
        r == sat_add64(a, b),
{
    if a <= u64::MAX - b {
        a + b
    } else {
        u64::MAX
    }
}

/// The tally bucket a vote type lands in: 0 counts for, 1 against,
/// 2 abstention (a request for more evidence abstains).
pub open spec fn bucket(vt: VoteType) -> int {
    match vt {
        VoteType::For => 0,
        VoteType::Against => 1,
        VoteType::Abstain => 2,
        VoteType::RequiresMoreEvidence => 2,
    }
}

/// The weight `v` contributes to bucket `b` of proposal `pid`.
pub open spec fn vote_share(v: Vote, pid: u64, b: int) -> nat {
    if v.proposal_id == pid && bucket(v.vote_type) == b {
        v.weight as nat
    } else {
        0
    }
}

/// The weight the ledger `s` holds in bucket `b` of proposal `pid`.
pub open spec fn bucket_sum(s: Seq<Vote>, pid: u64, b: int) -> nat
    decreases s.len(),
{
    if s.len() == 0 {
        0
    } else {
        bucket_sum(s.drop_last(), pid, b) + vote_share(s.last(), pid, b)
    }
}

/// How many ledger entries belong to proposal `pid`.
pub open spec fn vote_count(s: Seq<Vote>, pid: u64) -> nat
    decreases s.len(),
{
    if s.len() == 0 {
        0
    } else {
        vote_count(s.drop_last(), pid) + if s.last().proposal_id == pid {
            1nat
        } else {
            0nat
        }
    }
}

/// Whether the ledger holds a vote by `k` on proposal `pid`.
pub open spec fn has_vote(s: Seq<Vote>, pid: u64, k: Seq<u8>) -> bool {
    exists|i: int|
        0 <= i < s.len() && (#[trigger] s[i]).proposal_id == pid && s[i].voter.bytes() == k
}

/// The position of the ledger entry voter `k` holds on proposal
/// `pid`, when one exists.
pub open spec fn vote_index_of(s: Seq<Vote>, pid: u64, k: Seq<u8>) -> int {
    choose|i: int|
        0 <= i < s.len() && (#[trigger] s[i]).proposal_id == pid && s[i].voter.bytes() == k
}

/// At most one ledger entry per proposal and voter.
pub open spec fn one_vote_per_voter(s: Seq<Vote>) -> bool {
    forall|i: int, j: int|
        0 <= i < j < s.len() && (#[trigger] s[i]).proposal_id == (#[trigger] s[j]).proposal_id
            ==> s[i].voter.bytes() != s[j].voter.bytes()
}

/// Replacing the vote at `k` moves its old contribution out of the
/// sums and the new one in.
pub proof fn lemma_bucket_sum_update(s: Seq<Vote>, k: int, v: Vote, pid: u64, b: int)
    requires
        0 <= k < s.len(),
    ensures
        bucket_sum(s.update(k, v), pid, b) + vote_share(s[k], pid, b) == bucket_sum(s, pid, b)
            + vote_share(v, pid, b),
        vote_count(s.update(k, v), pid) + (if s[k].proposal_id == pid { 1nat } else { 0nat })
            == vote_count(s, pid) + if v.proposal_id == pid {
            1nat
        } else {
            0nat
        },
    decreases s.len(),
{
    let t = s.update(k, v);
    if k == s.len() - 1 {
        assert(t.drop_last() =~= s.drop_last());
        assert(t.last() == v);
        assert(s.last() == s[k]);
    } else {
        assert(t.drop_last() =~= s.drop_last().update(k, v));
        assert(t.last() == s.last());
        assert(s.drop_last()[k] == s[k]);
        lemma_bucket_sum_update(s.drop_last(), k, v, pid, b);
    }
}

/// A bucket sum is at least any single entry's contribution.
pub proof fn lemma_bucket_sum_lower(s: Seq<Vote>, i: int, pid: u64, b: int)
    requires
        0 <= i < s.len(),
    ensures
        bucket_sum(s, pid, b) >= vote_share(s[i], pid, b),
    decreases s.len(),
{
    if i == s.len() - 1 {
        assert(s.last() == s[i]);
    } else {
        assert(s.drop_last()[i] == s[i]);
        lemma_bucket_sum_lower(s.drop_last(), i, pid, b);
    }
}

/// Folds a freshly cast vote into a proposal's tally: records the
/// voter, counts the vote, adds its weight to the bucket of its type,
/// and extends the voting deadline by a day when a request for more
/// evidence pushes the abstention weight above the decided weight.
pub fn record_vote_in_results(p: &mut Proposal, voter: crate::types::PrincipalId, vt: VoteType,
    weight: u32)
    requires
        old(p).voting_results.wf(),
        old(p).voting_results.total_votes < u32::MAX,
        !old(p).voting_results.has_voter(voter.bytes()),
    ensures
        final(p).voting_results.wf(),
        final(p).voting_results.total_votes == old(p).voting_results.total_votes + 1,
        final(p).voting_results.votes_for == old(p).voting_results.votes_for + if bucket(vt) == 0 {
            weight as int
        } else {
            0
        },
        final(p).voting_results.votes_against == old(p).voting_results.votes_against + if bucket(vt)
            == 1 {
            weight as int
        } else {
            0
        },
        final(p).voting_results.abstentions == old(p).voting_results.abstentions + if bucket(vt)
            == 2 {
            weight as int
        } else {
            0
        },
        final(p).voting_results.voter_principals@ == old(
            p).voting_results.voter_principals@.push(voter),
        final(p).voting_results.expert_consensus == old(p).voting_results.expert_consensus,
        final(p).voting_deadline == if vt == VoteType::RequiresMoreEvidence
            && final(p).voting_results.abstentions > final(p).voting_results.votes_for + final(
            p).voting_results.votes_against {
            sat_add64(old(p).voting_deadline, NS_PER_DAY)
        } else {
            old(p).voting_deadline
        },
        *final(p) == (Proposal {
            voting_deadline: final(p).voting_deadline,
            voting_results: final(p).voting_results,
            ..*old(p)
        }),
{
    proof {
        let t = old(p).voting_results.total_votes as int;
        assert(t * MAX_VOTE_WEIGHT + MAX_VOTE_WEIGHT == (t + 1) * MAX_VOTE_WEIGHT)
            by (nonlinear_arith);
        assert((t + 1) * MAX_VOTE_WEIGHT <= 0xffff_ffff * MAX_VOTE_WEIGHT) by (nonlinear_arith)
            requires
                t + 1 <= 0xffff_ffff,
        ;
    }
    let ghost old_voters = p.voting_results.voter_principals@;
    p.voting_results.voter_principals.push(voter);
    p.voting_results.total_votes = p.voting_results.total_votes + 1;
    match vt {
        VoteType::For => {
            p.voting_results.votes_for = p.voting_results.votes_for + weight as u64;
        },
        VoteType::Against => {
            p.voting_results.votes_against = p.voting_results.votes_against + weight as u64;
        },
        VoteType::Abstain => {
            p.voting_results.abstentions = p.voting_results.abstentions + weight as u64;
        },
        VoteType::RequiresMoreEvidence => {
            p.voting_results.abstentions = p.voting_results.abstentions + weight as u64;
            if p.voting_results.abstentions > p.voting_results.votes_for
                + p.voting_results.votes_against {
                p.voting_deadline = saturating_add64(p.voting_deadline, NS_PER_DAY);
            }
        },
    }
    proof {
        assert forall|i: int, j: int|
            0 <= i < j < p.voting_results.voter_principals@.len()
                implies #[trigger] p.voting_results.voter_principals@[i].bytes()
                != #[trigger] p.voting_results.voter_principals@[j].bytes() by {
            if j < old_voters.len() {
                assert(old_voters[i].bytes() != old_voters[j].bytes());
            } else {
                assert(old_voters[i].bytes() != voter.bytes());
            }
        }
    }
}

/// The expert tally after folding in an expert vote of the given type,
/// weight, and expertise relevance: weight counts toward a side only
/// for a for or against vote, and the peer-review score averages in the
/// new relevance at half weight.
pub open spec fn consensus_after(c: Option<ExpertConsensus>, vt: VoteType, weight: u32,
    expertise_relevance: u32) -> ExpertConsensus {
    let base = match c {
        Some(e) => e,
        None => ExpertConsensus {
            expert_votes_for: 0,
            expert_votes_against: 0,
            peer_review_score: 0,
        },
    };
    ExpertConsensus {
        expert_votes_for: (base.expert_votes_for + if vt == VoteType::For {
            weight as int
        } else {
            0
        }) as u64,
        expert_votes_against: (base.expert_votes_against + if vt == VoteType::Against {
            weight as int
        } else {
            0
        }) as u64,
        peer_review_score: ((base.peer_review_score + expertise_relevance * PRS_SCALE)
            / 2) as u64,
    }
}

/// Folds an expert or institution vote into the proposal's expert
/// consensus, creating the consensus lazily on the first expert vote.
pub fn update_expert_consensus(p: &mut Proposal, vote_type: &VoteType, weight: u32,
    expertise_relevance: u32)
    requires
        expertise_relevance <= 100,
        old(p).voting_results.wf(),
        old(p).voting_results.total_votes >= 1,
        match old(p).voting_results.expert_consensus {
            Some(e) => e.expert_votes_for + e.expert_votes_against <= (old(
                p).voting_results.total_votes - 1) * MAX_VOTE_WEIGHT,
            None => true,
        },
    ensures
        final(p).voting_results.wf(),
        final(p).voting_results.expert_consensus == Some(consensus_after(old(
            p).voting_results.expert_consensus, *vote_type, weight, expertise_relevance)),
        *final(p) == (Proposal {
            voting_results: (VotingResults {
                expert_consensus: final(p).voting_results.expert_consensus,
                ..old(p).voting_results
            }),
            ..*old(p)
        }),
{
    proof {
        let t = old(p).voting_results.total_votes as int;
        assert((t - 1) * MAX_VOTE_WEIGHT + MAX_VOTE_WEIGHT == t * MAX_VOTE_WEIGHT)
            by (nonlinear_arith);
        assert(t * MAX_VOTE_WEIGHT <= 0xffff_ffff * MAX_VOTE_WEIGHT) by (nonlinear_arith)
            requires
                t <= 0xffff_ffff,
        ;
    }
    let base = match &p.voting_results.expert_consensus {
        Some(e) => *e,
        None => ExpertConsensus {
            expert_votes_for: 0,
            expert_votes_against: 0,
            peer_review_score: 0,
        },
    };
    let updated = ExpertConsensus {
        expert_votes_for: match vote_type {
            VoteType::For => base.expert_votes_for + weight as u64,
            _ => base.expert_votes_for,
        },
        expert_votes_against: match vote_type {
            VoteType::Against => base.expert_votes_against + weight as u64,
            _ => base.expert_votes_against,
        },
        peer_review_score: (base.peer_review_score + expertise_relevance as u64 * PRS_SCALE) / 2,
    };
    p.voting_results.expert_consensus = Some(updated);
}

/// Moves a changed vote's weight from its old bucket to its new one;
/// the voter set, the vote count, and the expert consensus stay as
/// they are.
pub fn apply_vote_change(p: &mut Proposal, old_vote: &VoteType, new_vote: &VoteType, weight: u32)
    requires
        old(p).voting_results.wf(),
        bucket(*old_vote) == 0 ==> old(p).voting_results.votes_for >= weight,
        bucket(*old_vote) == 1 ==> old(p).voting_results.votes_against >= weight,
        bucket(*old_vote) == 2 ==> old(p).voting_results.abstentions >= weight,
    ensures
        final(p).voting_results.wf(),
        final(p).voting_results.votes_for == old(p).voting_results.votes_for - (if bucket(
            *old_vote) == 0 {
            weight as int
        } else {
            0
        }) + if bucket(*new_vote) == 0 {
            weight as int
        } else {
            0
        },
        final(p).voting_results.votes_against == old(p).voting_results.votes_against - (if bucket(
            *old_vote) == 1 {
            weight as int
        } else {
            0
        }) + if bucket(*new_vote) == 1 {
            weight as int
        } else {
            0
        },
        final(p).voting_results.abstentions == old(p).voting_results.abstentions - (if bucket(
            *old_vote) == 2 {
            weight as int
        } else {
            0
        }) + if bucket(*new_vote) == 2 {
            weight as int
        } else {
            0
        },
        final(p).voting_results.weight_sum() == old(p).voting_results.weight_sum(),
        *final(p) == (Proposal {
            voting_results: (VotingResults {
                votes_for: final(p).voting_results.votes_for,
                votes_against: final(p).voting_results.votes_against,
                abstentions: final(p).voting_results.abstentions,
                ..old(p).voting_results
            }),
            ..*old(p)
        }),
{
    match old_vote {
        VoteType::For => {
            p.voting_results.votes_for = p.voting_results.votes_for - weight as u64;
        },
        VoteType::Against => {
            p.voting_results.votes_against = p.voting_results.votes_against - weight as u64;
        },
        VoteType::Abstain | VoteType::RequiresMoreEvidence => {
            p.voting_results.abstentions = p.voting_results.abstentions - weight as u64;
        },
    }
    match new_vote {
        VoteType::For => {
            p.voting_results.votes_for = p.voting_results.votes_for + weight as u64;
        },
        VoteType::Against => {
            p.voting_results.votes_against = p.voting_results.votes_against + weight as u64;
        },
        VoteType::Abstain | VoteType::RequiresMoreEvidence => {
            p.voting_results.abstentions = p.voting_results.abstentions + weight as u64;
        },
    }
}

} // verus!
