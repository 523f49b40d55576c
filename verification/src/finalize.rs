//! The quorum and finalization evaluator: deadline-driven and
//! early-consensus finalization, the emergency short-circuit, and the
//! urgency-dependent effective deadline for casting votes.

use vstd::prelude::*;
use crate::types::{Proposal, ProposalStatus, UrgencyLevel, VotingResults, PRS_SCALE};
use crate::tally::{sat_add64, saturating_add64};
use crate::validate::EMERGENCY_GRACE_NS;

verus! {

/// The verdict a tally settles on once voting concludes: expired with
/// no decided weight, else passed exactly when the weight for exceeds
/// the weight against. Abstentions do not take part in the comparison.
pub open spec fn finalized_status(vr: VotingResults) -> ProposalStatus {
    if vr.votes_for + vr.votes_against == 0 {
        ProposalStatus::Expired
    } else if vr.votes_for > vr.votes_against {
        ProposalStatus::Passed
    } else {
        ProposalStatus::Rejected
    }
}

/// Settles a proposal's status from its tally.
pub fn finalize_proposal_voting(p: &mut Proposal)
    requires
        old(p).voting_results.wf(),
    ensures
        final(p).status == finalized_status(old(p).voting_results),
        *final(p) == (Proposal { status: final(p).status, ..*old(p) }),
{
    proof {
        let t = old(p).voting_results.total_votes;
        assert(t * crate::types::MAX_VOTE_WEIGHT <= 0xffff_ffffu64 * crate::types::MAX_VOTE_WEIGHT)
            by (nonlinear_arith)
            requires
                t <= 0xffff_ffffu64,
        ;
    }
    let total_votes = p.voting_results.votes_for + p.voting_results.votes_against;
    if total_votes == 0 {
        p.status = ProposalStatus::Expired;
    } else if p.voting_results.votes_for > p.voting_results.votes_against {
        p.status = ProposalStatus::Passed;
    } else {
        p.status = ProposalStatus::Rejected;
    }
}

/// Whether the expert consensus is strong enough to conclude early:
/// confidence strictly above 0.8 and a peer-review score strictly
/// above 80.
pub open spec fn expert_consensus_strong(vr: VotingResults) -> bool {
    match vr.expert_consensus {
        Some(e) => e.confidence_above_four_fifths() && e.peer_review_score > 80 * PRS_SCALE,
        None => false,
    }
}

/// The status the finalization check settles on: past the voting
/// deadline the tally is settled unconditionally; otherwise it is
/// settled early when the quorum is met and a strong expert consensus
/// stands; otherwise the status is left as it is.
pub open spec fn checked_status(p: Proposal, now: u64) -> ProposalStatus {
    if now > p.voting_deadline {
        finalized_status(p.voting_results)
    } else if p.voting_results.total_votes >= p.quorum_required && expert_consensus_strong(
        p.voting_results) {
        finalized_status(p.voting_results)
    } else {
        p.status
    }
}

/// Finalizes a proposal when its deadline has passed, or early when the
/// quorum is reached under a strong expert consensus.
pub fn check_and_finalize_proposal(p: &mut Proposal, now: u64)
    requires
        old(p).voting_results.wf(),
    ensures
        final(p).status == checked_status(*old(p), now),
        *final(p) == (Proposal { status: final(p).status, ..*old(p) }),
{
    if now > p.voting_deadline {
        finalize_proposal_voting(p);
        return;
    }
    if p.voting_results.total_votes >= p.quorum_required {
        let strong = match &p.voting_results.expert_consensus {
            Some(e) => {
                let total_expert = e.expert_votes_for as u128 + e.expert_votes_against as u128;
                (e.expert_votes_for as u128) * 5 > total_expert * 4 && e.peer_review_score > 80
                    * PRS_SCALE
            },
            None => false,
        };
        if strong {
            finalize_proposal_voting(p);
        }
    }
}

/// The status after the emergency short-circuit: an emergency proposal
/// with at least three voters and one side at zero weight is decided at
/// once, passed when any weight stands for it.
pub open spec fn emergency_status(p: Proposal) -> ProposalStatus {
    if p.urgency_level == UrgencyLevel::Emergency && p.voting_results.total_votes >= 3
        && (p.voting_results.votes_against == 0 || p.voting_results.votes_for == 0) {
        if p.voting_results.votes_for > 0 {
            ProposalStatus::Passed
        } else {
            ProposalStatus::Rejected
        }
    } else {
        p.status
    }
}

/// Applies the emergency short-circuit: near-unanimity on an emergency
/// proposal with at least three voters decides it immediately.
pub fn apply_emergency_shortcircuit(p: &mut Proposal)
    ensures
        final(p).status == emergency_status(*old(p)),
        *final(p) == (Proposal { status: final(p).status, ..*old(p) }),
{
    if matches!(p.urgency_level, UrgencyLevel::Emergency) && p.voting_results.total_votes >= 3
        && (p.voting_results.votes_against == 0 || p.voting_results.votes_for == 0) {
        p.status = if p.voting_results.votes_for > 0 {
            ProposalStatus::Passed
        } else {
            ProposalStatus::Rejected
        };
    }
}

/// The deadline a cast vote is held against: emergency proposals get a
/// two-hour grace period past the voting deadline.
pub open spec fn effective_deadline(p: Proposal) -> u64 {
    if p.urgency_level == UrgencyLevel::Emergency {
        sat_add64(p.voting_deadline, EMERGENCY_GRACE_NS)
    } else {
        p.voting_deadline
    }
}

/// Computes the deadline a cast vote is held against.
pub fn compute_effective_deadline(p: &Proposal) -> (r: u64)
    ensures
        r == effective_deadline(*p),
{
    if matches!(p.urgency_level, UrgencyLevel::Emergency) {
        saturating_add64(p.voting_deadline, EMERGENCY_GRACE_NS)
    } else {
        p.voting_deadline
    }
}

} // verus!
