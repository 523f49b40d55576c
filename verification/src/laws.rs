//! Engine-wide laws, each proved once and for all states: vote
//! uniqueness, weighted-score bounds, vote-change conservation, and
//! the stability of the proposal listing.

use vstd::prelude::*;
use crate::types::{VotingResults, ProposalResponse, MAX_VOTE_WEIGHT};
use crate::engine::{GovState, resp_matches, response_like, response_order_ok, response_tie_order_ok};

verus! {

/// One vote per principal: in a well-formed state, the vote ledger
/// holds at most one record for any proposal and voter; two ledger
/// positions carrying the same proposal id and voter identity are the
/// same position. A second cast by the same principal is refused with
/// the already-voted complaint and leaves the state untouched, as
/// `vote_on_proposal` ensures.
pub proof fn lemma_one_vote_per_principal(s: GovState, i: int, j: int)
    requires
        s.wf(),
        0 <= i < s.votes@.len(),
        0 <= j < s.votes@.len(),
        s.votes@[i].proposal_id == s.votes@[j].proposal_id,
        s.votes@[i].voter.bytes() == s.votes@[j].voter.bytes(),
    ensures
        i == j,
{
    if i < j {
        assert(s.votes@[i].voter.bytes() != s.votes@[j].voter.bytes());
    } else if j < i {
        assert(s.votes@[j].voter.bytes() != s.votes@[i].voter.bytes());
    }
}

/// Weighted-score bounds: the score `votes_for / weight_sum` always
/// lies between zero and one — its numerator never exceeds its
/// denominator — and a zero denominator means a zero numerator. The
/// score is zero exactly when no weight at all stands for the
/// proposal; weight against or abstaining alone also drives it to
/// zero, so a zero score does not by itself mean an empty tally.
pub proof fn lemma_weighted_score_bounds(vr: VotingResults)
    ensures
        vr.votes_for <= vr.weight_sum(),
        vr.weight_sum() == 0 ==> vr.votes_for == 0,
{
}

/// Vote-change conservation: moving a weight `w` from the for bucket
/// to the against bucket, as a change from a for vote to an against
/// vote does, decreases the weight for by exactly `w`, increases the
/// weight against by exactly `w`, and leaves the voter count and the
/// weighted score's denominator unchanged.
pub proof fn lemma_vote_change_conservation(vr: VotingResults, vr2: VotingResults, w: u32)
    requires
        vr.wf(),
        vr.votes_for >= w,
        vr2 == (VotingResults {
            votes_for: (vr.votes_for - w) as u64,
            votes_against: (vr.votes_against + w) as u64,
            ..vr
        }),
    ensures
        vr2.total_votes == vr.total_votes,
        vr2.weight_sum() == vr.weight_sum(),
        vr2.votes_for == vr.votes_for - w,
        vr2.votes_against == vr.votes_against + w,
        vr2.abstentions == vr.abstentions,
{
    let t = vr.total_votes as int;
    assert(t * MAX_VOTE_WEIGHT <= 0xffff_ffffu64 * MAX_VOTE_WEIGHT) by (nonlinear_arith)
        requires
            t <= 0xffff_ffffu64,
    ;
}

/// Two response summaries agree in every observable field.
pub open spec fn response_agrees(a: ProposalResponse, b: ProposalResponse) -> bool {
    &&& a.id == b.id
    &&& a.status == b.status
    &&& a.title@ == b.title@
    &&& a.voting_deadline == b.voting_deadline
    &&& a.artifact_id == b.artifact_id
    &&& a.description@ == b.description@
    &&& a.voters@.len() == b.voters@.len()
    &&& forall|i: int|
        0 <= i < a.voters@.len() ==> (#[trigger] a.voters@[i]).bytes() == b.voters@[i].bytes()
    &&& a.created_at == b.created_at
    &&& a.proposer.bytes() == b.proposer.bytes()
    &&& a.votes_for == b.votes_for
    &&& crate::types::opt_text_like(a.execution_payload, b.execution_payload)
    &&& a.proposal_type == b.proposal_type
    &&& a.votes_against == b.votes_against
}

/// Idempotent re-read: two proposal listings taken from the same
/// state, each satisfying `get_all_proposals`' contract, are identical
/// position by position — the same proposal at every index, with the
/// same field values. The contract's newest-first order with the
/// store's order breaking ties admits exactly one arrangement of the
/// stored proposals.
pub proof fn lemma_get_all_proposals_stable(s: GovState, r1: Seq<ProposalResponse>,
    r2: Seq<ProposalResponse>)
    requires
        s.wf(),
        forall|k: int| 0 <= k < r1.len() ==> resp_matches(s, #[trigger] r1[k]),
        forall|k: int| 0 <= k < r2.len() ==> resp_matches(s, #[trigger] r2[k]),
        forall|a: int, b: int|
            0 <= a < b < r1.len() ==> (#[trigger] r1[a]).id != (#[trigger] r1[b]).id,
        forall|a: int, b: int|
            0 <= a < b < r2.len() ==> (#[trigger] r2[a]).id != (#[trigger] r2[b]).id,
        forall|j: int|
            0 <= j < s.proposals@.len() ==> exists|k: int|
                0 <= k < r1.len() && (#[trigger] r1[k]).id == (#[trigger] s.proposals@[j]).id,
        forall|j: int|
            0 <= j < s.proposals@.len() ==> exists|k: int|
                0 <= k < r2.len() && (#[trigger] r2[k]).id == (#[trigger] s.proposals@[j]).id,
        r1.len() == s.proposals@.len(),
        r2.len() == s.proposals@.len(),
        response_order_ok(r1),
        response_order_ok(r2),
        response_tie_order_ok(s, r1),
        response_tie_order_ok(s, r2),
    ensures
        forall|k: int|
            0 <= k < r1.len() ==> (#[trigger] r1[k]).id == r2[k].id && response_agrees(r1[k],
                r2[k]),
{
    lemma_listing_prefix_equal(s, r1, r2, r1.len() as int);
    assert forall|k: int|
        0 <= k < r1.len() implies (#[trigger] r1[k]).id == r2[k].id && response_agrees(r1[k],
        r2[k]) by {
        assert(resp_matches(s, r1[k]));
        assert(resp_matches(s, r2[k]));
        let p = s.spec_proposal(r1[k].id);
        assert(response_like(r1[k], p));
        assert(response_like(r2[k], p));
    }
}

/// Two listings that both satisfy the listing contract agree on the
/// ids of their first `k` entries.
proof fn lemma_listing_prefix_equal(s: GovState, r1: Seq<ProposalResponse>,
    r2: Seq<ProposalResponse>, k: int)
    requires
        s.wf(),
        0 <= k <= r1.len(),
        forall|k2: int| 0 <= k2 < r1.len() ==> resp_matches(s, #[trigger] r1[k2]),
        forall|k2: int| 0 <= k2 < r2.len() ==> resp_matches(s, #[trigger] r2[k2]),
        forall|a: int, b: int|
            0 <= a < b < r1.len() ==> (#[trigger] r1[a]).id != (#[trigger] r1[b]).id,
        forall|a: int, b: int|
            0 <= a < b < r2.len() ==> (#[trigger] r2[a]).id != (#[trigger] r2[b]).id,
        forall|j: int|
            0 <= j < s.proposals@.len() ==> exists|k2: int|
                0 <= k2 < r1.len() && (#[trigger] r1[k2]).id == (#[trigger] s.proposals@[j]).id,
        forall|j: int|
            0 <= j < s.proposals@.len() ==> exists|k2: int|
                0 <= k2 < r2.len() && (#[trigger] r2[k2]).id == (#[trigger] s.proposals@[j]).id,
        r1.len() == s.proposals@.len(),
        r2.len() == s.proposals@.len(),
        response_order_ok(r1),
        response_order_ok(r2),
        response_tie_order_ok(s, r1),
        response_tie_order_ok(s, r2),
    ensures
        forall|j: int| 0 <= j < k ==> (#[trigger] r1[j]).id == r2[j].id,
    decreases k,
{
    if k > 0 {
        lemma_listing_prefix_equal(s, r1, r2, k - 1);
        let p = k - 1;
        if r1[p].id != r2[p].id {
            let x = r1[p];
            let y = r2[p];
            assert(resp_matches(s, x));
            assert(resp_matches(s, y));
            let j1 = s.proposal_index(x.id);
            assert(0 <= j1 < s.proposals@.len() && s.proposals@[j1].id == x.id);
            let j2 = s.proposal_index(y.id);
            assert(0 <= j2 < s.proposals@.len() && s.proposals@[j2].id == y.id);

            // The id of `x` stands somewhere in `r2`; it cannot stand
            // before position `p`, where the listings already agree.
            assert(s.proposals@[j1].id == x.id);
            let m = choose|m: int|
                0 <= m < r2.len() && (#[trigger] r2[m]).id == s.proposals@[j1].id;
            assert(r2[m].id == x.id);
            if m < p {
                assert(r1[m].id == r2[m].id);
                assert(r1[m].id != r1[p].id);
                assert(false);
            }
            assert(m > p);
            assert(resp_matches(s, r2[m]));
            assert(response_like(r2[m], s.spec_proposal(r2[m].id)));
            assert(response_like(x, s.spec_proposal(x.id)));
            assert(r2[m].created_at == x.created_at);
            assert(y.created_at >= r2[m].created_at);
            assert(s.proposal_index(r2[m].id) == j1);
            if y.created_at == x.created_at {
                assert(s.proposal_index(y.id) < s.proposal_index(r2[m].id));
                assert(j2 < j1);
            }

            // Symmetrically, the id of `y` stands in `r1` only after
            // position `p`.
            assert(s.proposals@[j2].id == y.id);
            let m2 = choose|m2: int|
                0 <= m2 < r1.len() && (#[trigger] r1[m2]).id == s.proposals@[j2].id;
            assert(r1[m2].id == y.id);
            if m2 < p {
                assert(r1[m2].id == r2[m2].id);
                assert(r2[m2].id != r2[p].id);
                assert(false);
            }
            assert(m2 > p);
            assert(resp_matches(s, r1[m2]));
            assert(response_like(r1[m2], s.spec_proposal(r1[m2].id)));
            assert(response_like(y, s.spec_proposal(y.id)));
            assert(r1[m2].created_at == y.created_at);
            assert(x.created_at >= r1[m2].created_at);
            assert(s.proposal_index(r1[m2].id) == j2);
            if x.created_at == y.created_at {
                assert(s.proposal_index(x.id) < s.proposal_index(r1[m2].id));
                assert(j1 < j2);
            }

            // Each listing puts the other's entry strictly later: the
            // combined order is contradicted either way.
            assert(y.created_at >= x.created_at);
            assert(x.created_at >= y.created_at);
            assert(j1 < j2 && j2 < j1);
            assert(false);
        }
        assert forall|j: int| 0 <= j < k implies (#[trigger] r1[j]).id == r2[j].id by {
            if j < k - 1 {
            } else {
                assert(j == p);
            }
        }
    }
}

} // verus!
