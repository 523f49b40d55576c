//! The execution dispatcher: maps a passed proposal's type to its
//! effect on the artifact directory, applies the lazy-expiry rule at
//! the execution deadline, and records the terminal status.

use vstd::prelude::*;
use crate::types::{
    ArtifactRecord, ArtifactStatus, AuditEventType, AuditSeverity, PrincipalId, Proposal,
    ProposalStatus, ProposalType, VerificationLevel,
};
use crate::engine::GovState;
use crate::auth::{can_moderate, spec_can_moderate};
use crate::store::{
    AUDIT_ID_COUNTER, COMMENT_ID_COUNTER, PROPOSAL_ID_COUNTER, VOTE_ID_COUNTER,
};
use crate::audit::log_audit_event;
use crate::text::{push_str, u64_to_string, dec_str};

verus! {

/// An artifact record once a verification proposal executes: verified
/// at the platform's governance level.
pub open spec fn verify_applied(a: ArtifactRecord, now: u64) -> ArtifactRecord {
    ArtifactRecord {
        status: ArtifactStatus::Verified,
        verification_level: VerificationLevel::DaoVerified,
        updated_at: now,
        ..a
    }
}

/// An artifact record once a dispute proposal executes: marked
/// disputed, its verification level untouched.
pub open spec fn dispute_applied(a: ArtifactRecord, now: u64) -> ArtifactRecord {
    ArtifactRecord { status: ArtifactStatus::Disputed, updated_at: now, ..a }
}

/// Whether the dispatcher succeeds for a proposal type and artifact
/// reference: the two artifact effects need a referenced, existing
/// artifact; every other type reports success.
pub open spec fn dispatch_ok(s: GovState, pt: ProposalType, artifact_id: Option<u64>) -> bool {
    match pt {
        ProposalType::VerifyArtifact | ProposalType::DisputeArtifact => artifact_id matches Some(
            aid) && s.has_artifact(aid),
        _ => true,
    }
}

/// The message a successful dispatch reports.
pub open spec fn dispatch_result_text(pt: ProposalType, artifact_id: Option<u64>) -> Seq<char> {
    match pt {
        ProposalType::VerifyArtifact => "Artifact "@ + dec_str(artifact_id.unwrap() as nat)
            + " verified successfully"@,
        ProposalType::DisputeArtifact => "Artifact "@ + dec_str(artifact_id.unwrap() as nat)
            + " marked as disputed"@,
        ProposalType::UpdateArtifactStatus => "Artifact status updated"@,
        ProposalType::GrantUserRole => "User role granted"@,
        ProposalType::RevokeUserRole => "User role revoked"@,
        ProposalType::UpdateArtifactMetadata => "Artifact metadata updated"@,
        _ => "Proposal type requires manual execution"@,
    }
}

/// The complaint a failed dispatch reports.
pub open spec fn dispatch_error_text(artifact_id: Option<u64>) -> Seq<char> {
    if artifact_id is None {
        "No artifact ID specified in proposal"@
    } else {
        "Artifact not found"@
    }
}

/// Marks the referenced artifact verified at governance level. Fails
/// when no artifact is referenced or the reference is dangling.
fn execute_verify_artifact(s: &mut GovState, artifact_id: Option<u64>, now: u64) -> (r: Result<
    String, String>)
    requires
        old(s).wf(),
    ensures
        final(s).wf(),
        r is Ok <==> (artifact_id matches Some(aid) && old(s).has_artifact(aid)),
        r matches Ok(m) ==> m@ == dispatch_result_text(ProposalType::VerifyArtifact, artifact_id),
        r matches Err(e) ==> e@ == dispatch_error_text(artifact_id) && *final(s) == *old(s),
        r is Ok ==> final(s).artifacts@ == old(s).artifacts@.update(old(s).artifact_index(
            artifact_id.unwrap()), verify_applied(old(s).spec_artifact(artifact_id.unwrap()),
            now)),
        *final(s) == (GovState { artifacts: final(s).artifacts, ..*old(s) }),
{
    let aid = match artifact_id {
        Some(aid) => aid,
        None => {
            return Err("No artifact ID specified in proposal".to_owned());
        },
    };
    let idx = match s.find_artifact(aid) {
        Some(i) => i,
        None => {
            return Err("Artifact not found".to_owned());
        },
    };
    let ghost pre = *s;
    let slot = &mut s.artifacts[idx];
    slot.status = ArtifactStatus::Verified;
    slot.verification_level = VerificationLevel::DaoVerified;
    slot.updated_at = now;
    proof {
        assert forall|a: int, b: int|
            0 <= a < b < s.artifacts@.len() implies (#[trigger] s.artifacts@[a]).id
                != (#[trigger] s.artifacts@[b]).id by {
            assert(pre.artifacts@[a].id != pre.artifacts@[b].id);
        }
        assert(forall|j: int|
            0 <= j < s.proposals@.len() ==> s.tally_coherent(#[trigger] s.proposals@[j])
                == pre.tally_coherent(s.proposals@[j]));
        assert(s.artifacts@ =~= pre.artifacts@.update(idx as int, verify_applied(
            pre.spec_artifact(aid), now)));
    }
    let mut msg = String::new();
    push_str(&mut msg, "Artifact ");
    let aid_text = u64_to_string(aid);
    push_str(&mut msg, aid_text.as_str());
    push_str(&mut msg, " verified successfully");
    Ok(msg)
}

/// Marks the referenced artifact disputed. Fails when no artifact is
/// referenced or the reference is dangling.
fn execute_dispute_artifact(s: &mut GovState, artifact_id: Option<u64>, now: u64) -> (r: Result<
    String, String>)
    requires
        old(s).wf(),
    ensures
        final(s).wf(),
        r is Ok <==> (artifact_id matches Some(aid) && old(s).has_artifact(aid)),
        r matches Ok(m) ==> m@ == dispatch_result_text(ProposalType::DisputeArtifact, artifact_id),
        r matches Err(e) ==> e@ == dispatch_error_text(artifact_id) && *final(s) == *old(s),
        r is Ok ==> final(s).artifacts@ == old(s).artifacts@.update(old(s).artifact_index(
            artifact_id.unwrap()), dispute_applied(old(s).spec_artifact(artifact_id.unwrap()),
            now)),
        *final(s) == (GovState { artifacts: final(s).artifacts, ..*old(s) }),
{
    let aid = match artifact_id {
        Some(aid) => aid,
        None => {
            return Err("No artifact ID specified in proposal".to_owned());
        },
    };
    let idx = match s.find_artifact(aid) {
        Some(i) => i,
        None => {
            return Err("Artifact not found".to_owned());
        },
    };
    let ghost pre = *s;
    let slot = &mut s.artifacts[idx];
    slot.status = ArtifactStatus::Disputed;
    slot.updated_at = now;
    proof {
        assert forall|a: int, b: int|
            0 <= a < b < s.artifacts@.len() implies (#[trigger] s.artifacts@[a]).id
                != (#[trigger] s.artifacts@[b]).id by {
            assert(pre.artifacts@[a].id != pre.artifacts@[b].id);
        }
        assert(forall|j: int|
            0 <= j < s.proposals@.len() ==> s.tally_coherent(#[trigger] s.proposals@[j])
                == pre.tally_coherent(s.proposals@[j]));
        assert(s.artifacts@ =~= pre.artifacts@.update(idx as int, dispute_applied(
            pre.spec_artifact(aid), now)));
    }
    let mut msg = String::new();
    push_str(&mut msg, "Artifact ");
    let aid_text = u64_to_string(aid);
    push_str(&mut msg, aid_text.as_str());
    push_str(&mut msg, " marked as disputed");
    Ok(msg)
}

/// Payload-driven status updates are not carried out yet: the
/// dispatcher reports success without an effect.
fn execute_update_artifact_status() -> (r: Result<String, String>)
    ensures
        r matches Ok(m) && m@ == "Artifact status updated"@,
{
    Ok("Artifact status updated".to_owned())
}

/// Payload-driven role grants are not carried out yet: the dispatcher
/// reports success without an effect.
fn execute_grant_user_role() -> (r: Result<String, String>)
    ensures
        r matches Ok(m) && m@ == "User role granted"@,
{
    Ok("User role granted".to_owned())
}

/// Payload-driven role revocations are not carried out yet: the
/// dispatcher reports success without an effect.
fn execute_revoke_user_role() -> (r: Result<String, String>)
    ensures
        r matches Ok(m) && m@ == "User role revoked"@,
{
    Ok("User role revoked".to_owned())
}

/// Payload-driven metadata updates are not carried out yet: the
/// dispatcher reports success without an effect.
fn execute_update_artifact_metadata() -> (r: Result<String, String>)
    ensures
        r matches Ok(m) && m@ == "Artifact metadata updated"@,
{
    Ok("Artifact metadata updated".to_owned())
}

/// The reasons execution is refused outright, in the order they are
/// checked. A failing dispatch is not among them: it still moves the
/// proposal to its terminal status.
pub enum ExecuteFault {
    NotFound,
    NotPassed,
    DeadlineExceeded,
    PermissionDenied,
}

/// The complaint each execution fault is returned with.
pub open spec fn execute_fault_text(f: ExecuteFault) -> Seq<char> {
    match f {
        ExecuteFault::NotFound => "Proposal not found"@,
        ExecuteFault::NotPassed => "Proposal must be passed before execution"@,
        ExecuteFault::DeadlineExceeded => "Proposal execution deadline has passed"@,
        ExecuteFault::PermissionDenied =>
            "Only the proposer or a moderator can execute this proposal"@,
    }
}

/// The first reason execution is refused: a missing proposal, one not
/// passed, a missed execution deadline (which also expires the
/// proposal), or a caller who is neither the proposer nor a moderator.
pub open spec fn execute_fault(s: GovState, caller: Seq<u8>, proposal_id: u64, now: u64) ->
    Option<ExecuteFault> {
    if !s.has_proposal(proposal_id) {
        Some(ExecuteFault::NotFound)
    } else if s.spec_proposal(proposal_id).status != ProposalStatus::Passed {
        Some(ExecuteFault::NotPassed)
    } else if s.spec_proposal(proposal_id).execution_deadline matches Some(d) && now > d {
        Some(ExecuteFault::DeadlineExceeded)
    } else if !spec_can_moderate(s.users, caller) && s.spec_proposal(proposal_id).proposer.bytes()
        != caller {
        Some(ExecuteFault::PermissionDenied)
    } else {
        None
    }
}

/// Executes a passed proposal: dispatches its effect by type against
/// the artifact directory and records the terminal status, `Executed`
/// on success and `FailedExecution` on a failed dispatch. A proposal
/// past its execution deadline is expired on the spot, a side effect
/// the failing call still performs.
pub fn execute_proposal(s: &mut GovState, caller: &PrincipalId, proposal_id: u64, now: u64) -> (
    r: Result<String, String>)
    requires
        old(s).wf(),
        old(s).counters.value_of(AUDIT_ID_COUNTER) < u64::MAX,
    ensures
        final(s).wf(),
        r is Ok <==> (execute_fault(*old(s), caller.bytes(), proposal_id, now) is None
            && dispatch_ok(*old(s), old(s).spec_proposal(proposal_id).proposal_type, old(
        s).spec_proposal(proposal_id).artifact_id)),
        execute_fault(*old(s), caller.bytes(), proposal_id, now) matches Some(f) ==> ((
        r matches Err(e) && e@ == execute_fault_text(f)) && (f is DeadlineExceeded ==> final(
        s).proposals@ == old(s).proposals@.update(old(s).proposal_index(proposal_id), Proposal {
            status: ProposalStatus::Expired,
            ..old(s).spec_proposal(proposal_id)
        }) && *final(s) == (GovState { proposals: final(s).proposals, ..*old(s) })) && (!(
        f is DeadlineExceeded) ==> *final(s) == *old(s))),
        (execute_fault(*old(s), caller.bytes(), proposal_id, now) is None) ==> ({
            let idx = old(s).proposal_index(proposal_id);
            let old_p = old(s).spec_proposal(proposal_id);
            let pt = old_p.proposal_type;
            let aid = old_p.artifact_id;
            let p2 = final(s).proposals@[idx];
            &&& final(s).proposals@ == old(s).proposals@.update(idx, p2)
            &&& (dispatch_ok(*old(s), pt, aid) ==> {
                &&& p2 == (Proposal { status: ProposalStatus::Executed, ..old_p })
                &&& (r matches Ok(m) && m@ == "Proposal executed successfully: "@
                    + dispatch_result_text(pt, aid))
                &&& (pt == ProposalType::VerifyArtifact ==> final(s).artifacts@ == old(
                s).artifacts@.update(old(s).artifact_index(aid.unwrap()), verify_applied(old(
                s).spec_artifact(aid.unwrap()), now)))
                &&& (pt == ProposalType::DisputeArtifact ==> final(s).artifacts@ == old(
                s).artifacts@.update(old(s).artifact_index(aid.unwrap()), dispute_applied(old(
                s).spec_artifact(aid.unwrap()), now)))
                &&& (pt != ProposalType::VerifyArtifact && pt != ProposalType::DisputeArtifact
                    ==> final(s).artifacts == old(s).artifacts)
                &&& final(s).audit_log@.last().severity == AuditSeverity::Info
                &&& final(s).audit_log@.last().details@ == "Executed proposal "@ + dec_str(
                    proposal_id as nat) + ": "@ + dispatch_result_text(pt, aid)
            })
            &&& (!dispatch_ok(*old(s), pt, aid) ==> {
                &&& p2 == (Proposal { status: ProposalStatus::FailedExecution, ..old_p })
                &&& (r matches Err(e) && e@ == "Proposal execution failed: "@
                    + dispatch_error_text(aid))
                &&& final(s).artifacts == old(s).artifacts
                &&& final(s).audit_log@.last().severity == AuditSeverity::Warning
                &&& final(s).audit_log@.last().details@ == "Failed to execute proposal "@
                    + dec_str(proposal_id as nat) + ": "@ + dispatch_error_text(aid)
            })
            &&& final(s).audit_log@ == old(s).audit_log@.push(final(s).audit_log@.last())
            &&& final(s).audit_log@.last().event_type == AuditEventType::SystemMaintenance
            &&& final(s).audit_log@.last().target_id == Some(proposal_id)
            &&& final(s).counters.value_of(AUDIT_ID_COUNTER) == old(s).counters.value_of(
                AUDIT_ID_COUNTER) + 1
            &&& final(s).counters.value_of(PROPOSAL_ID_COUNTER) == old(s).counters.value_of(
                PROPOSAL_ID_COUNTER)
            &&& final(s).counters.value_of(VOTE_ID_COUNTER) == old(s).counters.value_of(
                VOTE_ID_COUNTER)
            &&& final(s).counters.value_of(COMMENT_ID_COUNTER) == old(s).counters.value_of(
                COMMENT_ID_COUNTER)
            &&& final(s).votes == old(s).votes
            &&& final(s).users == old(s).users
        }),
{
    let idx = match s.find_proposal(proposal_id) {
        Some(i) => i,
        None => {
            return Err("Proposal not found".to_owned());
        },
    };
    let ghost old_p = s.proposals@[idx as int];

    if !matches!(s.proposals[idx].status, ProposalStatus::Passed) {
        return Err("Proposal must be passed before execution".to_owned());
    }

    let expired = match s.proposals[idx].execution_deadline {
        Some(deadline) => now > deadline,
        None => false,
    };
    if expired {
        let ghost pre = *s;
        let pslot = &mut s.proposals[idx];
        pslot.status = ProposalStatus::Expired;
        proof {
            lemma_status_only_update(pre, *s, idx as int);
        }
        return Err("Proposal execution deadline has passed".to_owned());
    }

    let permitted = can_moderate(&s.users, caller) || s.proposals[idx].proposer.same_as(caller);
    if !permitted {
        return Err("Only the proposer or a moderator can execute this proposal".to_owned());
    }

    let proposal_type = s.proposals[idx].proposal_type;
    let artifact_id = s.proposals[idx].artifact_id;

    let execution_result: Result<String, String> = match proposal_type {
        ProposalType::VerifyArtifact => execute_verify_artifact(s, artifact_id, now),
        ProposalType::DisputeArtifact => execute_dispute_artifact(s, artifact_id, now),
        ProposalType::UpdateArtifactStatus => execute_update_artifact_status(),
        ProposalType::GrantUserRole => execute_grant_user_role(),
        ProposalType::RevokeUserRole => execute_revoke_user_role(),
        ProposalType::UpdateArtifactMetadata => execute_update_artifact_metadata(),
        _ => Ok("Proposal type requires manual execution".to_owned()),
    };

    match execution_result {
        Ok(result) => {
            let ghost pre = *s;
            let pslot = &mut s.proposals[idx];
            pslot.status = ProposalStatus::Executed;
            proof {
                lemma_status_only_update(pre, *s, idx as int);
            }
            let mut details = String::new();
            push_str(&mut details, "Executed proposal ");
            let pid_text = u64_to_string(proposal_id);
            push_str(&mut details, pid_text.as_str());
            push_str(&mut details, ": ");
            push_str(&mut details, result.as_str());
            log_audit_event(&mut s.audit_log, &mut s.counters,
                AuditEventType::SystemMaintenance, caller, Some(proposal_id), details,
                AuditSeverity::Info, now);
            let mut msg = String::new();
            push_str(&mut msg, "Proposal executed successfully: ");
            push_str(&mut msg, result.as_str());
            Ok(msg)
        },
        Err(error) => {
            let ghost pre = *s;
            let pslot = &mut s.proposals[idx];
            pslot.status = ProposalStatus::FailedExecution;
            proof {
                lemma_status_only_update(pre, *s, idx as int);
            }
            let mut details = String::new();
            push_str(&mut details, "Failed to execute proposal ");
            let pid_text = u64_to_string(proposal_id);
            push_str(&mut details, pid_text.as_str());
            push_str(&mut details, ": ");
            push_str(&mut details, error.as_str());
            log_audit_event(&mut s.audit_log, &mut s.counters,
                AuditEventType::SystemMaintenance, caller, Some(proposal_id), details,
                AuditSeverity::Warning, now);
            let mut msg = String::new();
            push_str(&mut msg, "Proposal execution failed: ");
            push_str(&mut msg, error.as_str());
            Err(msg)
        },
    }
}

/// A state whose proposal store changed only in one proposal's status
/// keeps the engine's invariant.
proof fn lemma_status_only_update(pre: GovState, post: GovState, idx: int)
    requires
        pre.wf(),
        0 <= idx < pre.proposals@.len(),
        post.proposals@ == pre.proposals@.update(idx, Proposal {
            status: post.proposals@[idx].status,
            ..pre.proposals@[idx]
        }),
        post == (GovState { proposals: post.proposals, ..pre }),
    ensures
        post.wf(),
{
    assert forall|a: int, b: int|
        0 <= a < b < post.proposals@.len() implies (#[trigger] post.proposals@[a]).id
            != (#[trigger] post.proposals@[b]).id by {
        assert(pre.proposals@[a].id == post.proposals@[a].id);
        assert(pre.proposals@[b].id == post.proposals@[b].id);
    }
    assert forall|i: int|
        0 <= i < post.proposals@.len() implies (#[trigger] post.proposals@[i]).id
            <= post.counters.value_of(PROPOSAL_ID_COUNTER)
            && post.proposals@[i].voting_results.wf() && post.tally_coherent(post.proposals@[i])
        by {
        assert(pre.proposals@[i].id == post.proposals@[i].id);
        assert(pre.proposals@[i].voting_results == post.proposals@[i].voting_results);
        assert(pre.tally_coherent(pre.proposals@[i]));
    }
}

} // verus!
