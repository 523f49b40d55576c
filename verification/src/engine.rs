//! The governance engine: the proposal store, the vote ledger, and the
//! public operations of the proposal lifecycle, each executing to
//! completion atomically over the in-memory state.

use vstd::prelude::*;
use crate::types::{
    ArtifactRecord, AuditEntry, AuditEventType, AuditSeverity, Comment, CreateProposalRequest,
    PrincipalId, Proposal, ProposalResponse, ProposalStatus, UrgencyLevel, Vote, VoteRequest,
    VoteType, VotingResults,
};
use crate::validate::{
    validate_proposal_title, validate_proposal_description, calculate_voting_deadline,
    calculate_quorum, title_ok, description_ok, title_error_text, description_error_text,
    quorum_percentage, NS_PER_HOUR, NS_PER_DAY,
};
use crate::auth::{
    UserDirectory, count_eligible_voters, eligible_count, with_proposal_recorded,
    with_vote_recorded, spec_has_required_expertise, has_required_expertise, get_voting_weight,
    spec_voting_weight, is_expert_or_institution, spec_is_expert_or_institution,
    spec_can_vote, spec_can_moderate, can_moderate,
};
use crate::tally::{
    bucket_sum, vote_count, has_vote, one_vote_per_voter, bucket, consensus_after, sat_add64,
    record_vote_in_results, update_expert_consensus, apply_vote_change,
};
use crate::finalize::{
    effective_deadline, compute_effective_deadline, emergency_status, checked_status,
    apply_emergency_shortcircuit, check_and_finalize_proposal,
};
use crate::text::{push_str, u64_to_string, dec_str};
use vstd::utf8::encode_utf8;
use crate::store::{
    IdCounters, get_next_id, PROPOSAL_ID_COUNTER, VOTE_ID_COUNTER, AUDIT_ID_COUNTER,
    COMMENT_ID_COUNTER,
};
use crate::audit::log_audit_event;

verus! {

/// The whole state the governance engine reads and writes: id
/// counters, the proposal store, the vote ledger, the participant
/// directory, the artifact directory, and the audit log.
pub struct GovState {
    pub counters: IdCounters,
    pub proposals: Vec<Proposal>,
    pub votes: Vec<Vote>,
    pub users: UserDirectory,
    pub artifacts: Vec<ArtifactRecord>,
    pub audit_log: Vec<AuditEntry>,
}

impl GovState {
    /// Whether a proposal with the given id is stored.
    pub open spec fn has_proposal(self, pid: u64) -> bool {
        exists|i: int| 0 <= i < self.proposals@.len() && (#[trigger] self.proposals@[i]).id == pid
    }

    /// The index of the proposal with the given id, when it is stored.
    pub open spec fn proposal_index(self, pid: u64) -> int {
        choose|i: int| 0 <= i < self.proposals@.len() && (#[trigger] self.proposals@[i]).id == pid
    }

    /// The stored proposal with the given id, when there is one.
    pub open spec fn spec_proposal(self, pid: u64) -> Proposal {
        self.proposals@[self.proposal_index(pid)]
    }

    /// Whether an artifact with the given id is in the directory.
    pub open spec fn has_artifact(self, aid: u64) -> bool {
        exists|i: int| 0 <= i < self.artifacts@.len() && (#[trigger] self.artifacts@[i]).id == aid
    }

    /// The index of the artifact with the given id, when it is there.
    pub open spec fn artifact_index(self, aid: u64) -> int {
        choose|i: int| 0 <= i < self.artifacts@.len() && (#[trigger] self.artifacts@[i]).id == aid
    }

    /// The artifact record with the given id, when there is one.
    pub open spec fn spec_artifact(self, aid: u64) -> ArtifactRecord {
        self.artifacts@[self.artifact_index(aid)]
    }

    /// No two stored proposals share an id.
    pub open spec fn proposal_ids_distinct(self) -> bool {
        forall|i: int, j: int|
            0 <= i < j < self.proposals@.len() ==> (#[trigger] self.proposals@[i]).id
                != (#[trigger] self.proposals@[j]).id
    }

    /// A proposal's tally agrees with the vote ledger: the counts and
    /// each bucket's weight sum are those of the proposal's ledger
    /// entries, and the recorded voters are the ledger's voters.
    pub open spec fn tally_coherent(self, p: Proposal) -> bool {
        &&& p.voting_results.total_votes == vote_count(self.votes@, p.id)
        &&& p.voting_results.votes_for == bucket_sum(self.votes@, p.id, 0)
        &&& p.voting_results.votes_against == bucket_sum(self.votes@, p.id, 1)
        &&& p.voting_results.abstentions == bucket_sum(self.votes@, p.id, 2)
        &&& forall|k: Seq<u8>|
            #![trigger p.voting_results.has_voter(k)]
            #![trigger has_vote(self.votes@, p.id, k)]
            p.voting_results.has_voter(k) <==> has_vote(self.votes@, p.id, k)
    }

    /// The engine's invariant: well-formed counters and directories,
    /// unique ids all bounded by their counters, one vote per proposal
    /// and voter, and every proposal's tally coherent with the ledger.
    pub open spec fn wf(self) -> bool {
        &&& self.counters.wf()
        &&& self.users.wf()
        &&& self.proposal_ids_distinct()
        &&& forall|i: int|
            0 <= i < self.proposals@.len() ==> (#[trigger] self.proposals@[i]).id
                <= self.counters.value_of(PROPOSAL_ID_COUNTER)
        &&& forall|i: int, j: int|
            0 <= i < j < self.artifacts@.len() ==> (#[trigger] self.artifacts@[i]).id
                != (#[trigger] self.artifacts@[j]).id
        &&& one_vote_per_voter(self.votes@)
        &&& forall|i: int, j: int|
            0 <= i < j < self.votes@.len() ==> (#[trigger] self.votes@[i]).id
                != (#[trigger] self.votes@[j]).id
        &&& forall|i: int|
            0 <= i < self.votes@.len() ==> (#[trigger] self.votes@[i]).id
                <= self.counters.value_of(VOTE_ID_COUNTER)
        &&& forall|i: int|
            0 <= i < self.votes@.len() ==> (#[trigger] self.votes@[i]).proposal_id
                <= self.counters.value_of(PROPOSAL_ID_COUNTER)
        &&& forall|i: int|
            0 <= i < self.proposals@.len() ==> (#[trigger] self.proposals@[i]).voting_results.wf()
        &&& forall|i: int|
            0 <= i < self.proposals@.len() ==> self.tally_coherent(#[trigger] self.proposals@[i])
    }

    /// A stored proposal found at `i` is the id's only occurrence.
    pub proof fn lemma_proposal_index_unique(self, i: int)
        requires
            self.proposal_ids_distinct(),
            0 <= i < self.proposals@.len(),
        ensures
            self.proposal_index(self.proposals@[i].id) == i,
            self.has_proposal(self.proposals@[i].id),
            self.spec_proposal(self.proposals@[i].id) == self.proposals@[i],
    {
        let pid = self.proposals@[i].id;
        assert(self.has_proposal(pid));
        let j = self.proposal_index(pid);
        if i < j {
            assert(self.proposals@[i].id != self.proposals@[j].id);
        } else if j < i {
            assert(self.proposals@[j].id != self.proposals@[i].id);
        }
    }

    /// An artifact record found at `i` is the id's only occurrence.
    pub proof fn lemma_artifact_index_unique(self, i: int)
        requires
            self.wf(),
            0 <= i < self.artifacts@.len(),
        ensures
            self.artifact_index(self.artifacts@[i].id) == i,
            self.has_artifact(self.artifacts@[i].id),
            self.spec_artifact(self.artifacts@[i].id) == self.artifacts@[i],
    {
        let aid = self.artifacts@[i].id;
        assert(self.has_artifact(aid));
        let j = self.artifact_index(aid);
        if i < j {
            assert(self.artifacts@[i].id != self.artifacts@[j].id);
        } else if j < i {
            assert(self.artifacts@[j].id != self.artifacts@[i].id);
        }
    }

    /// A fresh, empty governance state.
    pub fn new() -> (r: GovState)
        ensures
            r.wf(),
            r.proposals@.len() == 0,
            r.votes@.len() == 0,
            r.artifacts@.len() == 0,
            r.audit_log@.len() == 0,
            r.users.entries@.len() == 0,
            forall|k: u64| r.counters.value_of(k) == 0,
    {
        GovState {
            counters: IdCounters::new(),
            proposals: Vec::new(),
            votes: Vec::new(),
            users: UserDirectory::new(),
            artifacts: Vec::new(),
            audit_log: Vec::new(),
        }
    }

    /// Finds the position of a proposal in the store.
    pub(crate) fn find_proposal(&self, pid: u64) -> (r: Option<usize>)
        requires
            self.wf(),
        ensures
            r is Some <==> self.has_proposal(pid),
            r matches Some(i) ==> 0 <= i < self.proposals@.len() && self.proposals@[i as int].id
                == pid && self.proposal_index(pid) == i,
    {
        let n = self.proposals.len();
        let mut i: usize = 0;
        while i < n
            invariant
                self.wf(),
                n == self.proposals@.len(),
                0 <= i <= n,
                forall|j: int| 0 <= j < i ==> (#[trigger] self.proposals@[j]).id != pid,
            decreases n - i,
        {
            if self.proposals[i].id == pid {
                proof {
                    self.lemma_proposal_index_unique(i as int);
                }
                return Some(i);
            }
            i = i + 1;
        }
        None
    }

    /// Finds the position of an artifact in the directory.
    pub(crate) fn find_artifact(&self, aid: u64) -> (r: Option<usize>)
        requires
            self.wf(),
        ensures
            r is Some <==> self.has_artifact(aid),
            r matches Some(i) ==> 0 <= i < self.artifacts@.len() && self.artifacts@[i as int].id
                == aid && self.artifact_index(aid) == i,
    {
        let n = self.artifacts.len();
        let mut i: usize = 0;
        while i < n
            invariant
                self.wf(),
                n == self.artifacts@.len(),
                0 <= i <= n,
                forall|j: int| 0 <= j < i ==> (#[trigger] self.artifacts@[j]).id != aid,
            decreases n - i,
        {
            if self.artifacts[i].id == aid {
                proof {
                    self.lemma_artifact_index_unique(i as int);
                }
                return Some(i);
            }
            i = i + 1;
        }
        None
    }

    /// Seeds or replaces an artifact record in the directory. The
    /// registry's own lifecycle is outside the engine; the engine only
    /// needs the records the dispatcher reads and writes.
    pub fn put_artifact(&mut self, record: ArtifactRecord)
        requires
            old(self).wf(),
        ensures
            final(self).wf(),
            final(self).has_artifact(record.id),
            final(self).spec_artifact(record.id) == record,
            final(self).artifacts@ == if old(self).has_artifact(record.id) {
                old(self).artifacts@.update(old(self).artifact_index(record.id), record)
            } else {
                old(self).artifacts@.push(record)
            },
            final(self).proposals == old(self).proposals,
            final(self).votes == old(self).votes,
            final(self).users == old(self).users,
            final(self).audit_log == old(self).audit_log,
            final(self).counters == old(self).counters,
    {
        let n = self.artifacts.len();
        let mut i: usize = 0;
        while i < n
            invariant
                *self == *old(self),
                self.wf(),
                n == self.artifacts@.len(),
                0 <= i <= n,
                forall|j: int| 0 <= j < i ==> (#[trigger] self.artifacts@[j]).id != record.id,
            decreases n - i,
        {
            if self.artifacts[i].id == record.id {
                let ghost pre = *self;
                let slot = &mut self.artifacts[i];
                *slot = record;
                proof {
                    assert forall|a: int, b: int|
                        0 <= a < b < self.artifacts@.len() implies
                        (#[trigger] self.artifacts@[a]).id != (#[trigger] self.artifacts@[b]).id
                        by {
                        assert(pre.artifacts@[a].id != pre.artifacts@[b].id);
                    }
                    assert(forall|j: int|
                        0 <= j < self.proposals@.len() ==> self.tally_coherent(
                            #[trigger] self.proposals@[j]) == pre.tally_coherent(
                            self.proposals@[j]));
                    self.lemma_artifact_index_unique(i as int);
                }
                return;
            }
            i = i + 1;
        }
        let ghost pre = *self;
        self.artifacts.push(record);
        proof {
            let m = self.artifacts@.len() - 1;
            assert forall|a: int, b: int|
                0 <= a < b < self.artifacts@.len() implies (#[trigger] self.artifacts@[a]).id
                    != (#[trigger] self.artifacts@[b]).id by {
                if b < m {
                    assert(pre.artifacts@[a].id != pre.artifacts@[b].id);
                } else {
                    assert(pre.artifacts@[a].id != record.id);
                }
            }
            self.lemma_artifact_index_unique(m);
        }
    }

    /// Reads the stored proposal with the given id.
    pub fn get_proposal(&self, proposal_id: u64) -> (r: Result<&Proposal, String>)
        requires
            self.wf(),
        ensures
            r is Ok <==> self.has_proposal(proposal_id),
            r matches Ok(p) ==> *p == self.spec_proposal(proposal_id),
            r matches Err(e) ==> e@ == "Proposal not found"@,
    {
        match self.find_proposal(proposal_id) {
            Some(i) => Ok(&self.proposals[i]),
            None => Err("Proposal not found".to_owned()),
        }
    }
}

/// No ledger entry belongs to a proposal id none of them carries: its
/// counts and sums are zero and it has no voters.
proof fn lemma_fresh_pid_untouched(s: Seq<Vote>, pid: u64)
    requires
        forall|i: int| 0 <= i < s.len() ==> (#[trigger] s[i]).proposal_id != pid,
    ensures
        vote_count(s, pid) == 0,
        bucket_sum(s, pid, 0) == 0,
        bucket_sum(s, pid, 1) == 0,
        bucket_sum(s, pid, 2) == 0,
        forall|k: Seq<u8>| !has_vote(s, pid, k),
    decreases s.len(),
{
    if s.len() > 0 {
        assert(forall|i: int|
            0 <= i < s.drop_last().len() ==> (#[trigger] s.drop_last()[i]).proposal_id != pid);
        lemma_fresh_pid_untouched(s.drop_last(), pid);
    }
}

/// Creates a proposal: validates the title and the description,
/// requires a referenced artifact to exist, allocates the next
/// proposal id, derives the voting and execution deadlines and the
/// quorum, and stores the proposal as `Active` with an empty tally.
pub fn create_proposal(s: &mut GovState, caller: &PrincipalId, request: CreateProposalRequest,
    now: u64) -> (r: Result<u64, String>)
    requires
        old(s).wf(),
        old(s).counters.value_of(PROPOSAL_ID_COUNTER) < u64::MAX,
        old(s).counters.value_of(AUDIT_ID_COUNTER) < u64::MAX,
        now + request.voting_duration_hours * NS_PER_HOUR + NS_PER_DAY <= u64::MAX,
    ensures
        final(s).wf(),
        r is Ok <==> title_ok(request.title@) && description_ok(request.description@)
            && (request.artifact_id matches Some(aid) ==> old(s).has_artifact(aid)),
        !title_ok(request.title@) ==> (r matches Err(e) && e@ == title_error_text(request.title@) && *final(s) == *old(s)),
        title_ok(request.title@) && !description_ok(request.description@) ==> (
        r matches Err(e) && e@ == description_error_text(request.description@) && *final(s)
            == *old(s)),
        title_ok(request.title@) && description_ok(request.description@)
            && (request.artifact_id matches Some(aid) && !old(s).has_artifact(aid)) ==> (
        r matches Err(e) && e@ == "Referenced artifact does not exist"@ && *final(s) == *old(s)),
        r matches Ok(pid) ==> ({
            let p = final(s).proposals@.last();
            &&& pid == old(s).counters.value_of(PROPOSAL_ID_COUNTER) + 1
            &&& final(s).proposals@ == old(s).proposals@.push(p)
            &&& p.id == pid
            &&& p.proposal_type == request.proposal_type
            &&& p.artifact_id == request.artifact_id
            &&& p.proposer.bytes() == caller.bytes()
            &&& p.title == request.title
            &&& p.description == request.description
            &&& (match request.evidence {
                Some(ev) => p.evidence == ev,
                None => p.evidence@.len() == 0,
            })
            &&& p.created_at == now
            &&& p.voting_deadline == now + request.voting_duration_hours * NS_PER_HOUR
            &&& p.execution_deadline == Some((p.voting_deadline + NS_PER_DAY) as u64)
            &&& p.quorum_required == (match request.quorum_required {
                Some(q) => q as int,
                None => {
                    let eligible = if eligible_count(old(s).users.entries@) > u32::MAX {
                        u32::MAX as int
                    } else {
                        eligible_count(old(s).users.entries@) as int
                    };
                    eligible * quorum_percentage(request.proposal_type) / 100
                },
            })
            &&& p.status == ProposalStatus::Active
            &&& p.voting_results.total_votes == 0
            &&& p.voting_results.votes_for == 0
            &&& p.voting_results.votes_against == 0
            &&& p.voting_results.abstentions == 0
            &&& p.voting_results.voter_principals@.len() == 0
            &&& p.voting_results.expert_consensus is None
            &&& p.execution_payload == request.execution_payload
            &&& p.discussion_thread@.len() == 0
            &&& (match request.required_expertise {
                Some(tags) => p.required_expertise == tags,
                None => p.required_expertise@.len() == 0,
            })
            &&& p.urgency_level == (match request.urgency_level {
                Some(u) => u,
                None => UrgencyLevel::Normal,
            })
            &&& final(s).counters.value_of(PROPOSAL_ID_COUNTER) == old(s).counters.value_of(
                PROPOSAL_ID_COUNTER) + 1
            &&& final(s).counters.value_of(AUDIT_ID_COUNTER) == old(s).counters.value_of(
                AUDIT_ID_COUNTER) + 1
            &&& final(s).counters.value_of(VOTE_ID_COUNTER) == old(s).counters.value_of(
                VOTE_ID_COUNTER)
            &&& final(s).counters.value_of(COMMENT_ID_COUNTER) == old(s).counters.value_of(
                COMMENT_ID_COUNTER)
            &&& final(s).votes == old(s).votes
            &&& final(s).artifacts == old(s).artifacts
            &&& final(s).audit_log@ == old(s).audit_log@.push(final(s).audit_log@.last())
            &&& final(s).audit_log@.last().event_type == AuditEventType::ProposalCreation
            &&& final(s).audit_log@.last().target_id == Some(pid)
            &&& final(s).audit_log@.last().details@ == "Created proposal: "@ + request.title@
            &&& (old(s).users.has_user(caller.bytes()) ==> final(s).users.as_map() == old(
                s).users.as_map().insert(caller.bytes(), with_proposal_recorded(old(
                s).users.spec_user(caller.bytes()), now)))
            &&& (!old(s).users.has_user(caller.bytes()) ==> final(s).users == old(s).users)
        }),
{
    match validate_proposal_title(request.title.as_str()) {
        Ok(_) => (),
        Err(e) => {
            return Err(e);
        },
    }
    match validate_proposal_description(request.description.as_str()) {
        Ok(_) => (),
        Err(e) => {
            return Err(e);
        },
    }
    match request.artifact_id {
        Some(artifact_id) => {
            if s.find_artifact(artifact_id).is_none() {
                return Err("Referenced artifact does not exist".to_owned());
            }
        },
        None => (),
    }

    let proposal_id = get_next_id(&mut s.counters, PROPOSAL_ID_COUNTER);
    let voting_deadline = calculate_voting_deadline(now, request.voting_duration_hours);

    let total_eligible_voters = count_eligible_voters(&s.users);
    let quorum_required = match request.quorum_required {
        Some(q) => q,
        None => calculate_quorum(total_eligible_voters, &request.proposal_type),
    };

    let mut details = String::new();
    push_str(&mut details, "Created proposal: ");
    push_str(&mut details, request.title.as_str());

    let proposal = Proposal {
        id: proposal_id,
        proposal_type: request.proposal_type,
        artifact_id: request.artifact_id,
        proposer: caller.clone(),
        title: request.title,
        description: request.description,
        evidence: match request.evidence {
            Some(ev) => ev,
            None => Vec::new(),
        },
        created_at: now,
        voting_deadline,
        execution_deadline: Some(voting_deadline + NS_PER_DAY),
        quorum_required,
        status: ProposalStatus::Active,
        voting_results: VotingResults::new(),
        execution_payload: request.execution_payload,
        discussion_thread: Vec::new(),
        required_expertise: match request.required_expertise {
            Some(tags) => tags,
            None => Vec::new(),
        },
        urgency_level: match request.urgency_level {
            Some(u) => u,
            None => UrgencyLevel::Normal,
        },
    };

    let ghost mid = *s;
    s.proposals.push(proposal);
    proof {
        assert(forall|i: int|
            0 <= i < s.votes@.len() ==> (#[trigger] s.votes@[i]).proposal_id != proposal_id);
        lemma_fresh_pid_untouched(s.votes@, proposal_id);
        let m = s.proposals@.len() - 1;
        assert forall|a: int, b: int|
            0 <= a < b < s.proposals@.len() implies (#[trigger] s.proposals@[a]).id
                != (#[trigger] s.proposals@[b]).id by {
            if b < m {
                assert(mid.proposals@[a].id != mid.proposals@[b].id);
            } else {
                assert(mid.proposals@[a].id <= mid.counters.value_of(PROPOSAL_ID_COUNTER));
            }
        }
        assert(s.tally_coherent(s.proposals@[m]));
        assert(forall|i: int|
            0 <= i < m ==> s.tally_coherent(#[trigger] s.proposals@[i]) == mid.tally_coherent(
                s.proposals@[i]));
        assert(s.wf());
    }

    s.users.update_user_proposal_stats(caller, now);
    proof {
        let ghost mid2 = *s;
        assert(forall|i: int|
            0 <= i < s.proposals@.len() ==> s.tally_coherent(#[trigger] s.proposals@[i])
                == mid2.tally_coherent(s.proposals@[i]));
    }

    log_audit_event(&mut s.audit_log, &mut s.counters, AuditEventType::ProposalCreation, caller,
        Some(proposal_id), details, AuditSeverity::Info, now);
    proof {
        assert(forall|i: int|
            0 <= i < s.proposals@.len() ==> s.tally_coherent(#[trigger] s.proposals@[i]));
        assert(s.wf());
    }

    Ok(proposal_id)
}

/// The reasons a vote is refused, in the order they are checked.
pub enum VoteFault {
    RationaleTooShort,
    RationaleTooLong,
    NotFound,
    DeadlinePassed,
    AlreadyVoted,
    InsufficientExpertise,
    RelevanceTooHigh,
}

/// The complaint each vote fault is returned with.
pub open spec fn vote_fault_text(f: VoteFault) -> Seq<char> {
    match f {
        VoteFault::RationaleTooShort => "Vote rationale must be at least 10 characters if provided"@,
        VoteFault::RationaleTooLong => "Vote rationale too long (max 1000 characters)"@,
        VoteFault::NotFound => "Proposal not found"@,
        VoteFault::DeadlinePassed => "Voting period has ended"@,
        VoteFault::AlreadyVoted => "You have already voted on this proposal"@,
        VoteFault::InsufficientExpertise =>
            "You don't have the required expertise to vote on this proposal"@,
        VoteFault::RelevanceTooHigh => "Expertise relevance cannot exceed 100%"@,
    }
}

/// The expertise relevance a vote is recorded with: the submitted
/// value, or 50 when none was given.
pub open spec fn relevance_of(request: VoteRequest) -> u32 {
    match request.expertise_relevance {
        Some(r) => r,
        None => 50,
    }
}

/// The first reason the given vote request is refused on the given
/// state, if any: a bad rationale length, a missing proposal, a missed
/// effective deadline, a repeated vote, missing expertise, or an
/// out-of-range relevance.
pub open spec fn vote_fault(s: GovState, caller: Seq<u8>, request: VoteRequest, now: u64) ->
    Option<VoteFault> {
    let pid = request.proposal_id;
    if request.rationale matches Some(t) && encode_utf8(t@).len() < 10 {
        Some(VoteFault::RationaleTooShort)
    } else if request.rationale matches Some(t) && encode_utf8(t@).len() > 1000 {
        Some(VoteFault::RationaleTooLong)
    } else if !s.has_proposal(pid) {
        Some(VoteFault::NotFound)
    } else if now > effective_deadline(s.spec_proposal(pid)) {
        Some(VoteFault::DeadlinePassed)
    } else if s.spec_proposal(pid).voting_results.has_voter(caller) {
        Some(VoteFault::AlreadyVoted)
    } else if !spec_has_required_expertise(s.users, caller,
        s.spec_proposal(pid).required_expertise@.map_values(|t: String| t@)) {
        Some(VoteFault::InsufficientExpertise)
    } else if relevance_of(request) > 100 {
        Some(VoteFault::RelevanceTooHigh)
    } else {
        None
    }
}

/// The tally summary a recorded vote is acknowledged with.
pub open spec fn vote_summary_text(total_votes: u32, votes_for: u64, votes_against: u64) ->
    Seq<char> {
    "Vote recorded successfully! Current status: "@ + dec_str(total_votes as nat)
        + " votes total ("@ + dec_str(votes_for as nat) + " for, "@ + dec_str(
        votes_against as nat) + " against)"@
}

/// Whether the tally records the caller among the voters.
fn results_contains_voter(vr: &VotingResults, caller: &PrincipalId) -> (r: bool)
    ensures
        r == vr.has_voter(caller.bytes()),
{
    let mut found = false;
    let n = vr.voter_principals.len();
    let mut i: usize = 0;
    while i < n
        invariant
            n == vr.voter_principals@.len(),
            0 <= i <= n,
            found == exists|j: int|
                0 <= j < i && (#[trigger] vr.voter_principals@[j]).bytes() == caller.bytes(),
        decreases n - i,
    {
        if vr.voter_principals[i].same_as(caller) {
            found = true;
        }
        i = i + 1;
    }
    found
}

/// Appending a ledger entry adds its weight and voter to its own
/// proposal's tally and leaves every other proposal's untouched.
proof fn lemma_ledger_push(votes: Seq<Vote>, v: Vote)
    ensures
        vote_count(votes.push(v), v.proposal_id) == vote_count(votes, v.proposal_id) + 1,
        forall|b: int|
            bucket_sum(votes.push(v), v.proposal_id, b) == bucket_sum(votes, v.proposal_id, b)
                + crate::tally::vote_share(v, v.proposal_id, b),
        forall|k: Seq<u8>|
            #[trigger] has_vote(votes.push(v), v.proposal_id, k) <==> (has_vote(votes,
                v.proposal_id, k) || k == v.voter.bytes()),
        forall|pid2: u64, b: int|
            pid2 != v.proposal_id ==> #[trigger] bucket_sum(votes.push(v), pid2, b) == bucket_sum(
                votes, pid2, b),
        forall|pid2: u64|
            pid2 != v.proposal_id ==> #[trigger] vote_count(votes.push(v), pid2) == vote_count(
                votes, pid2),
        forall|pid2: u64, k: Seq<u8>|
            pid2 != v.proposal_id ==> (#[trigger] has_vote(votes.push(v), pid2, k) == has_vote(
                votes, pid2, k)),
{
    let t = votes.push(v);
    assert(t.drop_last() =~= votes);
    assert(t.last() == v);
    assert forall|k: Seq<u8>| #[trigger] has_vote(t, v.proposal_id, k) implies (has_vote(votes,
        v.proposal_id, k) || k == v.voter.bytes()) by {
        let i = choose|i: int|
            0 <= i < t.len() && (#[trigger] t[i]).proposal_id == v.proposal_id && t[i].voter.bytes()
                == k;
        if i < votes.len() {
            assert(votes[i] == t[i]);
        }
    }
    assert forall|k: Seq<u8>| has_vote(votes, v.proposal_id, k) || k == v.voter.bytes() implies
        #[trigger] has_vote(t, v.proposal_id, k) by {
        if has_vote(votes, v.proposal_id, k) {
            let i = choose|i: int|
                0 <= i < votes.len() && (#[trigger] votes[i]).proposal_id == v.proposal_id
                    && votes[i].voter.bytes() == k;
            assert(t[i] == votes[i]);
        } else {
            assert(t[t.len() - 1] == v);
        }
    }
    assert forall|pid2: u64, k: Seq<u8>|
        pid2 != v.proposal_id implies (#[trigger] has_vote(t, pid2, k) == has_vote(votes, pid2,
        k)) by {
        if has_vote(t, pid2, k) {
            let i = choose|i: int|
                0 <= i < t.len() && (#[trigger] t[i]).proposal_id == pid2 && t[i].voter.bytes()
                    == k;
            assert(i < votes.len());
            assert(votes[i] == t[i]);
        }
        if has_vote(votes, pid2, k) {
            let i = choose|i: int|
                0 <= i < votes.len() && (#[trigger] votes[i]).proposal_id == pid2
                    && votes[i].voter.bytes() == k;
            assert(t[i] == votes[i]);
        }
    }
}

/// Casts a vote: validates the rationale, finds the proposal, holds
/// the vote against the effective deadline, refuses a second vote by
/// the same caller and a caller without the required expertise, then
/// records the vote at the caller's captured weight, folds it into the
/// tally and the expert consensus, applies the emergency
/// short-circuit, runs the finalization check, updates the voter's
/// stats, and acknowledges with a tally summary.
#[verifier::rlimit(60)]
pub fn vote_on_proposal(s: &mut GovState, caller: &PrincipalId, request: VoteRequest, now: u64)
    -> (r: Result<String, String>)
    requires
        old(s).wf(),
        old(s).counters.value_of(VOTE_ID_COUNTER) < u64::MAX,
        old(s).counters.value_of(AUDIT_ID_COUNTER) < u64::MAX,
        old(s).has_proposal(request.proposal_id) ==> old(s).spec_proposal(
            request.proposal_id).voting_results.total_votes < u32::MAX,
    ensures
        final(s).wf(),
        r is Ok <==> vote_fault(*old(s), caller.bytes(), request, now) is None,
        vote_fault(*old(s), caller.bytes(), request, now) matches Some(f) ==> (*final(s) == *old(
        s) && (r matches Err(e) && e@ == vote_fault_text(f))),
        (vote_fault(*old(s), caller.bytes(), request, now) is None) ==> ({
            let pid = request.proposal_id;
            let idx = old(s).proposal_index(pid);
            let old_p = old(s).spec_proposal(pid);
            let w = spec_voting_weight(old(s).users, caller.bytes());
            let rel = relevance_of(request);
            let expert = spec_is_expert_or_institution(old(s).users, caller.bytes());
            let v = final(s).votes@.last();
            let p2 = final(s).proposals@[idx];
            &&& final(s).votes@ == old(s).votes@.push(v)
            &&& v.id == old(s).counters.value_of(VOTE_ID_COUNTER) + 1
            &&& v.proposal_id == pid
            &&& v.voter.bytes() == caller.bytes()
            &&& v.vote_type == request.vote_type
            &&& v.weight == w
            &&& v.timestamp == now
            &&& v.rationale == request.rationale
            &&& v.expertise_relevance == rel
            &&& final(s).proposals@ == old(s).proposals@.update(idx, p2)
            &&& p2.voting_results.total_votes == old_p.voting_results.total_votes + 1
            &&& p2.voting_results.votes_for == old_p.voting_results.votes_for + if bucket(
                request.vote_type) == 0 {
                w as int
            } else {
                0
            }
            &&& p2.voting_results.votes_against == old_p.voting_results.votes_against + if bucket(
                request.vote_type) == 1 {
                w as int
            } else {
                0
            }
            &&& p2.voting_results.abstentions == old_p.voting_results.abstentions + if bucket(
                request.vote_type) == 2 {
                w as int
            } else {
                0
            }
            &&& p2.voting_results.voter_principals@.len() == old_p.voting_results.voter_principals@.len() + 1
            &&& p2.voting_results.voter_principals@.last().bytes() == caller.bytes()
            &&& p2.voting_results.expert_consensus == if expert {
                Some(consensus_after(old_p.voting_results.expert_consensus, request.vote_type, w,
                    rel))
            } else {
                old_p.voting_results.expert_consensus
            }
            &&& p2.voting_deadline == if request.vote_type == VoteType::RequiresMoreEvidence
                && p2.voting_results.abstentions > p2.voting_results.votes_for
                + p2.voting_results.votes_against {
                sat_add64(old_p.voting_deadline, NS_PER_DAY)
            } else {
                old_p.voting_deadline
            }
            &&& p2.status == checked_status(Proposal {
                status: emergency_status(Proposal {
                    voting_results: p2.voting_results,
                    voting_deadline: p2.voting_deadline,
                    ..old_p
                }),
                voting_results: p2.voting_results,
                voting_deadline: p2.voting_deadline,
                ..old_p
            }, now)
            &&& p2 == (Proposal {
                status: p2.status,
                voting_deadline: p2.voting_deadline,
                voting_results: p2.voting_results,
                ..old_p
            })
            &&& (r matches Ok(m) && m@ == vote_summary_text(p2.voting_results.total_votes,
                p2.voting_results.votes_for, p2.voting_results.votes_against))
            &&& final(s).counters.value_of(VOTE_ID_COUNTER) == old(s).counters.value_of(
                VOTE_ID_COUNTER) + 1
            &&& final(s).counters.value_of(AUDIT_ID_COUNTER) == old(s).counters.value_of(
                AUDIT_ID_COUNTER) + 1
            &&& final(s).counters.value_of(PROPOSAL_ID_COUNTER) == old(s).counters.value_of(
                PROPOSAL_ID_COUNTER)
            &&& final(s).counters.value_of(COMMENT_ID_COUNTER) == old(s).counters.value_of(
                COMMENT_ID_COUNTER)
            &&& final(s).artifacts == old(s).artifacts
            &&& final(s).audit_log@ == old(s).audit_log@.push(final(s).audit_log@.last())
            &&& final(s).audit_log@.last().event_type == AuditEventType::VoteCast
            &&& final(s).audit_log@.last().target_id == Some(pid)
            &&& (old(s).users.has_user(caller.bytes()) ==> final(s).users.as_map() == old(
                s).users.as_map().insert(caller.bytes(), with_vote_recorded(old(
                s).users.spec_user(caller.bytes()), rel, now)))
            &&& (!old(s).users.has_user(caller.bytes()) ==> final(s).users == old(s).users)
        }),
{
    match &request.rationale {
        Some(t) => {
            if t.as_str().as_bytes().len() < 10 {
                return Err("Vote rationale must be at least 10 characters if provided".to_owned());
            }
            if t.as_str().as_bytes().len() > 1000 {
                return Err("Vote rationale too long (max 1000 characters)".to_owned());
            }
        },
        None => (),
    }

    let idx = match s.find_proposal(request.proposal_id) {
        Some(i) => i,
        None => {
            return Err("Proposal not found".to_owned());
        },
    };
    let ghost old_p = s.proposals@[idx as int];

    let effective = compute_effective_deadline(&s.proposals[idx]);
    if now > effective {
        return Err("Voting period has ended".to_owned());
    }

    if results_contains_voter(&s.proposals[idx].voting_results, caller) {
        return Err("You have already voted on this proposal".to_owned());
    }

    if !has_required_expertise(&s.users, caller, &s.proposals[idx].required_expertise) {
        return Err("You don't have the required expertise to vote on this proposal".to_owned());
    }

    let expertise_relevance = match request.expertise_relevance {
        Some(r) => r,
        None => 50,
    };
    if expertise_relevance > 100 {
        return Err("Expertise relevance cannot exceed 100%".to_owned());
    }

    let vote_id = get_next_id(&mut s.counters, VOTE_ID_COUNTER);
    let voting_weight = get_voting_weight(&s.users, caller);
    let is_expert = is_expert_or_institution(&s.users, caller);
    let vote_type = request.vote_type;
    let pid = request.proposal_id;

    let vote = Vote {
        id: vote_id,
        proposal_id: pid,
        voter: caller.clone(),
        vote_type,
        weight: voting_weight,
        timestamp: now,
        rationale: request.rationale,
        expertise_relevance,
    };
    let ghost v = vote;
    let ghost pre_votes = s.votes@;
    s.votes.push(vote);
    proof {
        lemma_ledger_push(pre_votes, v);
    }

    record_vote_in_results(&mut s.proposals[idx], caller.clone(), vote_type, voting_weight);
    if is_expert {
        update_expert_consensus(&mut s.proposals[idx], &vote_type, voting_weight,
            expertise_relevance);
    }
    apply_emergency_shortcircuit(&mut s.proposals[idx]);
    check_and_finalize_proposal(&mut s.proposals[idx], now);

    let total_votes = s.proposals[idx].voting_results.total_votes;
    let votes_for = s.proposals[idx].voting_results.votes_for;
    let votes_against = s.proposals[idx].voting_results.votes_against;

    s.users.update_user_voting_stats(caller, expertise_relevance, now);

    let mut details = String::new();
    push_str(&mut details, "Vote cast on proposal ");
    let pid_text = u64_to_string(pid);
    push_str(&mut details, pid_text.as_str());
    push_str(&mut details, " with ");
    let rel_text = u64_to_string(expertise_relevance as u64);
    push_str(&mut details, rel_text.as_str());
    push_str(&mut details, "% expertise relevance");
    log_audit_event(&mut s.audit_log, &mut s.counters, AuditEventType::VoteCast, caller,
        Some(pid), details, AuditSeverity::Info, now);

    proof {
        let p2 = s.proposals@[idx as int];
        assert(s.proposals@ =~= old(s).proposals@.update(idx as int, p2));
        assert(p2.id == pid);
        assert forall|a: int, b: int|
            0 <= a < b < s.proposals@.len() implies (#[trigger] s.proposals@[a]).id
                != (#[trigger] s.proposals@[b]).id by {
            assert(old(s).proposals@[a].id == s.proposals@[a].id || a == idx as int);
            assert(old(s).proposals@[b].id == s.proposals@[b].id || b == idx as int);
        }
        assert(one_vote_per_voter(s.votes@)) by {
            assert forall|a: int, b: int|
                0 <= a < b < s.votes@.len() && (#[trigger] s.votes@[a]).proposal_id
                    == (#[trigger] s.votes@[b]).proposal_id implies s.votes@[a].voter.bytes()
                    != s.votes@[b].voter.bytes() by {
                if b == s.votes@.len() - 1 {
                    assert(s.votes@[b] == v);
                    if s.votes@[a].proposal_id == pid {
                        assert(has_vote(pre_votes, pid, s.votes@[a].voter.bytes())) by {
                            assert(pre_votes[a] == s.votes@[a]);
                        }
                        assert(old_p.voting_results.has_voter(s.votes@[a].voter.bytes()));
                    }
                } else {
                    assert(pre_votes[a] == s.votes@[a]);
                    assert(pre_votes[b] == s.votes@[b]);
                }
            }
        }
        assert forall|i: int|
            0 <= i < s.proposals@.len() implies (#[trigger] s.proposals@[i]).voting_results.wf()
                && s.tally_coherent(s.proposals@[i]) by {
            if i == idx as int {
                assert(p2.voting_results.total_votes == vote_count(s.votes@, pid));
                assert forall|k: Seq<u8>|
                    #![trigger p2.voting_results.has_voter(k)]
                    #![trigger has_vote(s.votes@, pid, k)]
                    p2.voting_results.has_voter(k) <==> has_vote(s.votes@, pid, k) by {
                    let vs = p2.voting_results.voter_principals@;
                    if p2.voting_results.has_voter(k) {
                        let j = choose|j: int| 0 <= j < vs.len() && (#[trigger] vs[j]).bytes()
                            == k;
                        if j < vs.len() - 1 {
                            assert(old_p.voting_results.voter_principals@[j] == vs[j]);
                            assert(old_p.voting_results.has_voter(k));
                        } else {
                            assert(k == caller.bytes());
                        }
                    }
                    if has_vote(s.votes@, pid, k) {
                        if has_vote(pre_votes, pid, k) {
                            assert(old_p.voting_results.has_voter(k));
                            let j = choose|j: int|
                                0 <= j < old_p.voting_results.voter_principals@.len()
                                    && (#[trigger] old_p.voting_results.voter_principals@[
                                j]).bytes() == k;
                            assert(vs[j] == old_p.voting_results.voter_principals@[j]);
                        } else {
                            assert(k == v.voter.bytes());
                            assert(vs.last().bytes() == caller.bytes());
                        }
                    }
                }
            } else {
                let p_other = s.proposals@[i];
                assert(p_other == old(s).proposals@[i]);
                assert(p_other.id != pid);
                assert(old(s).tally_coherent(p_other));
            }
        }
        assert(s.wf());
    }

    let mut msg = String::new();
    push_str(&mut msg, "Vote recorded successfully! Current status: ");
    let t_text = u64_to_string(total_votes as u64);
    push_str(&mut msg, t_text.as_str());
    push_str(&mut msg, " votes total (");
    let f_text = u64_to_string(votes_for);
    push_str(&mut msg, f_text.as_str());
    push_str(&mut msg, " for, ");
    let a_text = u64_to_string(votes_against);
    push_str(&mut msg, a_text.as_str());
    push_str(&mut msg, " against)");
    proof {
        assert(dec_str(total_votes as nat) == dec_str((total_votes as u64) as nat));
    }
    Ok(msg)
}

/// The reasons a vote change is refused, in the order they are
/// checked.
pub enum ChangeFault {
    NotFound,
    DeadlinePassed,
    NotYetVoted,
}

/// The complaint each vote-change fault is returned with.
pub open spec fn change_fault_text(f: ChangeFault) -> Seq<char> {
    match f {
        ChangeFault::NotFound => "Proposal not found"@,
        ChangeFault::DeadlinePassed => "Cannot change vote after voting deadline"@,
        ChangeFault::NotYetVoted => "You haven't voted on this proposal yet"@,
    }
}

/// The first reason a vote change is refused: a missing proposal, a
/// passed voting deadline (with no emergency grace, unlike casting), or
/// a caller who has not voted yet.
pub open spec fn change_fault(s: GovState, caller: Seq<u8>, proposal_id: u64, now: u64) ->
    Option<ChangeFault> {
    if !s.has_proposal(proposal_id) {
        Some(ChangeFault::NotFound)
    } else if now > s.spec_proposal(proposal_id).voting_deadline {
        Some(ChangeFault::DeadlinePassed)
    } else if !s.spec_proposal(proposal_id).voting_results.has_voter(caller) {
        Some(ChangeFault::NotYetVoted)
    } else {
        None
    }
}

/// The text a vote type is named with in audit records.
pub open spec fn vote_type_label_text(vt: VoteType) -> Seq<char> {
    match vt {
        VoteType::For => "For"@,
        VoteType::Against => "Against"@,
        VoteType::Abstain => "Abstain"@,
        VoteType::RequiresMoreEvidence => "RequiresMoreEvidence"@,
    }
}

/// Names a vote type for audit records.
fn vote_type_label(vt: &VoteType) -> (r: &'static str)
    ensures
        r@ == vote_type_label_text(*vt),
{
    match vt {
        VoteType::For => "For",
        VoteType::Against => "Against",
        VoteType::Abstain => "Abstain",
        VoteType::RequiresMoreEvidence => "RequiresMoreEvidence",
    }
}

/// Replacing a ledger entry with one of the same proposal and voter
/// moves its contribution between buckets and keeps every count, every
/// other sum, and the voter sets as they are.
proof fn lemma_ledger_update(votes: Seq<Vote>, kv: int, v2: Vote)
    requires
        0 <= kv < votes.len(),
        v2.proposal_id == votes[kv].proposal_id,
        v2.voter.bytes() == votes[kv].voter.bytes(),
    ensures
        forall|pid2: u64, b: int|
            #[trigger] bucket_sum(votes.update(kv, v2), pid2, b) + crate::tally::vote_share(
                votes[kv], pid2, b) == bucket_sum(votes, pid2, b) + crate::tally::vote_share(v2,
                pid2, b),
        forall|pid2: u64| #[trigger] vote_count(votes.update(kv, v2), pid2) == vote_count(votes,
            pid2),
        forall|pid2: u64, k: Seq<u8>|
            #[trigger] has_vote(votes.update(kv, v2), pid2, k) == has_vote(votes, pid2, k),
{
    let t = votes.update(kv, v2);
    assert forall|pid2: u64, b: int|
        #[trigger] bucket_sum(t, pid2, b) + crate::tally::vote_share(votes[kv], pid2, b)
            == bucket_sum(votes, pid2, b) + crate::tally::vote_share(v2, pid2, b) by {
        crate::tally::lemma_bucket_sum_update(votes, kv, v2, pid2, b);
    }
    assert forall|pid2: u64| #[trigger] vote_count(t, pid2) == vote_count(votes, pid2) by {
        crate::tally::lemma_bucket_sum_update(votes, kv, v2, pid2, 0);
    }
    assert forall|pid2: u64, k: Seq<u8>|
        #[trigger] has_vote(t, pid2, k) == has_vote(votes, pid2, k) by {
        if has_vote(t, pid2, k) {
            let i = choose|i: int|
                0 <= i < t.len() && (#[trigger] t[i]).proposal_id == pid2 && t[i].voter.bytes()
                    == k;
            if i == kv {
                assert(votes[kv].proposal_id == pid2 && votes[kv].voter.bytes() == k);
            } else {
                assert(votes[i] == t[i]);
            }
        }
        if has_vote(votes, pid2, k) {
            let i = choose|i: int|
                0 <= i < votes.len() && (#[trigger] votes[i]).proposal_id == pid2
                    && votes[i].voter.bytes() == k;
            if i == kv {
                assert(t[kv].proposal_id == pid2 && t[kv].voter.bytes() == k);
            } else {
                assert(t[i] == votes[i]);
            }
        }
    }
}

/// Changes the caller's standing vote on a proposal: the vote type,
/// rationale, and timestamp are replaced in place, the vote's stored
/// weight moves from the old bucket to the new one, and nothing else
/// of the tally moves; the expert consensus and finalization checks
/// are not re-run.
pub fn change_vote(s: &mut GovState, caller: &PrincipalId, proposal_id: u64,
    new_vote_type: VoteType, new_rationale: Option<String>, now: u64) -> (r: Result<String,
    String>)
    requires
        old(s).wf(),
        old(s).counters.value_of(AUDIT_ID_COUNTER) < u64::MAX,
    ensures
        final(s).wf(),
        r is Ok <==> change_fault(*old(s), caller.bytes(), proposal_id, now) is None,
        change_fault(*old(s), caller.bytes(), proposal_id, now) matches Some(f) ==> (*final(s)
            == *old(s) && (r matches Err(e) && e@ == change_fault_text(f))),
        (change_fault(*old(s), caller.bytes(), proposal_id, now) is None) ==> ({
            let idx = old(s).proposal_index(proposal_id);
            let old_p = old(s).spec_proposal(proposal_id);
            let kv = crate::tally::vote_index_of(old(s).votes@, proposal_id, caller.bytes());
            let v_old = old(s).votes@[kv];
            let w = v_old.weight;
            let p2 = final(s).proposals@[idx];
            &&& 0 <= kv < old(s).votes@.len()
            &&& final(s).votes@ == old(s).votes@.update(kv, Vote {
                vote_type: new_vote_type,
                rationale: new_rationale,
                timestamp: now,
                ..v_old
            })
            &&& final(s).proposals@ == old(s).proposals@.update(idx, p2)
            &&& p2.voting_results.votes_for == old_p.voting_results.votes_for - (if bucket(
                v_old.vote_type) == 0 {
                w as int
            } else {
                0
            }) + if bucket(new_vote_type) == 0 {
                w as int
            } else {
                0
            }
            &&& p2.voting_results.votes_against == old_p.voting_results.votes_against - (
            if bucket(v_old.vote_type) == 1 {
                w as int
            } else {
                0
            }) + if bucket(new_vote_type) == 1 {
                w as int
            } else {
                0
            }
            &&& p2.voting_results.abstentions == old_p.voting_results.abstentions - (if bucket(
                v_old.vote_type) == 2 {
                w as int
            } else {
                0
            }) + if bucket(new_vote_type) == 2 {
                w as int
            } else {
                0
            }
            &&& p2.voting_results.total_votes == old_p.voting_results.total_votes
            &&& p2.voting_results.weight_sum() == old_p.voting_results.weight_sum()
            &&& p2 == (Proposal {
                voting_results: (VotingResults {
                    votes_for: p2.voting_results.votes_for,
                    votes_against: p2.voting_results.votes_against,
                    abstentions: p2.voting_results.abstentions,
                    ..old_p.voting_results
                }),
                ..old_p
            })
            &&& (r matches Ok(m) && m@ == "Vote updated successfully"@)
            &&& final(s).counters.value_of(AUDIT_ID_COUNTER) == old(s).counters.value_of(
                AUDIT_ID_COUNTER) + 1
            &&& final(s).counters.value_of(VOTE_ID_COUNTER) == old(s).counters.value_of(
                VOTE_ID_COUNTER)
            &&& final(s).counters.value_of(PROPOSAL_ID_COUNTER) == old(s).counters.value_of(
                PROPOSAL_ID_COUNTER)
            &&& final(s).counters.value_of(COMMENT_ID_COUNTER) == old(s).counters.value_of(
                COMMENT_ID_COUNTER)
            &&& final(s).users == old(s).users
            &&& final(s).artifacts == old(s).artifacts
            &&& final(s).audit_log@ == old(s).audit_log@.push(final(s).audit_log@.last())
            &&& final(s).audit_log@.last().event_type == AuditEventType::VoteCast
            &&& final(s).audit_log@.last().target_id == Some(proposal_id)
            &&& final(s).audit_log@.last().details@ == "Vote changed from "@
                + vote_type_label_text(v_old.vote_type) + " to "@ + vote_type_label_text(
                new_vote_type) + " on proposal "@ + dec_str(proposal_id as nat)
        }),
{
    let idx = match s.find_proposal(proposal_id) {
        Some(i) => i,
        None => {
            return Err("Proposal not found".to_owned());
        },
    };
    let ghost old_p = s.proposals@[idx as int];

    if now > s.proposals[idx].voting_deadline {
        return Err("Cannot change vote after voting deadline".to_owned());
    }

    if !results_contains_voter(&s.proposals[idx].voting_results, caller) {
        return Err("You haven't voted on this proposal yet".to_owned());
    }
    proof {
        assert(has_vote(s.votes@, proposal_id, caller.bytes()));
    }

    let n = s.votes.len();
    let mut i: usize = 0;
    while i < n
        invariant
            *s == *old(s),
            s.wf(),
            old(s).counters.value_of(AUDIT_ID_COUNTER) < u64::MAX,
            n == s.votes@.len(),
            0 <= i <= n,
            0 <= idx < s.proposals@.len(),
            s.proposals@[idx as int].id == proposal_id,
            s.proposal_index(proposal_id) == idx,
            old_p == s.proposals@[idx as int],
            change_fault(*old(s), caller.bytes(), proposal_id, now) is None,
            exists|j: int|
                i <= j < s.votes@.len() && (#[trigger] s.votes@[j]).proposal_id == proposal_id
                    && s.votes@[j].voter.bytes() == caller.bytes(),
        decreases n - i,
    {
        let is_match = s.votes[i].proposal_id == proposal_id && s.votes[i].voter.same_as(caller);
        if is_match {
            let ghost kv = crate::tally::vote_index_of(s.votes@, proposal_id, caller.bytes());
            proof {
                let j = kv;
                assert(0 <= j < s.votes@.len() && s.votes@[j].proposal_id == proposal_id
                    && s.votes@[j].voter.bytes() == caller.bytes());
                if j < i as int {
                    assert(s.votes@[j].voter.bytes() != s.votes@[i as int].voter.bytes());
                } else if (i as int) < j {
                    assert(s.votes@[i as int].voter.bytes() != s.votes@[j].voter.bytes());
                }
                assert(kv == i as int);
            }
            let old_vote_type = s.votes[i].vote_type;
            let vote_weight = s.votes[i].weight;
            let ghost pre_votes = s.votes@;
            let vslot = &mut s.votes[i];
            vslot.vote_type = new_vote_type;
            vslot.rationale = new_rationale;
            vslot.timestamp = now;
            let ghost v2 = s.votes@[i as int];
            proof {
                lemma_ledger_update(pre_votes, i as int, v2);
                crate::tally::lemma_bucket_sum_lower(pre_votes, i as int, proposal_id,
                    bucket(old_vote_type));
            }

            apply_vote_change(&mut s.proposals[idx], &old_vote_type, &new_vote_type, vote_weight);

            let mut details = String::new();
            push_str(&mut details, "Vote changed from ");
            push_str(&mut details, vote_type_label(&old_vote_type));
            push_str(&mut details, " to ");
            push_str(&mut details, vote_type_label(&new_vote_type));
            push_str(&mut details, " on proposal ");
            let pid_text = u64_to_string(proposal_id);
            push_str(&mut details, pid_text.as_str());
            log_audit_event(&mut s.audit_log, &mut s.counters, AuditEventType::VoteCast, caller,
                Some(proposal_id), details, AuditSeverity::Info, now);

            proof {
                let p2 = s.proposals@[idx as int];
                assert(s.proposals@ =~= old(s).proposals@.update(idx as int, p2));
                assert(p2.id == proposal_id);
                assert forall|a: int, b: int|
                    0 <= a < b < s.proposals@.len() implies (#[trigger] s.proposals@[a]).id
                        != (#[trigger] s.proposals@[b]).id by {
                    assert(old(s).proposals@[a].id == s.proposals@[a].id || a == idx as int);
                    assert(old(s).proposals@[b].id == s.proposals@[b].id || b == idx as int);
                }
                assert(one_vote_per_voter(s.votes@)) by {
                    assert forall|a: int, b: int|
                        0 <= a < b < s.votes@.len() && (#[trigger] s.votes@[a]).proposal_id
                            == (#[trigger] s.votes@[b]).proposal_id implies
                        s.votes@[a].voter.bytes() != s.votes@[b].voter.bytes() by {
                        assert(pre_votes[a].proposal_id == s.votes@[a].proposal_id);
                        assert(pre_votes[a].voter.bytes() == s.votes@[a].voter.bytes());
                        assert(pre_votes[b].proposal_id == s.votes@[b].proposal_id);
                        assert(pre_votes[b].voter.bytes() == s.votes@[b].voter.bytes());
                    }
                }
                assert forall|j: int|
                    0 <= j < s.votes@.len() implies (#[trigger] s.votes@[j]).id
                        <= s.counters.value_of(VOTE_ID_COUNTER) && s.votes@[j].proposal_id
                        <= s.counters.value_of(PROPOSAL_ID_COUNTER) by {
                    assert(pre_votes[j].id == s.votes@[j].id);
                    assert(pre_votes[j].proposal_id == s.votes@[j].proposal_id);
                }
                assert forall|a: int, b: int|
                    0 <= a < b < s.votes@.len() implies (#[trigger] s.votes@[a]).id
                        != (#[trigger] s.votes@[b]).id by {
                    assert(pre_votes[a].id == s.votes@[a].id);
                    assert(pre_votes[b].id == s.votes@[b].id);
                }
                assert forall|j: int|
                    0 <= j < s.proposals@.len() implies (#[trigger] s.proposals@[
                j]).voting_results.wf() && s.tally_coherent(s.proposals@[j]) by {
                    if j == idx as int {
                        assert(p2.voting_results.votes_for == bucket_sum(s.votes@, proposal_id,
                            0));
                        assert(p2.voting_results.votes_against == bucket_sum(s.votes@,
                            proposal_id, 1));
                        assert(p2.voting_results.abstentions == bucket_sum(s.votes@, proposal_id,
                            2));
                        assert forall|k: Seq<u8>|
                            #![trigger p2.voting_results.has_voter(k)]
                            #![trigger has_vote(s.votes@, proposal_id, k)]
                            p2.voting_results.has_voter(k) <==> has_vote(s.votes@, proposal_id,
                            k) by {
                            assert(has_vote(s.votes@, proposal_id, k) == has_vote(pre_votes,
                                proposal_id, k));
                            assert(old_p.voting_results.has_voter(k) == p2.voting_results.has_voter(
                                k));
                        }
                    } else {
                        let p_other = s.proposals@[j];
                        assert(p_other == old(s).proposals@[j]);
                        assert(p_other.id != proposal_id);
                        assert(old(s).tally_coherent(p_other));
                    }
                }
                assert(s.wf());
            }
            return Ok("Vote updated successfully".to_owned());
        }
        proof {
            let j = choose|j: int|
                i <= j < s.votes@.len() && (#[trigger] s.votes@[j]).proposal_id == proposal_id
                    && s.votes@[j].voter.bytes() == caller.bytes();
            assert(j != i as int);
        }
        i = i + 1;
    }
    proof {
        assert(false);
    }
    Err("Vote not found".to_owned())
}

/// The reasons a comment is refused, in the order they are checked.
pub enum CommentFault {
    EmptyContent,
    ContentTooLong,
    NotFound,
}

/// The complaint each comment fault is returned with.
pub open spec fn comment_fault_text(f: CommentFault) -> Seq<char> {
    match f {
        CommentFault::EmptyContent => "Comment content cannot be empty"@,
        CommentFault::ContentTooLong => "Comment too long (max 2000 characters)"@,
        CommentFault::NotFound => "Proposal not found"@,
    }
}

/// The first reason a comment is refused: blank content, content over
/// 2,000 bytes, or a missing proposal.
pub open spec fn comment_fault(s: GovState, proposal_id: u64, content: Seq<char>) -> Option<
    CommentFault> {
    if crate::validate::is_blank(content) {
        Some(CommentFault::EmptyContent)
    } else if encode_utf8(content).len() > 2000 {
        Some(CommentFault::ContentTooLong)
    } else if !s.has_proposal(proposal_id) {
        Some(CommentFault::NotFound)
    } else {
        None
    }
}

/// Appends an immutable comment to a proposal's discussion thread,
/// allocating its id from the comment counter; its endorsement count
/// starts at zero.
pub fn add_comment_to_proposal(s: &mut GovState, caller: &PrincipalId, proposal_id: u64,
    content: String, reply_to: Option<u64>, now: u64) -> (r: Result<u64, String>)
    requires
        old(s).wf(),
        old(s).counters.value_of(COMMENT_ID_COUNTER) < u64::MAX,
    ensures
        final(s).wf(),
        r is Ok <==> comment_fault(*old(s), proposal_id, content@) is None,
        comment_fault(*old(s), proposal_id, content@) matches Some(f) ==> (*final(s) == *old(s)
            && (r matches Err(e) && e@ == comment_fault_text(f))),
        (comment_fault(*old(s), proposal_id, content@) is None) ==> ({
            let idx = old(s).proposal_index(proposal_id);
            let old_p = old(s).spec_proposal(proposal_id);
            let p2 = final(s).proposals@[idx];
            let c = p2.discussion_thread@.last();
            &&& (r matches Ok(cid) && cid == old(s).counters.value_of(COMMENT_ID_COUNTER) + 1
                && c.id == cid)
            &&& final(s).proposals@ == old(s).proposals@.update(idx, p2)
            &&& p2 == (Proposal { discussion_thread: p2.discussion_thread, ..old_p })
            &&& p2.discussion_thread@ == old_p.discussion_thread@.push(c)
            &&& c.author.bytes() == caller.bytes()
            &&& c.content == content
            &&& c.timestamp == now
            &&& c.reply_to == reply_to
            &&& c.endorsements == 0
            &&& final(s).counters.value_of(COMMENT_ID_COUNTER) == old(s).counters.value_of(
                COMMENT_ID_COUNTER) + 1
            &&& final(s).counters.value_of(PROPOSAL_ID_COUNTER) == old(s).counters.value_of(
                PROPOSAL_ID_COUNTER)
            &&& final(s).counters.value_of(VOTE_ID_COUNTER) == old(s).counters.value_of(
                VOTE_ID_COUNTER)
            &&& final(s).counters.value_of(AUDIT_ID_COUNTER) == old(s).counters.value_of(
                AUDIT_ID_COUNTER)
            &&& final(s).votes == old(s).votes
            &&& final(s).users == old(s).users
            &&& final(s).artifacts == old(s).artifacts
            &&& final(s).audit_log == old(s).audit_log
        }),
{
    if crate::validate::str_is_blank(content.as_str()) {
        return Err("Comment content cannot be empty".to_owned());
    }
    if content.as_str().as_bytes().len() > 2000 {
        return Err("Comment too long (max 2000 characters)".to_owned());
    }
    let idx = match s.find_proposal(proposal_id) {
        Some(i) => i,
        None => {
            return Err("Proposal not found".to_owned());
        },
    };
    let ghost old_p = s.proposals@[idx as int];

    let comment_id = get_next_id(&mut s.counters, COMMENT_ID_COUNTER);
    let comment = Comment {
        id: comment_id,
        author: caller.clone(),
        content,
        timestamp: now,
        reply_to,
        endorsements: 0,
    };
    let ghost mid = *s;
    let pslot = &mut s.proposals[idx];
    pslot.discussion_thread.push(comment);
    proof {
        let p2 = s.proposals@[idx as int];
        assert(s.proposals@ =~= old(s).proposals@.update(idx as int, p2));
        assert forall|a: int, b: int|
            0 <= a < b < s.proposals@.len() implies (#[trigger] s.proposals@[a]).id
                != (#[trigger] s.proposals@[b]).id by {
            assert(mid.proposals@[a].id == s.proposals@[a].id || a == idx as int);
            assert(mid.proposals@[b].id == s.proposals@[b].id || b == idx as int);
        }
        assert forall|i: int|
            0 <= i < s.proposals@.len() implies (#[trigger] s.proposals@[i]).id
                <= s.counters.value_of(PROPOSAL_ID_COUNTER) && s.proposals@[i].voting_results.wf()
                && s.tally_coherent(s.proposals@[i]) by {
            assert(mid.proposals@[i].id == s.proposals@[i].id);
            assert(mid.proposals@[i].voting_results == s.proposals@[i].voting_results);
            assert(mid.tally_coherent(mid.proposals@[i]));
            assert(mid.proposals@[i].id <= mid.counters.value_of(PROPOSAL_ID_COUNTER));
        }
        assert(s.wf());
    }
    Ok(comment_id)
}

/// The ledger entries of proposal `pid`, in ledger order.
pub open spec fn votes_for_proposal(s: Seq<Vote>, pid: u64) -> Seq<Vote>
    decreases s.len(),
{
    if s.len() == 0 {
        Seq::empty()
    } else if s.last().proposal_id == pid {
        votes_for_proposal(s.drop_last(), pid).push(s.last())
    } else {
        votes_for_proposal(s.drop_last(), pid)
    }
}

/// Hands back copies of every vote on a proposal, gated on the voting
/// or moderation capability; an empty result is reported as missing.
pub fn get_vote_details(s: &GovState, caller: &PrincipalId, proposal_id: u64) -> (r: Result<Vec<
    Vote>, String>)
    requires
        s.wf(),
    ensures
        !(spec_can_vote(s.users, caller.bytes()) || spec_can_moderate(s.users, caller.bytes()))
            ==> (r matches Err(e) && e@ == "You don't have permission to view vote details"@),
        (spec_can_vote(s.users, caller.bytes()) || spec_can_moderate(s.users, caller.bytes()))
            ==> ({
            let filtered = votes_for_proposal(s.votes@, proposal_id);
            &&& (r is Ok <==> filtered.len() > 0)
            &&& (filtered.len() == 0 ==> (r matches Err(e) && e@
                == "No votes found for this proposal"@))
            &&& (r matches Ok(vs) ==> vs@.len() == filtered.len() && (forall|i: int|
                0 <= i < vs@.len() ==> crate::types::vote_like(#[trigger] vs@[i], filtered[i])))
        }),
{
    let permitted = crate::auth::can_vote(&s.users, caller) || can_moderate(&s.users, caller);
    if !permitted {
        return Err("You don't have permission to view vote details".to_owned());
    }

    let mut votes: Vec<Vote> = Vec::new();
    let n = s.votes.len();
    let mut i: usize = 0;
    proof {
        assert(s.votes@.subrange(0, 0) =~= Seq::<Vote>::empty());
    }
    while i < n
        invariant
            s.wf(),
            n == s.votes@.len(),
            0 <= i <= n,
            votes@.len() == votes_for_proposal(s.votes@.subrange(0, i as int),
                proposal_id).len(),
            forall|j: int|
                0 <= j < votes@.len() ==> crate::types::vote_like(#[trigger] votes@[j],
                    votes_for_proposal(s.votes@.subrange(0, i as int), proposal_id)[j]),
        decreases n - i,
    {
        let ghost pre_sub = s.votes@.subrange(0, i as int);
        let ghost cur_sub = s.votes@.subrange(0, i as int + 1);
        proof {
            assert(cur_sub.drop_last() =~= pre_sub);
            assert(cur_sub.last() == s.votes@[i as int]);
        }
        if s.votes[i].proposal_id == proposal_id {
            votes.push(s.votes[i].clone());
        }
        i = i + 1;
    }
    proof {
        assert(s.votes@.subrange(0, n as int) =~= s.votes@);
    }

    if votes.len() == 0 {
        Err("No votes found for this proposal".to_owned())
    } else {
        Ok(votes)
    }
}

/// A response summary carries exactly its proposal's queryable
/// fields.
pub open spec fn response_like(r: ProposalResponse, p: Proposal) -> bool {
    &&& r.id == p.id
    &&& r.status == p.status
    &&& r.title@ == p.title@
    &&& r.voting_deadline == p.voting_deadline
    &&& r.artifact_id == p.artifact_id
    &&& r.description@ == p.description@
    &&& r.voters@.len() == p.voting_results.voter_principals@.len()
    &&& forall|i: int|
        0 <= i < r.voters@.len() ==> (#[trigger] r.voters@[i]).bytes()
            == p.voting_results.voter_principals@[i].bytes()
    &&& r.created_at == p.created_at
    &&& r.proposer.bytes() == p.proposer.bytes()
    &&& r.votes_for == p.voting_results.votes_for
    &&& crate::types::opt_text_like(r.execution_payload, p.execution_payload)
    &&& r.proposal_type == p.proposal_type
    &&& r.votes_against == p.voting_results.votes_against
}

/// A response that summarizes a proposal the state holds.
pub open spec fn resp_matches(s: GovState, r: ProposalResponse) -> bool {
    s.has_proposal(r.id) && response_like(r, s.spec_proposal(r.id))
}

/// Responses listed newest first: creation times never increase along
/// the listing.
pub open spec fn response_order_ok(rs: Seq<ProposalResponse>) -> bool {
    forall|a: int, b: int|
        0 <= a < b < rs.len() ==> (#[trigger] rs[a]).created_at >= (#[trigger] rs[b]).created_at
}

/// Among equal creation times the listing keeps the store's order, as
/// a stable sort does.
pub open spec fn response_tie_order_ok(s: GovState, rs: Seq<ProposalResponse>) -> bool {
    forall|a: int, b: int|
        0 <= a < b < rs.len() && rs[a].created_at == rs[b].created_at
            ==> #[trigger] s.proposal_index(rs[a].id) < #[trigger] s.proposal_index(rs[b].id)
}

/// Whether a status passes the given filter; no filter passes all.
pub open spec fn status_passes(filter: Option<ProposalStatus>, st: ProposalStatus) -> bool {
    match filter {
        Some(f) => st == f,
        None => true,
    }
}

/// Builds the response summary of a proposal.
fn make_response(p: &Proposal) -> (r: ProposalResponse)
    ensures
        response_like(r, *p),
{
    let mut voters: Vec<PrincipalId> = Vec::new();
    let n = p.voting_results.voter_principals.len();
    let mut i: usize = 0;
    while i < n
        invariant
            n == p.voting_results.voter_principals@.len(),
            0 <= i <= n,
            voters@.len() == i,
            forall|j: int|
                0 <= j < i ==> (#[trigger] voters@[j]).bytes()
                    == p.voting_results.voter_principals@[j].bytes(),
        decreases n - i,
    {
        voters.push(p.voting_results.voter_principals[i].clone());
        i = i + 1;
    }
    ProposalResponse {
        id: p.id,
        status: p.status,
        title: p.title.clone(),
        voting_deadline: p.voting_deadline,
        artifact_id: p.artifact_id,
        description: p.description.clone(),
        voters,
        created_at: p.created_at,
        proposer: p.proposer.clone(),
        votes_for: p.voting_results.votes_for,
        execution_payload: match &p.execution_payload {
            Some(t) => Some(t.clone()),
            None => None,
        },
        proposal_type: p.proposal_type,
        votes_against: p.voting_results.votes_against,
    }
}

/// Lists the proposals that pass the status filter, newest first: the
/// result summarizes exactly those proposals, each once, ordered by
/// creation time descending with the store's order breaking ties.
#[verifier::rlimit(100)]
fn list_proposals(s: &GovState, filter: Option<ProposalStatus>) -> (r: Vec<ProposalResponse>)
    requires
        s.wf(),
    ensures
        forall|k: int|
            0 <= k < r@.len() ==> resp_matches(*s, #[trigger] r@[k]) && status_passes(filter,
                r@[k].status),
        forall|a: int, b: int|
            0 <= a < b < r@.len() ==> (#[trigger] r@[a]).id != (#[trigger] r@[b]).id,
        forall|j: int|
            0 <= j < s.proposals@.len() && status_passes(filter,
                (#[trigger] s.proposals@[j]).status) ==> exists|k: int|
                0 <= k < r@.len() && (#[trigger] r@[k]).id == s.proposals@[j].id,
        response_order_ok(r@),
        response_tie_order_ok(*s, r@),
{
    let mut out: Vec<ProposalResponse> = Vec::new();
    let n = s.proposals.len();
    let mut i: usize = 0;
    while i < n
        invariant
            s.proposal_ids_distinct(),
            n == s.proposals@.len(),
            0 <= i <= n,
            forall|k: int|
                0 <= k < out@.len() ==> resp_matches(*s, #[trigger] out@[k]) && status_passes(
                    filter, out@[k].status) && 0 <= s.proposal_index(out@[k].id) < i,
            forall|a: int, b: int|
                0 <= a < b < out@.len() ==> (#[trigger] out@[a]).id != (#[trigger] out@[b]).id,
            forall|j: int|
                0 <= j < i && status_passes(filter, (#[trigger] s.proposals@[j]).status)
                    ==> exists|k: int|
                    0 <= k < out@.len() && (#[trigger] out@[k]).id == s.proposals@[j].id,
            response_order_ok(out@),
            response_tie_order_ok(*s, out@),
        decreases n - i,
    {
        let keep = match &filter {
            Some(f) => s.proposals[i].status == *f,
            None => true,
        };
        if keep {
            let resp = make_response(&s.proposals[i]);
            proof {
                s.lemma_proposal_index_unique(i as int);
            }
            let mut pos: usize = out.len();
            while pos > 0 && out[pos - 1].created_at < resp.created_at
                invariant
                    0 <= pos <= out@.len(),
                    forall|k: int|
                        pos <= k < out@.len() ==> (#[trigger] out@[k]).created_at
                            < resp.created_at,
                decreases pos,
            {
                pos = pos - 1;
            }
            let ghost pre_out = out@;
            out.insert(pos, resp);
            proof {
                lemma_insert_response(*s, pre_out, resp, pos as int, i as int, filter);
                lemma_insert_tie_order(*s, pre_out, resp, pos as int, i as int);
                assert(out@ == pre_out.insert(pos as int, resp));
            }
        }
        i = i + 1;
    }
    out
}

/// Inserting a fresh proposal's summary at the scanned position keeps
/// the listing's characterization: every entry summarizes a distinct
/// stored proposal passing the filter, every processed match is
/// listed, and the newest-first order stands.
#[verifier::rlimit(100)]
#[verifier::spinoff_prover]
proof fn lemma_insert_response(s: GovState, pre_out: Seq<ProposalResponse>,
    resp: ProposalResponse, pos: int, i: int, filter: Option<ProposalStatus>)
    requires
        s.proposal_ids_distinct(),
        0 <= i < s.proposals@.len(),
        0 <= pos <= pre_out.len(),
        resp_matches(s, resp),
        status_passes(filter, resp.status),
        s.proposal_index(resp.id) == i,
        resp.id == s.proposals@[i].id,
        forall|k: int|
            0 <= k < pre_out.len() ==> resp_matches(s, #[trigger] pre_out[k]) && status_passes(
                filter, pre_out[k].status) && 0 <= s.proposal_index(pre_out[k].id) < i,
        forall|a: int, b: int|
            0 <= a < b < pre_out.len() ==> (#[trigger] pre_out[a]).id != (#[trigger] pre_out[
            b]).id,
        forall|j: int|
            0 <= j < i && status_passes(filter, (#[trigger] s.proposals@[j]).status)
                ==> exists|k: int|
                0 <= k < pre_out.len() && (#[trigger] pre_out[k]).id == s.proposals@[j].id,
        response_order_ok(pre_out),
        forall|k: int|
            pos <= k < pre_out.len() ==> (#[trigger] pre_out[k]).created_at < resp.created_at,
        pos > 0 ==> !(pre_out[pos - 1].created_at < resp.created_at),
    ensures
        ({
            let out = pre_out.insert(pos, resp);
            &&& forall|k: int|
                0 <= k < out.len() ==> resp_matches(s, #[trigger] out[k]) && status_passes(
                    filter, out[k].status) && 0 <= s.proposal_index(out[k].id) < i + 1
            &&& forall|a: int, b: int|
                0 <= a < b < out.len() ==> (#[trigger] out[a]).id != (#[trigger] out[b]).id
            &&& forall|j: int|
                0 <= j < i + 1 && status_passes(filter, (#[trigger] s.proposals@[j]).status)
                    ==> exists|k: int|
                    0 <= k < out.len() && (#[trigger] out[k]).id == s.proposals@[j].id
            &&& response_order_ok(out)
        }),
{
    let out = pre_out.insert(pos, resp);
    assert(forall|k: int| 0 <= k < pos ==> #[trigger] out[k] == pre_out[k]);
    assert(out[pos] == resp);
    assert(forall|k: int| pos < k < out.len() ==> #[trigger] out[k] == pre_out[k - 1]);
    assert forall|a: int| 0 <= a < pos implies (#[trigger] pre_out[a]).created_at
        >= resp.created_at by {
        if a < pos - 1 {
            assert(pre_out[a].created_at >= pre_out[pos - 1].created_at);
        }
    }
    assert forall|a: int, b: int|
        0 <= a < b < out.len() implies (#[trigger] out[a]).created_at
            >= (#[trigger] out[b]).created_at by {
        if a == pos {
            assert(out[b] == pre_out[b - 1]);
        } else if b == pos {
            assert(out[a] == pre_out[a]);
        } else if a < pos && b > pos {
            assert(out[a] == pre_out[a]);
            assert(out[b] == pre_out[b - 1]);
        } else if b < pos {
            assert(out[a] == pre_out[a]);
            assert(out[b] == pre_out[b]);
        } else {
            assert(out[a] == pre_out[a - 1]);
            assert(out[b] == pre_out[b - 1]);
        }
    }
    assert forall|a: int, b: int|
        0 <= a < b < out.len() implies (#[trigger] out[a]).id != (#[trigger] out[b]).id by {
        if a == pos {
            assert(out[b] == pre_out[b - 1]);
            assert(s.proposal_index(pre_out[b - 1].id) < i);
        } else if b == pos {
            assert(out[a] == pre_out[a]);
            assert(s.proposal_index(pre_out[a].id) < i);
        } else if a < pos && b > pos {
            assert(out[a] == pre_out[a]);
            assert(out[b] == pre_out[b - 1]);
        } else if b < pos {
            assert(out[a] == pre_out[a]);
            assert(out[b] == pre_out[b]);
        } else {
            assert(out[a] == pre_out[a - 1]);
            assert(out[b] == pre_out[b - 1]);
        }
    }
    assert forall|j: int|
        0 <= j < i + 1 && status_passes(filter, (#[trigger] s.proposals@[j]).status) implies
        exists|k: int| 0 <= k < out.len() && (#[trigger] out[k]).id == s.proposals@[j].id by {
        if j < i {
            let k0 = choose|k0: int|
                0 <= k0 < pre_out.len() && (#[trigger] pre_out[k0]).id == s.proposals@[j].id;
            if k0 < pos {
                assert(out[k0].id == s.proposals@[j].id);
            } else {
                assert(out[k0 + 1].id == s.proposals@[j].id);
            }
        } else {
            assert(out[pos].id == s.proposals@[j].id);
        }
    }
}

/// Inserting the fresh summary at the scanned position keeps the
/// stable tie order: among equal creation times the store's order
/// stands.
#[verifier::spinoff_prover]
proof fn lemma_insert_tie_order(s: GovState, pre_out: Seq<ProposalResponse>,
    resp: ProposalResponse, pos: int, i: int)
    requires
        0 <= pos <= pre_out.len(),
        s.proposal_index(resp.id) == i,
        forall|k: int|
            0 <= k < pre_out.len() ==> 0 <= s.proposal_index((#[trigger] pre_out[k]).id) < i,
        response_tie_order_ok(s, pre_out),
        forall|k: int|
            pos <= k < pre_out.len() ==> (#[trigger] pre_out[k]).created_at < resp.created_at,
    ensures
        response_tie_order_ok(s, pre_out.insert(pos, resp)),
{
    let out = pre_out.insert(pos, resp);
    assert(forall|k: int| 0 <= k < pos ==> #[trigger] out[k] == pre_out[k]);
    assert(out[pos] == resp);
    assert(forall|k: int| pos < k < out.len() ==> #[trigger] out[k] == pre_out[k - 1]);
    assert forall|a: int, b: int|
        0 <= a < b < out.len() && out[a].created_at == out[b].created_at implies
        #[trigger] s.proposal_index(out[a].id) < #[trigger] s.proposal_index(out[b].id) by {
        if a == pos {
            assert(out[b] == pre_out[b - 1]);
            assert(pre_out[b - 1].created_at < resp.created_at);
        } else if b == pos {
            assert(out[a] == pre_out[a]);
            assert(s.proposal_index(pre_out[a].id) < i);
        } else if a < pos && b > pos {
            assert(out[a] == pre_out[a]);
            assert(out[b] == pre_out[b - 1]);
        } else if b < pos {
            assert(out[a] == pre_out[a]);
            assert(out[b] == pre_out[b]);
        } else {
            assert(out[a] == pre_out[a - 1]);
            assert(out[b] == pre_out[b - 1]);
        }
    }
}

impl GovState {
    /// Lists every proposal, newest first.
    pub fn get_all_proposals(&self) -> (r: Vec<ProposalResponse>)
        requires
            self.wf(),
        ensures
            forall|k: int| 0 <= k < r@.len() ==> resp_matches(*self, #[trigger] r@[k]),
            forall|a: int, b: int|
                0 <= a < b < r@.len() ==> (#[trigger] r@[a]).id != (#[trigger] r@[b]).id,
            forall|j: int|
                0 <= j < self.proposals@.len() ==> exists|k: int|
                    0 <= k < r@.len() && (#[trigger] r@[k]).id
                        == (#[trigger] self.proposals@[j]).id,
            r@.len() == self.proposals@.len(),
            response_order_ok(r@),
            response_tie_order_ok(*self, r@),
    {
        let r = list_proposals(self, None);
        proof {
            lemma_listing_len(*self, r@);
        }
        r
    }

    /// Lists the proposals still open for voting, newest first.
    pub fn get_active_proposals(&self) -> (r: Vec<ProposalResponse>)
        requires
            self.wf(),
        ensures
            forall|k: int|
                0 <= k < r@.len() ==> resp_matches(*self, #[trigger] r@[k]) && r@[k].status
                    == ProposalStatus::Active,
            forall|a: int, b: int|
                0 <= a < b < r@.len() ==> (#[trigger] r@[a]).id != (#[trigger] r@[b]).id,
            forall|j: int|
                0 <= j < self.proposals@.len() && (#[trigger] self.proposals@[j]).status
                    == ProposalStatus::Active ==> exists|k: int|
                    0 <= k < r@.len() && (#[trigger] r@[k]).id == self.proposals@[j].id,
            response_order_ok(r@),
            response_tie_order_ok(*self, r@),
    {
        list_proposals(self, Some(ProposalStatus::Active))
    }

    /// Lists the proposals in the given status, newest first.
    pub fn get_proposals_by_status(&self, status: ProposalStatus) -> (r: Vec<ProposalResponse>)
        requires
            self.wf(),
        ensures
            forall|k: int|
                0 <= k < r@.len() ==> resp_matches(*self, #[trigger] r@[k]) && r@[k].status
                    == status,
            forall|a: int, b: int|
                0 <= a < b < r@.len() ==> (#[trigger] r@[a]).id != (#[trigger] r@[b]).id,
            forall|j: int|
                0 <= j < self.proposals@.len() && (#[trigger] self.proposals@[j]).status == status
                    ==> exists|k: int|
                    0 <= k < r@.len() && (#[trigger] r@[k]).id == self.proposals@[j].id,
            response_order_ok(r@),
            response_tie_order_ok(*self, r@),
    {
        list_proposals(self, Some(status))
    }
}

/// An unfiltered listing that covers each stored proposal once has the
/// store's length.
proof fn lemma_listing_len(s: GovState, rs: Seq<ProposalResponse>)
    requires
        s.wf(),
        forall|k: int| 0 <= k < rs.len() ==> resp_matches(s, #[trigger] rs[k]),
        forall|a: int, b: int|
            0 <= a < b < rs.len() ==> (#[trigger] rs[a]).id != (#[trigger] rs[b]).id,
        forall|j: int|
            0 <= j < s.proposals@.len() ==> exists|k: int|
                0 <= k < rs.len() && (#[trigger] rs[k]).id == (#[trigger] s.proposals@[j]).id,
    ensures
        rs.len() == s.proposals@.len(),
{
    let to_index = Seq::new(rs.len(), |k: int| s.proposal_index(rs[k].id));
    let to_resp = Seq::new(s.proposals@.len(), |j: int|
        choose|k: int| 0 <= k < rs.len() && (#[trigger] rs[k]).id == s.proposals@[j].id);
    assert forall|k1: int, k2: int|
        0 <= k1 < rs.len() && 0 <= k2 < rs.len() && k1 != k2 implies to_index[k1] != to_index[k2]
        by {
        assert(resp_matches(s, rs[k1]));
        assert(resp_matches(s, rs[k2]));
        if k1 < k2 {
            assert(rs[k1].id != rs[k2].id);
        } else {
            assert(rs[k2].id != rs[k1].id);
        }
        assert(s.spec_proposal(rs[k1].id).id == rs[k1].id);
        assert(s.spec_proposal(rs[k2].id).id == rs[k2].id);
    }
    assert forall|j1: int, j2: int|
        0 <= j1 < s.proposals@.len() && 0 <= j2 < s.proposals@.len() && j1 != j2 implies
        to_resp[j1] != to_resp[j2] by {
        s.lemma_proposal_index_unique(j1);
        s.lemma_proposal_index_unique(j2);
        let k1 = to_resp[j1];
        let k2 = to_resp[j2];
        assert(rs[k1].id == s.proposals@[j1].id);
        assert(rs[k2].id == s.proposals@[j2].id);
        if j1 < j2 {
            assert(s.proposals@[j1].id != s.proposals@[j2].id);
        } else {
            assert(s.proposals@[j2].id != s.proposals@[j1].id);
        }
    }
    if rs.len() < s.proposals@.len() {
        lemma_injective_bound(to_resp, rs.len() as int);
        assert(false);
    }
    if rs.len() > s.proposals@.len() {
        lemma_injective_bound(to_index, s.proposals@.len() as int);
        assert(false);
    }
}

/// An injective sequence into `0..m` is no longer than `m`.
proof fn lemma_injective_bound(f: Seq<int>, m: int)
    requires
        0 <= m,
        forall|i: int| 0 <= i < f.len() ==> 0 <= #[trigger] f[i] < m,
        forall|i: int, j: int|
            0 <= i < f.len() && 0 <= j < f.len() && i != j ==> #[trigger] f[i] != #[trigger] f[j],
    ensures
        f.len() <= m,
    decreases m,
{
    if f.len() > m {
        if m == 0 {
            assert(0 <= f[0] && f[0] < m);
        } else if exists|i: int| 0 <= i < f.len() && #[trigger] f[i] == m - 1 {
            let i0 = choose|i: int| 0 <= i < f.len() && #[trigger] f[i] == m - 1;
            let g = f.remove(i0);
            assert forall|i: int| 0 <= i < g.len() implies 0 <= #[trigger] g[i] < m - 1 by {
                if i < i0 {
                    assert(g[i] == f[i]);
                    assert(f[i] != f[i0]);
                } else {
                    assert(g[i] == f[i + 1]);
                    assert(f[i + 1] != f[i0]);
                }
            }
            assert forall|i: int, j: int|
                0 <= i < g.len() && 0 <= j < g.len() && i != j implies #[trigger] g[i]
                    != #[trigger] g[j] by {
                let fi = if i < i0 { i } else { i + 1 };
                let fj = if j < i0 { j } else { j + 1 };
                assert(g[i] == f[fi]);
                assert(g[j] == f[fj]);
                assert(f[fi] != f[fj]);
            }
            lemma_injective_bound(g, m - 1);
        } else {
            assert forall|i: int| 0 <= i < f.len() implies 0 <= #[trigger] f[i] < m - 1 by {
                assert(0 <= f[i] && f[i] < m);
                if f[i] == m - 1 {
                    assert(exists|i2: int| 0 <= i2 < f.len() && #[trigger] f[i2] == m - 1);
                }
            }
            lemma_injective_bound(f, m - 1);
        }
    }
}

} // verus!
