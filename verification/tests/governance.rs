use heritage_gov::engine::{
    GovState, create_proposal, vote_on_proposal, change_vote, add_comment_to_proposal,
    get_vote_details,
};
use heritage_gov::execute::execute_proposal;
use heritage_gov::finalize::finalize_proposal_voting;
use heritage_gov::types::{
    ArtifactRecord, ArtifactStatus, AuditEventType, CreateProposalRequest, PrincipalId, Proposal,
    ProposalStatus, ProposalType, UrgencyLevel, User, UserPermissions, UserRole, UserStats,
    UserVerificationLevel, VerificationLevel, VoteRequest, VoteType, VotingResults,
};

const HOUR: u64 = 3_600_000_000_000;
const DAY: u64 = 24 * HOUR;
const PRS_SCALE: u64 = 4_294_967_296;

fn principal(n: u8) -> PrincipalId {
    PrincipalId(vec![n])
}

fn plain_user(weight: u32) -> User {
    User {
        role: UserRole::Community,
        reputation: 0,
        verified_at: None,
        institution: None,
        specialization: vec![],
        activity_stats: UserStats {
            artifacts_submitted: 0,
            proposals_created: 0,
            votes_cast: 0,
            successful_verifications: 0,
            peer_ratings: vec![],
            last_activity: 0,
        },
        verification_level: UserVerificationLevel::PeerVerified,
        permissions: UserPermissions {
            can_submit_artifacts: false,
            can_create_proposals: false,
            can_vote: true,
            can_verify_institutions: false,
            can_moderate: false,
            voting_weight: weight,
        },
    }
}

fn expert_user(weight: u32, specialization: Vec<String>) -> User {
    let mut u = plain_user(weight);
    u.role = UserRole::Expert;
    u.specialization = specialization;
    u
}

fn request(proposal_type: ProposalType, urgency: Option<UrgencyLevel>) -> CreateProposalRequest {
    CreateProposalRequest {
        proposal_type,
        artifact_id: None,
        title: "Verify the amphora".to_string(),
        description: "A proposal to verify the provenance of the amphora recovered last season."
            .to_string(),
        evidence: None,
        voting_duration_hours: 24,
        execution_payload: None,
        required_expertise: None,
        urgency_level: urgency,
        quorum_required: Some(50),
    }
}

fn vote_request(proposal_id: u64, vote_type: VoteType) -> VoteRequest {
    VoteRequest { proposal_id, vote_type, rationale: None, expertise_relevance: None }
}

#[test]
fn test_one_vote_per_principal() {
    let mut s = GovState::new();
    let alice = principal(1);
    let pid = create_proposal(&mut s, &alice, request(ProposalType::RequestExpertReview, None),
        1_000).unwrap();

    assert!(vote_on_proposal(&mut s, &alice, vote_request(pid, VoteType::For), 2_000).is_ok());
    let before_votes = s.votes.len();
    let before_for = s.get_proposal(pid).unwrap().voting_results.votes_for;
    let before_total = s.get_proposal(pid).unwrap().voting_results.total_votes;

    let second = vote_on_proposal(&mut s, &alice, vote_request(pid, VoteType::Against), 3_000);
    assert_eq!(second.unwrap_err(), "You have already voted on this proposal");
    assert_eq!(s.votes.len(), before_votes);
    assert_eq!(s.get_proposal(pid).unwrap().voting_results.votes_for, before_for);
    assert_eq!(s.get_proposal(pid).unwrap().voting_results.total_votes, before_total);
}

#[test]
fn test_weighted_score_bounds() {
    let mut s = GovState::new();
    let alice = principal(1);
    s.users.upsert(&principal(2), plain_user(3));
    s.users.upsert(&principal(3), plain_user(2));
    s.users.upsert(&principal(4), plain_user(1));
    let pid = create_proposal(&mut s, &alice, request(ProposalType::RequestExpertReview, None),
        1_000).unwrap();

    let (num0, den0) = s.get_proposal(pid).unwrap().voting_results.weighted_score_ratio();
    assert_eq!((num0, den0), (0, 0));

    vote_on_proposal(&mut s, &principal(2), vote_request(pid, VoteType::For), 2_000).unwrap();
    vote_on_proposal(&mut s, &principal(3), vote_request(pid, VoteType::Against), 2_100).unwrap();
    vote_on_proposal(&mut s, &principal(4), vote_request(pid, VoteType::Abstain), 2_200).unwrap();

    let (num, den) = s.get_proposal(pid).unwrap().voting_results.weighted_score_ratio();
    assert_eq!((num, den), (3, 6));
    assert!(num <= den);
}

#[test]
fn test_vote_change_conservation() {
    let mut s = GovState::new();
    let alice = principal(1);
    let bob = principal(2);
    s.users.upsert(&bob, plain_user(4));
    let pid = create_proposal(&mut s, &alice, request(ProposalType::RequestExpertReview, None),
        1_000).unwrap();

    vote_on_proposal(&mut s, &bob, vote_request(pid, VoteType::For), 2_000).unwrap();
    assert_eq!(s.get_proposal(pid).unwrap().voting_results.votes_for, 4);

    let outcome = change_vote(&mut s, &bob, pid, VoteType::Against, None, 3_000);
    assert_eq!(outcome.unwrap(), "Vote updated successfully");

    let p = s.get_proposal(pid).unwrap();
    assert_eq!(p.voting_results.votes_for, 0);
    assert_eq!(p.voting_results.votes_against, 4);
    assert_eq!(p.voting_results.total_votes, 1);
    let (num, den) = p.voting_results.weighted_score_ratio();
    assert_eq!((num, den), (0, 4));
}

#[test]
fn test_deadline_enforcement() {
    let mut s = GovState::new();
    let alice = principal(1);
    let pid = create_proposal(&mut s, &alice, request(ProposalType::RequestExpertReview, None),
        1_000).unwrap();
    let deadline = s.get_proposal(pid).unwrap().voting_deadline;
    assert_eq!(deadline, 1_000 + 24 * HOUR);

    let too_late = vote_on_proposal(&mut s, &principal(2), vote_request(pid, VoteType::For),
        deadline + 1);
    assert_eq!(too_late.unwrap_err(), "Voting period has ended");

    let pid2 = create_proposal(&mut s, &alice, request(ProposalType::RequestExpertReview,
        Some(UrgencyLevel::Emergency)), 1_000).unwrap();
    let deadline2 = s.get_proposal(pid2).unwrap().voting_deadline;
    let in_grace = vote_on_proposal(&mut s, &principal(2), vote_request(pid2, VoteType::For),
        deadline2 + 1);
    assert!(in_grace.is_ok());
    let beyond_grace = vote_on_proposal(&mut s, &principal(3), vote_request(pid2, VoteType::For),
        deadline2 + 2 * HOUR + 1);
    assert_eq!(beyond_grace.unwrap_err(), "Voting period has ended");
}

#[test]
fn test_finalization_determinism() {
    let voters: Vec<PrincipalId> = (1u8..=10).map(principal).collect();
    let mut p = Proposal {
        id: 1,
        proposal_type: ProposalType::RequestExpertReview,
        artifact_id: None,
        proposer: principal(0),
        title: "Review".to_string(),
        description: "A review proposal used to check deterministic finalization.".to_string(),
        evidence: vec![],
        created_at: 0,
        voting_deadline: 100,
        execution_deadline: Some(100 + DAY),
        quorum_required: 50,
        status: ProposalStatus::Active,
        voting_results: VotingResults {
            total_votes: 10,
            votes_for: 7,
            votes_against: 3,
            abstentions: 0,
            voter_principals: voters,
            expert_consensus: None,
        },
        execution_payload: None,
        discussion_thread: vec![],
        required_expertise: vec![],
        urgency_level: UrgencyLevel::Normal,
    };
    finalize_proposal_voting(&mut p);
    assert_eq!(p.status, ProposalStatus::Passed);

    p.voting_results.total_votes = 0;
    p.voting_results.votes_for = 0;
    p.voting_results.votes_against = 0;
    p.voting_results.voter_principals = vec![];
    p.status = ProposalStatus::Active;
    finalize_proposal_voting(&mut p);
    assert_eq!(p.status, ProposalStatus::Expired);
}

#[test]
fn test_emergency_auto_finalize() {
    let mut s = GovState::new();
    let alice = principal(1);
    let pid = create_proposal(&mut s, &alice, request(ProposalType::EmergencyIntervention,
        Some(UrgencyLevel::Emergency)), 1_000).unwrap();

    vote_on_proposal(&mut s, &principal(2), vote_request(pid, VoteType::For), 2_000).unwrap();
    vote_on_proposal(&mut s, &principal(3), vote_request(pid, VoteType::For), 2_100).unwrap();
    assert_eq!(s.get_proposal(pid).unwrap().status, ProposalStatus::Active);

    vote_on_proposal(&mut s, &principal(4), vote_request(pid, VoteType::For), 2_200).unwrap();
    assert_eq!(s.get_proposal(pid).unwrap().status, ProposalStatus::Passed);
}

#[test]
fn test_execution_gating() {
    let mut s = GovState::new();
    let alice = principal(1);
    let pid = create_proposal(&mut s, &alice, request(ProposalType::RequestExpertReview, None),
        1_000).unwrap();

    let premature = execute_proposal(&mut s, &alice, pid, 2_000);
    assert_eq!(premature.unwrap_err(), "Proposal must be passed before execution");

    let pid2 = create_proposal(&mut s, &alice, request(ProposalType::RequestExpertReview,
        Some(UrgencyLevel::Emergency)), 1_000).unwrap();
    vote_on_proposal(&mut s, &principal(2), vote_request(pid2, VoteType::For), 2_000).unwrap();
    vote_on_proposal(&mut s, &principal(3), vote_request(pid2, VoteType::For), 2_100).unwrap();
    vote_on_proposal(&mut s, &principal(4), vote_request(pid2, VoteType::For), 2_200).unwrap();
    assert_eq!(s.get_proposal(pid2).unwrap().status, ProposalStatus::Passed);

    let execution_deadline = s.get_proposal(pid2).unwrap().execution_deadline.unwrap();
    let late = execute_proposal(&mut s, &alice, pid2, execution_deadline + 1);
    assert_eq!(late.unwrap_err(), "Proposal execution deadline has passed");
    assert_eq!(s.get_proposal(pid2).unwrap().status, ProposalStatus::Expired);
}

#[test]
fn test_execution_permission_and_effect() {
    let mut s = GovState::new();
    let alice = principal(1);
    s.put_artifact(ArtifactRecord {
        id: 9,
        status: ArtifactStatus::PendingVerification,
        verification_level: VerificationLevel::Unverified,
        updated_at: 0,
    });
    let mut req = request(ProposalType::VerifyArtifact, Some(UrgencyLevel::Emergency));
    req.artifact_id = Some(9);
    let pid = create_proposal(&mut s, &alice, req, 1_000).unwrap();
    vote_on_proposal(&mut s, &principal(2), vote_request(pid, VoteType::For), 2_000).unwrap();
    vote_on_proposal(&mut s, &principal(3), vote_request(pid, VoteType::For), 2_100).unwrap();
    vote_on_proposal(&mut s, &principal(4), vote_request(pid, VoteType::For), 2_200).unwrap();
    assert_eq!(s.get_proposal(pid).unwrap().status, ProposalStatus::Passed);

    let stranger = execute_proposal(&mut s, &principal(7), pid, 3_000);
    assert_eq!(
        stranger.unwrap_err(),
        "Only the proposer or a moderator can execute this proposal"
    );

    let done = execute_proposal(&mut s, &alice, pid, 3_000);
    assert_eq!(
        done.unwrap(),
        "Proposal executed successfully: Artifact 9 verified successfully"
    );
    assert_eq!(s.get_proposal(pid).unwrap().status, ProposalStatus::Executed);
    assert_eq!(s.artifacts[0].status, ArtifactStatus::Verified);
    assert_eq!(s.artifacts[0].verification_level, VerificationLevel::DaoVerified);
}

#[test]
fn test_execution_failure_records_status() {
    let mut s = GovState::new();
    let alice = principal(1);
    let pid = create_proposal(&mut s, &alice, request(ProposalType::VerifyArtifact,
        Some(UrgencyLevel::Emergency)), 1_000).unwrap();
    vote_on_proposal(&mut s, &principal(2), vote_request(pid, VoteType::For), 2_000).unwrap();
    vote_on_proposal(&mut s, &principal(3), vote_request(pid, VoteType::For), 2_100).unwrap();
    vote_on_proposal(&mut s, &principal(4), vote_request(pid, VoteType::For), 2_200).unwrap();

    let failed = execute_proposal(&mut s, &alice, pid, 3_000);
    assert_eq!(
        failed.unwrap_err(),
        "Proposal execution failed: No artifact ID specified in proposal"
    );
    assert_eq!(s.get_proposal(pid).unwrap().status, ProposalStatus::FailedExecution);
}

#[test]
fn test_idempotent_re_read() {
    let mut s = GovState::new();
    let alice = principal(1);
    create_proposal(&mut s, &alice, request(ProposalType::RequestExpertReview, None), 1_000)
        .unwrap();
    create_proposal(&mut s, &alice, request(ProposalType::VerifyArtifact, None), 5_000).unwrap();
    create_proposal(&mut s, &alice, request(ProposalType::GrantUserRole, None), 3_000).unwrap();

    let first = s.get_all_proposals();
    let second = s.get_all_proposals();
    assert_eq!(first.len(), 3);
    assert_eq!(first.len(), second.len());
    for (a, b) in first.iter().zip(second.iter()) {
        assert_eq!(a.id, b.id);
        assert_eq!(a.title, b.title);
        assert_eq!(a.created_at, b.created_at);
        assert_eq!(a.status, b.status);
        assert_eq!(a.votes_for, b.votes_for);
        assert_eq!(a.votes_against, b.votes_against);
    }
    for w in first.windows(2) {
        assert!(w[0].created_at >= w[1].created_at);
    }
    assert_eq!(first[0].created_at, 5_000);
    assert_eq!(first[2].created_at, 1_000);
}

#[test]
fn test_expertise_gate() {
    let mut s = GovState::new();
    let alice = principal(1);
    let mut req = request(ProposalType::RequestExpertReview, None);
    req.required_expertise = Some(vec!["Ceramics".to_string()]);
    let pid = create_proposal(&mut s, &alice, req, 1_000).unwrap();

    let layperson = vote_on_proposal(&mut s, &principal(2), vote_request(pid, VoteType::For),
        2_000);
    assert_eq!(
        layperson.unwrap_err(),
        "You don't have the required expertise to vote on this proposal"
    );

    s.users.upsert(&principal(3), expert_user(2, vec!["Medieval CERAMICS analysis".to_string()]));
    let expert = vote_on_proposal(&mut s, &principal(3), vote_request(pid, VoteType::For), 2_000);
    assert!(expert.is_ok());
}

#[test]
fn test_vote_request_validation() {
    let mut s = GovState::new();
    let alice = principal(1);
    let pid = create_proposal(&mut s, &alice, request(ProposalType::RequestExpertReview, None),
        1_000).unwrap();

    let mut short = vote_request(pid, VoteType::For);
    short.rationale = Some("too brief".to_string());
    assert_eq!(
        vote_on_proposal(&mut s, &principal(2), short, 2_000).unwrap_err(),
        "Vote rationale must be at least 10 characters if provided"
    );

    let mut long = vote_request(pid, VoteType::For);
    long.rationale = Some("r".repeat(1001));
    assert_eq!(
        vote_on_proposal(&mut s, &principal(2), long, 2_000).unwrap_err(),
        "Vote rationale too long (max 1000 characters)"
    );

    let mut excessive = vote_request(pid, VoteType::For);
    excessive.expertise_relevance = Some(101);
    assert_eq!(
        vote_on_proposal(&mut s, &principal(2), excessive, 2_000).unwrap_err(),
        "Expertise relevance cannot exceed 100%"
    );

    assert_eq!(
        vote_on_proposal(&mut s, &principal(2), vote_request(77, VoteType::For), 2_000)
            .unwrap_err(),
        "Proposal not found"
    );
}

#[test]
fn test_change_vote_errors() {
    let mut s = GovState::new();
    let alice = principal(1);
    let pid = create_proposal(&mut s, &alice, request(ProposalType::RequestExpertReview, None),
        1_000).unwrap();

    assert_eq!(
        change_vote(&mut s, &alice, 77, VoteType::For, None, 2_000).unwrap_err(),
        "Proposal not found"
    );
    assert_eq!(
        change_vote(&mut s, &alice, pid, VoteType::For, None, 2_000).unwrap_err(),
        "You haven't voted on this proposal yet"
    );
    let deadline = s.get_proposal(pid).unwrap().voting_deadline;
    assert_eq!(
        change_vote(&mut s, &alice, pid, VoteType::For, None, deadline + 1).unwrap_err(),
        "Cannot change vote after voting deadline"
    );
}

#[test]
fn test_vote_summary_message() {
    let mut s = GovState::new();
    let alice = principal(1);
    let bob = principal(2);
    s.users.upsert(&bob, plain_user(3));
    let pid = create_proposal(&mut s, &alice, request(ProposalType::RequestExpertReview, None),
        1_000).unwrap();
    let summary = vote_on_proposal(&mut s, &bob, vote_request(pid, VoteType::For), 2_000);
    assert_eq!(
        summary.unwrap(),
        "Vote recorded successfully! Current status: 1 votes total (3 for, 0 against)"
    );
}

#[test]
fn test_evidence_extension_on_demand() {
    let mut s = GovState::new();
    let alice = principal(1);
    let pid = create_proposal(&mut s, &alice, request(ProposalType::RequestExpertReview, None),
        1_000).unwrap();
    let deadline = s.get_proposal(pid).unwrap().voting_deadline;

    vote_on_proposal(&mut s, &principal(2),
        vote_request(pid, VoteType::RequiresMoreEvidence), 2_000).unwrap();
    assert_eq!(s.get_proposal(pid).unwrap().voting_deadline, deadline + DAY);
    assert_eq!(s.get_proposal(pid).unwrap().voting_results.abstentions, 1);
}

#[test]
fn test_expert_consensus_tracking() {
    let mut s = GovState::new();
    let alice = principal(1);
    s.users.upsert(&principal(2), expert_user(2, vec!["Ceramics".to_string()]));
    let pid = create_proposal(&mut s, &alice, request(ProposalType::RequestExpertReview, None),
        1_000).unwrap();

    let mut req = vote_request(pid, VoteType::For);
    req.expertise_relevance = Some(90);
    vote_on_proposal(&mut s, &principal(2), req, 2_000).unwrap();

    let consensus = s.get_proposal(pid).unwrap().voting_results.expert_consensus.unwrap();
    assert_eq!(consensus.expert_votes_for, 2);
    assert_eq!(consensus.expert_votes_against, 0);
    assert_eq!(consensus.peer_review_score, 45 * PRS_SCALE);
}

#[test]
fn test_early_finalize_on_strong_consensus() {
    let mut s = GovState::new();
    let alice = principal(1);
    for n in 2u8..=4 {
        s.users.upsert(&principal(n), expert_user(1, vec!["Ceramics".to_string()]));
    }
    let mut creq = request(ProposalType::RequestExpertReview, None);
    creq.quorum_required = Some(1);
    let pid = create_proposal(&mut s, &alice, creq, 1_000).unwrap();

    for (n, when) in [(2u8, 2_000u64), (3, 2_100)] {
        let mut req = vote_request(pid, VoteType::For);
        req.expertise_relevance = Some(100);
        vote_on_proposal(&mut s, &principal(n), req, when).unwrap();
        assert_eq!(s.get_proposal(pid).unwrap().status, ProposalStatus::Active);
    }

    let mut req = vote_request(pid, VoteType::For);
    req.expertise_relevance = Some(100);
    vote_on_proposal(&mut s, &principal(4), req, 2_200).unwrap();
    assert_eq!(s.get_proposal(pid).unwrap().status, ProposalStatus::Passed);
}

#[test]
fn test_create_proposal_validation() {
    let mut s = GovState::new();
    let alice = principal(1);

    let mut bad_title = request(ProposalType::RequestExpertReview, None);
    bad_title.title = "  ".to_string();
    assert_eq!(
        create_proposal(&mut s, &alice, bad_title, 1_000).unwrap_err(),
        "Proposal title cannot be empty"
    );

    let mut bad_description = request(ProposalType::RequestExpertReview, None);
    bad_description.description = "too short".to_string();
    assert_eq!(
        create_proposal(&mut s, &alice, bad_description, 1_000).unwrap_err(),
        "Proposal description too short (min 50 characters)"
    );

    let mut dangling = request(ProposalType::VerifyArtifact, None);
    dangling.artifact_id = Some(5);
    assert_eq!(
        create_proposal(&mut s, &alice, dangling, 1_000).unwrap_err(),
        "Referenced artifact does not exist"
    );
    assert_eq!(s.proposals.len(), 0);
}

#[test]
fn test_derived_quorum_from_eligible_voters() {
    let mut s = GovState::new();
    let alice = principal(1);
    for n in 10u8..20 {
        s.users.upsert(&principal(n), plain_user(1));
    }
    let mut req = request(ProposalType::EmergencyIntervention, None);
    req.quorum_required = None;
    let pid = create_proposal(&mut s, &alice, req, 1_000).unwrap();
    assert_eq!(s.get_proposal(pid).unwrap().quorum_required, 7);
}

#[test]
fn test_comments() {
    let mut s = GovState::new();
    let alice = principal(1);
    let pid = create_proposal(&mut s, &alice, request(ProposalType::RequestExpertReview, None),
        1_000).unwrap();

    let cid = add_comment_to_proposal(&mut s, &principal(2), pid,
        "Has anyone compared this with the museum records?".to_string(), None, 2_000).unwrap();
    assert_eq!(cid, 1);
    let p = s.get_proposal(pid).unwrap();
    assert_eq!(p.discussion_thread.len(), 1);
    assert_eq!(p.discussion_thread[0].endorsements, 0);

    assert_eq!(
        add_comment_to_proposal(&mut s, &principal(2), pid, "  ".to_string(), None, 2_100)
            .unwrap_err(),
        "Comment content cannot be empty"
    );
    assert_eq!(
        add_comment_to_proposal(&mut s, &principal(2), pid, "c".repeat(2001), None, 2_200)
            .unwrap_err(),
        "Comment too long (max 2000 characters)"
    );
    assert_eq!(
        add_comment_to_proposal(&mut s, &principal(2), 77, "A fine proposal indeed".to_string(),
            None, 2_300).unwrap_err(),
        "Proposal not found"
    );
}

#[test]
fn test_vote_details_permissions() {
    let mut s = GovState::new();
    let alice = principal(1);
    let bob = principal(2);
    s.users.upsert(&bob, plain_user(1));
    let pid = create_proposal(&mut s, &alice, request(ProposalType::RequestExpertReview, None),
        1_000).unwrap();

    assert_eq!(
        get_vote_details(&s, &principal(9), pid).unwrap_err(),
        "You don't have permission to view vote details"
    );
    assert_eq!(
        get_vote_details(&s, &bob, pid).unwrap_err(),
        "No votes found for this proposal"
    );

    vote_on_proposal(&mut s, &bob, vote_request(pid, VoteType::Against), 2_000).unwrap();
    let details = get_vote_details(&s, &bob, pid).unwrap();
    assert_eq!(details.len(), 1);
    assert_eq!(details[0].proposal_id, pid);
    assert_eq!(details[0].weight, 1);
    assert!(matches!(details[0].vote_type, VoteType::Against));
}

#[test]
fn test_audit_log_records() {
    let mut s = GovState::new();
    let alice = principal(1);
    let pid = create_proposal(&mut s, &alice, request(ProposalType::RequestExpertReview, None),
        1_000).unwrap();
    vote_on_proposal(&mut s, &principal(2), vote_request(pid, VoteType::For), 2_000).unwrap();

    assert_eq!(s.audit_log.len(), 2);
    assert!(matches!(s.audit_log[0].event_type, AuditEventType::ProposalCreation));
    assert_eq!(s.audit_log[0].details, "Created proposal: Verify the amphora");
    assert!(matches!(s.audit_log[1].event_type, AuditEventType::VoteCast));
    assert_eq!(s.audit_log[1].details, "Vote cast on proposal 1 with 50% expertise relevance");
    assert_eq!(s.audit_log[1].target_id, Some(pid));
    assert!(!s.audit_log[1].data_hash.is_empty());
}

#[test]
fn test_voting_updates_user_stats() {
    let mut s = GovState::new();
    let alice = principal(1);
    let bob = principal(2);
    s.users.upsert(&bob, plain_user(1));
    let pid = create_proposal(&mut s, &alice, request(ProposalType::RequestExpertReview, None),
        1_000).unwrap();

    let mut req = vote_request(pid, VoteType::For);
    req.expertise_relevance = Some(80);
    vote_on_proposal(&mut s, &bob, req, 2_000).unwrap();

    let user = s.users.get(&bob).unwrap();
    assert_eq!(user.reputation, 2);
    assert_eq!(user.activity_stats.votes_cast, 1);
    assert_eq!(user.activity_stats.last_activity, 2_000);
}

#[test]
fn test_emergency_rejects_unanimous_opposition() {
    let mut s = GovState::new();
    let alice = principal(1);
    let pid = create_proposal(&mut s, &alice, request(ProposalType::EmergencyIntervention,
        Some(UrgencyLevel::Emergency)), 1_000).unwrap();

    vote_on_proposal(&mut s, &principal(2), vote_request(pid, VoteType::Against), 2_000).unwrap();
    vote_on_proposal(&mut s, &principal(3), vote_request(pid, VoteType::Against), 2_100).unwrap();
    vote_on_proposal(&mut s, &principal(4), vote_request(pid, VoteType::Against), 2_200).unwrap();
    assert_eq!(s.get_proposal(pid).unwrap().status, ProposalStatus::Rejected);
}

#[test]
fn test_evidence_extension_repeats_per_crossing() {
    let mut s = GovState::new();
    let alice = principal(1);
    let pid = create_proposal(&mut s, &alice, request(ProposalType::RequestExpertReview, None),
        1_000).unwrap();
    let deadline = s.get_proposal(pid).unwrap().voting_deadline;

    vote_on_proposal(&mut s, &principal(2),
        vote_request(pid, VoteType::RequiresMoreEvidence), 2_000).unwrap();
    assert_eq!(s.get_proposal(pid).unwrap().voting_deadline, deadline + DAY);

    vote_on_proposal(&mut s, &principal(3),
        vote_request(pid, VoteType::RequiresMoreEvidence), 2_100).unwrap();
    assert_eq!(s.get_proposal(pid).unwrap().voting_deadline, deadline + 2 * DAY);
}

#[test]
fn test_plain_abstention_never_extends() {
    let mut s = GovState::new();
    let alice = principal(1);
    let pid = create_proposal(&mut s, &alice, request(ProposalType::RequestExpertReview, None),
        1_000).unwrap();
    let deadline = s.get_proposal(pid).unwrap().voting_deadline;

    vote_on_proposal(&mut s, &principal(2), vote_request(pid, VoteType::Abstain), 2_000).unwrap();
    assert_eq!(s.get_proposal(pid).unwrap().voting_deadline, deadline);
    assert_eq!(s.get_proposal(pid).unwrap().voting_results.abstentions, 1);
}

#[test]
fn test_change_between_abstention_kinds() {
    let mut s = GovState::new();
    let alice = principal(1);
    let bob = principal(2);
    s.users.upsert(&bob, plain_user(3));
    let pid = create_proposal(&mut s, &alice, request(ProposalType::RequestExpertReview, None),
        1_000).unwrap();

    vote_on_proposal(&mut s, &bob, vote_request(pid, VoteType::Abstain), 2_000).unwrap();
    assert_eq!(s.get_proposal(pid).unwrap().voting_results.abstentions, 3);

    change_vote(&mut s, &bob, pid, VoteType::RequiresMoreEvidence, None, 3_000).unwrap();
    let p = s.get_proposal(pid).unwrap();
    assert_eq!(p.voting_results.abstentions, 3);
    assert_eq!(p.voting_results.votes_for, 0);
    assert_eq!(p.voting_results.votes_against, 0);
    assert_eq!(p.voting_results.total_votes, 1);
}

#[test]
fn test_status_filtered_listings() {
    let mut s = GovState::new();
    let alice = principal(1);
    let active = create_proposal(&mut s, &alice,
        request(ProposalType::RequestExpertReview, None), 1_000).unwrap();
    let passed = create_proposal(&mut s, &alice, request(ProposalType::RequestExpertReview,
        Some(UrgencyLevel::Emergency)), 2_000).unwrap();
    vote_on_proposal(&mut s, &principal(2), vote_request(passed, VoteType::For), 3_000).unwrap();
    vote_on_proposal(&mut s, &principal(3), vote_request(passed, VoteType::For), 3_100).unwrap();
    vote_on_proposal(&mut s, &principal(4), vote_request(passed, VoteType::For), 3_200).unwrap();

    let active_list = s.get_active_proposals();
    assert_eq!(active_list.len(), 1);
    assert_eq!(active_list[0].id, active);

    let passed_list = s.get_proposals_by_status(ProposalStatus::Passed);
    assert_eq!(passed_list.len(), 1);
    assert_eq!(passed_list[0].id, passed);
    assert_eq!(passed_list[0].votes_for, 3);

    assert!(s.get_proposals_by_status(ProposalStatus::Rejected).is_empty());
}

#[test]
fn test_identity_comparison_is_by_bytes() {
    let a = principal(1);
    let b = principal(1);
    let c = principal(2);
    assert!(a.same_as(&b));
    assert!(!a.same_as(&c));
    assert!(!PrincipalId(vec![1, 0]).same_as(&a));
}

#[test]
fn test_whitespace_only_comment_is_rejected() {
    let mut s = GovState::new();
    let alice = principal(1);
    let pid = create_proposal(&mut s, &alice, request(ProposalType::RequestExpertReview, None),
        1_000).unwrap();
    assert_eq!(
        add_comment_to_proposal(&mut s, &alice, pid, "\u{000B}\u{00A0}\u{2028}".to_string(),
            None, 2_000).unwrap_err(),
        "Comment content cannot be empty"
    );
    assert_eq!(s.get_proposal(pid).unwrap().discussion_thread.len(), 0);
}
