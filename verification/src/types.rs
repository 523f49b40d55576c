//! Core data types of the governance engine: participant identity and
//! permission snapshots, proposals, votes, and their supporting enums.

use vstd::prelude::*;

verus! {

/// An opaque participant identity: the raw bytes of a platform principal.
/// Two identities are the same participant exactly when their bytes agree.
#[derive(Debug)]
pub struct PrincipalId(pub Vec<u8>);

impl PrincipalId {
    /// The mathematical value of an identity: its byte sequence.
    pub open spec fn bytes(&self) -> Seq<u8> {
        self.0@
    }

    /// Byte-for-byte identity comparison.
    pub fn same_as(&self, other: &PrincipalId) -> (r: bool)
        ensures
            r == (self.bytes() == other.bytes()),
    {
        let r = self.0 == other.0;
        proof {
            if r {
                assert(self.0@ =~= other.0@);
            }
        }
        r
    }
}

impl Clone for PrincipalId {
    fn clone(&self) -> (r: Self)
        ensures
            r.bytes() == self.bytes(),
    {
        let v = self.0.clone();
        proof {
            assert(v@ =~= self.0@);
        }
        PrincipalId(v)
    }
}

/// How a participant votes on a proposal.
#[derive(Clone, Copy, PartialEq, Eq, Structural, Debug)]
pub enum VoteType {
    For,
    Against,
    Abstain,
    RequiresMoreEvidence,
}

/// The closed set of governance actions a proposal may request.
#[derive(Clone, Copy, PartialEq, Eq, Structural, Debug)]
pub enum ProposalType {
    VerifyArtifact,
    DisputeArtifact,
    UpdateArtifactStatus,
    GrantUserRole,
    RevokeUserRole,
    UpdateArtifactMetadata,
    RequestAdditionalEvidence,
    ProposeConservationAction,
    RequestExpertReview,
    UpdateVerificationCriteria,
    EmergencyIntervention,
}

/// The lifecycle state of a proposal.
#[derive(Clone, Copy, PartialEq, Eq, Structural, Debug)]
pub enum ProposalStatus {
    Draft,
    Active,
    UnderReview,
    Passed,
    Rejected,
    Executed,
    FailedExecution,
    Expired,
    Withdrawn,
}

/// How urgent a proposal is; `Emergency` relaxes deadlines and enables
/// auto-finalization on near-unanimity.
#[derive(Clone, Copy, PartialEq, Eq, Structural, Debug)]
pub enum UrgencyLevel {
    Low,
    Normal,
    High,
    Emergency,
}

/// The role a registered participant holds on the platform.
#[derive(Clone, Copy, PartialEq, Eq, Structural, Debug)]
pub enum UserRole {
    Institution,
    Expert,
    Moderator,
    Community,
    Validator,
    Curator,
}

/// How far a participant's account has been verified.
#[derive(Clone, Copy, PartialEq, Eq, Structural, Debug)]
pub enum UserVerificationLevel {
    Unverified,
    EmailVerified,
    InstitutionVerified,
    PeerVerified,
    FullyVerified,
}

/// A participant's capability snapshot, resolved once per call.
#[derive(Clone, Copy, PartialEq, Eq, Structural, Debug)]
pub struct UserPermissions {
    pub can_submit_artifacts: bool,
    pub can_create_proposals: bool,
    pub can_vote: bool,
    pub can_verify_institutions: bool,
    pub can_moderate: bool,
    pub voting_weight: u32,
}

/// Running activity counters on a participant's record.
pub struct UserStats {
    pub artifacts_submitted: u32,
    pub proposals_created: u32,
    pub votes_cast: u32,
    pub successful_verifications: u32,
    pub peer_ratings: Vec<u32>,
    pub last_activity: u64,
}

/// A registered participant's record, as the governance engine reads it.
pub struct User {
    pub role: UserRole,
    pub reputation: u32,
    pub verified_at: Option<u64>,
    pub institution: Option<String>,
    pub specialization: Vec<String>,
    pub activity_stats: UserStats,
    pub verification_level: UserVerificationLevel,
    pub permissions: UserPermissions,
}

/// The status of an artifact in the registry directory.
#[derive(Clone, Copy, PartialEq, Eq, Structural, Debug)]
pub enum ArtifactStatus {
    PendingVerification,
    UnderReview,
    Verified,
    Disputed,
    Rejected,
    RequiresAdditionalEvidence,
    Archived,
}

/// How far an artifact's authenticity has been verified.
#[derive(Clone, Copy, PartialEq, Eq, Structural, Debug)]
pub enum VerificationLevel {
    Unverified,
    BasicVerification,
    PeerReviewed,
    DaoVerified,
    ScientificallyValidated,
}

/// The cultural importance attributed to an artifact.
#[derive(Clone, Copy, PartialEq, Eq, Structural, Debug)]
pub enum SignificanceLevel {
    Local,
    Regional,
    National,
    International,
    WorldHeritage,
}

/// Cultural context recorded with an artifact.
pub struct CulturalSignificance {
    pub historical_period: Option<String>,
    pub cultural_group: Option<String>,
    pub significance_level: SignificanceLevel,
    pub unesco_status: Option<String>,
    pub cultural_tags: Vec<String>,
}

/// Dating evidence recorded with an artifact.
pub struct DatingInformation {
    pub estimated_age: Option<u64>,
    pub dating_method: Vec<String>,
    pub confidence_level: u32,
    pub date_range_start: Option<i64>,
    pub date_range_end: Option<i64>,
}

/// The physical conservation state of an artifact.
#[derive(Clone, Copy, PartialEq, Eq, Structural, Debug)]
pub enum ConservationStatus {
    Excellent,
    Good,
    Fair,
    Poor,
    Fragmented,
    Restored,
    RequiresImmediateConservation,
}

/// The type of an institution registered on the platform.
#[derive(Clone, Copy, PartialEq, Eq, Structural, Debug)]
pub enum InstitutionType {
    Museum,
    University,
    ResearchInstitute,
    CulturalHeritageOrganization,
    GovernmentAgency,
    ArchaeologicalSociety,
    PrivateCollection,
}

/// Contact details for an institution.
pub struct ContactInfo {
    pub website: Option<String>,
    pub email_domain: Option<String>,
    pub address: Option<String>,
    pub phone: Option<String>,
}

/// Profile of an institution participant.
pub struct InstitutionProfile {
    pub name: String,
    pub institution_type: InstitutionType,
    pub country: String,
    pub accreditation: Vec<String>,
    pub contact_information: ContactInfo,
    pub specializations: Vec<String>,
    pub unesco_affiliation: bool,
}

/// Access rights attached to a heritage certificate.
pub struct AccessRights {
    pub can_view_detailed_metadata: bool,
    pub can_request_high_res_images: bool,
    pub can_access_research_data: bool,
    pub can_propose_studies: bool,
    pub special_permissions: Vec<String>,
}

/// The kind of event recorded by the audit sink.
#[derive(Clone, Copy, PartialEq, Eq, Structural, Debug)]
pub enum AuditEventType {
    UserRegistration,
    UserVerification,
    ArtifactSubmission,
    ArtifactVerification,
    ProposalCreation,
    VoteCast,
    NftIssued,
    DataModification,
    AccessGranted,
    SecurityEvent,
    SystemMaintenance,
}

/// How severe an audited event is.
#[derive(Clone, Copy, PartialEq, Eq, Structural, Debug)]
pub enum AuditSeverity {
    Info,
    Warning,
    Critical,
    SecurityAlert,
}

/// The largest weight a single vote can carry.
pub const MAX_VOTE_WEIGHT: u64 = 0xffff_ffff;

/// The fixed-point scale of the peer-review score: the score is kept in
/// units of 1/PRS_SCALE on the 0-100 scale.
pub const PRS_SCALE: u64 = 0x1_0000_0000;

/// A cast vote, mutated in place on a vote change, never deleted.
#[derive(Debug)]
pub struct Vote {
    pub id: u64,
    pub proposal_id: u64,
    pub voter: PrincipalId,
    pub vote_type: VoteType,
    pub weight: u32,
    pub timestamp: u64,
    pub rationale: Option<String>,
    pub expertise_relevance: u32,
}

/// Two optional texts agree in content.
pub open spec fn opt_text_like(a: Option<String>, b: Option<String>) -> bool {
    match (a, b) {
        (Some(x), Some(y)) => x@ == y@,
        (None, None) => true,
        _ => false,
    }
}

/// Two vote records agree in every observable field.
pub open spec fn vote_like(a: Vote, b: Vote) -> bool {
    &&& a.id == b.id
    &&& a.proposal_id == b.proposal_id
    &&& a.voter.bytes() == b.voter.bytes()
    &&& a.vote_type == b.vote_type
    &&& a.weight == b.weight
    &&& a.timestamp == b.timestamp
    &&& opt_text_like(a.rationale, b.rationale)
    &&& a.expertise_relevance == b.expertise_relevance
}

impl Clone for Vote {
    fn clone(&self) -> (r: Self)
        ensures
            vote_like(r, *self),
    {
        Vote {
            id: self.id,
            proposal_id: self.proposal_id,
            voter: self.voter.clone(),
            vote_type: self.vote_type,
            weight: self.weight,
            timestamp: self.timestamp,
            rationale: match &self.rationale {
                Some(t) => Some(t.clone()),
                None => None,
            },
            expertise_relevance: self.expertise_relevance,
        }
    }
}

/// An immutable entry in a proposal's discussion thread.
pub struct Comment {
    pub id: u64,
    pub author: PrincipalId,
    pub content: String,
    pub timestamp: u64,
    pub reply_to: Option<u64>,
    pub endorsements: u32,
}

/// The secondary tally restricted to expert and institution voters.
///
/// The peer-review score is a running average of the submitted
/// expertise-relevance values on the 0-100 scale, each update weighting
/// the newest sample at one half; it is kept in binary fixed point with
/// scale `PRS_SCALE`.
#[derive(Clone, Copy, PartialEq, Eq, Structural, Debug)]
pub struct ExpertConsensus {
    pub expert_votes_for: u64,
    pub expert_votes_against: u64,
    pub peer_review_score: u64,
}

impl ExpertConsensus {
    /// The expert-confidence ratio as an exact fraction: votes for over
    /// all weighted expert votes (zero over zero before any expert
    /// takes a side).
    pub open spec fn spec_confidence(self) -> (int, int) {
        (self.expert_votes_for as int, self.expert_votes_for + self.expert_votes_against)
    }

    /// Whether the expert confidence strictly exceeds four fifths.
    pub open spec fn confidence_above_four_fifths(self) -> bool {
        5 * self.expert_votes_for > 4 * (self.expert_votes_for + self.expert_votes_against)
    }
}

/// The running tally on a proposal. `votes_for`, `votes_against` and
/// `abstentions` are weight sums; `total_votes` counts distinct voters.
///
/// The weighted score is the exact fraction
/// `votes_for / (votes_for + votes_against + abstentions)` (zero when
/// the denominator is zero); see `weighted_score_ratio`.
pub struct VotingResults {
    pub total_votes: u32,
    pub votes_for: u64,
    pub votes_against: u64,
    pub abstentions: u64,
    pub voter_principals: Vec<PrincipalId>,
    pub expert_consensus: Option<ExpertConsensus>,
}

impl VotingResults {
    /// Whether `k` is recorded as having voted.
    pub open spec fn has_voter(self, k: Seq<u8>) -> bool {
        exists|i: int|
            0 <= i < self.voter_principals@.len() && #[trigger] self.voter_principals@[i].bytes()
                == k
    }

    /// The total weight cast on the proposal.
    pub open spec fn weight_sum(self) -> int {
        self.votes_for + self.votes_against + self.abstentions
    }

    /// Well-formed: the voter set has no duplicates and counts the
    /// voters, weight sums are bounded by the voter count, and the
    /// expert tally is bounded likewise.
    pub open spec fn wf(self) -> bool {
        &&& self.total_votes == self.voter_principals@.len()
        &&& forall|i: int, j: int|
            0 <= i < j < self.voter_principals@.len()
                ==> #[trigger] self.voter_principals@[i].bytes()
                != #[trigger] self.voter_principals@[j].bytes()
        &&& self.weight_sum() <= self.total_votes * MAX_VOTE_WEIGHT
        &&& match self.expert_consensus {
            Some(e) => {
                &&& e.expert_votes_for + e.expert_votes_against
                    <= self.total_votes * MAX_VOTE_WEIGHT
                &&& e.peer_review_score <= 100 * PRS_SCALE
            },
            None => true,
        }
    }

    /// The weighted score as an exact fraction: the numerator is the
    /// weight for, the denominator all cast weight. A zero denominator
    /// stands for a score of zero.
    pub fn weighted_score_ratio(&self) -> (r: (u64, u64))
        requires
            self.wf(),
        ensures
            r.0 == self.votes_for,
            r.1 == self.weight_sum(),
    {
        proof {
            assert(self.total_votes * MAX_VOTE_WEIGHT <= 0xffff_ffff * MAX_VOTE_WEIGHT)
                by (nonlinear_arith)
                requires
                    self.total_votes <= 0xffff_ffffu64,
            ;
        }
        (self.votes_for, self.votes_for + self.votes_against + self.abstentions)
    }

    /// An empty tally.
    pub fn new() -> (r: VotingResults)
        ensures
            r.wf(),
            r.total_votes == 0,
            r.votes_for == 0,
            r.votes_against == 0,
            r.abstentions == 0,
            r.voter_principals@.len() == 0,
            r.expert_consensus is None,
    {
        VotingResults {
            total_votes: 0,
            votes_for: 0,
            votes_against: 0,
            abstentions: 0,
            voter_principals: Vec::new(),
            expert_consensus: None,
        }
    }
}

/// A governance proposal with its voting window and running tally.
pub struct Proposal {
    pub id: u64,
    pub proposal_type: ProposalType,
    pub artifact_id: Option<u64>,
    pub proposer: PrincipalId,
    pub title: String,
    pub description: String,
    pub evidence: Vec<String>,
    pub created_at: u64,
    pub voting_deadline: u64,
    pub execution_deadline: Option<u64>,
    pub quorum_required: u32,
    pub status: ProposalStatus,
    pub voting_results: VotingResults,
    pub execution_payload: Option<String>,
    pub discussion_thread: Vec<Comment>,
    pub required_expertise: Vec<String>,
    pub urgency_level: UrgencyLevel,
}

/// The summary of a proposal handed back by the read queries.
pub struct ProposalResponse {
    pub id: u64,
    pub status: ProposalStatus,
    pub title: String,
    pub voting_deadline: u64,
    pub artifact_id: Option<u64>,
    pub description: String,
    pub voters: Vec<PrincipalId>,
    pub created_at: u64,
    pub proposer: PrincipalId,
    pub votes_for: u64,
    pub execution_payload: Option<String>,
    pub proposal_type: ProposalType,
    pub votes_against: u64,
}

/// A structured event notification kept by the audit sink.
pub struct AuditEntry {
    pub id: u64,
    pub timestamp: u64,
    pub event_type: AuditEventType,
    pub actor: PrincipalId,
    pub target_id: Option<u64>,
    pub details: String,
    pub data_hash: String,
    pub severity: AuditSeverity,
}

/// What the governance engine reads and writes of an artifact: its
/// registry status and verification level.
#[derive(Clone, Copy, PartialEq, Eq, Structural, Debug)]
pub struct ArtifactRecord {
    pub id: u64,
    pub status: ArtifactStatus,
    pub verification_level: VerificationLevel,
    pub updated_at: u64,
}

/// Request payload for submitting a new artifact.
pub struct CreateArtifactRequest {
    pub name: String,
    pub description: String,
    pub metadata: Vec<(String, String)>,
    pub images: Vec<String>,
    pub heritage_proof: Option<String>,
}

/// Request payload for creating a proposal.
pub struct CreateProposalRequest {
    pub proposal_type: ProposalType,
    pub artifact_id: Option<u64>,
    pub title: String,
    pub description: String,
    pub evidence: Option<Vec<String>>,
    pub voting_duration_hours: u64,
    pub execution_payload: Option<String>,
    pub required_expertise: Option<Vec<String>>,
    pub urgency_level: Option<UrgencyLevel>,
    pub quorum_required: Option<u32>,
}

/// Request payload for casting a vote.
pub struct VoteRequest {
    pub proposal_id: u64,
    pub vote_type: VoteType,
    pub rationale: Option<String>,
    pub expertise_relevance: Option<u32>,
}

} // verus!
