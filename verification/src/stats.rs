//! Platform status reporting: system-wide counters over the
//! governance state and the health probe.

use vstd::prelude::*;
use crate::types::{ArtifactRecord, ArtifactStatus, Proposal, ProposalStatus};
use crate::engine::GovState;

verus! {

/// System-wide counters reported by the status API.
pub struct SystemStats {
    pub total_artifacts: u64,
    pub total_proposals: u64,
    pub total_users: u64,
    pub total_nfts: u64,
    pub verified_artifacts: u64,
    pub active_proposals: u64,
    pub last_updated: u64,
}

/// The health probe's answer.
pub struct HealthStatus {
    pub status: String,
    pub timestamp: u64,
    pub version: String,
    pub uptime: u64,
}

/// Summary counters for the community section of the platform's
/// status reporting.
pub struct CommunityStats {
    pub total_members: u64,
    pub active_today: u64,
    pub active_this_week: u64,
    pub total_posts: u64,
    pub total_replies: u64,
    pub posts_today: u64,
    pub featured_posts: u64,
    pub last_updated: u64,
}

/// How many artifact records are verified.
pub open spec fn verified_artifact_count(s: Seq<ArtifactRecord>) -> nat
    decreases s.len(),
{
    if s.len() == 0 {
        0
    } else {
        verified_artifact_count(s.drop_last()) + if s.last().status == ArtifactStatus::Verified {
            1nat
        } else {
            0nat
        }
    }
}

/// How many proposals are still open for voting.
pub open spec fn active_proposal_count(s: Seq<Proposal>) -> nat
    decreases s.len(),
{
    if s.len() == 0 {
        0
    } else {
        active_proposal_count(s.drop_last()) + if s.last().status == ProposalStatus::Active {
            1nat
        } else {
            0nat
        }
    }
}

/// Gathers the system-wide counters from the governance state; the
/// heritage-certificate count is handed in by the caller, whose
/// registry owns it.
pub fn get_system_stats(s: &GovState, total_nfts: u64, now: u64) -> (r: SystemStats)
    ensures
        r.total_artifacts == s.artifacts@.len(),
        r.total_proposals == s.proposals@.len(),
        r.total_users == s.users.entries@.len(),
        r.total_nfts == total_nfts,
        r.verified_artifacts == verified_artifact_count(s.artifacts@),
        r.active_proposals == active_proposal_count(s.proposals@),
        r.last_updated == now,
{
    let mut verified: u64 = 0;
    let na = s.artifacts.len();
    let mut i: usize = 0;
    proof {
        assert(s.artifacts@.subrange(0, 0) =~= Seq::<ArtifactRecord>::empty());
    }
    while i < na
        invariant
            na == s.artifacts@.len(),
            0 <= i <= na,
            verified <= i,
            verified == verified_artifact_count(s.artifacts@.subrange(0, i as int)),
        decreases na - i,
    {
        proof {
            let cur = s.artifacts@.subrange(0, i as int + 1);
            assert(cur.drop_last() =~= s.artifacts@.subrange(0, i as int));
            assert(cur.last() == s.artifacts@[i as int]);
        }
        if matches!(s.artifacts[i].status, ArtifactStatus::Verified) {
            verified = verified + 1;
        }
        i = i + 1;
    }
    proof {
        assert(s.artifacts@.subrange(0, na as int) =~= s.artifacts@);
    }

    let mut active: u64 = 0;
    let np = s.proposals.len();
    let mut j: usize = 0;
    proof {
        assert(s.proposals@.subrange(0, 0) =~= Seq::<Proposal>::empty());
    }
    while j < np
        invariant
            np == s.proposals@.len(),
            0 <= j <= np,
            active <= j,
            active == active_proposal_count(s.proposals@.subrange(0, j as int)),
        decreases np - j,
    {
        proof {
            let cur = s.proposals@.subrange(0, j as int + 1);
            assert(cur.drop_last() =~= s.proposals@.subrange(0, j as int));
            assert(cur.last() == s.proposals@[j as int]);
        }
        if matches!(s.proposals[j].status, ProposalStatus::Active) {
            active = active + 1;
        }
        j = j + 1;
    }
    proof {
        assert(s.proposals@.subrange(0, np as int) =~= s.proposals@);
    }

    SystemStats {
        total_artifacts: s.artifacts.len() as u64,
        total_proposals: s.proposals.len() as u64,
        total_users: s.users.entries.len() as u64,
        total_nfts,
        verified_artifacts: verified,
        active_proposals: active,
        last_updated: now,
    }
}

/// Answers the health probe: always healthy, with the current time
/// and the uptime in whole seconds.
pub fn health_check(now: u64) -> (r: HealthStatus)
    ensures
        r.status@ == "healthy"@,
        r.timestamp == now,
        r.version@ == "2.0.0"@,
        r.uptime == now / 1_000_000_000,
{
    HealthStatus {
        status: "healthy".to_owned(),
        timestamp: now,
        version: "2.0.0".to_owned(),
        uptime: now / 1_000_000_000,
    }
}

} // verus!
