//! Participant analytics: activity and reputation scoring and the
//! contribution level derived from them.

use vstd::prelude::*;

verus! {

/// A participant's accumulated activity, as the analytics read it.
pub struct UserAnalytics {
    pub artifacts_contributed: u32,
    pub communities_joined: u32,
    pub votes_cast: u32,
    pub posts_created: u32,
    pub reputation_score: u32,
    pub join_date: u64,
}

/// How much a participant has contributed, in coarse bands.
#[derive(Clone, Copy, PartialEq, Eq, Structural, Debug)]
pub enum ContributionLevel {
    Newcomer,
    Contributor,
    Veteran,
    Pillar,
}

/// A participant's activity score: ten points per artifact, five per
/// post, three per community joined, and two per vote cast.
pub open spec fn spec_activity_score(u: UserAnalytics) -> int {
    u.artifacts_contributed * 10 + u.posts_created * 5 + u.communities_joined * 3
        + u.votes_cast * 2
}

/// Scores a participant's activity.
pub fn calculate_user_activity_score(stats: &UserAnalytics) -> (r: u64)
    ensures
        r == spec_activity_score(*stats),
{
    (stats.artifacts_contributed as u64) * 10 + (stats.posts_created as u64) * 5
        + (stats.communities_joined as u64) * 3 + (stats.votes_cast as u64) * 2
}

/// The contribution band an activity score falls in.
pub open spec fn spec_contribution_level(u: UserAnalytics) -> ContributionLevel {
    let score = spec_activity_score(u);
    if score < 50 {
        ContributionLevel::Newcomer
    } else if score < 500 {
        ContributionLevel::Contributor
    } else if score < 5000 {
        ContributionLevel::Veteran
    } else {
        ContributionLevel::Pillar
    }
}

/// Bands a participant by their activity score.
pub fn determine_contribution_level(stats: &UserAnalytics) -> (r: ContributionLevel)
    ensures
        r == spec_contribution_level(*stats),
{
    let score = calculate_user_activity_score(stats);
    if score < 50 {
        ContributionLevel::Newcomer
    } else if score < 500 {
        ContributionLevel::Contributor
    } else if score < 5000 {
        ContributionLevel::Veteran
    } else {
        ContributionLevel::Pillar
    }
}

/// A participant's reputation score: ten points per artifact, five
/// per accepted contribution, and two per vote cast.
pub open spec fn spec_reputation_score(artifacts: u32, contributions: u32, votes: u32) -> int {
    artifacts * 10 + contributions * 5 + votes * 2
}

/// Scores a participant's reputation from their activity counts.
pub fn calculate_reputation_score(artifacts: u32, contributions: u32, votes: u32) -> (r: u64)
    ensures
        r == spec_reputation_score(artifacts, contributions, votes),
{
    (artifacts as u64) * 10 + (contributions as u64) * 5 + (votes as u64) * 2
}

} // verus!
