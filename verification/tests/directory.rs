use heritage_gov::auth::{
    UserDirectory, can_vote, can_create_proposals, can_moderate, get_voting_weight,
    is_expert_or_institution, is_verified_institution, can_submit_artifacts,
    has_required_expertise, count_eligible_voters,
};
use heritage_gov::store::{IdCounters, get_next_id};
use heritage_gov::stats::{get_system_stats, health_check};
use heritage_gov::engine::GovState;
use heritage_gov::types::{
    ArtifactRecord, ArtifactStatus, PrincipalId, User, UserPermissions, UserRole, UserStats,
    UserVerificationLevel, VerificationLevel,
};

fn principal(n: u8) -> PrincipalId {
    PrincipalId(vec![n])
}

fn user(role: UserRole, verification: UserVerificationLevel, permissions: UserPermissions)
    -> User {
    User {
        role,
        reputation: 0,
        verified_at: Some(1),
        institution: None,
        specialization: vec![],
        activity_stats: UserStats {
            artifacts_submitted: 0,
            proposals_created: 0,
            votes_cast: 0,
            successful_verifications: 0,
            peer_ratings: vec![],
            last_activity: 0,
        },
        verification_level: verification,
        permissions,
    }
}

fn all_permissions(weight: u32) -> UserPermissions {
    UserPermissions {
        can_submit_artifacts: true,
        can_create_proposals: true,
        can_vote: true,
        can_verify_institutions: true,
        can_moderate: true,
        voting_weight: weight,
    }
}

#[test]
fn test_directory_lookup_and_replace() {
    let mut dir = UserDirectory::new();
    let alice = principal(1);
    assert!(dir.get(&alice).is_none());

    dir.upsert(&alice, user(UserRole::Community, UserVerificationLevel::PeerVerified,
        all_permissions(2)));
    assert_eq!(dir.get(&alice).unwrap().permissions.voting_weight, 2);

    dir.upsert(&alice, user(UserRole::Community, UserVerificationLevel::PeerVerified,
        all_permissions(5)));
    assert_eq!(dir.get(&alice).unwrap().permissions.voting_weight, 5);
    assert_eq!(dir.entries.len(), 1);
}

#[test]
fn test_permission_queries() {
    let mut dir = UserDirectory::new();
    let moderator = principal(1);
    let unverified = principal(2);
    let expert = principal(3);
    let institution = principal(4);

    dir.upsert(&moderator, user(UserRole::Moderator, UserVerificationLevel::FullyVerified,
        all_permissions(1)));
    dir.upsert(&unverified, user(UserRole::Community, UserVerificationLevel::Unverified,
        all_permissions(1)));
    dir.upsert(&expert, user(UserRole::Expert, UserVerificationLevel::PeerVerified,
        all_permissions(2)));
    dir.upsert(&institution, user(UserRole::Institution,
        UserVerificationLevel::InstitutionVerified, all_permissions(3)));

    assert!(can_vote(&dir, &moderator));
    assert!(!can_vote(&dir, &unverified));
    assert!(!can_vote(&dir, &principal(9)));

    assert!(can_create_proposals(&dir, &expert));
    assert!(!can_create_proposals(&dir, &unverified));

    assert!(can_moderate(&dir, &moderator));
    assert!(!can_moderate(&dir, &expert));

    assert!(is_expert_or_institution(&dir, &expert));
    assert!(is_expert_or_institution(&dir, &institution));
    assert!(!is_expert_or_institution(&dir, &moderator));

    assert!(is_verified_institution(&dir, &institution));
    assert!(!is_verified_institution(&dir, &expert));

    assert!(can_submit_artifacts(&dir, &expert));
    assert!(can_submit_artifacts(&dir, &institution));

    assert_eq!(get_voting_weight(&dir, &institution), 3);
    assert_eq!(get_voting_weight(&dir, &principal(9)), 1);
}

#[test]
fn test_expertise_matching() {
    let mut dir = UserDirectory::new();
    let expert = principal(1);
    let mut u = user(UserRole::Expert, UserVerificationLevel::PeerVerified, all_permissions(2));
    u.specialization = vec!["Underwater Archaeology".to_string()];
    dir.upsert(&expert, u);

    assert!(has_required_expertise(&dir, &expert, &vec![]));
    assert!(has_required_expertise(&dir, &expert, &vec!["ARCHAEOLOGY".to_string()]));
    assert!(has_required_expertise(&dir, &expert,
        &vec!["Maritime Underwater Archaeology Methods".to_string()]));
    assert!(!has_required_expertise(&dir, &expert, &vec!["Numismatics".to_string()]));
    assert!(!has_required_expertise(&dir, &principal(9), &vec!["Ceramics".to_string()]));
}

#[test]
fn test_eligible_voter_count() {
    let mut dir = UserDirectory::new();
    for n in 1u8..=5 {
        let mut perms = all_permissions(1);
        perms.can_vote = n <= 3;
        dir.upsert(&principal(n), user(UserRole::Community,
            UserVerificationLevel::PeerVerified, perms));
    }
    assert_eq!(count_eligible_voters(&dir), 3);
}

#[test]
fn test_id_counters_are_namespaced() {
    let mut counters = IdCounters::new();
    assert_eq!(get_next_id(&mut counters, 2), 1);
    assert_eq!(get_next_id(&mut counters, 2), 2);
    assert_eq!(get_next_id(&mut counters, 4), 1);
    assert_eq!(get_next_id(&mut counters, 2), 3);
    assert_eq!(get_next_id(&mut counters, 4), 2);
}

#[test]
fn test_system_stats_and_health() {
    let mut s = GovState::new();
    s.put_artifact(ArtifactRecord {
        id: 1,
        status: ArtifactStatus::Verified,
        verification_level: VerificationLevel::DaoVerified,
        updated_at: 0,
    });
    s.put_artifact(ArtifactRecord {
        id: 2,
        status: ArtifactStatus::PendingVerification,
        verification_level: VerificationLevel::Unverified,
        updated_at: 0,
    });
    s.users.upsert(&principal(1), user(UserRole::Community,
        UserVerificationLevel::PeerVerified, all_permissions(1)));

    let stats = get_system_stats(&s, 4, 9_000);
    assert_eq!(stats.total_artifacts, 2);
    assert_eq!(stats.verified_artifacts, 1);
    assert_eq!(stats.total_proposals, 0);
    assert_eq!(stats.active_proposals, 0);
    assert_eq!(stats.total_users, 1);
    assert_eq!(stats.total_nfts, 4);
    assert_eq!(stats.last_updated, 9_000);

    let health = health_check(5_000_000_000);
    assert_eq!(health.status, "healthy");
    assert_eq!(health.version, "2.0.0");
    assert_eq!(health.uptime, 5);
    assert_eq!(health.timestamp, 5_000_000_000);
}
