use heritage_gov::validate::{
    validate_proposal_title, validate_proposal_description, validate_voting_duration,
    calculate_quorum, calculate_voting_deadline, is_voting_deadline_passed,
};
use heritage_gov::types::ProposalType;
use heritage_gov::text::{format_duration_string, u64_to_string};
use heritage_gov::hash::create_hash;
use heritage_gov::content::{
    ArtifactData, CommunityPostData, CommunityData, validate_artifact_data,
    validate_community_post, validate_community_data, extract_search_keywords,
    validate_image_url,
};
use heritage_gov::analytics::{
    UserAnalytics, ContributionLevel, calculate_user_activity_score,
    determine_contribution_level, calculate_reputation_score,
};

#[test]
fn test_artifact_creation_validation() {
    let valid_artifact = ArtifactData {
        name: "Tutankhamun's Mask".to_string(),
        description: "The famous golden burial mask of Tutankhamun".to_string(),
        category: "Royal Artifacts".to_string(),
        period: "New Kingdom, 18th Dynasty".to_string(),
        location: "Valley of the Kings, Tomb KV62".to_string(),
        images: vec!["mask_front.jpg".to_string(), "mask_side.jpg".to_string()],
        metadata: {
            let mut meta = std::collections::HashMap::new();
            meta.insert("material".to_string(), "Gold, lapis lazuli, carnelian".to_string());
            meta.insert("weight".to_string(), "10.23 kg".to_string());
            meta
        },
    };

    assert!(validate_artifact_data(&valid_artifact));
}

#[test]
fn test_artifact_search_keywords() {
    let artifact = ArtifactData {
        name: "Rosetta Stone".to_string(),
        description: "Ancient Egyptian granodiorite stele with decree in three scripts".to_string(),
        category: "Inscriptions".to_string(),
        period: "Ptolemaic Period".to_string(),
        location: "Rosetta (Rashid)".to_string(),
        images: vec!["rosetta_stone.jpg".to_string()],
        metadata: std::collections::HashMap::new(),
    };

    let keywords = extract_search_keywords(&artifact);
    assert!(keywords.contains(&"rosetta".to_string()));
    assert!(keywords.contains(&"stone".to_string()));
    assert!(keywords.contains(&"egyptian".to_string()));
    assert!(keywords.contains(&"ptolemaic".to_string()));
}

#[test]
fn test_community_post_validation() {
    let valid_post = CommunityPostData {
        title: "New Discovery in Saqqara".to_string(),
        content: "Archaeologists have discovered a new tomb in the Saqqara necropolis...".to_string(),
        tags: vec!["archaeology".to_string(), "saqqara".to_string(), "discovery".to_string()],
        images: vec!["discovery_1.jpg".to_string()],
    };

    assert!(validate_community_post(&valid_post));

    let invalid_post = CommunityPostData {
        title: "".to_string(),
        content: "Valid content".to_string(),
        tags: vec![],
        images: vec![],
    };

    assert!(!validate_community_post(&invalid_post));
}

#[test]
fn test_user_analytics() {
    let user_stats = UserAnalytics {
        artifacts_contributed: 10,
        communities_joined: 5,
        votes_cast: 20,
        posts_created: 15,
        reputation_score: 750,
        join_date: 1609459200000000000,
    };

    let activity_score = calculate_user_activity_score(&user_stats);
    assert!(activity_score > 0);

    let contribution_level = determine_contribution_level(&user_stats);
    assert_ne!(contribution_level, ContributionLevel::Newcomer);
}

#[test]
fn test_validate_artifact_data() {
    let valid_data = ArtifactData {
        name: "Valid Artifact".to_string(),
        description: "A valid artifact with proper description".to_string(),
        category: "Pottery".to_string(),
        period: "New Kingdom".to_string(),
        location: "Valley of the Kings".to_string(),
        images: vec!["image1.jpg".to_string()],
        metadata: std::collections::HashMap::new(),
    };

    assert!(validate_artifact_data(&valid_data));

    let invalid_data = ArtifactData {
        name: "".to_string(),
        description: "Valid description".to_string(),
        category: "Pottery".to_string(),
        period: "New Kingdom".to_string(),
        location: "Valley of the Kings".to_string(),
        images: vec![],
        metadata: std::collections::HashMap::new(),
    };

    assert!(!validate_artifact_data(&invalid_data));
}

#[test]
fn test_validate_community_data() {
    let valid_data = CommunityData {
        name: "Valid Community".to_string(),
        description: "A valid community with proper description".to_string(),
        category: "Research".to_string(),
        is_public: true,
    };

    assert!(validate_community_data(&valid_data));

    let invalid_data = CommunityData {
        name: "".to_string(),
        description: "Valid description".to_string(),
        category: "Research".to_string(),
        is_public: true,
    };

    assert!(!validate_community_data(&invalid_data));
}

#[test]
fn test_calculate_reputation_score() {
    let score1 = calculate_reputation_score(5, 2, 10);
    let score2 = calculate_reputation_score(10, 5, 20);

    assert!(score2 > score1);
    assert!(score1 > 0);
}

#[test]
fn test_validate_image_url() {
    assert!(validate_image_url("https://example.com/image.jpg"));
    assert!(validate_image_url("https://example.com/image.png"));
    assert!(validate_image_url("https://example.com/image.gif"));

    assert!(!validate_image_url("not_a_url"));
    assert!(!validate_image_url("https://example.com/file.txt"));
    assert!(!validate_image_url(""));
}

#[test]
fn test_title_validation_bounds() {
    assert!(validate_proposal_title("Verify the amphora").is_ok());
    assert_eq!(
        validate_proposal_title("").unwrap_err(),
        "Proposal title cannot be empty"
    );
    assert_eq!(
        validate_proposal_title("   \t  ").unwrap_err(),
        "Proposal title cannot be empty"
    );
    let long_title = "t".repeat(201);
    assert_eq!(
        validate_proposal_title(&long_title).unwrap_err(),
        "Proposal title too long (max 200 characters)"
    );
    let edge_title = "t".repeat(200);
    assert!(validate_proposal_title(&edge_title).is_ok());
}

#[test]
fn test_description_validation_bounds() {
    let good = "d".repeat(50);
    assert!(validate_proposal_description(&good).is_ok());
    assert_eq!(
        validate_proposal_description("").unwrap_err(),
        "Proposal description cannot be empty"
    );
    assert_eq!(
        validate_proposal_description(&"d".repeat(49)).unwrap_err(),
        "Proposal description too short (min 50 characters)"
    );
    assert_eq!(
        validate_proposal_description(&"d".repeat(10_001)).unwrap_err(),
        "Proposal description too long (max 10000 characters)"
    );
    assert!(validate_proposal_description(&"d".repeat(10_000)).is_ok());
}

#[test]
fn test_voting_duration_bounds() {
    assert!(validate_voting_duration(1).is_ok());
    assert!(validate_voting_duration(168).is_ok());
    assert_eq!(
        validate_voting_duration(0).unwrap_err(),
        "Voting duration must be between 1 hour and 7 days"
    );
    assert_eq!(
        validate_voting_duration(169).unwrap_err(),
        "Voting duration must be between 1 hour and 7 days"
    );
}

#[test]
fn test_quorum_thresholds() {
    assert_eq!(calculate_quorum(100, &ProposalType::EmergencyIntervention), 75);
    assert_eq!(calculate_quorum(100, &ProposalType::VerifyArtifact), 60);
    assert_eq!(calculate_quorum(100, &ProposalType::DisputeArtifact), 60);
    assert_eq!(calculate_quorum(100, &ProposalType::GrantUserRole), 70);
    assert_eq!(calculate_quorum(100, &ProposalType::RevokeUserRole), 70);
    assert_eq!(calculate_quorum(100, &ProposalType::RequestExpertReview), 50);
    assert_eq!(calculate_quorum(0, &ProposalType::VerifyArtifact), 0);
    assert_eq!(calculate_quorum(3, &ProposalType::RequestExpertReview), 1);
}

#[test]
fn test_deadline_helpers() {
    assert_eq!(calculate_voting_deadline(1_000, 1), 1_000 + 3_600_000_000_000);
    assert!(!is_voting_deadline_passed(100, 100));
    assert!(is_voting_deadline_passed(100, 101));
}

#[test]
fn test_duration_formatting() {
    assert_eq!(format_duration_string(0), "0 hours");
    assert_eq!(format_duration_string(5), "5 hours");
    assert_eq!(format_duration_string(23), "23 hours");
    assert_eq!(format_duration_string(24), "1 days");
    assert_eq!(format_duration_string(48), "2 days");
    assert_eq!(format_duration_string(50), "2 days, 2 hours");
    assert_eq!(format_duration_string(169), "7 days, 1 hours");
}

#[test]
fn test_decimal_rendering() {
    assert_eq!(u64_to_string(0), "0");
    assert_eq!(u64_to_string(7), "7");
    assert_eq!(u64_to_string(105), "105");
    assert_eq!(u64_to_string(u64::MAX), "18446744073709551615");
}

#[test]
fn test_content_hash_values() {
    assert_eq!(create_hash(""), "cbf29ce484222325");
    assert_eq!(create_hash("hello"), "a430d84680aabd0b");
    assert_eq!(create_hash("governance"), "4d30e1b3330f7759");
    assert_eq!(create_hash("hello"), create_hash("hello"));
    assert_ne!(create_hash("hello"), create_hash("hellp"));
}

#[test]
fn test_keyword_extraction_details() {
    let artifact = ArtifactData {
        name: "Bronze-Age AXE".to_string(),
        description: "".to_string(),
        category: "".to_string(),
        period: "".to_string(),
        location: "".to_string(),
        images: vec![],
        metadata: std::collections::HashMap::new(),
    };
    let keywords = extract_search_keywords(&artifact);
    assert_eq!(keywords, vec!["bronze".to_string(), "age".to_string(), "axe".to_string()]);
}

struct PlatformMetrics {
    total_artifacts: u64,
    total_users: u64,
    total_communities: u64,
    total_proposals: u64,
    active_users_monthly: u64,
    artifacts_created_monthly: u64,
    community_engagement_rate: f64,
}

// Growth and engagement are floating-point measures, so these helpers
// live with the tests rather than in the verified library.
fn calculate_growth_rate(current: u64, previous: u64) -> f64 {
    if previous == 0 {
        return 0.0;
    }
    (current as f64 - previous as f64) / previous as f64 * 100.0
}

fn calculate_engagement_score(metrics: &PlatformMetrics) -> f64 {
    if metrics.total_users == 0 {
        return 0.0;
    }
    let active_share = metrics.active_users_monthly as f64 / metrics.total_users as f64;
    active_share * 0.5 + metrics.community_engagement_rate * 0.5
}

#[test]
fn test_platform_metrics_calculation() {
    let metrics = PlatformMetrics {
        total_artifacts: 150,
        total_users: 500,
        total_communities: 25,
        total_proposals: 30,
        active_users_monthly: 200,
        artifacts_created_monthly: 45,
        community_engagement_rate: 0.75,
    };

    let growth_rate = calculate_growth_rate(metrics.total_artifacts, 120);
    assert_eq!(growth_rate, 25.0);

    let engagement_score = calculate_engagement_score(&metrics);
    assert!(engagement_score > 0.0);
    assert!(engagement_score <= 1.0);
}

#[test]
fn test_whitespace_only_text_is_blank() {
    assert_eq!(
        validate_proposal_title("\u{000B}").unwrap_err(),
        "Proposal title cannot be empty"
    );
    assert_eq!(
        validate_proposal_title("\u{000C}\u{000C}").unwrap_err(),
        "Proposal title cannot be empty"
    );
    assert_eq!(
        validate_proposal_title("\u{00A0}\u{2003}\u{3000}").unwrap_err(),
        "Proposal title cannot be empty"
    );
    assert!(validate_proposal_title("\u{000B}x").is_ok());

    let airy = "\u{00A0}".repeat(60);
    assert_eq!(
        validate_proposal_description(&airy).unwrap_err(),
        "Proposal description cannot be empty"
    );
}
