//! The permission resolver: a directory of registered participants and
//! pure capability queries over it. Absence of a record means "no
//! permissions", never an error.

use vstd::prelude::*;
use vstd::map::*;
use crate::types::{PrincipalId, User, UserRole, UserStats, UserVerificationLevel};
use crate::text::{to_lowercase, contains_sub, lower_of, seq_contains_sub};

verus! {

/// The directory of registered participants, keyed by identity bytes.
pub struct UserDirectory {
    pub entries: Vec<(PrincipalId, User)>,
}

impl UserDirectory {
    /// The identity bytes of the entry at `i`.
    pub open spec fn key_at(self, i: int) -> Seq<u8> {
        self.entries@[i].0.bytes()
    }

    /// Well-formed: no identity occurs twice.
    pub open spec fn wf(self) -> bool {
        forall|i: int, j: int|
            0 <= i < j < self.entries@.len() ==> #[trigger] self.key_at(i) != #[trigger] self.key_at(j)
    }

    /// Whether a record exists for the given identity.
    pub open spec fn has_user(self, k: Seq<u8>) -> bool {
        exists|i: int| 0 <= i < self.entries@.len() && #[trigger] self.key_at(i) == k
    }

    /// The index of the record for `k`, when one exists.
    pub open spec fn index_of(self, k: Seq<u8>) -> int {
        choose|i: int| 0 <= i < self.entries@.len() && #[trigger] self.key_at(i) == k
    }

    /// The record for `k`, when one exists.
    pub open spec fn spec_user(self, k: Seq<u8>) -> User {
        self.entries@[self.index_of(k)].1
    }

    /// The directory as a mapping from identity bytes to records.
    pub open spec fn as_map(self) -> Map<Seq<u8>, User> {
        Map::new(|k: Seq<u8>| self.has_user(k), |k: Seq<u8>| self.spec_user(k))
    }

    /// In a well-formed directory, a key found at `i` is the key's only
    /// occurrence.
    pub proof fn lemma_index_unique(self, i: int)
        requires
            self.wf(),
            0 <= i < self.entries@.len(),
        ensures
            self.index_of(self.key_at(i)) == i,
    {
        let k = self.key_at(i);
        assert(self.has_user(k));
        let j = self.index_of(k);
        if i < j {
            assert(self.key_at(i) != self.key_at(j));
        } else if j < i {
            assert(self.key_at(j) != self.key_at(i));
        }
    }

    /// An empty directory.
    pub fn new() -> (r: UserDirectory)
        ensures
            r.wf(),
            r.entries@.len() == 0,
    {
        UserDirectory { entries: Vec::new() }
    }

    /// Looks up the record for an identity.
    pub fn get<'a>(&'a self, caller: &PrincipalId) -> (r: Option<&'a User>)
        requires
            self.wf(),
        ensures
            r is Some <==> self.has_user(caller.bytes()),
            r matches Some(u) ==> *u == self.spec_user(caller.bytes()),
    {
        let n = self.entries.len();
        let mut i: usize = 0;
        while i < n
            invariant
                self.wf(),
                n == self.entries@.len(),
                0 <= i <= n,
                forall|j: int| 0 <= j < i ==> #[trigger] self.key_at(j) != caller.bytes(),
            decreases n - i,
        {
            if self.entries[i].0.same_as(caller) {
                proof {
                    self.lemma_index_unique(i as int);
                }
                return Some(&self.entries[i].1);
            }
            i = i + 1;
        }
        None
    }

    /// Adds a record for an identity, or replaces the one it already
    /// has.
    pub fn upsert(&mut self, caller: &PrincipalId, user: User)
        requires
            old(self).wf(),
        ensures
            final(self).wf(),
            final(self).as_map() == old(self).as_map().insert(caller.bytes(), user),
    {
        let n = self.entries.len();
        let mut i: usize = 0;
        while i < n
            invariant
                *self == *old(self),
                self.wf(),
                n == self.entries@.len(),
                0 <= i <= n,
                forall|j: int| 0 <= j < i ==> #[trigger] self.key_at(j) != caller.bytes(),
            decreases n - i,
        {
            if self.entries[i].0.same_as(caller) {
                let ghost pre = *self;
                let slot = &mut self.entries[i];
                slot.1 = user;
                proof {
                    assert(forall|j: int| 0 <= j < self.entries@.len() ==> self.key_at(j)
                        == pre.key_at(j));
                    pre.lemma_index_unique(i as int);
                    assert forall|k: Seq<u8>| self.has_user(k) implies pre.has_user(k) by {
                        let j = choose|j: int|
                            0 <= j < self.entries@.len() && self.key_at(j) == k;
                        assert(pre.key_at(j) == k);
                    }
                    assert forall|k: Seq<u8>| pre.has_user(k) implies self.has_user(k) by {
                        let j = choose|j: int|
                            0 <= j < pre.entries@.len() && pre.key_at(j) == k;
                        assert(self.key_at(j) == k);
                    }
                    assert forall|k: Seq<u8>| #[trigger] self.has_user(k) implies self.spec_user(k)
                        == pre.as_map().insert(caller.bytes(), user)[k] by {
                        let j = self.index_of(k);
                        assert(pre.key_at(j) == k);
                        pre.lemma_index_unique(j);
                        if k == caller.bytes() {
                            assert(j == i);
                        }
                    }
                    assert(self.key_at(i as int) == caller.bytes());
                    assert forall|a: int, b: int|
                        0 <= a < b < self.entries@.len() implies #[trigger] self.key_at(a)
                            != #[trigger] self.key_at(b) by {
                        assert(pre.key_at(a) != pre.key_at(b));
                    }
                    assert(self.as_map() =~= pre.as_map().insert(caller.bytes(), user));
                }
                return;
            }
            i = i + 1;
        }
        let ghost pre = *self;
        self.entries.push((caller.clone(), user));
        proof {
            let m = self.entries@.len() - 1;
            assert(forall|j: int| 0 <= j < m ==> self.key_at(j) == pre.key_at(j));
            assert(self.key_at(m) == caller.bytes());
            assert forall|k: Seq<u8>| #[trigger] self.has_user(k) implies
                pre.as_map().insert(caller.bytes(), user).dom().contains(k) by {
                let j = choose|j: int| 0 <= j < self.entries@.len() && self.key_at(j) == k;
                if j < m {
                    assert(pre.key_at(j) == k);
                }
            }
            assert forall|k: Seq<u8>| #[trigger] self.has_user(k) implies self.spec_user(k)
                == pre.as_map().insert(caller.bytes(), user)[k] by {
                let j = self.index_of(k);
                assert(0 <= j < self.entries@.len() && self.key_at(j) == k);
                if j < m {
                    assert(pre.key_at(j) == k);
                    pre.lemma_index_unique(j);
                } else {
                    assert(k == caller.bytes());
                }
            }
            assert forall|k: Seq<u8>| pre.has_user(k) || k == caller.bytes() implies
                self.has_user(k) by {
                if pre.has_user(k) {
                    let j = choose|j: int| 0 <= j < pre.entries@.len() && pre.key_at(j) == k;
                    assert(self.key_at(j) == k);
                } else {
                    assert(self.key_at(m) == k);
                }
            }
            assert forall|a: int, b: int|
                0 <= a < b < self.entries@.len() implies #[trigger] self.key_at(a)
                    != #[trigger] self.key_at(b) by {
                if b < m {
                    assert(pre.key_at(a) != pre.key_at(b));
                } else {
                    assert(pre.key_at(a) != caller.bytes());
                }
            }
            assert(self.as_map() =~= pre.as_map().insert(caller.bytes(), user));
        }
    }
}

/// Saturating 32-bit addition.
pub open spec fn sat_add32(a: u32, b: u32) -> u32 {
    if a + b > u32::MAX {
        u32::MAX
    } else {
        (a + b) as u32
    }
}

/// Adds with saturation at the largest 32-bit value.
pub fn saturating_add32(a: u32, b: u32) -> (r: u32)
    ensures
        r == sat_add32(a, b),
{
    if a <= u32::MAX - b {
        a + b
    } else {
        u32::MAX
    }
}

/// The reputation gain a vote earns from its expertise relevance: two
/// points from 80 up, one point from 50 up, none below.
pub open spec fn vote_reputation_gain(expertise_relevance: u32) -> u32 {
    if expertise_relevance >= 80 {
        2
    } else if expertise_relevance >= 50 {
        1
    } else {
        0
    }
}

/// A user record after its voting activity is recorded: one more vote
/// cast, fresh last activity, and the relevance-dependent reputation
/// gain.
pub open spec fn with_vote_recorded(u: User, expertise_relevance: u32, timestamp: u64) -> User {
    User {
        reputation: sat_add32(u.reputation, vote_reputation_gain(expertise_relevance)),
        activity_stats: UserStats {
            votes_cast: sat_add32(u.activity_stats.votes_cast, 1),
            last_activity: timestamp,
            ..u.activity_stats
        },
        ..u
    }
}

/// A user record after a proposal of theirs is created: one more
/// proposal created and fresh last activity.
pub open spec fn with_proposal_recorded(u: User, timestamp: u64) -> User {
    User {
        activity_stats: UserStats {
            proposals_created: sat_add32(u.activity_stats.proposals_created, 1),
            last_activity: timestamp,
            ..u.activity_stats
        },
        ..u
    }
}

impl UserDirectory {
    /// Records a cast vote on the voter's activity stats and
    /// reputation; an unregistered voter's absence is not an error.
    pub fn update_user_voting_stats(&mut self, caller: &PrincipalId, expertise_relevance: u32,
        timestamp: u64)
        requires
            old(self).wf(),
        ensures
            final(self).wf(),
            !old(self).has_user(caller.bytes()) ==> *final(self) == *old(self),
            old(self).has_user(caller.bytes()) ==> final(self).as_map() == old(
                self).as_map().insert(caller.bytes(), with_vote_recorded(old(self).spec_user(
                caller.bytes()), expertise_relevance, timestamp)),
    {
        let n = self.entries.len();
        let mut i: usize = 0;
        while i < n
            invariant
                *self == *old(self),
                self.wf(),
                n == self.entries@.len(),
                0 <= i <= n,
                forall|j: int| 0 <= j < i ==> #[trigger] self.key_at(j) != caller.bytes(),
            decreases n - i,
        {
            if self.entries[i].0.same_as(caller) {
                let ghost pre = *self;
                proof {
                    pre.lemma_index_unique(i as int);
                }
                let relevant_gain: u32 = if expertise_relevance >= 80 {
                    2
                } else if expertise_relevance >= 50 {
                    1
                } else {
                    0
                };
                let slot = &mut self.entries[i];
                slot.1.activity_stats.votes_cast = saturating_add32(
                    slot.1.activity_stats.votes_cast, 1);
                slot.1.activity_stats.last_activity = timestamp;
                slot.1.reputation = saturating_add32(slot.1.reputation, relevant_gain);
                proof {
                    let updated = with_vote_recorded(pre.spec_user(caller.bytes()),
                        expertise_relevance, timestamp);
                    assert(self.entries@ =~= pre.entries@.update(i as int,
                        (pre.entries@[i as int].0, updated)));
                    self.lemma_replaced_entry(pre, i as int, updated, caller.bytes());
                }
                return;
            }
            i = i + 1;
        }
    }

    /// Records a created proposal on the proposer's activity stats; an
    /// unregistered proposer's absence is not an error.
    pub fn update_user_proposal_stats(&mut self, caller: &PrincipalId, timestamp: u64)
        requires
            old(self).wf(),
        ensures
            final(self).wf(),
            !old(self).has_user(caller.bytes()) ==> *final(self) == *old(self),
            old(self).has_user(caller.bytes()) ==> final(self).as_map() == old(
                self).as_map().insert(caller.bytes(), with_proposal_recorded(old(self).spec_user(
                caller.bytes()), timestamp)),
    {
        let n = self.entries.len();
        let mut i: usize = 0;
        while i < n
            invariant
                *self == *old(self),
                self.wf(),
                n == self.entries@.len(),
                0 <= i <= n,
                forall|j: int| 0 <= j < i ==> #[trigger] self.key_at(j) != caller.bytes(),
            decreases n - i,
        {
            if self.entries[i].0.same_as(caller) {
                let ghost pre = *self;
                proof {
                    pre.lemma_index_unique(i as int);
                }
                let slot = &mut self.entries[i];
                slot.1.activity_stats.proposals_created = saturating_add32(
                    slot.1.activity_stats.proposals_created, 1);
                slot.1.activity_stats.last_activity = timestamp;
                proof {
                    let updated = with_proposal_recorded(pre.spec_user(caller.bytes()),
                        timestamp);
                    assert(self.entries@ =~= pre.entries@.update(i as int,
                        (pre.entries@[i as int].0, updated)));
                    self.lemma_replaced_entry(pre, i as int, updated, caller.bytes());
                }
                return;
            }
            i = i + 1;
        }
    }

    /// Replacing the record at `i` with `updated`, keys untouched,
    /// turns the directory's map into the old map with the key at `i`
    /// rebound to `updated`.
    proof fn lemma_replaced_entry(self, pre: UserDirectory, i: int, updated: User, k: Seq<u8>)
        requires
            pre.wf(),
            0 <= i < pre.entries@.len(),
            pre.key_at(i) == k,
            self.entries@ == pre.entries@.update(i, (pre.entries@[i].0, updated)),
        ensures
            self.wf(),
            self.as_map() == pre.as_map().insert(k, updated),
    {
        assert(forall|j: int| 0 <= j < self.entries@.len() ==> self.key_at(j) == pre.key_at(j));
        assert forall|a: int, b: int|
            0 <= a < b < self.entries@.len() implies #[trigger] self.key_at(a)
                != #[trigger] self.key_at(b) by {
            assert(pre.key_at(a) != pre.key_at(b));
        }
        pre.lemma_index_unique(i);
        assert forall|k2: Seq<u8>| self.has_user(k2) implies pre.has_user(k2) by {
            let j = choose|j: int| 0 <= j < self.entries@.len() && self.key_at(j) == k2;
            assert(pre.key_at(j) == k2);
        }
        assert forall|k2: Seq<u8>| pre.has_user(k2) implies self.has_user(k2) by {
            let j = choose|j: int| 0 <= j < pre.entries@.len() && pre.key_at(j) == k2;
            assert(self.key_at(j) == k2);
        }
        assert forall|k2: Seq<u8>| #[trigger] self.has_user(k2) implies self.spec_user(k2)
            == pre.as_map().insert(k, updated)[k2] by {
            let j = self.index_of(k2);
            assert(pre.key_at(j) == k2);
            pre.lemma_index_unique(j);
            if k2 == k {
                assert(j == i);
            }
        }
        assert(self.as_map() =~= pre.as_map().insert(k, updated));
    }
}

/// A record that counts as a verified institution: the institution
/// role, a verification date, and institution-level verification.
pub open spec fn spec_is_verified_institution(dir: UserDirectory, k: Seq<u8>) -> bool {
    &&& dir.has_user(k)
    &&& dir.spec_user(k).role == UserRole::Institution
    &&& dir.spec_user(k).verified_at is Some
    &&& (dir.spec_user(k).verification_level == UserVerificationLevel::FullyVerified
        || dir.spec_user(k).verification_level == UserVerificationLevel::InstitutionVerified)
}

/// Whether the caller is a verified institution.
pub fn is_verified_institution(dir: &UserDirectory, caller: &PrincipalId) -> (r: bool)
    requires
        dir.wf(),
    ensures
        r == spec_is_verified_institution(*dir, caller.bytes()),
{
    match dir.get(caller) {
        Some(user) => matches!(user.role, UserRole::Institution) && user.verified_at.is_some()
            && matches!(user.verification_level,
                UserVerificationLevel::FullyVerified | UserVerificationLevel::InstitutionVerified),
        None => false,
    }
}

/// A record that may vote: the voting permission together with peer,
/// full, or institution verification.
pub open spec fn spec_can_vote(dir: UserDirectory, k: Seq<u8>) -> bool {
    &&& dir.has_user(k)
    &&& dir.spec_user(k).permissions.can_vote
    &&& (dir.spec_user(k).verification_level == UserVerificationLevel::PeerVerified
        || dir.spec_user(k).verification_level == UserVerificationLevel::FullyVerified
        || dir.spec_user(k).verification_level == UserVerificationLevel::InstitutionVerified)
}

/// Whether the caller may vote.
pub fn can_vote(dir: &UserDirectory, caller: &PrincipalId) -> (r: bool)
    requires
        dir.wf(),
    ensures
        r == spec_can_vote(*dir, caller.bytes()),
{
    match dir.get(caller) {
        Some(user) => user.permissions.can_vote
            && matches!(user.verification_level,
                UserVerificationLevel::PeerVerified | UserVerificationLevel::FullyVerified
                    | UserVerificationLevel::InstitutionVerified),
        None => false,
    }
}

/// A record that may create proposals: the permission together with an
/// expert, moderator, institution, or curator role.
pub open spec fn spec_can_create_proposals(dir: UserDirectory, k: Seq<u8>) -> bool {
    &&& dir.has_user(k)
    &&& dir.spec_user(k).permissions.can_create_proposals
    &&& (dir.spec_user(k).role == UserRole::Expert || dir.spec_user(k).role == UserRole::Moderator
        || dir.spec_user(k).role == UserRole::Institution
        || dir.spec_user(k).role == UserRole::Curator)
}

/// Whether the caller may create proposals.
pub fn can_create_proposals(dir: &UserDirectory, caller: &PrincipalId) -> (r: bool)
    requires
        dir.wf(),
    ensures
        r == spec_can_create_proposals(*dir, caller.bytes()),
{
    match dir.get(caller) {
        Some(user) => user.permissions.can_create_proposals
            && matches!(user.role,
                UserRole::Expert | UserRole::Moderator | UserRole::Institution | UserRole::Curator),
        None => false,
    }
}

/// A record that may submit artifacts: the permission together with a
/// verified institution record or an expert or institution role.
pub open spec fn spec_can_submit_artifacts(dir: UserDirectory, k: Seq<u8>) -> bool {
    &&& dir.has_user(k)
    &&& dir.spec_user(k).permissions.can_submit_artifacts
    &&& (spec_is_verified_institution(dir, k) || dir.spec_user(k).role == UserRole::Expert
        || dir.spec_user(k).role == UserRole::Institution)
}

/// Whether the caller may submit artifacts.
pub fn can_submit_artifacts(dir: &UserDirectory, caller: &PrincipalId) -> (r: bool)
    requires
        dir.wf(),
    ensures
        r == spec_can_submit_artifacts(*dir, caller.bytes()),
{
    let verified_institution = is_verified_institution(dir, caller);
    match dir.get(caller) {
        Some(user) => user.permissions.can_submit_artifacts
            && (verified_institution || matches!(user.role, UserRole::Expert)
                || matches!(user.role, UserRole::Institution)),
        None => false,
    }
}

/// The voting weight captured for a caller: the snapshot's weight, or 1
/// for an unregistered caller.
pub open spec fn spec_voting_weight(dir: UserDirectory, k: Seq<u8>) -> u32 {
    if dir.has_user(k) {
        dir.spec_user(k).permissions.voting_weight
    } else {
        1
    }
}

/// The caller's voting weight, defaulting to 1 when unregistered.
pub fn get_voting_weight(dir: &UserDirectory, caller: &PrincipalId) -> (r: u32)
    requires
        dir.wf(),
    ensures
        r == spec_voting_weight(*dir, caller.bytes()),
{
    match dir.get(caller) {
        Some(user) => user.permissions.voting_weight,
        None => 1,
    }
}

/// A record whose votes feed the expert consensus: an expert or
/// institution role.
pub open spec fn spec_is_expert_or_institution(dir: UserDirectory, k: Seq<u8>) -> bool {
    &&& dir.has_user(k)
    &&& (dir.spec_user(k).role == UserRole::Expert || dir.spec_user(k).role == UserRole::Institution)
}

/// Whether the caller's votes count toward the expert consensus.
pub fn is_expert_or_institution(dir: &UserDirectory, caller: &PrincipalId) -> (r: bool)
    requires
        dir.wf(),
    ensures
        r == spec_is_expert_or_institution(*dir, caller.bytes()),
{
    match dir.get(caller) {
        Some(user) => matches!(user.role, UserRole::Expert | UserRole::Institution),
        None => false,
    }
}

/// A record that may moderate: the permission together with the
/// moderator role.
pub open spec fn spec_can_moderate(dir: UserDirectory, k: Seq<u8>) -> bool {
    &&& dir.has_user(k)
    &&& dir.spec_user(k).permissions.can_moderate
    &&& dir.spec_user(k).role == UserRole::Moderator
}

/// Whether the caller may moderate.
pub fn can_moderate(dir: &UserDirectory, caller: &PrincipalId) -> (r: bool)
    requires
        dir.wf(),
    ensures
        r == spec_can_moderate(*dir, caller.bytes()),
{
    match dir.get(caller) {
        Some(user) => user.permissions.can_moderate && matches!(user.role, UserRole::Moderator),
        None => false,
    }
}

/// Two expertise tags overlap when, after lowercasing, either contains
/// the other.
pub open spec fn tag_overlap(a: Seq<char>, b: Seq<char>) -> bool {
    seq_contains_sub(lower_of(a), lower_of(b)) || seq_contains_sub(lower_of(b), lower_of(a))
}

/// A caller meets an expertise requirement when the requirement is
/// empty, or when some required tag overlaps some specialization on the
/// caller's record.
pub open spec fn spec_has_required_expertise(
    dir: UserDirectory,
    k: Seq<u8>,
    required: Seq<Seq<char>>,
) -> bool {
    if required.len() == 0 {
        true
    } else {
        &&& dir.has_user(k)
        &&& exists|i: int, j: int|
            0 <= i < required.len() && 0 <= j < dir.spec_user(k).specialization@.len()
                && #[trigger] tag_overlap(dir.spec_user(k).specialization@[j]@, required[i])
    }
}

/// Whether the caller's specializations overlap the required expertise
/// tags, ignoring case.
pub fn has_required_expertise(
    dir: &UserDirectory,
    caller: &PrincipalId,
    required_expertise: &Vec<String>,
) -> (r: bool)
    requires
        dir.wf(),
    ensures
        r == spec_has_required_expertise(*dir, caller.bytes(),
            required_expertise@.map_values(|t: String| t@)),
{
    let ghost req_views = required_expertise@.map_values(|t: String| t@);
    if required_expertise.len() == 0 {
        return true;
    }
    let user = match dir.get(caller) {
        Some(user) => user,
        None => {
            return false;
        },
    };
    let nr = required_expertise.len();
    let ns = user.specialization.len();
    let mut i: usize = 0;
    while i < nr
        invariant
            dir.wf(),
            dir.has_user(caller.bytes()),
            *user == dir.spec_user(caller.bytes()),
            nr == required_expertise@.len(),
            ns == user.specialization@.len(),
            req_views == required_expertise@.map_values(|t: String| t@),
            0 <= i <= nr,
            forall|a: int, b: int|
                0 <= a < i && 0 <= b < ns ==> !#[trigger] tag_overlap(
                    user.specialization@[b]@, req_views[a]),
        decreases nr - i,
    {
        let req_lower = to_lowercase(required_expertise[i].as_str());
        let mut j: usize = 0;
        while j < ns
            invariant
                dir.wf(),
                dir.has_user(caller.bytes()),
                *user == dir.spec_user(caller.bytes()),
                nr == required_expertise@.len(),
                ns == user.specialization@.len(),
                req_views == required_expertise@.map_values(|t: String| t@),
                0 <= i < nr,
                0 <= j <= ns,
                req_lower@ == lower_of(req_views[i as int]),
                forall|b: int|
                    0 <= b < j ==> !#[trigger] tag_overlap(
                        user.specialization@[b]@, req_views[i as int]),
            decreases ns - j,
        {
            let spec_lower = to_lowercase(user.specialization[j].as_str());
            if contains_sub(spec_lower.as_str(), req_lower.as_str())
                || contains_sub(req_lower.as_str(), spec_lower.as_str()) {
                proof {
                    assert(tag_overlap(
                        dir.spec_user(caller.bytes()).specialization@[j as int]@,
                        req_views[i as int]));
                }
                return true;
            }
            j = j + 1;
        }
        i = i + 1;
    }
    false
}

/// How many entries of `s` may vote by their permission snapshot.
pub open spec fn eligible_count(s: Seq<(PrincipalId, User)>) -> nat
    decreases s.len(),
{
    if s.len() == 0 {
        0
    } else {
        eligible_count(s.drop_last()) + if s.last().1.permissions.can_vote {
            1nat
        } else {
            0nat
        }
    }
}

/// Counts the registered participants whose snapshot allows voting,
/// saturating at the largest 32-bit count.
pub fn count_eligible_voters(dir: &UserDirectory) -> (r: u32)
    ensures
        r == if eligible_count(dir.entries@) > u32::MAX {
            u32::MAX as nat
        } else {
            eligible_count(dir.entries@)
        },
{
    let n = dir.entries.len();
    let mut count: usize = 0;
    let mut i: usize = 0;
    proof {
        assert(dir.entries@.subrange(0, 0) =~= Seq::<(PrincipalId, User)>::empty());
    }
    while i < n
        invariant
            n == dir.entries@.len(),
            0 <= i <= n,
            count <= i,
            count == eligible_count(dir.entries@.subrange(0, i as int)),
        decreases n - i,
    {
        let eligible = dir.entries[i].1.permissions.can_vote;
        if eligible {
            count = count + 1;
        }
        proof {
            let cur = dir.entries@.subrange(0, i as int + 1);
            assert(cur.drop_last() =~= dir.entries@.subrange(0, i as int));
            assert(cur.last() == dir.entries@[i as int]);
        }
        i = i + 1;
    }
    proof {
        assert(dir.entries@.subrange(0, n as int) =~= dir.entries@);
    }
    if count > u32::MAX as usize {
        u32::MAX
    } else {
        count as u32
    }
}

} // verus!
