//! Input validation and derived quantities for proposals: title and
//! description checks, voting-duration limits, deadlines, and the
//! type-dependent quorum formula.

use vstd::prelude::*;
use vstd::utf8::encode_utf8;
use vstd::std_specs::iter::IteratorSpec;
use crate::types::ProposalType;

verus! {

/// Nanoseconds in one hour.
pub const NS_PER_HOUR: u64 = 3_600_000_000_000;

/// Nanoseconds in one day.
pub const NS_PER_DAY: u64 = 86_400_000_000_000;

/// The grace period an emergency proposal's voters get past the voting
/// deadline: two hours.
pub const EMERGENCY_GRACE_NS: u64 = 7_200_000_000_000;

/// A character that counts as whitespace: one of the Unicode
/// White_Space code points.
pub open spec fn is_whitespace_char(c: char) -> bool {
    let n = c as u32;
    ||| n == 0x09
    ||| n == 0x0A
    ||| n == 0x0B
    ||| n == 0x0C
    ||| n == 0x0D
    ||| n == 0x20
    ||| n == 0x85
    ||| n == 0xA0
    ||| n == 0x1680
    ||| (0x2000 <= n && n <= 0x200A)
    ||| n == 0x2028
    ||| n == 0x2029
    ||| n == 0x202F
    ||| n == 0x205F
    ||| n == 0x3000
}

/// Tests whether a character counts as whitespace.
fn is_whitespace(c: char) -> (r: bool)
    ensures
        r == is_whitespace_char(c),
{
    let n = c as u32;
    n == 0x09 || n == 0x0A || n == 0x0B || n == 0x0C || n == 0x0D || n == 0x20 || n == 0x85
        || n == 0xA0 || n == 0x1680 || (0x2000 <= n && n <= 0x200A) || n == 0x2028 || n == 0x2029
        || n == 0x202F || n == 0x205F || n == 0x3000
}

/// A text is blank when every character of it is whitespace; the empty
/// text is blank.
pub open spec fn is_blank(s: Seq<char>) -> bool {
    forall|i: int| 0 <= i < s.len() ==> is_whitespace_char(#[trigger] s[i])
}

/// Whether `s` consists only of whitespace.
pub fn str_is_blank(s: &str) -> (r: bool)
    ensures
        r == is_blank(s@),
{
    let mut it = s.chars();
    let ghost mut seen: int = 0;
    proof {
        assert(it.remaining() == s@);
        assert(it.remaining() =~= s@.subrange(0, s@.len() as int));
    }
    loop
        invariant
            0 <= seen <= s@.len(),
            it.remaining() == s@.subrange(seen, s@.len() as int),
            forall|j: int| 0 <= j < seen ==> is_whitespace_char(#[trigger] s@[j]),
        decreases s@.len() - seen,
    {
        let ghost pre_remaining = it.remaining();
        match it.next() {
            Some(c) => {
                proof {
                    assert(pre_remaining.len() > 0);
                    assert(c == pre_remaining[0]);
                    assert(c == s@[seen]);
                    assert(it.remaining() =~= s@.subrange(seen + 1, s@.len() as int));
                }
                if !is_whitespace(c) {
                    proof {
                        assert(!is_whitespace_char(s@[seen]));
                    }
                    return false;
                }
                proof {
                    seen = seen + 1;
                }
            },
            None => {
                proof {
                    assert(pre_remaining.len() == 0);
                    assert(seen == s@.len());
                }
                return true;
            },
        }
    }
}

/// A proposal title is acceptable when it is not blank and is at most
/// 200 bytes long.
pub open spec fn title_ok(title: Seq<char>) -> bool {
    !is_blank(title) && encode_utf8(title).len() <= 200
}

/// The complaint a rejected title is returned with.
pub open spec fn title_error_text(title: Seq<char>) -> Seq<char> {
    if is_blank(title) {
        "Proposal title cannot be empty"@
    } else {
        "Proposal title too long (max 200 characters)"@
    }
}

/// Checks a proposal title: rejects a blank title, then one over
/// 200 bytes.
pub fn validate_proposal_title(title: &str) -> (r: Result<(), String>)
    ensures
        r is Ok <==> title_ok(title@),
        !title_ok(title@) ==> (r matches Err(e) && e@ == title_error_text(title@)),
{
    if str_is_blank(title) {
        return Err("Proposal title cannot be empty".to_owned());
    }
    if title.as_bytes().len() > 200 {
        return Err("Proposal title too long (max 200 characters)".to_owned());
    }
    Ok(())
}

/// A proposal description is acceptable when it is not blank and is
/// between 50 and 10,000 bytes long.
pub open spec fn description_ok(description: Seq<char>) -> bool {
    &&& !is_blank(description)
    &&& 50 <= encode_utf8(description).len() <= 10_000
}

/// The complaint a rejected description is returned with.
pub open spec fn description_error_text(description: Seq<char>) -> Seq<char> {
    if is_blank(description) {
        "Proposal description cannot be empty"@
    } else if encode_utf8(description).len() < 50 {
        "Proposal description too short (min 50 characters)"@
    } else {
        "Proposal description too long (max 10000 characters)"@
    }
}

/// Checks a proposal description: rejects a blank text, then one under
/// 50 bytes, then one over 10,000 bytes.
pub fn validate_proposal_description(description: &str) -> (r: Result<(), String>)
    ensures
        r is Ok <==> description_ok(description@),
        !description_ok(description@) ==> (r matches Err(e)
            && e@ == description_error_text(description@)),
{
    if str_is_blank(description) {
        return Err("Proposal description cannot be empty".to_owned());
    }
    if description.as_bytes().len() < 50 {
        return Err("Proposal description too short (min 50 characters)".to_owned());
    }
    if description.as_bytes().len() > 10_000 {
        return Err("Proposal description too long (max 10000 characters)".to_owned());
    }
    Ok(())
}

/// A voting window must last between 1 hour and 7 days.
pub fn validate_voting_duration(duration_hours: u64) -> (r: Result<(), String>)
    ensures
        r is Ok <==> 1 <= duration_hours <= 168,
        r matches Err(e) ==> e@ == "Voting duration must be between 1 hour and 7 days"@,
{
    if duration_hours < 1 || duration_hours > 168 {
        return Err("Voting duration must be between 1 hour and 7 days".to_owned());
    }
    Ok(())
}

/// The percentage of eligible voters whose participation a proposal of
/// the given type needs before it may conclude early.
pub open spec fn quorum_percentage(proposal_type: ProposalType) -> u32 {
    match proposal_type {
        ProposalType::EmergencyIntervention => 75,
        ProposalType::VerifyArtifact | ProposalType::DisputeArtifact => 60,
        ProposalType::GrantUserRole | ProposalType::RevokeUserRole => 70,
        _ => 50,
    }
}

/// Derives the quorum for a proposal: the type-dependent percentage of
/// the eligible voters, truncated.
pub fn calculate_quorum(total_eligible_voters: u32, proposal_type: &ProposalType) -> (r: u32)
    ensures
        r == total_eligible_voters * quorum_percentage(*proposal_type) / 100,
{
    let pct: u64 = match proposal_type {
        ProposalType::EmergencyIntervention => 75,
        ProposalType::VerifyArtifact | ProposalType::DisputeArtifact => 60,
        ProposalType::GrantUserRole | ProposalType::RevokeUserRole => 70,
        _ => 50,
    };
    let scaled: u64 = (total_eligible_voters as u64) * pct / 100;
    proof {
        assert(scaled <= total_eligible_voters) by (nonlinear_arith)
            requires
                scaled == (total_eligible_voters as u64) * pct / 100 && pct <= 75,
        ;
    }
    scaled as u32
}

/// The moment a voting window closes: `duration_hours` after `now`.
pub fn calculate_voting_deadline(now: u64, duration_hours: u64) -> (r: u64)
    requires
        now + duration_hours * NS_PER_HOUR <= u64::MAX,
    ensures
        r == now + duration_hours * NS_PER_HOUR,
{
    now + duration_hours * NS_PER_HOUR
}

/// Whether the given deadline lies strictly in the past.
pub fn is_voting_deadline_passed(deadline: u64, now: u64) -> (r: bool)
    ensures
        r == (now > deadline),
{
    now > deadline
}

} // verus!
