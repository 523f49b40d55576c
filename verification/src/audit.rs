//! The audit sink: structured event records appended to an in-order
//! log, each carrying a content digest. Recording never fails the
//! operation that calls it. The digest is the engine's own FNV-1a
//! scheme over a structured input (event tag, actor, timestamp,
//! details); the sink treats it as an opaque content fingerprint, so
//! the particular scheme is a free choice of this library.

use vstd::prelude::*;
use vstd::utf8::encode_utf8;
use crate::types::{AuditEntry, AuditEventType, AuditSeverity, PrincipalId};
use crate::store::{IdCounters, get_next_id, AUDIT_ID_COUNTER};
use crate::hash::{hash_bytes, fnv1a, hex_str};

verus! {

/// A one-byte tag for each audited event kind, used in the digest
/// input.
pub open spec fn event_code(e: AuditEventType) -> u8 {
    match e {
        AuditEventType::UserRegistration => 0,
        AuditEventType::UserVerification => 1,
        AuditEventType::ArtifactSubmission => 2,
        AuditEventType::ArtifactVerification => 3,
        AuditEventType::ProposalCreation => 4,
        AuditEventType::VoteCast => 5,
        AuditEventType::NftIssued => 6,
        AuditEventType::DataModification => 7,
        AuditEventType::AccessGranted => 8,
        AuditEventType::SecurityEvent => 9,
        AuditEventType::SystemMaintenance => 10,
    }
}

/// The little-endian bytes of a 64-bit value.
pub open spec fn u64_le_bytes(n: u64) -> Seq<u8> {
    Seq::new(8, |i: int| ((n >> (8 * i) as u64) & 0xff) as u8)
}

/// What an audit entry's digest is computed over: the event tag, the
/// actor's identity bytes, the timestamp, and the details, separated
/// by colons.
pub open spec fn audit_hash_input(
    e: AuditEventType,
    actor: Seq<u8>,
    timestamp: u64,
    details: Seq<u8>,
) -> Seq<u8> {
    seq![event_code(e), 58u8] + actor + seq![58u8] + u64_le_bytes(timestamp) + seq![58u8] + details
}

/// The digest recorded with an audit entry.
pub open spec fn audit_hash(
    e: AuditEventType,
    actor: Seq<u8>,
    timestamp: u64,
    details: Seq<u8>,
) -> Seq<char> {
    hex_str(fnv1a(audit_hash_input(e, actor, timestamp, details)) as nat)
}

/// Appends a structured event record to the audit log, allocating its
/// id from the audit counter and digesting the event's content.
pub fn log_audit_event(
    log: &mut Vec<AuditEntry>,
    counters: &mut IdCounters,
    event_type: AuditEventType,
    actor: &PrincipalId,
    target_id: Option<u64>,
    details: String,
    severity: AuditSeverity,
    now: u64,
) -> (audit_id: u64)
    requires
        old(counters).wf(),
        old(counters).value_of(AUDIT_ID_COUNTER) < u64::MAX,
    ensures
        final(counters).wf(),
        final(counters).value_of(AUDIT_ID_COUNTER) == old(counters).value_of(AUDIT_ID_COUNTER)
            + 1,
        forall|k: u64|
            k != AUDIT_ID_COUNTER ==> #[trigger] final(counters).value_of(k) == old(
                counters).value_of(k),
        final(log)@ == old(log)@.push(final(log)@.last()),
        final(log)@.last().id == audit_id,
        audit_id == old(counters).value_of(AUDIT_ID_COUNTER) + 1,
        final(log)@.last().timestamp == now,
        final(log)@.last().event_type == event_type,
        final(log)@.last().actor.bytes() == actor.bytes(),
        final(log)@.last().target_id == target_id,
        final(log)@.last().details@ == details@,
        final(log)@.last().data_hash@ == audit_hash(event_type, actor.bytes(), now,
            encode_utf8(details@)),
        final(log)@.last().severity == severity,
{
    let audit_id = get_next_id(counters, AUDIT_ID_COUNTER);

    let code: u8 = match event_type {
        AuditEventType::UserRegistration => 0,
        AuditEventType::UserVerification => 1,
        AuditEventType::ArtifactSubmission => 2,
        AuditEventType::ArtifactVerification => 3,
        AuditEventType::ProposalCreation => 4,
        AuditEventType::VoteCast => 5,
        AuditEventType::NftIssued => 6,
        AuditEventType::DataModification => 7,
        AuditEventType::AccessGranted => 8,
        AuditEventType::SecurityEvent => 9,
        AuditEventType::SystemMaintenance => 10,
    };
    let mut input: Vec<u8> = Vec::new();
    input.push(code);
    input.push(58);
    input.extend_from_slice(actor.0.as_slice());
    input.push(58);
    let mut i: usize = 0;
    while i < 8
        invariant
            0 <= i <= 8,
            input@ == seq![event_code(event_type), 58u8] + actor.bytes() + seq![58u8]
                + u64_le_bytes(now).subrange(0, i as int),
        decreases 8 - i,
    {
        let b: u8 = ((now >> (8 * i as u64)) & 0xff) as u8;
        input.push(b);
        proof {
            assert(u64_le_bytes(now)[i as int] == b);
            assert(input@ =~= seq![event_code(event_type), 58u8] + actor.bytes() + seq![58u8]
                + u64_le_bytes(now).subrange(0, i as int + 1));
        }
        i = i + 1;
    }
    input.push(58);
    input.extend_from_slice(details.as_str().as_bytes());
    proof {
        assert(u64_le_bytes(now).subrange(0, 8) =~= u64_le_bytes(now));
        assert(input@ =~= audit_hash_input(event_type, actor.bytes(), now,
            encode_utf8(details@)));
    }
    let data_hash = hash_bytes(input.as_slice());

    let entry = AuditEntry {
        id: audit_id,
        timestamp: now,
        event_type,
        actor: actor.clone(),
        target_id,
        details,
        data_hash,
        severity,
    };
    log.push(entry);
    proof {
        assert(final(log)@ =~= old(log)@.push(final(log)@.last()));
    }
    audit_id
}

} // verus!
