//! What holds of every envelope, whatever is done to it.
use crate::digest::{be_bytes, be_value, sha256};
use crate::distribution::{share, withdrawable};
use crate::errors::LifafaError;
use crate::flows::{claim_outcome, deletion_refusal, named_claim_outcome};
use crate::guard::{expired, phase_of, Phase};
use crate::helpers::mix;
use crate::identity::Identity;
use crate::registry::{
    has_envelope, has_record, position, record_of, total_claimed, ClaimRecord, Registry,
};
use crate::states::{ClaimMode, Lifafa, UserClaim};
use vstd::prelude::*;

verus! {

/// A claim that succeeds in `Random` mode pays less than what could be
/// withdrawn at that moment, and never a negative amount.
pub proof fn random_claim_pays_less_than_withdrawable(
    lifafa: Lifafa,
    record: UserClaim,
    now: i64,
    slot: u64,
    free: u64,
)
    requires
        lifafa.claim_mode == ClaimMode::Random,
        claim_outcome(lifafa, record, now, slot, free) is Ok,
    ensures
        0 <= claim_outcome(lifafa, record, now, slot, free)->Ok_0 < free,
{
    let mixed = mix(be_value(sha256(be_bytes(slot))) as u64) as int;
    assert(0 <= mixed % (free as int) < free) by (nonlinear_arith)
        requires
            free > 0,
            mixed >= 0,
    ;
}

/// A claim in either mode pays no more than what can be withdrawn, so an
/// escrow that covers its reserve still covers it afterwards.
pub proof fn claim_pays_no_more_than_withdrawable(
    lifafa: Lifafa,
    record: UserClaim,
    now: i64,
    slot: u64,
    balance: u64,
    reserve: u64,
)
    requires
        claim_outcome(lifafa, record, now, slot, withdrawable(balance, reserve)) is Ok,
    ensures
        claim_outcome(lifafa, record, now, slot, withdrawable(balance, reserve))->Ok_0
            <= withdrawable(balance, reserve),
        balance >= reserve ==> balance - claim_outcome(
            lifafa,
            record,
            now,
            slot,
            withdrawable(balance, reserve),
        )->Ok_0 >= reserve,
{
    let free = withdrawable(balance, reserve);
    match lifafa.claim_mode {
        ClaimMode::Random => {
            random_claim_pays_less_than_withdrawable(lifafa, record, now, slot, free);
        },
        ClaimMode::Equal => {
            let ceiling = lifafa.max_claims as int;
            assert(0 <= (free as int) / ceiling <= free) by (nonlinear_arith)
                requires
                    ceiling > 0,
                    free >= 0,
            ;
        },
    }
}

/// One second after the last second of the claim window every claim is
/// refused with `TimeLimitExpired`, whatever else holds of it.
pub proof fn claim_after_deadline_is_expired(
    lifafa: Lifafa,
    record: UserClaim,
    now: i64,
    slot: u64,
    free: u64,
)
    requires
        now == lifafa.creation_time + lifafa.time_limit + 1,
    ensures
        claim_outcome(lifafa, record, now, slot, free) == Err::<u64, LifafaError>(
            LifafaError::TimeLimitExpired,
        ),
{
}

/// At the last second of the claim window itself a claim is paid, provided
/// the claim ceiling is not reached, the claimant has not claimed, and the
/// share can be computed.
pub proof fn claim_at_deadline_is_paid(
    lifafa: Lifafa,
    record: UserClaim,
    now: i64,
    slot: u64,
    free: u64,
)
    requires
        now == lifafa.creation_time + lifafa.time_limit,
        lifafa.claims < lifafa.max_claims,
        !record.claimed,
        share(lifafa.claim_mode, slot, free, lifafa.max_claims) is Ok,
    ensures
        claim_outcome(lifafa, record, now, slot, free) is Ok,
        claim_outcome(lifafa, record, now, slot, free) == share(
            lifafa.claim_mode,
            slot,
            free,
            lifafa.max_claims,
        ),
{
}

/// A closed envelope pays no claim, and an active one refuses none for its
/// window or its ceiling.
pub proof fn closed_envelope_pays_nothing(
    lifafa: Lifafa,
    record: UserClaim,
    now: i64,
    slot: u64,
    free: u64,
)
    ensures
        phase_of(lifafa, now) == Phase::Closed ==> claim_outcome(lifafa, record, now, slot, free)
            is Err,
        phase_of(lifafa, now) == Phase::Closed <==> claim_outcome(lifafa, record, now, slot, free)
            == Err::<u64, LifafaError>(LifafaError::TimeLimitExpired) || claim_outcome(
            lifafa,
            record,
            now,
            slot,
            free,
        ) == Err::<u64, LifafaError>(LifafaError::MaxClaimsReached),
{
    if phase_of(lifafa, now) == Phase::Active {
        match lifafa.claim_mode {
            ClaimMode::Random => {},
            ClaimMode::Equal => {},
        }
    }
}

/// A closed envelope never opens again: not as time goes on, and not by a
/// claim, which only ever adds to the count of claims.
pub proof fn closed_envelope_stays_closed(lifafa: Lifafa, now: i64, later: i64, more_claims: u64)
    requires
        phase_of(lifafa, now) == Phase::Closed,
        later >= now,
        more_claims >= lifafa.claims,
    ensures
        phase_of(Lifafa { claims: more_claims, ..lifafa }, later) == Phase::Closed,
{
}

/// A claimant whose record is marked is never paid again: the claim fails,
/// and with `AlreadyClaimed` unless the window has closed or the ceiling is
/// reached, which are looked at first.
pub proof fn marked_claimant_is_refused(
    lifafa: Lifafa,
    record: UserClaim,
    now: i64,
    slot: u64,
    free: u64,
)
    requires
        record.claimed,
    ensures
        claim_outcome(lifafa, record, now, slot, free) is Err,
        !expired(lifafa, now) && lifafa.claims < lifafa.max_claims ==> claim_outcome(
            lifafa,
            record,
            now,
            slot,
            free,
        ) == Err::<u64, LifafaError>(LifafaError::AlreadyClaimed),
{
}

/// A record that a deletion has blanked holds no envelope any more: under
/// whatever identifier, every claim on it and every deletion of it is
/// refused with `NotFound`.
pub proof fn blank_record_is_unreachable(
    lifafa: Lifafa,
    record: UserClaim,
    id: u64,
    caller: Identity,
    now: i64,
    slot: u64,
    free: u64,
)
    requires
        lifafa.is_blank(),
    ensures
        named_claim_outcome(lifafa, record, id, now, slot, free) == Err::<u64, LifafaError>(
            LifafaError::NotFound,
        ),
        deletion_refusal(lifafa, id, caller) == Some(LifafaError::NotFound),
{
}

/// No sum of recorded claims is negative.
proof fn lemma_total_claimed_is_natural(records: Seq<ClaimRecord>, id: u64)
    ensures
        total_claimed(records, id) >= 0,
    decreases records.len(),
{
    if records.len() > 0 {
        lemma_total_claimed_is_natural(records.drop_last(), id);
    }
}

/// In a well-formed store, what the records of an envelope say was claimed
/// and what is left of its pool add up to what was deposited: the claims
/// never exceed the deposit, and the escrow never goes below the reserve.
pub proof fn claimed_never_exceeds_deposit(registry: Registry, id: u64)
    requires
        registry.wf(),
        has_envelope(registry.envelopes@, id),
    ensures
        ({
            let envelope = registry.envelopes@[position(registry.envelopes@, id)];
            &&& envelope.balance >= registry.reserve
            &&& total_claimed(registry.records@, id) + (envelope.balance - registry.reserve)
                == envelope.lifafa.amount
            &&& 0 <= total_claimed(registry.records@, id) <= envelope.lifafa.amount
            &&& envelope.lifafa.claims <= envelope.lifafa.max_claims
        }),
{
    let envelope = registry.envelopes@[position(registry.envelopes@, id)];
    assert(registry.balanced(envelope));
    assert(envelope.lifafa.id == id);
    lemma_total_claimed_is_natural(registry.records@, id);
}

/// In a well-formed store, the claimant of a recorded claim is refused on
/// claiming again from the same envelope: with `AlreadyClaimed` unless the
/// window has closed or the ceiling is reached, which are looked at first.
pub proof fn second_claim_is_refused(
    registry: Registry,
    id: u64,
    claimant: Identity,
    now: i64,
    slot: u64,
)
    requires
        registry.wf(),
        has_envelope(registry.envelopes@, id),
        has_record(registry.records@, id, claimant),
    ensures
        registry.claim_outcome(id, claimant, now, slot) is Err,
        ({
            let lifafa = registry.envelopes@[position(registry.envelopes@, id)].lifafa;
            !expired(lifafa, now) && lifafa.claims < lifafa.max_claims
                ==> registry.claim_outcome(id, claimant, now, slot) == Err::<u64, LifafaError>(
                LifafaError::AlreadyClaimed,
            )
        }),
{
    assert(record_of(registry.records@, id, claimant).claimed);
}

/// Records are only ever added at the end by `create` and `claim`, and a
/// recorded claim stays as it is whatever is added after it: claims by
/// others in between do not unmark a claimant.
pub proof fn recorded_claim_stays(
    earlier: Seq<ClaimRecord>,
    later: Registry,
    id: u64,
    claimant: Identity,
)
    requires
        later.wf(),
        earlier.is_prefix_of(later.records@),
        has_record(earlier, id, claimant),
    ensures
        has_record(later.records@, id, claimant),
        record_of(later.records@, id, claimant) == record_of(earlier, id, claimant),
{
    let records = later.records@;
    let j = choose|j: int|
        0 <= j < earlier.len() && #[trigger] earlier[j].envelope_id == id && earlier[j].claimant
            == claimant;
    assert(records[j] == earlier[j]);
    assert(records[j].envelope_id == id && records[j].claimant == claimant);
    let k = choose|k: int|
        0 <= k < records.len() && #[trigger] records[k].envelope_id == id && records[k].claimant
            == claimant;
    assert(k == j);
}

} // verus!
