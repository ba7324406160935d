//! The keyed store of envelopes and of the records of who claimed from them.
use crate::distribution::withdrawable;
use crate::errors::LifafaError;
use crate::flows::{claim, claim_outcome, create, Terms};
use crate::guard::check_authority;
use crate::identity::Identity;
use crate::states::{Lifafa, UserClaim};
use vstd::prelude::*;

verus! {

/// An envelope together with its escrow.
pub struct Envelope {
    /// The envelope's record.
    pub lifafa: Lifafa,
    /// What the escrow holds: the reserve and what is left of the pool.
    pub balance: u64,
}

/// The record of one claimant's claim on one envelope.
#[derive(Clone, Copy, Debug)]
pub struct ClaimRecord {
    /// The envelope claimed from.
    pub envelope_id: u64,
    /// Who claimed.
    pub claimant: Identity,
    /// What the claim paid.
    pub claim: UserClaim,
}

/// Whether some envelope in `envelopes` is named `id`.
pub open spec fn has_envelope(envelopes: Seq<Envelope>, id: u64) -> bool {
    exists|i: int| 0 <= i < envelopes.len() && #[trigger] envelopes[i].lifafa.id == id
}

/// The place of an envelope named `id` in `envelopes`, where there is one.
pub open spec fn position(envelopes: Seq<Envelope>, id: u64) -> int {
    choose|i: int| 0 <= i < envelopes.len() && #[trigger] envelopes[i].lifafa.id == id
}

/// Whether `records` holds a record of `claimant` for the envelope `id`.
pub open spec fn has_record(records: Seq<ClaimRecord>, id: u64, claimant: Identity) -> bool {
    exists|j: int|
        0 <= j < records.len() && #[trigger] records[j].envelope_id == id && records[j].claimant
            == claimant
}

/// The claim that `records` holds of `claimant` for the envelope `id`; the
/// record of one who has not claimed where there is none.
pub open spec fn record_of(records: Seq<ClaimRecord>, id: u64, claimant: Identity) -> UserClaim {
    if has_record(records, id, claimant) {
        let j = choose|j: int|
            0 <= j < records.len() && #[trigger] records[j].envelope_id == id
                && records[j].claimant == claimant;
        records[j].claim
    } else {
        UserClaim { claimed: false, amount_claimed: 0 }
    }
}

/// The sum of what the records of the envelope `id` say was claimed.
pub open spec fn total_claimed(records: Seq<ClaimRecord>, id: u64) -> int
    decreases records.len(),
{
    if records.len() == 0 {
        0
    } else {
        total_claimed(records.drop_last(), id) + if records.last().envelope_id == id {
            records.last().claim.amount_claimed as int
        } else {
            0
        }
    }
}

/// The number of records of the envelope `id`.
pub open spec fn claims_recorded(records: Seq<ClaimRecord>, id: u64) -> int
    decreases records.len(),
{
    if records.len() == 0 {
        0
    } else {
        claims_recorded(records.drop_last(), id) + if records.last().envelope_id == id {
            1int
        } else {
            0
        }
    }
}

/// `records` without the records of the envelope `id`, the rest in order.
pub open spec fn without_envelope(records: Seq<ClaimRecord>, id: u64) -> Seq<ClaimRecord>
    decreases records.len(),
{
    if records.len() == 0 {
        records
    } else if records.last().envelope_id == id {
        without_envelope(records.drop_last(), id)
    } else {
        without_envelope(records.drop_last(), id).push(records.last())
    }
}

/// A record added at the end counts for its own envelope and for no other.
proof fn lemma_push_record(records: Seq<ClaimRecord>, record: ClaimRecord, id: u64)
    ensures
        total_claimed(records.push(record), id) == total_claimed(records, id)
            + if record.envelope_id == id {
            record.claim.amount_claimed as int
        } else {
            0
        },
        claims_recorded(records.push(record), id) == claims_recorded(records, id)
            + if record.envelope_id == id {
            1int
        } else {
            0
        },
{
    assert(records.push(record).drop_last() =~= records);
}

/// An envelope without records has nothing claimed.
proof fn lemma_no_records(records: Seq<ClaimRecord>, id: u64)
    requires
        forall|j: int| 0 <= j < records.len() ==> (#[trigger] records[j]).envelope_id != id,
    ensures
        total_claimed(records, id) == 0,
        claims_recorded(records, id) == 0,
    decreases records.len(),
{
    if records.len() > 0 {
        lemma_no_records(records.drop_last(), id);
    }
}

/// Taking the records of one envelope away leaves none of its own, keeps
/// every other record, adds none, and changes no other envelope's sums.
proof fn lemma_without_envelope(records: Seq<ClaimRecord>, id: u64)
    ensures
        forall|j: int|
            0 <= j < without_envelope(records, id).len() ==> (#[trigger] without_envelope(
                records,
                id,
            )[j]).envelope_id != id && records.contains(without_envelope(records, id)[j]),
        forall|other: u64|
            other != id ==> #[trigger] total_claimed(without_envelope(records, id), other)
                == total_claimed(records, other),
        forall|other: u64|
            other != id ==> #[trigger] claims_recorded(without_envelope(records, id), other)
                == claims_recorded(records, other),
        forall|i: int, j: int|
            0 <= i < j < without_envelope(records, id).len() ==> exists|a: int, b: int|
                0 <= a < b < records.len() && records[a] == #[trigger] without_envelope(
                    records,
                    id,
                )[i] && records[b] == #[trigger] without_envelope(records, id)[j],
    decreases records.len(),
{
    let kept = without_envelope(records, id);
    if records.len() > 0 {
        let front = records.drop_last();
        let kept_front = without_envelope(front, id);
        lemma_without_envelope(front, id);
        assert forall|j: int| 0 <= j < kept.len() implies (#[trigger] kept[j]).envelope_id != id
            && records.contains(kept[j]) by {
            if j < kept_front.len() {
                assert(kept[j] == kept_front[j]);
                assert(front.contains(kept_front[j]));
                let k = choose|k: int| 0 <= k < front.len() && front[k] == kept_front[j];
                assert(records[k] == kept[j]);
            } else {
                assert(records[records.len() - 1] == kept[j]);
            }
        }
        assert forall|other: u64| other != id implies #[trigger] total_claimed(kept, other)
            == total_claimed(records, other) by {
            if records.last().envelope_id != id {
                lemma_push_record(kept_front, records.last(), other);
            }
        }
        assert forall|other: u64| other != id implies #[trigger] claims_recorded(kept, other)
            == claims_recorded(records, other) by {
            if records.last().envelope_id != id {
                lemma_push_record(kept_front, records.last(), other);
            }
        }
        assert forall|i: int, j: int| 0 <= i < j < kept.len() implies exists|a: int, b: int|
            0 <= a < b < records.len() && records[a] == #[trigger] kept[i] && records[b]
                == #[trigger] kept[j] by {
            if j < kept_front.len() {
                assert(kept[i] == kept_front[i] && kept[j] == kept_front[j]);
                let (a, b) = choose|a: int, b: int|
                    0 <= a < b < front.len() && front[a] == kept_front[i] && front[b]
                        == kept_front[j];
                assert(records[a] == kept[i] && records[b] == kept[j]);
            } else {
                assert(kept[i] == kept_front[i]);
                assert(front.contains(kept_front[i]));
                let a = choose|a: int| 0 <= a < front.len() && front[a] == kept_front[i];
                let b = records.len() - 1;
                assert(records[a] == kept[i] && records[b] == kept[j]);
            }
        }
    }
}

/// A store stays well formed when a claim is paid from one of its envelopes
/// to a claimant it has no record of.
proof fn lemma_claim_keeps_wf(
    before: Registry,
    after: Registry,
    i: int,
    amount: u64,
    added: ClaimRecord,
)
    requires
        before.wf(),
        0 <= i < before.envelopes@.len(),
        after.reserve == before.reserve,
        after.envelopes@.len() == before.envelopes@.len(),
        forall|k: int|
            0 <= k < before.envelopes@.len() && k != i ==> after.envelopes@[k]
                == before.envelopes@[k],
        after.envelopes@[i].lifafa == (Lifafa {
            claims: (before.envelopes@[i].lifafa.claims + 1) as u64,
            ..before.envelopes@[i].lifafa
        }),
        after.envelopes@[i].balance == before.envelopes@[i].balance - amount,
        after.records@ == before.records@.push(added),
        added.envelope_id == before.envelopes@[i].lifafa.id,
        added.claim == (UserClaim { claimed: true, amount_claimed: amount }),
        !has_record(before.records@, added.envelope_id, added.claimant),
        before.envelopes@[i].lifafa.claims < before.envelopes@[i].lifafa.max_claims,
        amount <= before.envelopes@[i].balance - before.reserve,
    ensures
        after.wf(),
{
    let old_envelopes = before.envelopes@;
    let envelopes = after.envelopes@;
    let old_records = before.records@;
    let records = after.records@;
    assert forall|a: int, b: int| 0 <= a < b < envelopes.len() implies
        #[trigger] envelopes[a].lifafa.id != #[trigger] envelopes[b].lifafa.id by {
        assert(envelopes[a].lifafa.id == old_envelopes[a].lifafa.id);
        assert(envelopes[b].lifafa.id == old_envelopes[b].lifafa.id);
    }
    assert forall|a: int, b: int| 0 <= a < b < records.len() implies !(
        #[trigger] records[a].envelope_id == #[trigger] records[b].envelope_id
        && records[a].claimant == records[b].claimant) by {
        if b < old_records.len() {
            assert(records[a] == old_records[a] && records[b] == old_records[b]);
        } else {
            assert(records[a] == old_records[a]);
            assert(records[b] == added);
            if old_records[a].envelope_id == added.envelope_id && old_records[a].claimant
                == added.claimant {
                assert(has_record(old_records, added.envelope_id, added.claimant));
            }
        }
    }
    assert forall|j: int| 0 <= j < records.len() implies (#[trigger] records[j]).claim.claimed
        && has_envelope(envelopes, records[j].envelope_id) by {
        if j < old_records.len() {
            assert(records[j] == old_records[j]);
            let k = position(old_envelopes, old_records[j].envelope_id);
            assert(envelopes[k].lifafa.id == old_envelopes[k].lifafa.id);
        } else {
            assert(envelopes[i].lifafa.id == added.envelope_id);
        }
    }
    assert forall|k: int| 0 <= k < envelopes.len() implies after.balanced(
        #[trigger] envelopes[k],
    ) by {
        assert(before.balanced(old_envelopes[k]));
        lemma_push_record(old_records, added, old_envelopes[k].lifafa.id);
        if k != i {
            assert(envelopes[k] == old_envelopes[k]);
            assert(old_envelopes[k].lifafa.id != old_envelopes[i].lifafa.id);
        }
    }
}

/// A store stays well formed when an envelope under a new identifier, with
/// no claim made and an escrow of the reserve and the deposit, is added.
proof fn lemma_create_keeps_wf(before: Registry, after: Registry)
    requires
        before.wf(),
        after.reserve == before.reserve,
        after.records@ == before.records@,
        after.envelopes@.len() == before.envelopes@.len() + 1,
        after.envelopes@.drop_last() == before.envelopes@,
        !has_envelope(before.envelopes@, after.envelopes@.last().lifafa.id),
        after.envelopes@.last().lifafa.wf(),
        after.envelopes@.last().lifafa.claims == 0,
        after.envelopes@.last().balance == after.reserve + after.envelopes@.last().lifafa.amount,
    ensures
        after.wf(),
{
    let old_envelopes = before.envelopes@;
    let envelopes = after.envelopes@;
    let records = after.records@;
    let added = envelopes.last();
    let id = added.lifafa.id;
    assert forall|k: int| 0 <= k < old_envelopes.len() implies envelopes[k] == old_envelopes[k] by {
        assert(envelopes.drop_last()[k] == envelopes[k]);
    }
    assert forall|j: int| 0 <= j < records.len() implies (#[trigger] records[j]).envelope_id
        != id && has_envelope(envelopes, records[j].envelope_id) by {
        let k = position(old_envelopes, records[j].envelope_id);
        assert(envelopes[k].lifafa.id == records[j].envelope_id);
    }
    lemma_no_records(records, id);
    assert forall|a: int, b: int| 0 <= a < b < envelopes.len() implies
        #[trigger] envelopes[a].lifafa.id != #[trigger] envelopes[b].lifafa.id by {
        assert(envelopes[a] == old_envelopes[a]);
        if b < old_envelopes.len() {
            assert(envelopes[b] == old_envelopes[b]);
        }
    }
    assert forall|k: int| 0 <= k < envelopes.len() implies after.balanced(
        #[trigger] envelopes[k],
    ) by {
        if k < old_envelopes.len() {
            assert(before.balanced(old_envelopes[k]));
        }
    }
}

/// A store stays well formed when one of its envelopes leaves it together
/// with the records of the claims on it, and the envelope's identifier is
/// then free.
proof fn lemma_retire_keeps_wf(before: Registry, after: Registry, i: int)
    requires
        before.wf(),
        0 <= i < before.envelopes@.len(),
        after.reserve == before.reserve,
        after.envelopes@ == before.envelopes@.remove(i),
        after.records@ == without_envelope(before.records@, before.envelopes@[i].lifafa.id),
    ensures
        after.wf(),
        !has_envelope(after.envelopes@, before.envelopes@[i].lifafa.id),
{
    let old_envelopes = before.envelopes@;
    let envelopes = after.envelopes@;
    let old_records = before.records@;
    let records = after.records@;
    let id = old_envelopes[i].lifafa.id;
    lemma_without_envelope(old_records, id);
    assert forall|k: int| 0 <= k < envelopes.len() implies #[trigger] envelopes[k].lifafa.id != id
        && after.balanced(envelopes[k]) by {
        let k0 = if k < i { k } else { k + 1 };
        assert(envelopes[k] == old_envelopes[k0]);
        assert(before.balanced(old_envelopes[k0]));
    }
    assert forall|a: int, b: int| 0 <= a < b < envelopes.len() implies
        #[trigger] envelopes[a].lifafa.id != #[trigger] envelopes[b].lifafa.id by {
        let a0 = if a < i { a } else { a + 1 };
        let b0 = if b < i { b } else { b + 1 };
        assert(envelopes[a] == old_envelopes[a0] && envelopes[b] == old_envelopes[b0]);
    }
    assert forall|n: int| 0 <= n < records.len() implies (#[trigger] records[n]).claim.claimed
        && has_envelope(envelopes, records[n].envelope_id) by {
        assert(old_records.contains(records[n]));
        let m = choose|m: int| 0 <= m < old_records.len() && old_records[m] == records[n];
        let k0 = position(old_envelopes, old_records[m].envelope_id);
        let k = if k0 < i { k0 } else { k0 - 1 };
        assert(envelopes[k] == old_envelopes[k0]);
    }
    assert forall|a: int, b: int| 0 <= a < b < records.len() implies !(
        #[trigger] records[a].envelope_id == #[trigger] records[b].envelope_id
        && records[a].claimant == records[b].claimant) by {
        let (a0, b0) = choose|a0: int, b0: int|
            0 <= a0 < b0 < old_records.len() && old_records[a0] == records[a] && old_records[b0]
                == records[b];
    }
}

/// The store: every envelope that was created and not deleted, under its
/// identifier, and one record for each claim made on any of them.
pub struct Registry {
    /// The envelopes, in the order of their creation.
    pub envelopes: Vec<Envelope>,
    /// The claim records, in the order of the claims.
    pub records: Vec<ClaimRecord>,
    /// What every escrow must keep for its record to stay alive.
    pub reserve: u64,
}

impl Registry {
    /// What holds of a store between operations:
    /// no two envelopes share an identifier and no two records a claimant
    /// and envelope; every record is marked and belongs to an envelope in
    /// the store; and of every envelope, its own invariant holds, its
    /// escrow covers the reserve, what is left of its pool and what its
    /// records say was claimed add up to the deposit, and it counts as many
    /// claims as it has records.
    pub open spec fn wf(&self) -> bool {
        &&& forall|i: int, j: int|
            0 <= i < j < self.envelopes@.len() ==> #[trigger] self.envelopes@[i].lifafa.id
                != #[trigger] self.envelopes@[j].lifafa.id
        &&& forall|i: int, j: int|
            0 <= i < j < self.records@.len() ==> !(#[trigger] self.records@[i].envelope_id
                == #[trigger] self.records@[j].envelope_id && self.records@[i].claimant
                == self.records@[j].claimant)
        &&& forall|j: int|
            0 <= j < self.records@.len() ==> (#[trigger] self.records@[j]).claim.claimed
                && has_envelope(self.envelopes@, self.records@[j].envelope_id)
        &&& forall|i: int|
            0 <= i < self.envelopes@.len() ==> self.balanced(#[trigger] self.envelopes@[i])
    }

    /// Whether `envelope` agrees with the records and the reserve.
    pub open spec fn balanced(&self, envelope: Envelope) -> bool {
        &&& envelope.lifafa.wf()
        &&& envelope.balance >= self.reserve
        &&& envelope.balance - self.reserve + total_claimed(self.records@, envelope.lifafa.id)
            == envelope.lifafa.amount
        &&& envelope.lifafa.claims == claims_recorded(self.records@, envelope.lifafa.id)
    }

    /// An empty store whose escrows keep `reserve`.
    pub fn new(reserve: u64) -> (registry: Registry)
        ensures
            registry.wf(),
            registry.envelopes@.len() == 0,
            registry.records@.len() == 0,
            registry.reserve == reserve,
    {
        Registry { envelopes: Vec::new(), records: Vec::new(), reserve }
    }

    /// The place of the envelope named `id`, if the store holds it.
    fn find(&self, id: u64) -> (place: Option<usize>)
        ensures
            match place {
                Some(i) => i < self.envelopes@.len() && self.envelopes@[i as int].lifafa.id == id,
                None => !has_envelope(self.envelopes@, id),
            },
    {
        let mut i: usize = 0;
        while i < self.envelopes.len()
            invariant
                i <= self.envelopes@.len(),
                forall|k: int| 0 <= k < i ==> self.envelopes@[k].lifafa.id != id,
            decreases self.envelopes@.len() - i,
        {
            if self.envelopes[i].lifafa.id == id {
                return Some(i);
            }
            i += 1;
        }
        None
    }

    /// The envelope named `id`, or `NotFound`.
    pub fn lookup(&self, id: u64) -> (found: Result<&Envelope, LifafaError>)
        requires
            self.wf(),
        ensures
            match found {
                Ok(envelope) => has_envelope(self.envelopes@, id) && *envelope
                    == self.envelopes@[position(self.envelopes@, id)],
                Err(e) => e == LifafaError::NotFound && !has_envelope(self.envelopes@, id),
            },
    {
        match self.find(id) {
            Some(i) => Ok(&self.envelopes[i]),
            None => Err(LifafaError::NotFound),
        }
    }

    /// What the store records of `claimant` for the envelope `id`: the
    /// marked record of the claim, or the record of one who has not claimed.
    pub fn claim_record(&self, id: u64, claimant: &Identity) -> (record: UserClaim)
        requires
            self.wf(),
        ensures
            record == record_of(self.records@, id, *claimant),
            record.claimed == has_record(self.records@, id, *claimant),
    {
        let mut j: usize = 0;
        while j < self.records.len()
            invariant
                self.wf(),
                j <= self.records@.len(),
                forall|k: int|
                    0 <= k < j ==> !((#[trigger] self.records@[k]).envelope_id == id
                        && self.records@[k].claimant == *claimant),
            decreases self.records@.len() - j,
        {
            if self.records[j].envelope_id == id && self.records[j].claimant == *claimant {
                proof {
                    let records = self.records@;
                    let found = j as int;
                    assert(records[found].envelope_id == id && records[found].claimant
                        == *claimant);
                    let chosen = choose|c: int|
                        0 <= c < records.len() && #[trigger] records[c].envelope_id == id
                            && records[c].claimant == *claimant;
                    assert(chosen == found);
                }
                return self.records[j].claim;
            }
            j += 1;
        }
        UserClaim { claimed: false, amount_claimed: 0 }
    }

    /// Why the store cannot take a new envelope, if it cannot: an
    /// identifier already in the store is refused first, then terms that
    /// are not valid, then a deposit that the escrow cannot hold on top of
    /// the reserve.
    pub open spec fn creation_refusal(&self, terms: Terms) -> Option<LifafaError> {
        if has_envelope(self.envelopes@, terms.id) {
            Some(LifafaError::LifafaAlreadyExists)
        } else if terms.refusal() is Some {
            terms.refusal()
        } else if self.reserve + terms.amount > u64::MAX {
            Some(LifafaError::TransferFailed)
        } else {
            None
        }
    }

    /// Creates an envelope for `creator` at time `now`, on the given terms
    /// and in the token `mint` (zero for the native currency).
    ///
    /// On success the store holds the new envelope, with no claim made and
    /// an escrow of the reserve and the deposit, which the caller takes from
    /// the creator. On failure nothing changes.
    pub fn create(&mut self, creator: Identity, terms: Terms, mint: Identity, now: i64) -> (created:
        Result<(), LifafaError>)
        requires
            old(self).wf(),
        ensures
            final(self).wf(),
            final(self).reserve == old(self).reserve,
            final(self).records@ == old(self).records@,
            match created {
                Ok(()) => {
                    &&& old(self).creation_refusal(terms) is None
                    &&& final(self).envelopes@ == old(self).envelopes@.push(
                        Envelope {
                            lifafa: terms.opened(creator, mint, 0, now),
                            balance: (old(self).reserve + terms.amount) as u64,
                        },
                    )
                },
                Err(e) => {
                    &&& old(self).creation_refusal(terms) == Some(e)
                    &&& final(self).envelopes@ == old(self).envelopes@
                },
            },
    {
        if self.find(terms.id).is_some() {
            return Err(LifafaError::LifafaAlreadyExists);
        }
        let mut lifafa = Lifafa::default();
        let mut balance = self.reserve;
        create(&mut lifafa, &mut balance, terms, creator, mint, 0, now)?;
        self.envelopes.push(Envelope { lifafa, balance });
        proof {
            assert(self.envelopes@.drop_last() =~= old(self).envelopes@);
            lemma_create_keeps_wf(*old(self), *self);
        }
        Ok(())
    }

    /// What a claim by `claimant` on the envelope `id` comes to at time
    /// `now` and slot `slot`: `NotFound` where the store holds no such
    /// envelope, else what [`claim_outcome`] says of the envelope, of the
    /// claimant's record and of what its escrow holds above the reserve.
    pub open spec fn claim_outcome(&self, id: u64, claimant: Identity, now: i64, slot: u64)
        -> Result<u64, LifafaError> {
        if !has_envelope(self.envelopes@, id) {
            Err(LifafaError::NotFound)
        } else {
            let envelope = self.envelopes@[position(self.envelopes@, id)];
            claim_outcome(
                envelope.lifafa,
                record_of(self.records@, id, claimant),
                now,
                slot,
                withdrawable(envelope.balance, self.reserve),
            )
        }
    }

    /// Pays the claim of `claimant` on the envelope `id`, at time `now` and
    /// slot `slot`.
    ///
    /// On success the share has left the envelope's escrow, the claim is
    /// counted, and a record of it is added to the store; the share is
    /// returned for the caller to hand to the claimant. On failure nothing
    /// changes. No record is ever taken away or changed by a claim: who has
    /// claimed once stays marked, whoever claims next.
    pub fn claim(&mut self, id: u64, claimant: Identity, now: i64, slot: u64) -> (paid: Result<
        u64,
        LifafaError,
    >)
        requires
            old(self).wf(),
        ensures
            final(self).wf(),
            final(self).reserve == old(self).reserve,
            paid == old(self).claim_outcome(id, claimant, now, slot),
            match paid {
                Ok(amount) => {
                    let i = position(old(self).envelopes@, id);
                    let before = old(self).envelopes@[i];
                    &&& has_envelope(old(self).envelopes@, id)
                    &&& amount <= before.balance - old(self).reserve
                    &&& final(self).envelopes@ == old(self).envelopes@.update(
                        i,
                        Envelope {
                            lifafa: Lifafa {
                                claims: (before.lifafa.claims + 1) as u64,
                                ..before.lifafa
                            },
                            balance: (before.balance - amount) as u64,
                        },
                    )
                    &&& final(self).records@ == old(self).records@.push(
                        ClaimRecord {
                            envelope_id: id,
                            claimant,
                            claim: UserClaim { claimed: true, amount_claimed: amount },
                        },
                    )
                },
                Err(_) => {
                    &&& final(self).envelopes@ == old(self).envelopes@
                    &&& final(self).records@ == old(self).records@
                },
            },
    {
        let i = match self.find(id) {
            Some(i) => i,
            None => {
                return Err(LifafaError::NotFound);
            },
        };
        assert(position(self.envelopes@, id) == i);
        let mut record = self.claim_record(id, &claimant);
        match self.pay(i, &mut record, now, slot) {
            Ok(amount) => {
                let added = ClaimRecord { envelope_id: id, claimant, claim: record };
                self.records.push(added);
                proof {
                    lemma_claim_keeps_wf(*old(self), *self, i as int, amount, added);
                }
                Ok(amount)
            },
            Err(e) => Err(e),
        }
    }

    /// Pays a claim out of the envelope at place `i` to the holder of
    /// `record`, and marks the record.
    fn pay(&mut self, i: usize, record: &mut UserClaim, now: i64, slot: u64) -> (paid: Result<
        u64,
        LifafaError,
    >)
        requires
            i < old(self).envelopes@.len(),
        ensures
            final(self).reserve == old(self).reserve,
            final(self).records@ == old(self).records@,
            paid == claim_outcome(
                old(self).envelopes@[i as int].lifafa,
                *old(record),
                now,
                slot,
                withdrawable(old(self).envelopes@[i as int].balance, old(self).reserve),
            ),
            match paid {
                Ok(amount) => {
                    let before = old(self).envelopes@[i as int];
                    &&& amount <= withdrawable(before.balance, old(self).reserve)
                    &&& *final(record) == (UserClaim { claimed: true, amount_claimed: amount })
                    &&& final(self).envelopes@ == old(self).envelopes@.update(
                        i as int,
                        Envelope {
                            lifafa: Lifafa {
                                claims: (before.lifafa.claims + 1) as u64,
                                ..before.lifafa
                            },
                            balance: (before.balance - amount) as u64,
                        },
                    )
                },
                Err(_) => {
                    &&& final(self).envelopes@ == old(self).envelopes@
                    &&& *final(record) == *old(record)
                },
            },
    {
        let reserve = self.reserve;
        let envelope = &mut self.envelopes[i];
        let paid = claim(&mut envelope.lifafa, record, &mut envelope.balance, reserve, now, slot);
        assert(self.envelopes@ =~= old(self).envelopes@.update(
            i as int,
            self.envelopes@[i as int],
        ));
        paid
    }

    /// Why `by` cannot delete the envelope `id`, if they cannot: `NotFound`
    /// where the store holds no such envelope, `Unauthorized` where `by`
    /// did not create it.
    pub open spec fn deletion_refusal(&self, id: u64, by: Identity) -> Option<LifafaError> {
        if !has_envelope(self.envelopes@, id) {
            Some(LifafaError::NotFound)
        } else if by != self.envelopes@[position(self.envelopes@, id)].lifafa.owner {
            Some(LifafaError::Unauthorized)
        } else {
            None
        }
    }

    /// Deletes the envelope `id` for `by`, its creator.
    ///
    /// On success the envelope and the records of the claims on it have left
    /// the store, in which nothing else has changed; all that its escrow
    /// held is returned for the caller to hand to the creator. On failure
    /// nothing changes.
    pub fn retire(&mut self, id: u64, by: Identity) -> (returned: Result<u64, LifafaError>)
        requires
            old(self).wf(),
        ensures
            final(self).wf(),
            final(self).reserve == old(self).reserve,
            match returned {
                Ok(amount) => {
                    let i = position(old(self).envelopes@, id);
                    &&& old(self).deletion_refusal(id, by) is None
                    &&& amount == old(self).envelopes@[i].balance
                    &&& final(self).envelopes@ == old(self).envelopes@.remove(i)
                    &&& final(self).records@ == without_envelope(old(self).records@, id)
                    &&& !has_envelope(final(self).envelopes@, id)
                },
                Err(e) => {
                    &&& old(self).deletion_refusal(id, by) == Some(e)
                    &&& final(self).envelopes@ == old(self).envelopes@
                    &&& final(self).records@ == old(self).records@
                },
            },
    {
        let i = match self.find(id) {
            Some(i) => i,
            None => {
                return Err(LifafaError::NotFound);
            },
        };
        assert(position(self.envelopes@, id) == i);
        check_authority(&self.envelopes[i].lifafa, &by)?;
        let ghost records_before = self.records@;
        let removed = self.envelopes.remove(i);
        let mut kept: Vec<ClaimRecord> = Vec::new();
        let mut j: usize = 0;
        while j < self.records.len()
            invariant
                j <= self.records@.len(),
                self.records@ == records_before,
                kept@ == without_envelope(records_before.take(j as int), id),
            decreases self.records@.len() - j,
        {
            let record = self.records[j];
            proof {
                assert(records_before.take(j + 1).drop_last() =~= records_before.take(j as int));
            }
            if record.envelope_id != id {
                kept.push(record);
            }
            j += 1;
        }
        proof {
            assert(records_before.take(j as int) =~= records_before);
        }
        self.records = kept;
        proof {
            lemma_retire_keeps_wf(*old(self), *self, i as int);
        }
        Ok(removed.balance)
    }
}

} // verus!
