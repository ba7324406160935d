use red_envelope::flows::claim;
use red_envelope::{ClaimMode, Identity, Lifafa, LifafaError, Registry, Terms, UserClaim};

fn envelope(mode: ClaimMode, max_claims: u64) -> Lifafa {
    let mut lifafa = Lifafa::default();
    lifafa.id = 1;
    lifafa.owner = Identity::new([1u8; 32]);
    lifafa.creation_time = 1000;
    lifafa.time_limit = 500;
    lifafa.max_claims = max_claims;
    lifafa.amount = 10_000;
    lifafa.claim_mode = mode;
    lifafa
}

#[test]
fn random_claims_are_paid_less_than_what_can_be_withdrawn() {
    for slot in 0..300u64 {
        let mut lifafa = envelope(ClaimMode::Random, 1000);
        let mut balance = 10_050;
        let mut left = 10_000;
        for _ in 0..20 {
            let mut record = UserClaim::default();
            match claim(&mut lifafa, &mut record, &mut balance, 50, 1200, slot) {
                Ok(paid) => {
                    assert!(paid < left);
                    left -= paid;
                    assert_eq!(balance, 50 + left);
                }
                Err(e) => {
                    assert_eq!(e, LifafaError::DivisionByZero);
                    assert_eq!(left, 0);
                }
            }
        }
    }
}

#[test]
fn one_second_decides_between_paid_and_expired() {
    for (created, limit) in [(0i64, 0i64), (1000, 500), (-50, 20), (i64::MAX - 5, 4)] {
        let mut lifafa = envelope(ClaimMode::Equal, 10);
        lifafa.creation_time = created;
        lifafa.time_limit = limit;
        let mut balance = 100;
        let mut record = UserClaim::default();
        assert_eq!(
            claim(&mut lifafa, &mut record, &mut balance, 0, created + limit + 1, 3),
            Err(LifafaError::TimeLimitExpired)
        );
        assert_eq!(
            claim(&mut lifafa, &mut record, &mut balance, 0, created + limit, 3),
            Ok(10)
        );
    }
}

#[test]
fn marked_record_is_refused_whatever_the_slot_and_the_balance() {
    let mut lifafa = envelope(ClaimMode::Random, 10);
    let mut record = UserClaim { claimed: true, amount_claimed: 5 };
    for slot in 0..50u64 {
        for start in [0u64, 1, 500, u64::MAX] {
            let mut balance = start;
            assert_eq!(
                claim(&mut lifafa, &mut record, &mut balance, 0, 1100, slot),
                Err(LifafaError::AlreadyClaimed)
            );
            assert_eq!(balance, start);
        }
    }
    assert_eq!(record, UserClaim { claimed: true, amount_claimed: 5 });
    assert_eq!(lifafa.claims, 0);
}

#[test]
fn second_claim_of_a_full_envelope_reports_the_ceiling() {
    let mut registry = Registry::new(0);
    let terms = Terms {
        id: 1,
        amount: 100,
        time_limit: 500,
        max_claims: 1,
        owner_name: String::new(),
        desc: String::new(),
        claim_mode: ClaimMode::Equal,
    };
    registry.create(Identity::new([1u8; 32]), terms, Identity::default(), 1000).unwrap();
    let claimant = Identity::new([2u8; 32]);
    assert_eq!(registry.claim(1, claimant, 1001, 0), Ok(100));
    assert_eq!(registry.claim(1, claimant, 1001, 0), Err(LifafaError::MaxClaimsReached));
    assert_eq!(registry.claim(1, claimant, 1501, 0), Err(LifafaError::TimeLimitExpired));
}

#[test]
fn closed_envelope_stays_closed() {
    let mut lifafa = envelope(ClaimMode::Equal, 2);
    let mut balance = 100;
    for n in 0..5u8 {
        let mut record = UserClaim::default();
        let paid = claim(&mut lifafa, &mut record, &mut balance, 0, 1000 + n as i64, 0);
        assert_eq!(paid.is_ok(), n < 2);
    }
    assert_eq!(lifafa.claims, 2);
    assert_eq!(balance, 25);
}
