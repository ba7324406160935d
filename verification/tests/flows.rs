use red_envelope::flows::{claim, create, deposit, open, sweep};
use red_envelope::{ClaimMode, Identity, Lifafa, LifafaError, Terms, UserClaim};

fn owner() -> Identity {
    Identity::new([1u8; 32])
}

fn terms(max_claims: u64, mode: ClaimMode) -> Terms {
    Terms {
        id: 3,
        amount: 900,
        time_limit: 10,
        max_claims,
        owner_name: String::from("Mina"),
        desc: String::from("Eidi"),
        claim_mode: mode,
    }
}

#[test]
fn open_builds_an_unclaimed_envelope() {
    let lifafa = open(terms(3, ClaimMode::Equal), owner(), Identity::new([7u8; 32]), 250, 50).unwrap();
    assert_eq!(lifafa.id, 3);
    assert_eq!(lifafa.amount, 900);
    assert_eq!(lifafa.creation_time, 50);
    assert_eq!(lifafa.time_limit, 10);
    assert_eq!(lifafa.max_claims, 3);
    assert_eq!(lifafa.claims, 0);
    assert_eq!(lifafa.owner, owner());
    assert_eq!(lifafa.owner_name, "Mina");
    assert_eq!(lifafa.desc, "Eidi");
    assert_eq!(lifafa.mint_of_token_being_sent, Identity::new([7u8; 32]));
    assert_eq!(lifafa.bump, 250);
    assert_eq!(lifafa.claim_mode, ClaimMode::Equal);
}

#[test]
fn open_refuses_invalid_terms() {
    let mut bad = terms(3, ClaimMode::Equal);
    bad.owner_name = "x".repeat(33);
    assert!(matches!(
        open(bad, owner(), Identity::default(), 0, 0),
        Err(LifafaError::OwnerNameTooLong)
    ));
    let mut bad = terms(3, ClaimMode::Equal);
    bad.desc = "x".repeat(51);
    assert!(matches!(
        open(bad, owner(), Identity::default(), 0, 0),
        Err(LifafaError::DescriptionTooLong)
    ));
    assert!(matches!(
        open(terms(1001, ClaimMode::Equal), owner(), Identity::default(), 0, 0),
        Err(LifafaError::MaxClaimsLimitExceeded)
    ));
}

#[test]
fn deposit_adds_to_the_balance() {
    let mut balance = 40;
    assert_eq!(deposit(&mut balance, 2), Ok(()));
    assert_eq!(balance, 42);
    assert_eq!(deposit(&mut balance, 0), Ok(()));
    assert_eq!(balance, 42);
}

#[test]
fn deposit_that_overflows_is_refused() {
    let mut balance = u64::MAX - 1;
    assert_eq!(deposit(&mut balance, 2), Err(LifafaError::TransferFailed));
    assert_eq!(balance, u64::MAX - 1);
    assert_eq!(deposit(&mut balance, 1), Ok(()));
    assert_eq!(balance, u64::MAX);
}

#[test]
fn create_then_claim_then_sweep() {
    let mut lifafa = Lifafa::default();
    let mut balance = 100;
    assert_eq!(
        create(&mut lifafa, &mut balance, terms(3, ClaimMode::Equal), owner(), Identity::default(), 1, 50),
        Ok(())
    );
    assert_eq!(balance, 1000);
    let mut record = UserClaim::default();
    assert_eq!(claim(&mut lifafa, &mut record, &mut balance, 100, 60, 9), Ok(300));
    assert_eq!(balance, 700);
    assert_eq!(lifafa.claims, 1);
    assert_eq!(record, UserClaim { claimed: true, amount_claimed: 300 });
    assert_eq!(
        sweep(&mut lifafa, &mut balance, 3, &Identity::new([2u8; 32])),
        Err(LifafaError::Unauthorized)
    );
    assert_eq!(balance, 700);
    assert_eq!(sweep(&mut lifafa, &mut balance, 4, &owner()), Err(LifafaError::NotFound));
    assert_eq!(sweep(&mut lifafa, &mut balance, 3, &owner()), Ok(700));
    assert_eq!(balance, 0);
    assert!(lifafa.owner.is_default());
}

#[test]
fn create_in_a_used_record_fails() {
    let mut lifafa = Lifafa::default();
    let mut balance = 0;
    create(&mut lifafa, &mut balance, terms(3, ClaimMode::Equal), owner(), Identity::default(), 1, 50)
        .unwrap();
    assert_eq!(
        create(&mut lifafa, &mut balance, terms(3, ClaimMode::Equal), owner(), Identity::default(), 1, 50),
        Err(LifafaError::LifafaAlreadyExists)
    );
    assert_eq!(balance, 900);
}

#[test]
fn claim_with_a_ceiling_of_zero_is_always_refused() {
    let mut lifafa = Lifafa::default();
    let mut balance = 0;
    create(&mut lifafa, &mut balance, terms(0, ClaimMode::Equal), owner(), Identity::default(), 1, 50)
        .unwrap();
    let mut record = UserClaim::default();
    assert_eq!(
        claim(&mut lifafa, &mut record, &mut balance, 0, 50, 9),
        Err(LifafaError::MaxClaimsReached)
    );
    assert_eq!(balance, 900);
}

#[test]
fn claim_never_takes_the_balance_below_the_reserve() {
    for slot in 0..50u64 {
        let mut lifafa = Lifafa::default();
        let mut balance = 500;
        create(&mut lifafa, &mut balance, terms(5, ClaimMode::Random), owner(), Identity::default(), 1, 50)
            .unwrap();
        let mut record = UserClaim::default();
        let paid = claim(&mut lifafa, &mut record, &mut balance, 500, 55, slot).unwrap();
        assert!(paid < 900);
        assert_eq!(balance, 1400 - paid);
        assert!(balance > 500);
    }
}
