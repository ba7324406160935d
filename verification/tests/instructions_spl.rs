use red_envelope::{
    claim_spl_lifafa, create_spl_lifafa, delete_spl_lifafa, ClaimMode, ClaimSplLifafa,
    CreateSplLifafa, DeleteSplLifafa, Identity, Lifafa, LifafaError, UserClaim,
};

fn creator() -> Identity {
    Identity::new([1u8; 32])
}

fn mint() -> Identity {
    Identity::new([9u8; 32])
}

fn claimant(n: u8) -> Identity {
    Identity::new([n; 32])
}

fn fresh() -> CreateSplLifafa {
    CreateSplLifafa {
        lifafa: Lifafa::default(),
        lifafa_bump: 254,
        mint: mint(),
        vault_amount: 0,
        signer: creator(),
    }
}

fn created(amount: u64, max_claims: u64, mode: u8) -> CreateSplLifafa {
    let mut ctx = fresh();
    let made = create_spl_lifafa(
        &mut ctx,
        7,
        amount,
        60,
        max_claims,
        String::from("Asha"),
        String::from("Happy Diwali"),
        mode,
        100,
    );
    assert_eq!(made, Ok(()));
    ctx
}

fn claim_ctx(from: &CreateSplLifafa, who: u8) -> ClaimSplLifafa {
    ClaimSplLifafa {
        lifafa: from.lifafa.clone(),
        user_claim: UserClaim::default(),
        vault_amount: from.vault_amount,
        signer: claimant(who),
    }
}

#[test]
fn create_spl_fills_the_record_and_the_vault() {
    let ctx = created(1000, 2, 1);
    assert_eq!(ctx.lifafa.id, 7);
    assert_eq!(ctx.lifafa.creation_time, 100);
    assert_eq!(ctx.lifafa.time_limit, 60);
    assert_eq!(ctx.lifafa.owner, creator());
    assert_eq!(ctx.lifafa.owner_name, "Asha");
    assert_eq!(ctx.lifafa.claims, 0);
    assert_eq!(ctx.lifafa.max_claims, 2);
    assert_eq!(ctx.lifafa.mint_of_token_being_sent, mint());
    assert_eq!(ctx.lifafa.amount, 1000);
    assert_eq!(ctx.lifafa.desc, "Happy Diwali");
    assert_eq!(ctx.lifafa.bump, 254);
    assert_eq!(ctx.lifafa.claim_mode, ClaimMode::Equal);
    assert_eq!(ctx.vault_amount, 1000);
    assert_eq!(ctx.signer, creator());
    assert_eq!(ctx.mint, mint());
}

#[test]
fn create_spl_adds_to_what_the_vault_held() {
    let mut ctx = fresh();
    ctx.vault_amount = 5;
    let made =
        create_spl_lifafa(&mut ctx, 1, 20, 60, 2, String::new(), String::new(), 0, 100);
    assert_eq!(made, Ok(()));
    assert_eq!(ctx.vault_amount, 25);
    assert_eq!(ctx.lifafa.claim_mode, ClaimMode::Random);
}

#[test]
fn create_spl_refuses_an_unknown_mode_first() {
    let mut ctx = created(1000, 2, 1);
    let made = create_spl_lifafa(
        &mut ctx,
        8,
        10,
        60,
        5000,
        "n".repeat(40),
        "d".repeat(60),
        2,
        100,
    );
    assert_eq!(made, Err(LifafaError::InvalidClaimMode));
    assert_eq!(ctx.lifafa.id, 7);
    assert_eq!(ctx.vault_amount, 1000);
}

#[test]
fn create_spl_refuses_a_record_in_use() {
    let mut ctx = created(1000, 2, 1);
    let made = create_spl_lifafa(
        &mut ctx,
        8,
        10,
        60,
        5000,
        "n".repeat(40),
        "d".repeat(60),
        1,
        200,
    );
    assert_eq!(made, Err(LifafaError::LifafaAlreadyExists));
    assert_eq!(ctx.lifafa.id, 7);
    assert_eq!(ctx.lifafa.amount, 1000);
    assert_eq!(ctx.lifafa.owner_name, "Asha");
    assert_eq!(ctx.vault_amount, 1000);
}

#[test]
fn create_spl_refuses_a_long_owner_name_before_a_long_description() {
    let mut ctx = fresh();
    let made = create_spl_lifafa(
        &mut ctx,
        8,
        10,
        60,
        5000,
        "n".repeat(33),
        "d".repeat(51),
        1,
        200,
    );
    assert_eq!(made, Err(LifafaError::OwnerNameTooLong));
    assert!(ctx.lifafa.owner.is_default());
    assert_eq!(ctx.vault_amount, 0);
}

#[test]
fn create_spl_refuses_a_long_description_before_a_high_ceiling() {
    let mut ctx = fresh();
    let made = create_spl_lifafa(
        &mut ctx,
        8,
        10,
        60,
        5000,
        "n".repeat(32),
        "d".repeat(51),
        1,
        200,
    );
    assert_eq!(made, Err(LifafaError::DescriptionTooLong));
    assert!(ctx.lifafa.owner.is_default());
}

#[test]
fn create_spl_refuses_a_ceiling_above_a_thousand() {
    let mut ctx = fresh();
    ctx.vault_amount = u64::MAX;
    let made = create_spl_lifafa(
        &mut ctx,
        8,
        10,
        60,
        1001,
        "n".repeat(32),
        "d".repeat(50),
        1,
        200,
    );
    assert_eq!(made, Err(LifafaError::MaxClaimsLimitExceeded));
    assert!(ctx.lifafa.owner.is_default());
    assert_eq!(ctx.vault_amount, u64::MAX);
}

#[test]
fn create_spl_accepts_the_limits_themselves() {
    let mut ctx = fresh();
    let made = create_spl_lifafa(
        &mut ctx,
        8,
        10,
        60,
        1000,
        "n".repeat(32),
        "d".repeat(50),
        1,
        200,
    );
    assert_eq!(made, Ok(()));
    assert_eq!(ctx.lifafa.max_claims, 1000);
}

#[test]
fn create_spl_refuses_a_deposit_the_vault_cannot_hold() {
    let mut ctx = fresh();
    ctx.vault_amount = u64::MAX - 9;
    let made =
        create_spl_lifafa(&mut ctx, 8, 10, 60, 2, String::new(), String::new(), 1, 200);
    assert_eq!(made, Err(LifafaError::TransferFailed));
    assert!(ctx.lifafa.owner.is_default());
    assert_eq!(ctx.vault_amount, u64::MAX - 9);
    let made = create_spl_lifafa(&mut ctx, 8, 9, 60, 2, String::new(), String::new(), 1, 200);
    assert_eq!(made, Ok(()));
    assert_eq!(ctx.vault_amount, u64::MAX);
}

#[test]
fn equal_split_pays_half_then_half_of_the_rest() {
    let made = created(1000, 2, 1);
    let mut first = claim_ctx(&made, 2);
    assert_eq!(claim_spl_lifafa(&mut first, 7, 110, 5), Ok(500));
    assert_eq!(first.vault_amount, 500);
    assert_eq!(first.lifafa.claims, 1);
    assert_eq!(first.user_claim, UserClaim { claimed: true, amount_claimed: 500 });

    let mut second = ClaimSplLifafa {
        lifafa: first.lifafa.clone(),
        user_claim: UserClaim::default(),
        vault_amount: first.vault_amount,
        signer: claimant(3),
    };
    assert_eq!(claim_spl_lifafa(&mut second, 7, 120, 6), Ok(250));
    assert_eq!(second.vault_amount, 250);
    assert_eq!(second.lifafa.claims, 2);
    assert_eq!(second.user_claim, UserClaim { claimed: true, amount_claimed: 250 });
}

#[test]
fn single_claim_envelope_refuses_a_second_claimant() {
    let made = created(1000, 1, 1);
    let mut first = claim_ctx(&made, 2);
    assert_eq!(claim_spl_lifafa(&mut first, 7, 110, 5), Ok(1000));
    let mut second = ClaimSplLifafa {
        lifafa: first.lifafa.clone(),
        user_claim: UserClaim::default(),
        vault_amount: first.vault_amount,
        signer: claimant(3),
    };
    assert_eq!(
        claim_spl_lifafa(&mut second, 7, 111, 6),
        Err(LifafaError::MaxClaimsReached)
    );
    assert_eq!(second.vault_amount, 0);
    assert_eq!(second.lifafa.claims, 1);
    assert_eq!(second.user_claim, UserClaim::default());
}

#[test]
fn claim_spl_random_pays_the_mixed_hash_of_the_slot() {
    let made = created(1000, 5, 0);
    let mut ctx = claim_ctx(&made, 2);
    assert_eq!(claim_spl_lifafa(&mut ctx, 7, 110, 42), Ok(773));
    assert_eq!(ctx.vault_amount, 227);
    assert_eq!(ctx.user_claim, UserClaim { claimed: true, amount_claimed: 773 });
    assert_eq!(ctx.lifafa.claims, 1);
}

#[test]
fn claim_spl_random_from_an_empty_vault_is_a_division_by_zero() {
    let made = created(0, 5, 0);
    let mut ctx = claim_ctx(&made, 2);
    assert_eq!(claim_spl_lifafa(&mut ctx, 7, 110, 42), Err(LifafaError::DivisionByZero));
    assert_eq!(ctx.lifafa.claims, 0);
    assert_eq!(ctx.user_claim, UserClaim::default());
}

#[test]
fn claim_spl_equal_from_an_empty_vault_pays_nothing_and_counts() {
    let made = created(0, 5, 1);
    let mut ctx = claim_ctx(&made, 2);
    assert_eq!(claim_spl_lifafa(&mut ctx, 7, 110, 42), Ok(0));
    assert_eq!(ctx.lifafa.claims, 1);
    assert_eq!(ctx.user_claim, UserClaim { claimed: true, amount_claimed: 0 });
}

#[test]
fn claim_spl_twice_is_already_claimed() {
    let made = created(1000, 5, 1);
    let mut ctx = claim_ctx(&made, 2);
    assert_eq!(claim_spl_lifafa(&mut ctx, 7, 110, 42), Ok(200));
    assert_eq!(claim_spl_lifafa(&mut ctx, 7, 111, 43), Err(LifafaError::AlreadyClaimed));
    assert_eq!(ctx.vault_amount, 800);
    assert_eq!(ctx.lifafa.claims, 1);
    assert_eq!(ctx.user_claim, UserClaim { claimed: true, amount_claimed: 200 });
}

#[test]
fn claim_spl_at_the_last_second_is_paid() {
    let made = created(1000, 5, 1);
    let mut ctx = claim_ctx(&made, 2);
    assert_eq!(claim_spl_lifafa(&mut ctx, 7, 160, 42), Ok(200));
}

#[test]
fn claim_spl_one_second_late_is_expired() {
    let made = created(1000, 5, 1);
    let mut ctx = claim_ctx(&made, 2);
    assert_eq!(claim_spl_lifafa(&mut ctx, 7, 161, 42), Err(LifafaError::TimeLimitExpired));
    assert_eq!(ctx.vault_amount, 1000);
    assert_eq!(ctx.lifafa.claims, 0);
}

#[test]
fn expiry_is_reported_before_the_ceiling_and_the_record() {
    let made = created(1000, 1, 1);
    let mut ctx = claim_ctx(&made, 2);
    assert_eq!(claim_spl_lifafa(&mut ctx, 7, 110, 42), Ok(1000));
    assert_eq!(claim_spl_lifafa(&mut ctx, 7, 161, 42), Err(LifafaError::TimeLimitExpired));
}

#[test]
fn ceiling_is_reported_before_the_record() {
    let made = created(1000, 1, 1);
    let mut ctx = claim_ctx(&made, 2);
    assert_eq!(claim_spl_lifafa(&mut ctx, 7, 110, 42), Ok(1000));
    assert_eq!(claim_spl_lifafa(&mut ctx, 7, 110, 42), Err(LifafaError::MaxClaimsReached));
}

#[test]
fn claim_spl_under_another_identifier_is_not_found() {
    let made = created(1000, 5, 1);
    let mut ctx = claim_ctx(&made, 2);
    assert_eq!(claim_spl_lifafa(&mut ctx, 8, 110, 42), Err(LifafaError::NotFound));
    assert_eq!(ctx.vault_amount, 1000);
}

#[test]
fn claim_spl_on_a_vacant_record_is_not_found() {
    let mut ctx = ClaimSplLifafa {
        lifafa: Lifafa::default(),
        user_claim: UserClaim::default(),
        vault_amount: 10,
        signer: claimant(2),
    };
    assert_eq!(claim_spl_lifafa(&mut ctx, 0, 0, 42), Err(LifafaError::NotFound));
    assert_eq!(ctx.vault_amount, 10);
}

#[test]
fn delete_spl_by_a_stranger_is_unauthorized_and_changes_nothing() {
    let made = created(1000, 2, 1);
    let mut ctx = DeleteSplLifafa {
        lifafa: made.lifafa.clone(),
        vault_amount: made.vault_amount,
        signer: claimant(2),
    };
    assert_eq!(delete_spl_lifafa(&mut ctx, 7), Err(LifafaError::Unauthorized));
    assert_eq!(ctx.vault_amount, 1000);
    assert_eq!(ctx.lifafa.id, 7);
    assert_eq!(ctx.lifafa.owner, creator());
    assert_eq!(ctx.lifafa.amount, 1000);
    assert_eq!(ctx.lifafa.owner_name, "Asha");
    assert_eq!(ctx.signer, claimant(2));
}

#[test]
fn delete_spl_by_the_creator_returns_what_is_left() {
    let made = created(1000, 2, 1);
    let mut claim = claim_ctx(&made, 2);
    assert_eq!(claim_spl_lifafa(&mut claim, 7, 110, 5), Ok(500));
    let mut ctx = DeleteSplLifafa {
        lifafa: claim.lifafa.clone(),
        vault_amount: claim.vault_amount,
        signer: creator(),
    };
    assert_eq!(delete_spl_lifafa(&mut ctx, 7), Ok(500));
    assert_eq!(ctx.vault_amount, 0);
    assert!(ctx.lifafa.owner.is_default());
    assert_eq!(ctx.lifafa.id, 0);
    assert_eq!(ctx.lifafa.amount, 0);
    assert_eq!(ctx.lifafa.owner_name, "");
    assert_eq!(ctx.signer, creator());
    assert_eq!(delete_spl_lifafa(&mut ctx, 7), Err(LifafaError::NotFound));
    let mut again = ClaimSplLifafa {
        lifafa: ctx.lifafa.clone(),
        user_claim: UserClaim::default(),
        vault_amount: ctx.vault_amount,
        signer: claimant(3),
    };
    assert_eq!(claim_spl_lifafa(&mut again, 7, 110, 5), Err(LifafaError::NotFound));
}

#[test]
fn delete_spl_under_another_identifier_is_not_found() {
    let made = created(1000, 2, 1);
    let mut ctx = DeleteSplLifafa {
        lifafa: made.lifafa.clone(),
        vault_amount: made.vault_amount,
        signer: creator(),
    };
    assert_eq!(delete_spl_lifafa(&mut ctx, 70), Err(LifafaError::NotFound));
    assert_eq!(ctx.vault_amount, 1000);
}

#[test]
fn deleted_record_can_be_created_again() {
    let made = created(1000, 2, 1);
    let mut ctx = DeleteSplLifafa {
        lifafa: made.lifafa.clone(),
        vault_amount: made.vault_amount,
        signer: creator(),
    };
    assert_eq!(delete_spl_lifafa(&mut ctx, 7), Ok(1000));
    let mut next = CreateSplLifafa {
        lifafa: ctx.lifafa.clone(),
        lifafa_bump: 3,
        mint: mint(),
        vault_amount: ctx.vault_amount,
        signer: claimant(4),
    };
    let made = create_spl_lifafa(&mut next, 7, 30, 10, 3, String::new(), String::new(), 0, 500);
    assert_eq!(made, Ok(()));
    assert_eq!(next.lifafa.owner, claimant(4));
    assert_eq!(next.vault_amount, 30);
}
