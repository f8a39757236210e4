use yourmine::accrual::{yield_terms, YieldTerms};
use yourmine::burn::{burn_and_mint, BurnAndMint, DECIMAL_MULTIPLIER};
use yourmine::claim::{claim, Claim};
use yourmine::errors::ErrorCode;
use yourmine::events::{BurnEvent, ClaimEvent, Effect, TransferEvent};
use yourmine::identity::Identity;
use yourmine::initialize::{initialize, initialize_with_creator, Initialize, CREATOR_ADDRESS};
use yourmine::state::{GlobalState, UserAccount, DEFAULT_TAX_RATE};
use yourmine::stats::{get_stats, GetStats};
use yourmine::transfer::{transfer_yrm, TransferYrm};

fn id(byte: u8) -> Identity {
    Identity::new([byte; 32])
}

fn global(genesis_slot: u64) -> GlobalState {
    GlobalState {
        creator: id(9),
        total_sol_burned: 0,
        total_yrm_minted: 0,
        genesis_slot,
        yrm_mint: id(8),
        bump: 254,
    }
}

fn fresh_burn(genesis_slot: u64) -> BurnAndMint {
    BurnAndMint {
        global_state: global(genesis_slot),
        user_account: UserAccount::vacant(),
        creator: id(9),
        user: id(1),
    }
}

/// The growth formula on real numbers, for the terms that the library fixes.
fn growth_formula(terms: &YieldTerms) -> u64 {
    let numerator = (terms.elapsed as f64).powf(1.1) * (terms.burn_amount as f64 / 1_000_000_000.0);
    let dynamic_power = 2.2 * (1.0 - (terms.tax_rate as f64).min(40.0) / 100.0);
    let inner = (terms.time_from_reference as f64).powf(dynamic_power) + 33_f64.powi(3);
    if inner <= 1.0 {
        return 0;
    }
    let denominator = inner.ln().powf(3.0);
    if denominator <= 0.0 || !denominator.is_finite() || !numerator.is_finite() {
        return 0;
    }
    let raw = numerator / denominator;
    if raw < 0.0 || !raw.is_finite() {
        return 0;
    }
    let scaled = raw * 1_000_000_000_000_000_000.0;
    if scaled > (u64::MAX as f64) {
        return 0;
    }
    scaled.floor() as u64
}

#[test]
fn first_burn_of_a_hundred_units_at_ten_percent() {
    let mut ctx = fresh_burn(5);
    let effects = burn_and_mint(&mut ctx, 100_000_000_000, 10, 1_000, 777).unwrap();
    let minted: u128 = 90_000_000_000u128 * 1_000_000_000u128;
    assert_eq!(
        effects,
        vec![
            Effect::PayTax { payer: id(1), creator: id(9), amount: 10_000_000_000 },
            Effect::LockNative { payer: id(1), amount: 90_000_000_000 },
            Effect::MintReward { recipient: id(1), amount: minted },
            Effect::EmitBurn(BurnEvent {
                user: id(1),
                sol_burned: 100_000_000_000,
                yrm_received: minted,
                tax_rate: 10,
                tax_amount: 10_000_000_000,
                vault_amount: 90_000_000_000,
                slot: 1_000,
            }),
        ]
    );
    assert_eq!(
        ctx.user_account,
        UserAccount {
            owner: id(1),
            tax_rate: 10,
            last_action_slot: 1_000,
            total_burned: 100_000_000_000,
            last_burn_amount: 100_000_000_000,
        }
    );
    assert_eq!(ctx.user_account.last_burn_amount, 100_000_000_000);
    assert_eq!(ctx.global_state.total_sol_burned, 100_000_000_000);
    assert_eq!(ctx.global_state.total_yrm_minted, minted);
    assert_eq!(ctx.global_state.total_yrm_minted, 90_000_000_000_000_000_000u128);
    assert_eq!(ctx.global_state.creator, id(9));
    assert_eq!(ctx.global_state.genesis_slot, 5);
}

#[test]
fn burn_claims_the_pending_yield_before_the_new_burn() {
    let now: u64 = 5_000;
    let genesis: u64 = 12;
    let mut ctx = BurnAndMint {
        global_state: GlobalState {
            total_sol_burned: 50_000_000_000,
            total_yrm_minted: 1_000,
            ..global(genesis)
        },
        user_account: UserAccount {
            owner: id(1),
            tax_rate: 20,
            last_action_slot: now - 100,
            total_burned: 50_000_000_000,
            last_burn_amount: 50_000_000_000,
        },
        creator: id(9),
        user: id(1),
    };
    let terms = ctx.pending_terms(now).unwrap();
    assert_eq!(yield_terms(now, now - 100, 50_000_000_000, 20, genesis), Some(terms));
    assert_eq!(
        terms,
        YieldTerms {
            elapsed: 100,
            time_from_reference: 1,
            burn_amount: 50_000_000_000,
            tax_rate: 20,
        }
    );
    let pending = growth_formula(&terms);
    assert!(pending > 6_800_000_000_000_000_000 && pending < 6_900_000_000_000_000_000);

    let effects = burn_and_mint(&mut ctx, 2_000_000_000, 5, now, pending).unwrap();
    let minted: u128 = 1_900_000_000u128 * 1_000_000_000u128;
    assert_eq!(
        effects,
        vec![
            Effect::MintReward { recipient: id(1), amount: pending as u128 },
            Effect::PayTax { payer: id(1), creator: id(9), amount: 100_000_000 },
            Effect::LockNative { payer: id(1), amount: 1_900_000_000 },
            Effect::MintReward { recipient: id(1), amount: minted },
            Effect::EmitBurn(BurnEvent {
                user: id(1),
                sol_burned: 2_000_000_000,
                yrm_received: minted,
                tax_rate: 5,
                tax_amount: 100_000_000,
                vault_amount: 1_900_000_000,
                slot: now,
            }),
        ]
    );
    assert_eq!(ctx.global_state.total_yrm_minted, 1_000 + pending as u128 + minted);
    assert_eq!(ctx.global_state.total_sol_burned, 52_000_000_000);
    assert_eq!(
        ctx.user_account,
        UserAccount {
            owner: id(1),
            tax_rate: 5,
            last_action_slot: now,
            total_burned: 52_000_000_000,
            last_burn_amount: 2_000_000_000,
        }
    );
}

#[test]
fn burn_has_pending_terms_only_after_an_action_on_a_burn() {
    let mut ctx = fresh_burn(10);
    assert_eq!(ctx.pending_terms(1_000), None);
    ctx.user_account.last_burn_amount = 5;
    // a burn on record but no action: the burn does not count from genesis
    assert_eq!(ctx.pending_terms(1_000), None);
    ctx.user_account.last_action_slot = 970;
    assert_eq!(
        ctx.pending_terms(1_000),
        Some(YieldTerms { elapsed: 30, time_from_reference: 1, burn_amount: 5, tax_rate: 0 })
    );
    assert_eq!(ctx.pending_terms(999), None);
    ctx.user_account.last_burn_amount = 0;
    assert_eq!(ctx.pending_terms(1_000), None);
}

#[test]
fn claim_has_pending_terms_from_genesis_on() {
    let mut ctx = Claim {
        global_state: global(100),
        user_account: UserAccount {
            owner: id(1),
            tax_rate: 50,
            last_action_slot: 0,
            total_burned: 5,
            last_burn_amount: 5,
        },
        user: id(1),
    };
    assert_eq!(ctx.pending_terms(129), None);
    assert_eq!(
        ctx.pending_terms(111_111_211),
        Some(YieldTerms {
            elapsed: 111_111_111,
            time_from_reference: 100,
            burn_amount: 5,
            tax_rate: 40,
        })
    );
    ctx.user_account.last_action_slot = 111_111_181;
    assert_eq!(
        ctx.pending_terms(111_111_211),
        Some(YieldTerms { elapsed: 30, time_from_reference: 100, burn_amount: 5, tax_rate: 40 })
    );
}

#[test]
fn burn_within_the_dwell_claims_nothing() {
    let mut ctx = fresh_burn(0);
    ctx.user_account = UserAccount {
        owner: id(1),
        tax_rate: 20,
        last_action_slot: 971,
        total_burned: 7,
        last_burn_amount: 7,
    };
    let effects = burn_and_mint(&mut ctx, 1_000, 0, 1_000, 555).unwrap();
    assert_eq!(
        effects,
        vec![
            Effect::LockNative { payer: id(1), amount: 1_000 },
            Effect::MintReward { recipient: id(1), amount: 1_000_000_000_000 },
            Effect::EmitBurn(BurnEvent {
                user: id(1),
                sol_burned: 1_000,
                yrm_received: 1_000_000_000_000,
                tax_rate: 0,
                tax_amount: 0,
                vault_amount: 1_000,
                slot: 1_000,
            }),
        ]
    );
    assert_eq!(ctx.global_state.total_yrm_minted, 1_000_000_000_000);
    assert_eq!(ctx.user_account.total_burned, 1_007);
}

#[test]
fn burn_without_a_recorded_action_claims_nothing_even_after_a_long_time() {
    // a burn on record but no action on record: the burn does not claim
    let mut ctx = fresh_burn(0);
    ctx.user_account.last_burn_amount = 5;
    ctx.user_account.last_action_slot = 0;
    let effects = burn_and_mint(&mut ctx, 10, 40, 1_000_000, 555).unwrap();
    assert_eq!(effects.len(), 4);
    assert_eq!(effects[0], Effect::PayTax { payer: id(1), creator: id(9), amount: 4 });
    assert_eq!(effects[1], Effect::LockNative { payer: id(1), amount: 6 });
    assert_eq!(effects[2], Effect::MintReward { recipient: id(1), amount: 6_000_000_000 });
    assert_eq!(ctx.global_state.total_yrm_minted, 6 * DECIMAL_MULTIPLIER as u128);
}

#[test]
fn tax_is_rounded_down() {
    let mut ctx = fresh_burn(0);
    let effects = burn_and_mint(&mut ctx, 99, 40, 1, 0).unwrap();
    // 99 * 40 / 100 = 39.6
    assert_eq!(effects[0], Effect::PayTax { payer: id(1), creator: id(9), amount: 39 });
    assert_eq!(effects[1], Effect::LockNative { payer: id(1), amount: 60 });

    let mut ctx = fresh_burn(0);
    let effects = burn_and_mint(&mut ctx, 1, 40, 1, 0).unwrap();
    assert_eq!(effects[0], Effect::LockNative { payer: id(1), amount: 1 });
    assert_eq!(effects.len(), 3);
}

#[test]
fn burn_with_tax_rate_forty_one_is_refused_and_changes_nothing() {
    let mut ctx = fresh_burn(3);
    ctx.user_account = UserAccount {
        owner: id(1),
        tax_rate: 20,
        last_action_slot: 10,
        total_burned: 50,
        last_burn_amount: 50,
    };
    let before = ctx;
    assert_eq!(
        burn_and_mint(&mut ctx, 100_000_000_000, 41, 1_000, 9),
        Err(ErrorCode::TaxRateTooHigh)
    );
    assert_eq!(ctx, before);
    assert_eq!(burn_and_mint(&mut ctx, 0, 41, 1_000, 9), Err(ErrorCode::TaxRateTooHigh));
    assert_eq!(burn_and_mint(&mut ctx, 5, 255, 1_000, 9), Err(ErrorCode::TaxRateTooHigh));
    assert_eq!(ctx, before);
}

#[test]
fn burn_of_nothing_is_refused() {
    let mut ctx = fresh_burn(3);
    let before = ctx;
    assert_eq!(burn_and_mint(&mut ctx, 0, 40, 1_000, 9), Err(ErrorCode::InvalidAmount));
    assert_eq!(ctx, before);
}

#[test]
fn burn_for_another_creator_is_refused() {
    let mut ctx = fresh_burn(3);
    ctx.creator = id(10);
    let before = ctx;
    assert_eq!(burn_and_mint(&mut ctx, 5, 40, 1_000, 9), Err(ErrorCode::CreatorAddressMismatch));
    assert_eq!(ctx, before);
}

#[test]
fn burn_whose_tax_product_overflows_is_refused() {
    let mut ctx = fresh_burn(3);
    let before = ctx;
    assert_eq!(burn_and_mint(&mut ctx, u64::MAX, 2, 1_000, 9), Err(ErrorCode::Overflow));
    assert_eq!(ctx, before);
    // at rate 1 the product fits and the whole burn goes through
    let effects = burn_and_mint(&mut ctx, u64::MAX, 1, 1_000, 9).unwrap();
    let tax = u64::MAX / 100;
    assert_eq!(effects[0], Effect::PayTax { payer: id(1), creator: id(9), amount: tax });
    assert_eq!(
        effects[2],
        Effect::MintReward { recipient: id(1), amount: (u64::MAX - tax) as u128 * 1_000_000_000 }
    );
}

#[test]
fn burn_whose_totals_overflow_is_refused() {
    let mut ctx = fresh_burn(3);
    ctx.user_account.total_burned = u64::MAX - 4;
    let before = ctx;
    assert_eq!(burn_and_mint(&mut ctx, 5, 0, 1_000, 9), Err(ErrorCode::Overflow));
    assert_eq!(ctx, before);
    assert!(burn_and_mint(&mut ctx, 4, 0, 1_000, 9).is_ok());

    let mut ctx = fresh_burn(3);
    ctx.global_state.total_sol_burned = u64::MAX;
    let before = ctx;
    assert_eq!(burn_and_mint(&mut ctx, 1, 0, 1_000, 9), Err(ErrorCode::Overflow));
    assert_eq!(ctx, before);

    let mut ctx = fresh_burn(3);
    ctx.global_state.total_yrm_minted = u128::MAX - 999_999_999;
    let before = ctx;
    assert_eq!(burn_and_mint(&mut ctx, 1, 0, 1_000, 9), Err(ErrorCode::Overflow));
    assert_eq!(ctx, before);
    ctx.global_state.total_yrm_minted = u128::MAX - 1_000_000_000;
    assert!(burn_and_mint(&mut ctx, 1, 0, 1_000, 9).is_ok());
    assert_eq!(ctx.global_state.total_yrm_minted, u128::MAX);
}

#[test]
fn burn_whose_pending_yield_overflows_the_total_is_refused() {
    let mut ctx = fresh_burn(3);
    ctx.global_state.total_yrm_minted = u128::MAX - 10;
    ctx.user_account = UserAccount {
        owner: id(1),
        tax_rate: 20,
        last_action_slot: 100,
        total_burned: 50,
        last_burn_amount: 50,
    };
    let before = ctx;
    assert_eq!(burn_and_mint(&mut ctx, 1, 0, 1_000, 11), Err(ErrorCode::Overflow));
    assert_eq!(ctx, before);
}

#[test]
fn claim_issues_the_yield_and_keeps_the_burn_on_record() {
    let mut ctx = Claim {
        global_state: GlobalState { total_yrm_minted: 40, ..global(3) },
        user_account: UserAccount {
            owner: id(1),
            tax_rate: 20,
            last_action_slot: 900,
            total_burned: 80,
            last_burn_amount: 50,
        },
        user: id(1),
    };
    let effects = claim(&mut ctx, 1_000, 12_345).unwrap();
    assert_eq!(
        effects,
        vec![
            Effect::MintReward { recipient: id(1), amount: 12_345 },
            Effect::EmitClaim(ClaimEvent { user: id(1), yrm_claimed: 12_345, slot: 1_000 }),
        ]
    );
    assert_eq!(ctx.global_state.total_yrm_minted, 12_385);
    assert_eq!(
        ctx.user_account,
        UserAccount {
            owner: id(1),
            tax_rate: 20,
            last_action_slot: 1_000,
            total_burned: 80,
            last_burn_amount: 50,
        }
    );
    // right after a claim the dwell starts again
    assert_eq!(claim(&mut ctx, 1_029, 12_345), Err(ErrorCode::NothingToClaim));
    assert!(claim(&mut ctx, 1_030, 1).is_ok());
}

#[test]
fn claim_counts_from_genesis_for_one_who_never_acted() {
    let mut ctx = Claim {
        global_state: global(100),
        user_account: UserAccount {
            owner: id(1),
            tax_rate: 0,
            last_action_slot: 0,
            total_burned: 5,
            last_burn_amount: 5,
        },
        user: id(1),
    };
    assert_eq!(claim(&mut ctx, 129, 7), Err(ErrorCode::NothingToClaim));
    let effects = claim(&mut ctx, 130, 7).unwrap();
    assert_eq!(effects[0], Effect::MintReward { recipient: id(1), amount: 7 });
    assert_eq!(ctx.user_account.last_action_slot, 130);
}

#[test]
fn claim_on_an_unwritten_record_is_refused() {
    let mut ctx = Claim {
        global_state: global(3),
        user_account: UserAccount::vacant(),
        user: id(1),
    };
    let before = ctx;
    assert_eq!(claim(&mut ctx, 1_000, 5), Err(ErrorCode::UserAccountNotInitialized));
    assert_eq!(ctx, before);
}

#[test]
fn claim_of_nothing_is_refused() {
    let mut ctx = Claim {
        global_state: global(3),
        user_account: UserAccount {
            owner: id(1),
            tax_rate: 20,
            last_action_slot: 900,
            total_burned: 80,
            last_burn_amount: 50,
        },
        user: id(1),
    };
    let before = ctx;
    // the formula gives nothing
    assert_eq!(claim(&mut ctx, 1_000, 0), Err(ErrorCode::NothingToClaim));
    // too early
    assert_eq!(claim(&mut ctx, 929, 5), Err(ErrorCode::NothingToClaim));
    // no burn on record
    ctx.user_account.last_burn_amount = 0;
    assert_eq!(claim(&mut ctx, 1_000, 5), Err(ErrorCode::NothingToClaim));
    ctx.user_account.last_burn_amount = 50;
    assert_eq!(ctx, before);
}

#[test]
fn claim_that_overflows_the_total_is_refused() {
    let mut ctx = Claim {
        global_state: GlobalState { total_yrm_minted: u128::MAX - 4, ..global(3) },
        user_account: UserAccount {
            owner: id(1),
            tax_rate: 20,
            last_action_slot: 900,
            total_burned: 80,
            last_burn_amount: 50,
        },
        user: id(1),
    };
    let before = ctx;
    assert_eq!(claim(&mut ctx, 1_000, 5), Err(ErrorCode::Overflow));
    assert_eq!(ctx, before);
    assert!(claim(&mut ctx, 1_000, 4).is_ok());
    assert_eq!(ctx.global_state.total_yrm_minted, u128::MAX);
}

fn transfer_between(
    from_account: UserAccount,
    to_account: UserAccount,
    balance: u128,
) -> TransferYrm {
    TransferYrm {
        global_state: global(3),
        from_account,
        to_account,
        from: id(1),
        to: id(2),
        from_token_balance: balance,
    }
}

fn sender() -> UserAccount {
    UserAccount {
        owner: id(1),
        tax_rate: 10,
        last_action_slot: 50,
        total_burned: 9,
        last_burn_amount: 4,
    }
}

#[test]
fn transfer_to_a_new_recipient_opens_their_record() {
    let mut ctx = transfer_between(sender(), UserAccount::vacant(), 500);
    let effects = transfer_yrm(&mut ctx, 500, 77).unwrap();
    assert_eq!(
        effects,
        vec![
            Effect::TransferReward { from: id(1), to: id(2), amount: 500 },
            Effect::EmitTransfer(TransferEvent { from: id(1), to: id(2), amount: 500, slot: 77 }),
        ]
    );
    assert_eq!(ctx.from_account, UserAccount { last_action_slot: 77, ..sender() });
    assert_eq!(
        ctx.to_account,
        UserAccount {
            owner: id(2),
            tax_rate: 20,
            last_action_slot: 77,
            total_burned: 0,
            last_burn_amount: 0,
        }
    );
    assert_eq!(DEFAULT_TAX_RATE, 20);
    assert_eq!(ctx.global_state, global(3));
}

#[test]
fn transfer_to_a_known_recipient_only_touches_their_last_action() {
    let recipient =
        UserAccount {
            owner: id(2),
            tax_rate: 33,
            last_action_slot: 5,
            total_burned: 70,
            last_burn_amount: 60,
        };
    let mut ctx = transfer_between(sender(), recipient, 1_000);
    transfer_yrm(&mut ctx, 1, 77).unwrap();
    assert_eq!(ctx.to_account, UserAccount { last_action_slot: 77, ..recipient });
    assert_eq!(ctx.from_account, UserAccount { last_action_slot: 77, ..sender() });
}

#[test]
fn transfer_of_nothing_is_refused() {
    let mut ctx = transfer_between(sender(), UserAccount::vacant(), 500);
    let before = ctx;
    assert_eq!(transfer_yrm(&mut ctx, 0, 77), Err(ErrorCode::InvalidAmount));
    assert_eq!(ctx, before);
}

#[test]
fn transfer_beyond_the_balance_is_refused() {
    let mut ctx = transfer_between(sender(), UserAccount::vacant(), 499);
    let before = ctx;
    assert_eq!(transfer_yrm(&mut ctx, 500, 77), Err(ErrorCode::InsufficientBalance));
    assert_eq!(ctx, before);
    ctx.from_token_balance = 0;
    assert_eq!(transfer_yrm(&mut ctx, 1, 77), Err(ErrorCode::InsufficientBalance));
    ctx.from_token_balance = u128::MAX;
    assert!(transfer_yrm(&mut ctx, u64::MAX, 77).is_ok());
}

#[test]
fn initialize_fills_the_global_record() {
    let mut ctx = Initialize { global_state: GlobalState::vacant(), yrm_mint: id(8), bump: 253 };
    assert_eq!(initialize(&mut ctx, 4_242), Ok(()));
    let creator = Identity::from_base58(CREATOR_ADDRESS).unwrap();
    assert_eq!(
        creator.to_bytes(),
        [
            92, 39, 254, 195, 161, 28, 91, 224, 58, 99, 251, 164, 19, 253, 38, 141, 20, 5, 251,
            64, 214, 18, 37, 236, 170, 78, 132, 140, 153, 149, 244, 81
        ]
    );
    assert_eq!(
        ctx.global_state,
        GlobalState {
            creator,
            total_sol_burned: 0,
            total_yrm_minted: 0,
            genesis_slot: 4_242,
            yrm_mint: id(8),
            bump: 253,
        }
    );
    assert_eq!(ctx.yrm_mint, id(8));
    assert_eq!(ctx.bump, 253);
}

#[test]
fn initialize_overwrites_whatever_the_record_held() {
    let mut ctx = Initialize {
        global_state: GlobalState { total_sol_burned: 5, total_yrm_minted: 6, ..global(7) },
        yrm_mint: id(3),
        bump: 1,
    };
    assert_eq!(initialize_with_creator(&mut ctx, Some(id(4)), 11), Ok(()));
    assert_eq!(
        ctx.global_state,
        GlobalState {
            creator: id(4),
            total_sol_burned: 0,
            total_yrm_minted: 0,
            genesis_slot: 11,
            yrm_mint: id(3),
            bump: 1,
        }
    );
}

#[test]
fn initialize_without_a_readable_creator_is_refused() {
    let mut ctx = Initialize { global_state: GlobalState::vacant(), yrm_mint: id(8), bump: 253 };
    let before = ctx;
    assert_eq!(
        initialize_with_creator(&mut ctx, None, 4_242),
        Err(ErrorCode::InvalidCreatorAddress)
    );
    assert_eq!(ctx, before);
}

#[test]
fn stats_are_the_global_record() {
    let ctx = GetStats {
        global_state: GlobalState { total_sol_burned: 5, total_yrm_minted: 6, ..global(7) },
    };
    assert_eq!(get_stats(&ctx), Ok(ctx.global_state));
    assert_eq!(get_stats(&ctx).unwrap().total_sol_burned, 5);
    assert_eq!(get_stats(&ctx).unwrap().total_yrm_minted, 6);
    assert_eq!(get_stats(&ctx).unwrap().genesis_slot, 7);
}

#[test]
fn vacant_records_hold_defaults_and_zeros() {
    let account = UserAccount::vacant();
    assert!(account.owner.is_default());
    assert_eq!(
        (
            account.tax_rate,
            account.last_action_slot,
            account.total_burned,
            account.last_burn_amount,
        ),
        (0, 0, 0, 0)
    );
    let global = GlobalState::vacant();
    assert!(global.creator.is_default() && global.yrm_mint.is_default());
    assert_eq!(
        (global.total_sol_burned, global.total_yrm_minted, global.genesis_slot, global.bump),
        (0, 0, 0, 0)
    );
}
