//! The burn: a participant gives up native currency and receives reward token.

use crate::accrual::{
    calculate_claimable,
    spec_claimable,
    spec_yield_terms,
    yield_terms,
    YieldTerms,
    MAX_TAX_RATE,
};
use crate::errors::ErrorCode;
use crate::events::{BurnEvent, Effect};
use crate::identity::Identity;
use crate::state::{GlobalState, UserAccount};
use vstd::prelude::*;

verus! {

/// Smallest units of the reward token issued for each smallest unit of native
/// currency that goes into custody.
pub const DECIMAL_MULTIPLIER: u64 = 1_000_000_000;

/// The records and identities that a burn works on.
#[derive(Clone, Copy, Debug, PartialEq, Eq)]
pub struct BurnAndMint {
    pub global_state: GlobalState,
    /// The caller's record, vacant where the caller has none yet.
    pub user_account: UserAccount,
    /// The identity that the caller names as the receiver of the tax.
    pub creator: Identity,
    /// The caller.
    pub user: Identity,
}

/// The part of a burn that goes to the creator: the rate's share, rounded down.
pub open spec fn spec_tax_amount(sol_amount: u64, tax_rate: u8) -> int {
    (sol_amount * tax_rate) / 100
}

/// The part of a burn that goes into custody.
pub open spec fn spec_vault_amount(sol_amount: u64, tax_rate: u8) -> int {
    sol_amount - spec_tax_amount(sol_amount, tax_rate)
}

/// The reward token issued for a burn: one whole token for each whole unit of
/// native currency that goes into custody.
pub open spec fn spec_minted_amount(sol_amount: u64, tax_rate: u8) -> int {
    spec_vault_amount(sol_amount, tax_rate) * DECIMAL_MULTIPLIER
}

impl BurnAndMint {
    /// The yield that the burn claims on the caller's behalf before anything else:
    /// what is claimable on the previous burn, where the record shows one and an
    /// earlier action.
    pub open spec fn auto_claim(&self, now: u64, formula_value: u64) -> u64 {
        if self.user_account.last_action_slot > 0 && self.user_account.last_burn_amount > 0 {
            spec_claimable(
                now,
                self.user_account.last_action_slot,
                self.user_account.last_burn_amount,
                self.user_account.tax_rate,
                self.global_state.genesis_slot,
                formula_value,
            )
        } else {
            0
        }
    }

    /// The terms of the yield that the burn claims first, where there is one: what
    /// the growth formula is to be evaluated on.
    pub open spec fn spec_pending_terms(&self, now: u64) -> Option<YieldTerms> {
        if self.user_account.last_action_slot > 0 && self.user_account.last_burn_amount > 0 {
            spec_yield_terms(
                now,
                self.user_account.last_action_slot,
                self.user_account.last_burn_amount,
                self.user_account.tax_rate,
                self.global_state.genesis_slot,
            )
        } else {
            None
        }
    }

    /// Whether one of the burn's sums or products leaves its range.
    pub open spec fn overflows(
        &self,
        sol_amount: u64,
        tax_rate: u8,
        now: u64,
        formula_value: u64,
    ) -> bool {
        ||| sol_amount * tax_rate > u64::MAX
        ||| self.user_account.total_burned + sol_amount > u64::MAX
        ||| self.global_state.total_sol_burned + sol_amount > u64::MAX
        ||| self.global_state.total_yrm_minted + self.auto_claim(now, formula_value)
            + spec_minted_amount(sol_amount, tax_rate) > u128::MAX
    }

    /// Why the burn is refused, if it is.
    pub open spec fn refusal(
        &self,
        sol_amount: u64,
        tax_rate: u8,
        now: u64,
        formula_value: u64,
    ) -> Option<ErrorCode> {
        if tax_rate > MAX_TAX_RATE {
            Some(ErrorCode::TaxRateTooHigh)
        } else if sol_amount == 0 {
            Some(ErrorCode::InvalidAmount)
        } else if self.creator != self.global_state.creator {
            Some(ErrorCode::CreatorAddressMismatch)
        } else if self.overflows(sol_amount, tax_rate, now, formula_value) {
            Some(ErrorCode::Overflow)
        } else {
            None
        }
    }

    /// The records after a burn that is not refused.
    pub open spec fn after(
        &self,
        sol_amount: u64,
        tax_rate: u8,
        now: u64,
        formula_value: u64,
    ) -> BurnAndMint {
        BurnAndMint {
            global_state: GlobalState {
                total_sol_burned: (self.global_state.total_sol_burned + sol_amount) as u64,
                total_yrm_minted: (self.global_state.total_yrm_minted + self.auto_claim(
                    now,
                    formula_value,
                ) + spec_minted_amount(sol_amount, tax_rate)) as u128,
                ..self.global_state
            },
            user_account: UserAccount {
                owner: self.user,
                tax_rate,
                last_action_slot: now,
                total_burned: (self.user_account.total_burned + sol_amount) as u64,
                last_burn_amount: sol_amount,
            },
            creator: self.creator,
            user: self.user,
        }
    }

    /// The record of a burn that is not refused.
    pub open spec fn event(&self, sol_amount: u64, tax_rate: u8, now: u64) -> BurnEvent {
        BurnEvent {
            user: self.user,
            sol_burned: sol_amount,
            yrm_received: spec_minted_amount(sol_amount, tax_rate) as u128,
            tax_rate,
            tax_amount: spec_tax_amount(sol_amount, tax_rate) as u64,
            vault_amount: spec_vault_amount(sol_amount, tax_rate) as u64,
            slot: now,
        }
    }

    /// What a burn that is not refused asks of the host, in order: the yield on
    /// the previous burn where there is any, the tax where there is any, the
    /// custody's part where there is any, the reward for the burn, its record.
    pub open spec fn effects(
        &self,
        sol_amount: u64,
        tax_rate: u8,
        now: u64,
        formula_value: u64,
    ) -> Seq<Effect> {
        let claimed = self.auto_claim(now, formula_value);
        let tax = spec_tax_amount(sol_amount, tax_rate);
        let vault = spec_vault_amount(sol_amount, tax_rate);
        let yield_part = if claimed > 0 {
            seq![Effect::MintReward { recipient: self.user, amount: claimed as u128 }]
        } else {
            Seq::<Effect>::empty()
        };
        let tax_part = if tax > 0 {
            seq![Effect::PayTax { payer: self.user, creator: self.creator, amount: tax as u64 }]
        } else {
            Seq::<Effect>::empty()
        };
        let vault_part = if vault > 0 {
            seq![Effect::LockNative { payer: self.user, amount: vault as u64 }]
        } else {
            Seq::<Effect>::empty()
        };
        yield_part + tax_part + vault_part + seq![
            Effect::MintReward {
                recipient: self.user,
                amount: spec_minted_amount(sol_amount, tax_rate) as u128,
            },
            Effect::EmitBurn(self.event(sol_amount, tax_rate, now)),
        ]
    }
}

impl BurnAndMint {
    /// The terms on which the host evaluates the growth formula before it asks
    /// for a burn at `now`.  Where there are none, the burn claims nothing and
    /// does not read the formula's value.
    pub fn pending_terms(&self, now: u64) -> (r: Option<YieldTerms>)
        ensures
            r == self.spec_pending_terms(now),
            r matches Some(terms) ==> terms.wf(),
            forall|formula_value: u64| #[trigger]
                self.auto_claim(now, formula_value) == if r is Some {
                    formula_value
                } else {
                    0
                },
    {
        if self.user_account.last_action_slot > 0 && self.user_account.last_burn_amount > 0 {
            yield_terms(
                now,
                self.user_account.last_action_slot,
                self.user_account.last_burn_amount,
                self.user_account.tax_rate,
                self.global_state.genesis_slot,
            )
        } else {
            None
        }
    }
}

/// With a rate of at most 40 the tax is less than the burn, so that something
/// always goes into custody, and the reward for a burn always fits 128 bits.
pub proof fn lemma_burn_split(sol_amount: u64, tax_rate: u8)
    requires
        tax_rate <= MAX_TAX_RATE,
    ensures
        0 <= spec_tax_amount(sol_amount, tax_rate) <= sol_amount,
        sol_amount > 0 ==> spec_vault_amount(sol_amount, tax_rate) > 0,
        spec_tax_amount(sol_amount, tax_rate) + spec_vault_amount(sol_amount, tax_rate)
            == sol_amount,
        0 <= spec_minted_amount(sol_amount, tax_rate) <= u64::MAX * DECIMAL_MULTIPLIER,
        u64::MAX * DECIMAL_MULTIPLIER < u128::MAX,
{
    let a = sol_amount as int;
    let t = tax_rate as int;
    assert(0 <= a * t <= a * 40) by (nonlinear_arith)
        requires
            0 <= a,
            0 <= t <= 40,
    ;
    assert((a * t) / 100 <= a && (a > 0 ==> (a * t) / 100 < a) && 0 <= (a * t) / 100)
        by (nonlinear_arith)
        requires
            0 <= a * t <= a * 40,
            0 <= a,
    ;
    let v = spec_vault_amount(sol_amount, tax_rate);
    assert(0 <= v * 1_000_000_000 <= 0xffff_ffff_ffff_ffff * 1_000_000_000) by (nonlinear_arith)
        requires
            0 <= v <= 0xffff_ffff_ffff_ffff,
    ;
}

/// Burns `sol_amount` of the caller's native currency at the tax rate the caller
/// chooses, after claiming for the caller whatever yield the previous burn has
/// earned by `now`.
///
/// `formula_value` is the value of the growth formula on the terms that
/// [`BurnAndMint::pending_terms`] gives at `now`; it is read only where those
/// terms exist.
///
/// The burn is all or nothing: a refused burn leaves the records as they were.
pub fn burn_and_mint(
    ctx: &mut BurnAndMint,
    sol_amount: u64,
    tax_rate: u8,
    now: u64,
    formula_value: u64,
) -> (r: Result<Vec<Effect>, ErrorCode>)
    ensures
        match old(ctx).refusal(sol_amount, tax_rate, now, formula_value) {
            Some(code) => r == Err::<Vec<Effect>, ErrorCode>(code) && *final(ctx) == *old(ctx),
            None => {
                &&& r is Ok
                &&& r->Ok_0@ == old(ctx).effects(sol_amount, tax_rate, now, formula_value)
                &&& *final(ctx) == old(ctx).after(sol_amount, tax_rate, now, formula_value)
            },
        },
{
    if tax_rate > MAX_TAX_RATE {
        return Err(ErrorCode::TaxRateTooHigh);
    }
    if sol_amount == 0 {
        return Err(ErrorCode::InvalidAmount);
    }
    if !ctx.creator.same(&ctx.global_state.creator) {
        return Err(ErrorCode::CreatorAddressMismatch);
    }
    proof {
        lemma_burn_split(sol_amount, tax_rate);
    }
    let mut effects: Vec<Effect> = Vec::new();
    let mut total_minted: u128 = ctx.global_state.total_yrm_minted;

    let mut claimed: u64 = 0;
    if ctx.user_account.last_action_slot > 0 && ctx.user_account.last_burn_amount > 0 {
        claimed =
        calculate_claimable(
            now,
            ctx.user_account.last_action_slot,
            ctx.user_account.last_burn_amount,
            ctx.user_account.tax_rate,
            ctx.global_state.genesis_slot,
            formula_value,
        );
        if claimed > 0 {
            effects.push(Effect::MintReward { recipient: ctx.user, amount: claimed as u128 });
            total_minted =
            match total_minted.checked_add(claimed as u128) {
                Some(sum) => sum,
                None => {
                    return Err(ErrorCode::Overflow);
                },
            };
        }
    }
    assert(claimed == old(ctx).auto_claim(now, formula_value));

    let tax_product = match sol_amount.checked_mul(tax_rate as u64) {
        Some(product) => product,
        None => {
            return Err(ErrorCode::Overflow);
        },
    };
    let tax_amount = match tax_product.checked_div(100) {
        Some(quotient) => quotient,
        None => {
            return Err(ErrorCode::DivisionByZero);
        },
    };
    let vault_amount = match sol_amount.checked_sub(tax_amount) {
        Some(difference) => difference,
        None => {
            return Err(ErrorCode::Underflow);
        },
    };
    if tax_amount > 0 {
        effects.push(Effect::PayTax { payer: ctx.user, creator: ctx.creator, amount: tax_amount });
    }
    if vault_amount > 0 {
        effects.push(Effect::LockNative { payer: ctx.user, amount: vault_amount });
    }
    let yrm_amount = match (vault_amount as u128).checked_mul(DECIMAL_MULTIPLIER as u128) {
        Some(product) => product,
        None => {
            return Err(ErrorCode::Overflow);
        },
    };
    effects.push(Effect::MintReward { recipient: ctx.user, amount: yrm_amount });

    let total_burned = match ctx.user_account.total_burned.checked_add(sol_amount) {
        Some(sum) => sum,
        None => {
            return Err(ErrorCode::Overflow);
        },
    };
    let total_sol_burned = match ctx.global_state.total_sol_burned.checked_add(sol_amount) {
        Some(sum) => sum,
        None => {
            return Err(ErrorCode::Overflow);
        },
    };
    total_minted =
    match total_minted.checked_add(yrm_amount) {
        Some(sum) => sum,
        None => {
            return Err(ErrorCode::Overflow);
        },
    };

    ctx.user_account.owner = ctx.user;
    ctx.user_account.tax_rate = tax_rate;
    ctx.user_account.last_action_slot = now;
    ctx.user_account.total_burned = total_burned;
    ctx.user_account.last_burn_amount = sol_amount;
    ctx.global_state.total_sol_burned = total_sol_burned;
    ctx.global_state.total_yrm_minted = total_minted;

    effects.push(
        Effect::EmitBurn(
            BurnEvent {
                user: ctx.user,
                sol_burned: sol_amount,
                yrm_received: yrm_amount,
                tax_rate,
                tax_amount,
                vault_amount,
                slot: now,
            },
        ),
    );
    assert(effects@ =~= old(ctx).effects(sol_amount, tax_rate, now, formula_value));
    Ok(effects)
}

} // verus!
