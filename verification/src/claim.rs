//! The claim: a participant collects the yield that their most recent burn has
//! earned.

use crate::accrual::{
    calculate_claimable,
    effective_last_action,
    spec_claimable,
    spec_effective_last_action,
    spec_yield_terms,
    yield_terms,
    YieldTerms,
};
use crate::errors::ErrorCode;
use crate::events::{ClaimEvent, Effect};
use crate::identity::Identity;
use crate::state::{GlobalState, UserAccount};
use vstd::prelude::*;

verus! {

/// The records and the identity that a claim works on.
#[derive(Clone, Copy, Debug, PartialEq, Eq)]
pub struct Claim {
    pub global_state: GlobalState,
    /// The caller's record.
    pub user_account: UserAccount,
    /// The caller.
    pub user: Identity,
}

impl Claim {
    /// The yield due to the caller at `now`, counted from the effective last
    /// action.
    pub open spec fn claimable(&self, now: u64, formula_value: u64) -> u64 {
        spec_claimable(
            now,
            spec_effective_last_action(
                self.user_account.last_action_slot,
                self.global_state.genesis_slot,
            ),
            self.user_account.last_burn_amount,
            self.user_account.tax_rate,
            self.global_state.genesis_slot,
            formula_value,
        )
    }

    /// The terms of the yield due to the caller at `now`, where there is one:
    /// what the growth formula is to be evaluated on.
    pub open spec fn spec_pending_terms(&self, now: u64) -> Option<YieldTerms> {
        spec_yield_terms(
            now,
            self.user_account.last_action_slot,
            self.user_account.last_burn_amount,
            self.user_account.tax_rate,
            self.global_state.genesis_slot,
        )
    }

    /// Why the claim is refused, if it is.
    pub open spec fn refusal(&self, now: u64, formula_value: u64) -> Option<ErrorCode> {
        if self.user_account.owner.spec_is_default() {
            Some(ErrorCode::UserAccountNotInitialized)
        } else if self.claimable(now, formula_value) == 0 {
            Some(ErrorCode::NothingToClaim)
        } else if self.global_state.total_yrm_minted + self.claimable(now, formula_value)
            > u128::MAX {
            Some(ErrorCode::Overflow)
        } else {
            None
        }
    }

    /// The records after a claim that is not refused: the yield is counted as
    /// issued and the caller has acted at `now`; the burn on record stays.
    pub open spec fn after(&self, now: u64, formula_value: u64) -> Claim {
        Claim {
            global_state: GlobalState {
                total_yrm_minted: (self.global_state.total_yrm_minted + self.claimable(
                    now,
                    formula_value,
                )) as u128,
                ..self.global_state
            },
            user_account: UserAccount { last_action_slot: now, ..self.user_account },
            user: self.user,
        }
    }

    /// What a claim that is not refused asks of the host: the yield, then its
    /// record.
    pub open spec fn effects(&self, now: u64, formula_value: u64) -> Seq<Effect> {
        seq![
            Effect::MintReward {
                recipient: self.user,
                amount: self.claimable(now, formula_value) as u128,
            },
            Effect::EmitClaim(
                ClaimEvent {
                    user: self.user,
                    yrm_claimed: self.claimable(now, formula_value),
                    slot: now,
                },
            ),
        ]
    }
}

impl Claim {
    /// The terms on which the host evaluates the growth formula before it asks
    /// for a claim at `now`.  Where there are none, there is nothing to claim and
    /// the formula's value is not read.
    pub fn pending_terms(&self, now: u64) -> (r: Option<YieldTerms>)
        ensures
            r == self.spec_pending_terms(now),
            r matches Some(terms) ==> terms.wf(),
            forall|formula_value: u64| #[trigger]
                self.claimable(now, formula_value) == if r is Some {
                    formula_value
                } else {
                    0
                },
    {
        yield_terms(
            now,
            self.user_account.last_action_slot,
            self.user_account.last_burn_amount,
            self.user_account.tax_rate,
            self.global_state.genesis_slot,
        )
    }
}

/// Claims for the caller the yield that their most recent burn has earned by
/// `now`.
///
/// `formula_value` is the value of the growth formula on the terms that
/// [`Claim::pending_terms`] gives at `now`; it is read only where those terms
/// exist.
///
/// A refused claim leaves the records as they were.
pub fn claim(ctx: &mut Claim, now: u64, formula_value: u64) -> (r: Result<Vec<Effect>, ErrorCode>)
    ensures
        match old(ctx).refusal(now, formula_value) {
            Some(code) => r == Err::<Vec<Effect>, ErrorCode>(code) && *final(ctx) == *old(ctx),
            None => {
                &&& r is Ok
                &&& r->Ok_0@ == old(ctx).effects(now, formula_value)
                &&& *final(ctx) == old(ctx).after(now, formula_value)
            },
        },
{
    if ctx.user_account.owner.is_default() {
        return Err(ErrorCode::UserAccountNotInitialized);
    }
    let effective = effective_last_action(
        ctx.user_account.last_action_slot,
        ctx.global_state.genesis_slot,
    );
    let claimable = calculate_claimable(
        now,
        effective,
        ctx.user_account.last_burn_amount,
        ctx.user_account.tax_rate,
        ctx.global_state.genesis_slot,
        formula_value,
    );
    if claimable == 0 {
        return Err(ErrorCode::NothingToClaim);
    }
    let total_minted = match ctx.global_state.total_yrm_minted.checked_add(claimable as u128) {
        Some(sum) => sum,
        None => {
            return Err(ErrorCode::Overflow);
        },
    };
    ctx.global_state.total_yrm_minted = total_minted;
    ctx.user_account.last_action_slot = now;

    let mut effects: Vec<Effect> = Vec::new();
    effects.push(Effect::MintReward { recipient: ctx.user, amount: claimable as u128 });
    effects.push(Effect::EmitClaim(ClaimEvent {
        user: ctx.user,
        yrm_claimed: claimable,
        slot: now,
    }));
    assert(effects@ =~= old(ctx).effects(now, formula_value));
    Ok(effects)
}

} // verus!
