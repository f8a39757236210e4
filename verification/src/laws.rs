//! What holds of the ledger whatever is asked of it.

use crate::burn::{spec_minted_amount, spec_tax_amount, spec_vault_amount, BurnAndMint};
use crate::claim::Claim;
use crate::errors::{ErrorCode, LedgerError};
use crate::events::{
    lemma_totals_of_effects_add_up,
    lemma_totals_of_one_effect,
    total_issued,
    total_taken,
    ClaimEvent,
    Effect,
    TransferEvent,
};
use crate::identity::Identity;
use crate::initialize::spec_creator;
use crate::model::{LedgerState, Transition};
use crate::state::{UserAccount, DEFAULT_TAX_RATE};
use crate::transfer::TransferYrm;
use vstd::prelude::*;

verus! {

/// The creation of the global record, refused or not, leaves a ledger that can
/// follow on the one before.
pub proof fn lemma_initialize_precedes(
    state: LedgerState,
    creator: Option<Identity>,
    yrm_mint: Identity,
    bump: u8,
    now: u64,
)
    requires
        state.wf(),
    ensures
        state.after_initialize(creator, yrm_mint, bump, now).wf(),
        state.precedes(state.after_initialize(creator, yrm_mint, bump, now)),
{
}

/// A burn, refused or not, leaves a ledger that can follow on the one before.
pub proof fn lemma_burn_precedes(
    state: LedgerState,
    user: Identity,
    creator: Identity,
    sol_amount: u64,
    tax_rate: u8,
    now: u64,
    formula_value: u64,
)
    requires
        state.wf(),
    ensures
        state.after_burn(user, creator, sol_amount, tax_rate, now, formula_value).wf(),
        state.precedes(state.after_burn(user, creator, sol_amount, tax_rate, now, formula_value)),
{
    if state.burn_result(user, creator, sol_amount, tax_rate, now, formula_value) is Ok {
        crate::burn::lemma_burn_split(sol_amount, tax_rate);
    }
}

/// A claim, refused or not, leaves a ledger that can follow on the one before.
pub proof fn lemma_claim_precedes(state: LedgerState, user: Identity, now: u64, formula_value: u64)
    requires
        state.wf(),
    ensures
        state.after_claim(user, now, formula_value).wf(),
        state.precedes(state.after_claim(user, now, formula_value)),
{
    if state.accounts.contains_key(user) {
        assert(state.accounts[user].wf());
    }
}

/// A transfer, refused or not, leaves a ledger that can follow on the one
/// before.
pub proof fn lemma_transfer_precedes(
    state: LedgerState,
    from: Identity,
    to: Identity,
    amount: u64,
    from_token_balance: u128,
    now: u64,
)
    requires
        state.wf(),
    ensures
        state.after_transfer(from, to, amount, from_token_balance, now).wf(),
        state.precedes(state.after_transfer(from, to, amount, from_token_balance, now)),
{
    if state.accounts.contains_key(from) {
        assert(state.accounts[from].wf());
    }
    if state.accounts.contains_key(to) {
        assert(state.accounts[to].wf());
    }
}

/// Opening a vacant record leaves a ledger that can follow on the one before,
/// and opening it again changes nothing more.
pub proof fn lemma_with_account_precedes(state: LedgerState, key: Identity)
    requires
        state.wf(),
    ensures
        state.with_account(key).wf(),
        state.precedes(state.with_account(key)),
        state.with_account(key).with_account(key) == state.with_account(key),
        state.accounts.contains_key(key) ==> state.with_account(key) == state,
{
    let once = state.with_account(key);
    assert(once.with_account(key).accounts =~= once.accounts);
    if state.accounts.contains_key(key) {
        assert(once.accounts =~= state.accounts);
    }
}

/// One call of any transition, whatever it is given and whether or not it is
/// refused, leaves a ledger that can follow on the one before: no total goes
/// down.
pub proof fn lemma_apply_precedes(state: LedgerState, call: Transition)
    requires
        state.wf(),
    ensures
        state.apply(call).wf(),
        state.precedes(state.apply(call)),
        state.total_sol_burned() <= state.apply(call).total_sol_burned(),
        state.total_yrm_minted() <= state.apply(call).total_yrm_minted(),
{
    match call {
        Transition::Initialize { yrm_mint, bump, now } => {
            lemma_initialize_precedes(state, spec_creator(), yrm_mint, bump, now);
        },
        Transition::BurnAndMint { user, creator, sol_amount, tax_rate, now, formula_value } => {
            lemma_burn_precedes(state, user, creator, sol_amount, tax_rate, now, formula_value);
        },
        Transition::Claim { user, now, formula_value } => {
            lemma_claim_precedes(state, user, now, formula_value);
        },
        Transition::TransferYrm { from, to, amount, from_token_balance, now } => {
            lemma_transfer_precedes(state, from, to, amount, from_token_balance, now);
        },
        Transition::GetStats => {},
    }
}

/// The totals burned and issued never go down, over any sequence of calls of
/// any transitions; nor does the global record, once created, change its
/// creator or its genesis, nor is any participant's record lost.
pub proof fn lemma_totals_never_decrease(state: LedgerState, calls: Seq<Transition>)
    requires
        state.wf(),
    ensures
        state.run(calls).wf(),
        state.precedes(state.run(calls)),
        state.total_sol_burned() <= state.run(calls).total_sol_burned(),
        state.total_yrm_minted() <= state.run(calls).total_yrm_minted(),
    decreases calls.len(),
{
    if calls.len() > 0 {
        lemma_totals_never_decrease(state, calls.drop_last());
        lemma_apply_precedes(state.run(calls.drop_last()), calls.last());
    }
}

/// The global record is created once: with one in place, a further creation is
/// refused and changes nothing.  In particular a second creation after a first
/// that succeeded fails and leaves the ledger as the first left it.
pub proof fn lemma_initialize_is_single_shot(
    state: LedgerState,
    creator: Option<Identity>,
    yrm_mint: Identity,
    bump: u8,
    now: u64,
    second_creator: Option<Identity>,
    second_yrm_mint: Identity,
    second_bump: u8,
    second_now: u64,
)
    ensures
        state.global is Some ==> {
            &&& state.initialize_result(creator) == Err::<(), LedgerError>(
                LedgerError::AlreadyInitialized,
            )
            &&& state.after_initialize(creator, yrm_mint, bump, now) == state
        },
        state.initialize_result(creator) is Ok ==> ({
            let first = state.after_initialize(creator, yrm_mint, bump, now);
            &&& first.initialize_result(second_creator) == Err::<(), LedgerError>(
                LedgerError::AlreadyInitialized,
            )
            &&& first.after_initialize(second_creator, second_yrm_mint, second_bump, second_now)
                == first
        }),
{
}

/// A burn at a tax rate above 40 is refused for that reason and changes
/// nothing, whatever else it asks.
pub proof fn lemma_excessive_tax_rate_is_refused(
    state: LedgerState,
    user: Identity,
    creator: Identity,
    sol_amount: u64,
    tax_rate: u8,
    now: u64,
    formula_value: u64,
)
    requires
        state.global is Some,
        tax_rate > 40,
    ensures
        state.burn_result(user, creator, sol_amount, tax_rate, now, formula_value) == Err::<
            Seq<Effect>,
            LedgerError,
        >(LedgerError::Program(ErrorCode::TaxRateTooHigh)),
        state.after_burn(user, creator, sol_amount, tax_rate, now, formula_value) == state,
{
}

/// A burn that is not refused claims the yield on the previous burn first, then
/// issues the reward for the new burn, and counts both as issued.
pub proof fn lemma_burn_claims_pending_yield_first(
    ctx: BurnAndMint,
    sol_amount: u64,
    tax_rate: u8,
    now: u64,
    formula_value: u64,
)
    requires
        ctx.refusal(sol_amount, tax_rate, now, formula_value) is None,
    ensures
        ({
            let pending = ctx.auto_claim(now, formula_value);
            let effects = ctx.effects(sol_amount, tax_rate, now, formula_value);
            let minted = spec_minted_amount(sol_amount, tax_rate);
            let after = ctx.after(sol_amount, tax_rate, now, formula_value);
            &&& after.global_state.total_yrm_minted == ctx.global_state.total_yrm_minted + pending
                + minted
            &&& after.user_account.last_burn_amount == sol_amount
            &&& pending > 0 ==> effects[0] == (Effect::MintReward {
                recipient: ctx.user,
                amount: pending as u128,
            })
            &&& pending == 0 ==> forall|i: int|
                0 <= i < effects.len() - 2 ==> !(#[trigger] effects[i] is MintReward)
            &&& effects[effects.len() - 2] == (Effect::MintReward {
                recipient: ctx.user,
                amount: minted as u128,
            })
            &&& effects.last() is EmitBurn
        }),
{
    crate::burn::lemma_burn_split(sol_amount, tax_rate);
}

/// What a burn has the host do is what it counts: it has the whole burn taken
/// from the caller, tax and custody's part together, and it counts as issued
/// exactly what it has issued.
pub proof fn lemma_burn_counts_what_it_asks_for(
    ctx: BurnAndMint,
    sol_amount: u64,
    tax_rate: u8,
    now: u64,
    formula_value: u64,
)
    requires
        ctx.refusal(sol_amount, tax_rate, now, formula_value) is None,
    ensures
        ({
            let effects = ctx.effects(sol_amount, tax_rate, now, formula_value);
            let after = ctx.after(sol_amount, tax_rate, now, formula_value);
            &&& total_taken(effects) == sol_amount
            &&& after.global_state.total_sol_burned == ctx.global_state.total_sol_burned
                + total_taken(effects)
            &&& after.user_account.total_burned == ctx.user_account.total_burned + total_taken(
                effects,
            )
            &&& after.global_state.total_yrm_minted == ctx.global_state.total_yrm_minted
                + total_issued(effects)
        }),
{
    crate::burn::lemma_burn_split(sol_amount, tax_rate);
    let claimed = ctx.auto_claim(now, formula_value);
    let tax = spec_tax_amount(sol_amount, tax_rate);
    let vault = spec_vault_amount(sol_amount, tax_rate);
    let minted = spec_minted_amount(sol_amount, tax_rate);
    let claim_effect = Effect::MintReward { recipient: ctx.user, amount: claimed as u128 };
    let tax_effect = Effect::PayTax { payer: ctx.user, creator: ctx.creator, amount: tax as u64 };
    let vault_effect = Effect::LockNative { payer: ctx.user, amount: vault as u64 };
    let mint_effect = Effect::MintReward { recipient: ctx.user, amount: minted as u128 };
    let emit_effect = Effect::EmitBurn(ctx.event(sol_amount, tax_rate, now));
    let yield_part = if claimed > 0 {
        seq![claim_effect]
    } else {
        Seq::<Effect>::empty()
    };
    let tax_part = if tax > 0 {
        seq![tax_effect]
    } else {
        Seq::<Effect>::empty()
    };
    let vault_part = if vault > 0 {
        seq![vault_effect]
    } else {
        Seq::<Effect>::empty()
    };
    let last_part = seq![mint_effect, emit_effect];
    assert(last_part =~= seq![mint_effect] + seq![emit_effect]);
    lemma_totals_of_one_effect(claim_effect);
    lemma_totals_of_one_effect(tax_effect);
    lemma_totals_of_one_effect(vault_effect);
    lemma_totals_of_one_effect(mint_effect);
    lemma_totals_of_one_effect(emit_effect);
    lemma_totals_of_effects_add_up(seq![mint_effect], seq![emit_effect]);
    lemma_totals_of_effects_add_up(yield_part, tax_part);
    lemma_totals_of_effects_add_up(yield_part + tax_part, vault_part);
    lemma_totals_of_effects_add_up(yield_part + tax_part + vault_part, last_part);
    assert(ctx.effects(sol_amount, tax_rate, now, formula_value) == yield_part + tax_part
        + vault_part + last_part);
}

/// What a claim has the host issue is what it counts as issued; it takes no
/// native currency.
pub proof fn lemma_claim_counts_what_it_asks_for(ctx: Claim, now: u64, formula_value: u64)
    requires
        ctx.refusal(now, formula_value) is None,
    ensures
        ({
            let effects = ctx.effects(now, formula_value);
            let after = ctx.after(now, formula_value);
            &&& total_taken(effects) == 0
            &&& total_issued(effects) == ctx.claimable(now, formula_value)
            &&& after.global_state.total_yrm_minted == ctx.global_state.total_yrm_minted
                + total_issued(effects)
            &&& after.global_state.total_sol_burned == ctx.global_state.total_sol_burned
        }),
{
    let claimable = ctx.claimable(now, formula_value);
    let mint_effect = Effect::MintReward { recipient: ctx.user, amount: claimable as u128 };
    let emit_effect = Effect::EmitClaim(
        ClaimEvent { user: ctx.user, yrm_claimed: claimable, slot: now },
    );
    assert(ctx.effects(now, formula_value) =~= seq![mint_effect] + seq![emit_effect]);
    lemma_totals_of_one_effect(mint_effect);
    lemma_totals_of_one_effect(emit_effect);
    lemma_totals_of_effects_add_up(seq![mint_effect], seq![emit_effect]);
}

/// A transfer has the host neither issue reward token nor take native currency,
/// and counts nothing.
pub proof fn lemma_transfer_counts_nothing(ctx: TransferYrm, amount: u64, now: u64)
    ensures
        total_taken(ctx.effects(amount, now)) == 0,
        total_issued(ctx.effects(amount, now)) == 0,
        ctx.after(now).global_state == ctx.global_state,
{
    let move_effect = Effect::TransferReward { from: ctx.from, to: ctx.to, amount };
    let emit_effect = Effect::EmitTransfer(
        TransferEvent { from: ctx.from, to: ctx.to, amount, slot: now },
    );
    assert(ctx.effects(amount, now) =~= seq![move_effect] + seq![emit_effect]);
    lemma_totals_of_one_effect(move_effect);
    lemma_totals_of_one_effect(emit_effect);
    lemma_totals_of_effects_add_up(seq![move_effect], seq![emit_effect]);
}

/// A transfer to an identity without a record opens one for it at the default
/// tax rate of 20 and without a burn; a claim by that identity, at whatever
/// time, is then refused because there is nothing to claim, and changes nothing.
pub proof fn lemma_transfer_opens_record_without_yield(
    state: LedgerState,
    from: Identity,
    to: Identity,
    amount: u64,
    from_token_balance: u128,
    now: u64,
    claim_now: u64,
    formula_value: u64,
)
    requires
        state.transfer_result(from, to, amount, from_token_balance, now) is Ok,
        !state.accounts.contains_key(to),
        !to.spec_is_default(),
    ensures
        ({
            let after = state.after_transfer(from, to, amount, from_token_balance, now);
            &&& after.accounts.contains_key(to)
            &&& after.accounts[to] == UserAccount::spec_opened_by_transfer(to, now)
            &&& after.accounts[to].tax_rate == DEFAULT_TAX_RATE
            &&& after.accounts[to].tax_rate == 20
            &&& after.accounts[to].last_burn_amount == 0
            &&& after.accounts[to].total_burned == 0
            &&& after.claim_result(to, claim_now, formula_value) == Err::<
                Seq<Effect>,
                LedgerError,
            >(LedgerError::Program(ErrorCode::NothingToClaim))
            &&& after.after_claim(to, claim_now, formula_value) == after
        }),
{
}

/// Neither a claim nor a transfer touches the burn on record: only a burn sets
/// it.
pub proof fn lemma_only_a_burn_sets_the_burn_on_record(
    state: LedgerState,
    call: Transition,
    key: Identity,
)
    requires
        state.accounts.contains_key(key),
        !(call is BurnAndMint),
        !state.accounts[key].owner.spec_is_default(),
    ensures
        state.apply(call).accounts.contains_key(key),
        state.apply(call).accounts[key].last_burn_amount == state.accounts[key].last_burn_amount,
        state.apply(call).accounts[key].total_burned == state.accounts[key].total_burned,
        state.apply(call).accounts[key].tax_rate == state.accounts[key].tax_rate,
        state.apply(call).accounts[key].owner == state.accounts[key].owner,
{
}

} // verus!
