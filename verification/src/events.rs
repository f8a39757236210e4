//! What a transition asks of its host: the moves of currency and token to carry
//! out, and the facts to record for observers.

use crate::identity::Identity;
use vstd::prelude::*;

verus! {

/// The record of a completed burn.
#[derive(Clone, Copy, Debug, PartialEq, Eq)]
pub struct BurnEvent {
    pub user: Identity,
    /// The whole amount given up, tax included.
    pub sol_burned: u64,
    /// The reward token issued for the burn itself.
    pub yrm_received: u128,
    pub tax_rate: u8,
    pub tax_amount: u64,
    pub vault_amount: u64,
    pub slot: u64,
}

/// The record of a completed claim.
#[derive(Clone, Copy, Debug, PartialEq, Eq)]
pub struct ClaimEvent {
    pub user: Identity,
    pub yrm_claimed: u64,
    pub slot: u64,
}

/// The record of a completed transfer of reward token.
#[derive(Clone, Copy, Debug, PartialEq, Eq)]
pub struct TransferEvent {
    pub from: Identity,
    pub to: Identity,
    pub amount: u64,
    pub slot: u64,
}

/// One piece of outside work that a transition calls for.
///
/// A transition answers with its effects in the order in which the host has to
/// carry them out.  Should the host fail at one of them, the transition as a whole
/// is void and the failure is what the caller gets.
#[allow(inconsistent_fields)]
#[derive(Clone, Copy, Debug, PartialEq, Eq)]
pub enum Effect {
    /// Issue `amount` of the reward token to `recipient`.
    MintReward { recipient: Identity, amount: u128 },
    /// Move `amount` of the native currency from `payer` to the creator.
    PayTax { payer: Identity, creator: Identity, amount: u64 },
    /// Move `amount` of the native currency from `payer` into the protocol's
    /// custody, out of circulation.
    LockNative { payer: Identity, amount: u64 },
    /// Move `amount` of the reward token from one participant to another.
    TransferReward { from: Identity, to: Identity, amount: u64 },
    /// Record a burn.
    EmitBurn(BurnEvent),
    /// Record a claim.
    EmitClaim(ClaimEvent),
    /// Record a transfer.
    EmitTransfer(TransferEvent),
}

impl Effect {
    /// The reward token that the effect has the host issue.
    pub open spec fn issued(self) -> nat {
        match self {
            Effect::MintReward { amount, .. } => amount as nat,
            _ => 0,
        }
    }

    /// The native currency that the effect has the host take from the payer.
    pub open spec fn taken(self) -> nat {
        match self {
            Effect::PayTax { amount, .. } => amount as nat,
            Effect::LockNative { amount, .. } => amount as nat,
            _ => 0,
        }
    }
}

/// The reward token that the effects have the host issue, all in all.
pub open spec fn total_issued(effects: Seq<Effect>) -> nat
    decreases effects.len(),
{
    if effects.len() == 0 {
        0
    } else {
        total_issued(effects.drop_last()) + effects.last().issued()
    }
}

/// The native currency that the effects have the host take, all in all.
pub open spec fn total_taken(effects: Seq<Effect>) -> nat
    decreases effects.len(),
{
    if effects.len() == 0 {
        0
    } else {
        total_taken(effects.drop_last()) + effects.last().taken()
    }
}

/// The totals of effects in a row are the sums of the totals of the parts.
pub proof fn lemma_totals_of_effects_add_up(first: Seq<Effect>, second: Seq<Effect>)
    ensures
        total_issued(first + second) == total_issued(first) + total_issued(second),
        total_taken(first + second) == total_taken(first) + total_taken(second),
    decreases second.len(),
{
    if second.len() == 0 {
        assert(first + second =~= first);
    } else {
        assert((first + second).drop_last() =~= first + second.drop_last());
        lemma_totals_of_effects_add_up(first, second.drop_last());
    }
}

/// The totals of a single effect are its own.
pub proof fn lemma_totals_of_one_effect(effect: Effect)
    ensures
        total_issued(seq![effect]) == effect.issued(),
        total_taken(seq![effect]) == effect.taken(),
{
    assert(seq![effect].drop_last() =~= Seq::<Effect>::empty());
    assert(total_issued(Seq::<Effect>::empty()) == 0);
    assert(total_taken(Seq::<Effect>::empty()) == 0);
}

} // verus!
