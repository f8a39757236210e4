//! The transfer of reward token from one participant to another.

use crate::errors::ErrorCode;
use crate::events::{Effect, TransferEvent};
use crate::identity::Identity;
use crate::state::{GlobalState, UserAccount, DEFAULT_TAX_RATE};
use vstd::prelude::*;

verus! {

/// The records and identities that a transfer works on.
#[derive(Clone, Copy, Debug, PartialEq, Eq)]
pub struct TransferYrm {
    pub global_state: GlobalState,
    /// The sender's record.
    pub from_account: UserAccount,
    /// The recipient's record, vacant where the recipient has none yet.
    pub to_account: UserAccount,
    /// The sender.
    pub from: Identity,
    /// The recipient.
    pub to: Identity,
    /// The reward token that the sender holds.
    pub from_token_balance: u128,
}

impl TransferYrm {
    /// Why the transfer is refused, if it is.
    pub open spec fn refusal(&self, amount: u64) -> Option<ErrorCode> {
        if amount == 0 {
            Some(ErrorCode::InvalidAmount)
        } else if self.from_token_balance < amount {
            Some(ErrorCode::InsufficientBalance)
        } else {
            None
        }
    }

    /// The recipient's record after a transfer: opened for the recipient at the
    /// default tax rate where no transition had written it, and in any case
    /// touched at `now`.
    pub open spec fn recipient_after(&self, now: u64) -> UserAccount {
        if self.to_account.owner.spec_is_default() {
            UserAccount::spec_opened_by_transfer(self.to, now)
        } else {
            UserAccount { last_action_slot: now, ..self.to_account }
        }
    }

    /// The records after a transfer that is not refused.
    pub open spec fn after(&self, now: u64) -> TransferYrm {
        TransferYrm {
            from_account: UserAccount { last_action_slot: now, ..self.from_account },
            to_account: self.recipient_after(now),
            ..*self
        }
    }

    /// What a transfer that is not refused asks of the host: the move of the
    /// token, then its record.
    pub open spec fn effects(&self, amount: u64, now: u64) -> Seq<Effect> {
        seq![
            Effect::TransferReward { from: self.from, to: self.to, amount },
            Effect::EmitTransfer(
                TransferEvent { from: self.from, to: self.to, amount, slot: now },
            ),
        ]
    }
}

/// Moves `amount` of the sender's reward token to the recipient at `now`.
///
/// Both records count the transfer as an action, though nothing was burned: for
/// both, yield is counted from `now` on.
///
/// A refused transfer leaves the records as they were.
pub fn transfer_yrm(ctx: &mut TransferYrm, amount: u64, now: u64) -> (r: Result<
    Vec<Effect>,
    ErrorCode,
>)
    ensures
        match old(ctx).refusal(amount) {
            Some(code) => r == Err::<Vec<Effect>, ErrorCode>(code) && *final(ctx) == *old(ctx),
            None => {
                &&& r is Ok
                &&& r->Ok_0@ == old(ctx).effects(amount, now)
                &&& *final(ctx) == old(ctx).after(now)
            },
        },
{
    if amount == 0 {
        return Err(ErrorCode::InvalidAmount);
    }
    if ctx.from_token_balance < amount as u128 {
        return Err(ErrorCode::InsufficientBalance);
    }
    let mut effects: Vec<Effect> = Vec::new();
    effects.push(Effect::TransferReward { from: ctx.from, to: ctx.to, amount });

    ctx.from_account.last_action_slot = now;
    if ctx.to_account.owner.is_default() {
        ctx.to_account.owner = ctx.to;
        ctx.to_account.tax_rate = DEFAULT_TAX_RATE;
        ctx.to_account.last_action_slot = now;
        ctx.to_account.total_burned = 0;
        ctx.to_account.last_burn_amount = 0;
    } else {
        ctx.to_account.last_action_slot = now;
    }

    effects.push(
        Effect::EmitTransfer(TransferEvent { from: ctx.from, to: ctx.to, amount, slot: now }),
    );
    assert(effects@ =~= old(ctx).effects(amount, now));
    Ok(effects)
}

} // verus!
