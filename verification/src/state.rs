//! The two kinds of record that the ledger keeps.

use crate::accrual::MAX_TAX_RATE;
use crate::identity::Identity;
use vstd::prelude::*;

verus! {

/// The tax rate given to a record that a transfer creates, in percent.
pub const DEFAULT_TAX_RATE: u8 = 20;

/// The protocol's single global record.
#[derive(Clone, Copy, Debug, PartialEq, Eq)]
pub struct GlobalState {
    /// The identity that receives the tax of every burn.
    pub creator: Identity,
    /// Native currency burned so far, tax included, in its smallest units.
    pub total_sol_burned: u64,
    /// Reward token issued so far, in its smallest units.
    pub total_yrm_minted: u128,
    /// The ledger time at which the record was created.
    pub genesis_slot: u64,
    /// The record of the reward token's issuance authority.
    pub yrm_mint: Identity,
    /// The nonce of the record's derived address.
    pub bump: u8,
}

/// The record of one participant.
#[derive(Clone, Copy, Debug, PartialEq, Eq)]
pub struct UserAccount {
    /// The participant; the default identity until a transition writes the record.
    pub owner: Identity,
    /// The tax rate chosen at the most recent burn, in percent.
    pub tax_rate: u8,
    /// The ledger time of the most recent burn, claim or transfer.
    pub last_action_slot: u64,
    /// The sum of all burns of this participant.
    pub total_burned: u64,
    /// The most recent burn alone.
    pub last_burn_amount: u64,
}

impl GlobalState {
    /// A global record that has not been filled yet.
    pub open spec fn spec_vacant() -> GlobalState {
        GlobalState {
            creator: Identity::spec_default(),
            total_sol_burned: 0,
            total_yrm_minted: 0,
            genesis_slot: 0,
            yrm_mint: Identity::spec_default(),
            bump: 0,
        }
    }

    /// A global record that has not been filled yet: default identities and zeros.
    pub fn vacant() -> (r: GlobalState)
        ensures
            r == Self::spec_vacant(),
    {
        GlobalState {
            creator: Identity::default(),
            total_sol_burned: 0,
            total_yrm_minted: 0,
            genesis_slot: 0,
            yrm_mint: Identity::default(),
            bump: 0,
        }
    }
}

impl UserAccount {
    /// The rate is one that a participant can choose.
    pub open spec fn wf(&self) -> bool {
        self.tax_rate <= MAX_TAX_RATE
    }

    /// A record that no transition has written yet.
    pub open spec fn spec_vacant() -> UserAccount {
        UserAccount {
            owner: Identity::spec_default(),
            tax_rate: 0,
            last_action_slot: 0,
            total_burned: 0,
            last_burn_amount: 0,
        }
    }

    /// The record as a transfer creates it for a recipient that had none.
    pub open spec fn spec_opened_by_transfer(owner: Identity, now: u64) -> UserAccount {
        UserAccount {
            owner,
            tax_rate: DEFAULT_TAX_RATE,
            last_action_slot: now,
            total_burned: 0,
            last_burn_amount: 0,
        }
    }

    /// A record that no transition has written yet: the default owner and zeros.
    pub fn vacant() -> (r: UserAccount)
        ensures
            r == Self::spec_vacant(),
            r.owner.spec_is_default(),
            r.wf(),
    {
        UserAccount {
            owner: Identity::default(),
            tax_rate: 0,
            last_action_slot: 0,
            total_burned: 0,
            last_burn_amount: 0,
        }
    }
}

} // verus!
