//! The ledger as a mathematical object: the global record, where it exists, and
//! the participants' records by identity; and each transition as a function on
//! it.

use crate::accrual::{spec_yield_terms, YieldTerms};
use crate::burn::BurnAndMint;
use crate::claim::Claim;
use crate::errors::{ErrorCode, LedgerError};
use crate::events::Effect;
use crate::identity::Identity;
use crate::initialize::{spec_creator, Initialize};
use crate::state::{GlobalState, UserAccount};
use crate::transfer::TransferYrm;
use vstd::prelude::*;

verus! {

/// What the ledger holds.
pub ghost struct LedgerState {
    /// The global record, once it has been created.
    pub global: Option<GlobalState>,
    /// The record of each participant that has one.
    pub accounts: Map<Identity, UserAccount>,
}

/// One call of a transition, with everything it is given.
pub ghost enum Transition {
    Initialize { yrm_mint: Identity, bump: u8, now: u64 },
    BurnAndMint {
        user: Identity,
        creator: Identity,
        sol_amount: u64,
        tax_rate: u8,
        now: u64,
        formula_value: u64,
    },
    Claim { user: Identity, now: u64, formula_value: u64 },
    TransferYrm { from: Identity, to: Identity, amount: u64, from_token_balance: u128, now: u64 },
    GetStats,
}

impl LedgerState {
    /// The ledger before anything was created.
    pub open spec fn empty() -> LedgerState {
        LedgerState { global: None, accounts: Map::empty() }
    }

    /// Every record's tax rate is one that a participant can choose, and every
    /// record is owned by the identity it is kept under, unless no transition has
    /// written it yet.
    pub open spec fn wf(self) -> bool {
        forall|key: Identity| #[trigger]
            self.accounts.contains_key(key) ==> {
                &&& self.accounts[key].wf()
                &&& (self.accounts[key].owner == key || self.accounts[key].owner.spec_is_default())
            }
    }

    /// The native currency burned so far; nothing before the global record
    /// exists.
    pub open spec fn total_sol_burned(self) -> nat {
        match self.global {
            Some(global) => global.total_sol_burned as nat,
            None => 0,
        }
    }

    /// The reward token issued so far; nothing before the global record exists.
    pub open spec fn total_yrm_minted(self) -> nat {
        match self.global {
            Some(global) => global.total_yrm_minted as nat,
            None => 0,
        }
    }

    /// Whether `later` can follow on this ledger: the totals have not gone down,
    /// the global record has stayed in place with its creator, genesis, issuance
    /// authority and nonce, no record has been removed, and no record with an
    /// owner has changed its owner or lost any of its sum of burns.
    pub open spec fn precedes(self, later: LedgerState) -> bool {
        &&& self.total_sol_burned() <= later.total_sol_burned()
        &&& self.total_yrm_minted() <= later.total_yrm_minted()
        &&& self.global matches Some(before) ==> {
            &&& later.global matches Some(after)
            &&& after.creator == before.creator
            &&& after.genesis_slot == before.genesis_slot
            &&& after.yrm_mint == before.yrm_mint
            &&& after.bump == before.bump
        }
        &&& forall|key: Identity| #[trigger]
            self.accounts.contains_key(key) ==> {
                &&& later.accounts.contains_key(key)
                &&& !self.accounts[key].owner.spec_is_default() ==> {
                    &&& later.accounts[key].owner == self.accounts[key].owner
                    &&& self.accounts[key].total_burned <= later.accounts[key].total_burned
                }
            }
    }

    /// The record kept under `key`, or a vacant one where there is none.
    pub open spec fn account_or_vacant(self, key: Identity) -> UserAccount {
        if self.accounts.contains_key(key) {
            self.accounts[key]
        } else {
            UserAccount::spec_vacant()
        }
    }

    /// The ledger with a record under `key`: the one it has, or a vacant one.
    pub open spec fn with_account(self, key: Identity) -> LedgerState {
        LedgerState {
            accounts: self.accounts.insert(key, self.account_or_vacant(key)),
            ..self
        }
    }

    /// The terms of the yield that is due at `now` on the record kept under
    /// `user`, if there is such a record and such a yield.
    pub open spec fn yield_terms(self, user: Identity, now: u64) -> Option<YieldTerms> {
        if self.global is Some && self.accounts.contains_key(user) {
            spec_yield_terms(
                now,
                self.accounts[user].last_action_slot,
                self.accounts[user].last_burn_amount,
                self.accounts[user].tax_rate,
                self.global->Some_0.genesis_slot,
            )
        } else {
            None
        }
    }

    // ----- creation of the global record -----
    /// What the creation of the global record answers, for the creator that was
    /// read from the protocol's creator address.
    pub open spec fn initialize_result(self, creator: Option<Identity>) -> Result<
        (),
        LedgerError,
    > {
        if self.global is Some {
            Err(LedgerError::AlreadyInitialized)
        } else if creator is None {
            Err(LedgerError::Program(ErrorCode::InvalidCreatorAddress))
        } else {
            Ok(())
        }
    }

    /// The ledger after the creation of the global record was asked for.
    pub open spec fn after_initialize(
        self,
        creator: Option<Identity>,
        yrm_mint: Identity,
        bump: u8,
        now: u64,
    ) -> LedgerState {
        if self.initialize_result(creator) is Ok {
            let ctx = Initialize { global_state: GlobalState::spec_vacant(), yrm_mint, bump };
            LedgerState { global: Some(ctx.created(creator->Some_0, now)), ..self }
        } else {
            self
        }
    }

    // ----- burn -----
    /// The records that a burn by `user` works on.
    pub open spec fn burn_context(self, user: Identity, creator: Identity) -> BurnAndMint {
        BurnAndMint {
            global_state: self.global->Some_0,
            user_account: self.account_or_vacant(user),
            creator,
            user,
        }
    }

    /// What a burn answers.
    pub open spec fn burn_result(
        self,
        user: Identity,
        creator: Identity,
        sol_amount: u64,
        tax_rate: u8,
        now: u64,
        formula_value: u64,
    ) -> Result<Seq<Effect>, LedgerError> {
        let ctx = self.burn_context(user, creator);
        if self.global is None {
            Err(LedgerError::NotInitialized)
        } else {
            match ctx.refusal(sol_amount, tax_rate, now, formula_value) {
                Some(code) => Err(LedgerError::Program(code)),
                None => Ok(ctx.effects(sol_amount, tax_rate, now, formula_value)),
            }
        }
    }

    /// The ledger after a burn was asked for.
    pub open spec fn after_burn(
        self,
        user: Identity,
        creator: Identity,
        sol_amount: u64,
        tax_rate: u8,
        now: u64,
        formula_value: u64,
    ) -> LedgerState {
        if self.burn_result(user, creator, sol_amount, tax_rate, now, formula_value) is Ok {
            let done = self.burn_context(user, creator).after(
                sol_amount,
                tax_rate,
                now,
                formula_value,
            );
            LedgerState {
                global: Some(done.global_state),
                accounts: self.accounts.insert(user, done.user_account),
            }
        } else {
            self
        }
    }

    // ----- claim -----
    /// The records that a claim by `user` works on.
    pub open spec fn claim_context(self, user: Identity) -> Claim {
        Claim { global_state: self.global->Some_0, user_account: self.accounts[user], user }
    }

    /// What a claim answers.
    pub open spec fn claim_result(self, user: Identity, now: u64, formula_value: u64) -> Result<
        Seq<Effect>,
        LedgerError,
    > {
        let ctx = self.claim_context(user);
        if self.global is None {
            Err(LedgerError::NotInitialized)
        } else if !self.accounts.contains_key(user) {
            Err(LedgerError::Program(ErrorCode::UserAccountNotInitialized))
        } else {
            match ctx.refusal(now, formula_value) {
                Some(code) => Err(LedgerError::Program(code)),
                None => Ok(ctx.effects(now, formula_value)),
            }
        }
    }

    /// The ledger after a claim was asked for.
    pub open spec fn after_claim(
        self,
        user: Identity,
        now: u64,
        formula_value: u64,
    ) -> LedgerState {
        if self.claim_result(user, now, formula_value) is Ok {
            let done = self.claim_context(user).after(now, formula_value);
            LedgerState {
                global: Some(done.global_state),
                accounts: self.accounts.insert(user, done.user_account),
            }
        } else {
            self
        }
    }

    // ----- transfer -----
    /// The records that a transfer works on.
    pub open spec fn transfer_context(
        self,
        from: Identity,
        to: Identity,
        from_token_balance: u128,
    ) -> TransferYrm {
        TransferYrm {
            global_state: self.global->Some_0,
            from_account: self.accounts[from],
            to_account: self.account_or_vacant(to),
            from,
            to,
            from_token_balance,
        }
    }

    /// What a transfer answers.
    pub open spec fn transfer_result(
        self,
        from: Identity,
        to: Identity,
        amount: u64,
        from_token_balance: u128,
        now: u64,
    ) -> Result<Seq<Effect>, LedgerError> {
        let ctx = self.transfer_context(from, to, from_token_balance);
        if self.global is None {
            Err(LedgerError::NotInitialized)
        } else if !self.accounts.contains_key(from) {
            Err(LedgerError::Program(ErrorCode::UserAccountNotInitialized))
        } else {
            match ctx.refusal(amount) {
                Some(code) => Err(LedgerError::Program(code)),
                None => Ok(ctx.effects(amount, now)),
            }
        }
    }

    /// The ledger after a transfer was asked for.  Where sender and recipient are
    /// one, the record is kept as the recipient's side leaves it.
    pub open spec fn after_transfer(
        self,
        from: Identity,
        to: Identity,
        amount: u64,
        from_token_balance: u128,
        now: u64,
    ) -> LedgerState {
        if self.transfer_result(from, to, amount, from_token_balance, now) is Ok {
            let done = self.transfer_context(from, to, from_token_balance).after(now);
            LedgerState {
                global: self.global,
                accounts: self.accounts.insert(from, done.from_account).insert(
                    to,
                    done.to_account,
                ),
            }
        } else {
            self
        }
    }

    // ----- reading the totals -----
    /// What a reading of the totals answers.
    pub open spec fn stats_result(self) -> Result<GlobalState, LedgerError> {
        match self.global {
            Some(global) => Ok(global),
            None => Err(LedgerError::NotInitialized),
        }
    }

    // ----- any transition -----
    /// The ledger after one call of a transition.
    pub open spec fn apply(self, call: Transition) -> LedgerState {
        match call {
            Transition::Initialize { yrm_mint, bump, now } => self.after_initialize(
                spec_creator(),
                yrm_mint,
                bump,
                now,
            ),
            Transition::BurnAndMint { user, creator, sol_amount, tax_rate, now, formula_value } => {
                self.after_burn(user, creator, sol_amount, tax_rate, now, formula_value)
            },
            Transition::Claim { user, now, formula_value } => self.after_claim(
                user,
                now,
                formula_value,
            ),
            Transition::TransferYrm { from, to, amount, from_token_balance, now } => {
                self.after_transfer(from, to, amount, from_token_balance, now)
            },
            Transition::GetStats => self,
        }
    }

    /// The ledger after a sequence of calls, one after the other.
    pub open spec fn run(self, calls: Seq<Transition>) -> LedgerState
        decreases calls.len(),
    {
        if calls.len() == 0 {
            self
        } else {
            self.run(calls.drop_last()).apply(calls.last())
        }
    }
}

} // verus!
