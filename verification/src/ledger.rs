//! The ledger: a store of records by identity that applies each transition all
//! or nothing.
//!
//! Records are kept in an arena in the order in which they were created and are
//! never removed.  A transition is worked out on copies of the records it
//! touches; only where it is not refused are the copies written back.
//!
//! The ledger writes a transition's records as soon as the transition is not
//! refused, and answers with the effects.  A host whose outside work can fail,
//! and that then has to void the transition, either takes a copy of the ledger
//! first and puts it back, or keeps the records itself and works on them with
//! the handlers of the transitions, which touch nothing but the records they are
//! given.

use crate::accrual::{yield_terms, YieldTerms};
use crate::burn::{burn_and_mint, BurnAndMint};
use crate::claim::{claim, Claim};
use crate::errors::{ErrorCode, LedgerError};
use crate::events::Effect;
use crate::identity::Identity;
use crate::initialize::{initialize_with_creator, spec_creator, Initialize, CREATOR_ADDRESS};
use crate::laws::{
    lemma_burn_precedes,
    lemma_claim_precedes,
    lemma_initialize_precedes,
    lemma_transfer_precedes,
    lemma_with_account_precedes,
};
use crate::model::LedgerState;
use crate::state::{GlobalState, UserAccount};
use crate::transfer::{transfer_yrm, TransferYrm};
use vstd::prelude::*;

verus! {

/// One place of the arena: a participant's record under the participant's
/// identity.
#[derive(Clone, Copy, Debug)]
struct Entry {
    key: Identity,
    record: UserAccount,
}

/// The store of the global record and of the participants' records.
#[derive(Debug)]
pub struct Ledger {
    global: Option<GlobalState>,
    entries: Vec<Entry>,
}

/// Whether a record is kept under `key`.
spec fn holds(entries: Seq<Entry>, key: Identity) -> bool {
    exists|i: int| #![trigger entries[i]] 0 <= i < entries.len() && entries[i].key == key
}

/// The place of the record kept under `key`.
spec fn place_of(entries: Seq<Entry>, key: Identity) -> int {
    choose|i: int| #![trigger entries[i]] 0 <= i < entries.len() && entries[i].key == key
}

/// No identity has two records.
spec fn distinct(entries: Seq<Entry>) -> bool {
    forall|i: int, j: int|
        #![trigger entries[i], entries[j]]
        0 <= i < j < entries.len() ==> entries[i].key != entries[j].key
}

/// The records by identity.
spec fn records(entries: Seq<Entry>) -> Map<Identity, UserAccount> {
    Map::new(
        |key: Identity| holds(entries, key),
        |key: Identity| entries[place_of(entries, key)].record,
    )
}

proof fn lemma_record_at(entries: Seq<Entry>, i: int)
    requires
        distinct(entries),
        0 <= i < entries.len(),
    ensures
        holds(entries, entries[i].key),
        place_of(entries, entries[i].key) == i,
        records(entries).contains_key(entries[i].key),
        records(entries)[entries[i].key] == entries[i].record,
{
    let key = entries[i].key;
    assert(holds(entries, key));
    let j = place_of(entries, key);
    assert(0 <= j < entries.len() && entries[j].key == key);
    if j < i {
        assert(entries[j].key != entries[i].key);
    } else if i < j {
        assert(entries[i].key != entries[j].key);
    }
}

proof fn lemma_records_push(entries: Seq<Entry>, entry: Entry)
    requires
        distinct(entries),
        !holds(entries, entry.key),
    ensures
        distinct(entries.push(entry)),
        records(entries.push(entry)) == records(entries).insert(entry.key, entry.record),
{
    let grown = entries.push(entry);
    assert forall|i: int, j: int| 0 <= i < j < grown.len() implies grown[i].key != grown[j].key by {
        if j == entries.len() {
            assert(entries[i].key != entry.key);
        } else {
            assert(entries[i].key != entries[j].key);
        }
    }
    assert(distinct(grown));
    let before = records(entries).insert(entry.key, entry.record);
    let after = records(grown);
    assert forall|key: Identity| before.contains_key(key) <==> after.contains_key(key) by {
        if before.contains_key(key) {
            if key == entry.key {
                assert(grown[entries.len() as int].key == key);
            } else {
                let i = place_of(entries, key);
                assert(grown[i].key == key);
            }
        }
        if after.contains_key(key) {
            let i = place_of(grown, key);
            if i < entries.len() {
                assert(entries[i].key == key);
            }
        }
    }
    assert forall|key: Identity| before.contains_key(key) implies before[key] == after[key] by {
        if key == entry.key {
            lemma_record_at(grown, entries.len() as int);
        } else {
            let i = place_of(entries, key);
            assert(grown[i] == entries[i]);
            lemma_record_at(grown, i);
        }
    }
    assert(before =~= after);
}

proof fn lemma_records_update(entries: Seq<Entry>, i: int, record: UserAccount)
    requires
        distinct(entries),
        0 <= i < entries.len(),
    ensures
        distinct(entries.update(i, Entry { key: entries[i].key, record })),
        records(entries.update(i, Entry { key: entries[i].key, record })) == records(
            entries,
        ).insert(entries[i].key, record),
{
    let changed = entries.update(i, Entry { key: entries[i].key, record });
    assert forall|a: int, b: int| 0 <= a < b < changed.len() implies changed[a].key
        != changed[b].key by {
        assert(entries[a].key != entries[b].key);
    }
    assert(distinct(changed));
    let before = records(entries).insert(entries[i].key, record);
    let after = records(changed);
    assert forall|key: Identity| before.contains_key(key) <==> after.contains_key(key) by {
        if before.contains_key(key) {
            if key == entries[i].key {
                assert(changed[i].key == key);
            } else {
                let j = place_of(entries, key);
                assert(changed[j].key == key);
            }
        }
        if after.contains_key(key) {
            let j = place_of(changed, key);
            assert(entries[j].key == key);
        }
    }
    assert forall|key: Identity| before.contains_key(key) implies before[key] == after[key] by {
        if key == entries[i].key {
            lemma_record_at(changed, i);
        } else {
            let j = place_of(entries, key);
            assert(changed[j] == entries[j]);
            lemma_record_at(changed, j);
        }
    }
    assert(before =~= after);
}

impl View for Ledger {
    type V = LedgerState;

    closed spec fn view(&self) -> LedgerState {
        LedgerState { global: self.global, accounts: records(self.entries@) }
    }
}

impl Clone for Ledger {
    /// A copy of the ledger as it stands, for a host that has to put the ledger
    /// back where its outside work fails.
    fn clone(&self) -> (r: Ledger)
        ensures
            r@ == self@,
            self.wf() ==> r.wf(),
    {
        let mut entries: Vec<Entry> = Vec::new();
        let mut i: usize = 0;
        while i < self.entries.len()
            invariant
                i <= self.entries@.len(),
                entries@ == self.entries@.subrange(0, i as int),
            decreases self.entries@.len() - i,
        {
            entries.push(self.entries[i]);
            assert(entries@ =~= self.entries@.subrange(0, i + 1));
            i = i + 1;
        }
        assert(entries@ =~= self.entries@);
        Ledger { global: self.global, entries }
    }
}

impl Ledger {
    /// No identity has two places in the arena.
    pub closed spec fn inv(&self) -> bool {
        distinct(self.entries@)
    }

    /// The arena is in order and the records are well formed.
    pub open spec fn wf(&self) -> bool {
        self.inv() && self@.wf()
    }

    /// A ledger on which nothing has been created.
    pub fn new() -> (r: Ledger)
        ensures
            r.wf(),
            r@ == LedgerState::empty(),
    {
        let r = Ledger { global: None, entries: Vec::new() };
        assert(r@.accounts =~= Map::<Identity, UserAccount>::empty());
        r
    }

    /// The place of the record kept under `key`, if there is one.
    fn find(&self, key: &Identity) -> (r: Option<usize>)
        requires
            self.inv(),
        ensures
            match r {
                Some(i) => {
                    &&& i < self.entries@.len()
                    &&& self.entries@[i as int].key == *key
                    &&& self@.accounts.contains_key(*key)
                    &&& self@.accounts[*key] == self.entries@[i as int].record
                },
                None => !self@.accounts.contains_key(*key),
            },
    {
        let mut i: usize = 0;
        while i < self.entries.len()
            invariant
                distinct(self.entries@),
                i <= self.entries@.len(),
                forall|j: int| 0 <= j < i ==> (#[trigger] self.entries@[j]).key != *key,
            decreases self.entries@.len() - i,
        {
            if self.entries[i].key.same(key) {
                proof {
                    lemma_record_at(self.entries@, i as int);
                }
                return Some(i);
            }
            i = i + 1;
        }
        None
    }

    /// Writes `record` under `key`, in the place it has or in a new one.
    fn put(&mut self, key: Identity, record: UserAccount)
        requires
            old(self).wf(),
            record.wf(),
            record.owner == key || record.owner.spec_is_default(),
        ensures
            final(self).wf(),
            final(self)@.global == old(self)@.global,
            final(self)@.accounts == old(self)@.accounts.insert(key, record),
    {
        match self.find(&key) {
            Some(i) => {
                proof {
                    lemma_records_update(self.entries@, i as int, record);
                }
                self.entries.set(i, Entry { key, record });
            },
            None => {
                proof {
                    lemma_records_push(self.entries@, Entry { key, record });
                }
                self.entries.push(Entry { key, record });
            },
        }
    }

    /// The global record, if it has been created.
    pub fn global_state(&self) -> (r: Option<GlobalState>)
        ensures
            r == self@.global,
    {
        self.global
    }

    /// The record kept under `key`, if there is one.
    pub fn load(&self, key: &Identity) -> (r: Option<UserAccount>)
        requires
            self.wf(),
        ensures
            r == if self@.accounts.contains_key(*key) {
                Some(self@.accounts[*key])
            } else {
                None
            },
    {
        match self.find(key) {
            Some(i) => Some(self.entries[i].record),
            None => None,
        }
    }

    /// The record kept under `key`; where there is none, a vacant one is created
    /// under `key` first.  Asking again changes nothing more.
    pub fn get_or_create(&mut self, key: Identity) -> (r: UserAccount)
        requires
            old(self).wf(),
        ensures
            final(self).wf(),
            r == old(self)@.account_or_vacant(key),
            final(self)@ == old(self)@.with_account(key),
            old(self)@.accounts.contains_key(key) ==> final(self)@ == old(self)@,
            old(self)@.precedes(final(self)@),
    {
        proof {
            lemma_with_account_precedes(self@, key);
        }
        let record = self.peek(&key);
        self.put(key, record);
        record
    }

    /// The terms of the yield that is due at `now` on the record kept under
    /// `user`: what the growth formula is to be evaluated on before a burn or a
    /// claim by `user` at `now`.  `None` where the ledger or the record is
    /// missing or no yield is due; the formula's value is then not read.
    pub fn yield_terms(&self, user: &Identity, now: u64) -> (r: Option<YieldTerms>)
        requires
            self.wf(),
        ensures
            r == self@.yield_terms(*user, now),
            r matches Some(terms) ==> terms.wf(),
    {
        let global_state = match self.global {
            Some(global_state) => global_state,
            None => {
                return None;
            },
        };
        match self.load(user) {
            Some(record) => yield_terms(
                now,
                record.last_action_slot,
                record.last_burn_amount,
                record.tax_rate,
                global_state.genesis_slot,
            ),
            None => None,
        }
    }

    /// The record kept under `key`, or a vacant one where there is none.
    fn peek(&self, key: &Identity) -> (r: UserAccount)
        requires
            self.wf(),
        ensures
            r == self@.account_or_vacant(*key),
            r.wf(),
            r.owner == *key || r.owner.spec_is_default(),
    {
        match self.find(key) {
            Some(i) => self.entries[i].record,
            None => UserAccount::vacant(),
        }
    }

    /// Creates the global record for the creator that was read from the
    /// protocol's creator address.  The record is created once: with one in
    /// place, the call is refused and nothing changes.
    pub fn initialize_with_creator(
        &mut self,
        creator: Option<Identity>,
        yrm_mint: Identity,
        bump: u8,
        now: u64,
    ) -> (r: Result<(), LedgerError>)
        requires
            old(self).wf(),
        ensures
            final(self).wf(),
            r == old(self)@.initialize_result(creator),
            final(self)@ == old(self)@.after_initialize(creator, yrm_mint, bump, now),
            old(self)@.precedes(final(self)@),
    {
        proof {
            lemma_initialize_precedes(self@, creator, yrm_mint, bump, now);
        }
        if self.global.is_some() {
            return Err(LedgerError::AlreadyInitialized);
        }
        let mut ctx = Initialize { global_state: GlobalState::vacant(), yrm_mint, bump };
        match initialize_with_creator(&mut ctx, creator, now) {
            Ok(()) => {
                self.global = Some(ctx.global_state);
                Ok(())
            },
            Err(code) => Err(LedgerError::Program(code)),
        }
    }

    /// Creates the global record at `now`, with the protocol's fixed creator.
    pub fn initialize(&mut self, yrm_mint: Identity, bump: u8, now: u64) -> (r: Result<
        (),
        LedgerError,
    >)
        requires
            old(self).wf(),
        ensures
            final(self).wf(),
            r == old(self)@.initialize_result(spec_creator()),
            final(self)@ == old(self)@.after_initialize(spec_creator(), yrm_mint, bump, now),
            old(self)@.precedes(final(self)@),
    {
        if self.global.is_some() {
            return Err(LedgerError::AlreadyInitialized);
        }
        let creator = Identity::from_base58(CREATOR_ADDRESS);
        self.initialize_with_creator(creator, yrm_mint, bump, now)
    }

    /// Burns `sol_amount` of `user`'s native currency at `now`.
    pub fn burn_and_mint(
        &mut self,
        user: Identity,
        creator: Identity,
        sol_amount: u64,
        tax_rate: u8,
        now: u64,
        formula_value: u64,
    ) -> (r: Result<Vec<Effect>, LedgerError>)
        requires
            old(self).wf(),
        ensures
            final(self).wf(),
            match old(self)@.burn_result(user, creator, sol_amount, tax_rate, now, formula_value) {
                Ok(effects) => r is Ok && r->Ok_0@ == effects,
                Err(error) => r == Err::<Vec<Effect>, LedgerError>(error),
            },
            final(self)@ == old(self)@.after_burn(
                user,
                creator,
                sol_amount,
                tax_rate,
                now,
                formula_value,
            ),
            old(self)@.precedes(final(self)@),
    {
        proof {
            lemma_burn_precedes(self@, user, creator, sol_amount, tax_rate, now, formula_value);
        }
        let global_state = match self.global {
            Some(global_state) => global_state,
            None => {
                return Err(LedgerError::NotInitialized);
            },
        };
        let mut ctx = BurnAndMint { global_state, user_account: self.peek(&user), creator, user };
        match burn_and_mint(&mut ctx, sol_amount, tax_rate, now, formula_value) {
            Ok(effects) => {
                self.global = Some(ctx.global_state);
                self.put(user, ctx.user_account);
                Ok(effects)
            },
            Err(code) => Err(LedgerError::Program(code)),
        }
    }

    /// Claims for `user` the yield due at `now`.
    pub fn claim(&mut self, user: Identity, now: u64, formula_value: u64) -> (r: Result<
        Vec<Effect>,
        LedgerError,
    >)
        requires
            old(self).wf(),
        ensures
            final(self).wf(),
            match old(self)@.claim_result(user, now, formula_value) {
                Ok(effects) => r is Ok && r->Ok_0@ == effects,
                Err(error) => r == Err::<Vec<Effect>, LedgerError>(error),
            },
            final(self)@ == old(self)@.after_claim(user, now, formula_value),
            old(self)@.precedes(final(self)@),
    {
        proof {
            lemma_claim_precedes(self@, user, now, formula_value);
        }
        let global_state = match self.global {
            Some(global_state) => global_state,
            None => {
                return Err(LedgerError::NotInitialized);
            },
        };
        let user_account = match self.load(&user) {
            Some(user_account) => user_account,
            None => {
                return Err(LedgerError::Program(ErrorCode::UserAccountNotInitialized));
            },
        };
        let mut ctx = Claim { global_state, user_account, user };
        match claim(&mut ctx, now, formula_value) {
            Ok(effects) => {
                self.global = Some(ctx.global_state);
                self.put(user, ctx.user_account);
                Ok(effects)
            },
            Err(code) => Err(LedgerError::Program(code)),
        }
    }

    /// Moves `amount` of reward token from `from`, who holds
    /// `from_token_balance` of it, to `to` at `now`.
    pub fn transfer_yrm(
        &mut self,
        from: Identity,
        to: Identity,
        amount: u64,
        from_token_balance: u128,
        now: u64,
    ) -> (r: Result<Vec<Effect>, LedgerError>)
        requires
            old(self).wf(),
        ensures
            final(self).wf(),
            match old(self)@.transfer_result(from, to, amount, from_token_balance, now) {
                Ok(effects) => r is Ok && r->Ok_0@ == effects,
                Err(error) => r == Err::<Vec<Effect>, LedgerError>(error),
            },
            final(self)@ == old(self)@.after_transfer(from, to, amount, from_token_balance, now),
            old(self)@.precedes(final(self)@),
    {
        proof {
            lemma_transfer_precedes(self@, from, to, amount, from_token_balance, now);
        }
        let global_state = match self.global {
            Some(global_state) => global_state,
            None => {
                return Err(LedgerError::NotInitialized);
            },
        };
        let from_account = match self.load(&from) {
            Some(from_account) => from_account,
            None => {
                return Err(LedgerError::Program(ErrorCode::UserAccountNotInitialized));
            },
        };
        let mut ctx = TransferYrm {
            global_state,
            from_account,
            to_account: self.peek(&to),
            from,
            to,
            from_token_balance,
        };
        match transfer_yrm(&mut ctx, amount, now) {
            Ok(effects) => {
                self.put(from, ctx.from_account);
                self.put(to, ctx.to_account);
                Ok(effects)
            },
            Err(code) => Err(LedgerError::Program(code)),
        }
    }

    /// Reads the global record.
    pub fn get_stats(&self) -> (r: Result<GlobalState, LedgerError>)
        ensures
            r == self@.stats_result(),
    {
        match self.global {
            Some(global_state) => Ok(global_state),
            None => Err(LedgerError::NotInitialized),
        }
    }
}

} // verus!
