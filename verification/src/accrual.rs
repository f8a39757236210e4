//! The yield rule: how much reward a participant may claim for the time that has
//! passed since the last action on their most recent burn.
//!
//! The rule has two parts.  The first decides, on integers alone, whether any
//! yield is due at all, and fixes the four quantities that the growth formula
//! reads.  The second is the formula itself, which works on real numbers and is
//! evaluated by the host; its value enters here as an argument, and everything
//! stated in this module holds for every such value.

use vstd::prelude::*;

verus! {

/// The ledger time that anchors the global decay of the yield, the same for every
/// deployment.
pub const REFERENCE_GENESIS_SLOT: u64 = 111_111_111;

/// The least ledger time that must pass after an action before yield is due.
pub const MIN_DWELL_SLOTS: u64 = 30;

/// The highest tax rate a participant can choose, in percent.
pub const MAX_TAX_RATE: u8 = 40;

/// The quantities that the growth formula reads.
#[derive(Clone, Copy, Debug, PartialEq, Eq, Structural)]
pub struct YieldTerms {
    /// Ledger time since the participant's last action; at least the minimum dwell.
    pub elapsed: u64,
    /// Ledger time since the reference genesis; at least 1.
    pub time_from_reference: u64,
    /// The most recent burn, in the smallest native units; not zero.
    pub burn_amount: u64,
    /// The participant's tax rate in percent, capped at the maximum.
    pub tax_rate: u8,
}

impl YieldTerms {
    /// What holds of the terms of every yield that is due.
    pub open spec fn wf(&self) -> bool {
        &&& self.elapsed >= MIN_DWELL_SLOTS
        &&& self.time_from_reference >= 1
        &&& self.burn_amount > 0
        &&& self.tax_rate <= MAX_TAX_RATE
    }
}

/// The time from which a participant's yield is counted: their last action, or the
/// deployment's genesis where they have not acted yet.
pub open spec fn spec_effective_last_action(last_action_slot: u64, genesis_slot: u64) -> u64 {
    if last_action_slot == 0 {
        genesis_slot
    } else {
        last_action_slot
    }
}

/// The time that has passed since the reference genesis, counted as 1 where none
/// has.
pub open spec fn spec_time_from_reference(current_slot: u64) -> u64 {
    if current_slot > REFERENCE_GENESIS_SLOT {
        (current_slot - REFERENCE_GENESIS_SLOT) as u64
    } else {
        1
    }
}

/// The terms of the yield that is due, or `None` where none is due: without a
/// burn, before the effective last action, or within the minimum dwell after it.
pub open spec fn spec_yield_terms(
    current_slot: u64,
    last_action_slot: u64,
    last_burn_amount: u64,
    tax_rate: u8,
    genesis_slot: u64,
) -> Option<YieldTerms> {
    let effective = spec_effective_last_action(last_action_slot, genesis_slot);
    if last_burn_amount == 0 {
        None
    } else if current_slot <= effective {
        None
    } else if current_slot - effective < MIN_DWELL_SLOTS {
        None
    } else {
        Some(
            YieldTerms {
                elapsed: (current_slot - effective) as u64,
                time_from_reference: spec_time_from_reference(current_slot),
                burn_amount: last_burn_amount,
                tax_rate: if tax_rate > MAX_TAX_RATE {
                    MAX_TAX_RATE
                } else {
                    tax_rate
                },
            },
        )
    }
}

/// The claimable amount: the formula's value where yield is due, zero otherwise.
pub open spec fn spec_claimable(
    current_slot: u64,
    last_action_slot: u64,
    last_burn_amount: u64,
    tax_rate: u8,
    genesis_slot: u64,
    formula_value: u64,
) -> u64 {
    if spec_yield_terms(
        current_slot,
        last_action_slot,
        last_burn_amount,
        tax_rate,
        genesis_slot,
    ) is Some {
        formula_value
    } else {
        0
    }
}

/// The time from which a participant's yield is counted.
pub fn effective_last_action(last_action_slot: u64, genesis_slot: u64) -> (r: u64)
    ensures
        r == spec_effective_last_action(last_action_slot, genesis_slot),
{
    if last_action_slot == 0 {
        genesis_slot
    } else {
        last_action_slot
    }
}

/// Decides whether yield is due and, where it is, fixes the terms that the growth
/// formula is to be evaluated on.
pub fn yield_terms(
    current_slot: u64,
    last_action_slot: u64,
    last_burn_amount: u64,
    tax_rate: u8,
    genesis_slot: u64,
) -> (r: Option<YieldTerms>)
    ensures
        r == spec_yield_terms(
            current_slot,
            last_action_slot,
            last_burn_amount,
            tax_rate,
            genesis_slot,
        ),
        r matches Some(terms) ==> terms.wf(),
{
    if last_burn_amount == 0 {
        return None;
    }
    let effective = effective_last_action(last_action_slot, genesis_slot);
    if current_slot <= effective {
        return None;
    }
    let elapsed = current_slot.saturating_sub(effective);
    if elapsed < MIN_DWELL_SLOTS {
        return None;
    }
    let since_reference = current_slot.saturating_sub(REFERENCE_GENESIS_SLOT);
    let time_from_reference = if since_reference < 1 {
        1
    } else {
        since_reference
    };
    let capped_rate = if tax_rate > MAX_TAX_RATE {
        MAX_TAX_RATE
    } else {
        tax_rate
    };
    Some(YieldTerms {
        elapsed,
        time_from_reference,
        burn_amount: last_burn_amount,
        tax_rate: capped_rate,
    })
}

/// The amount that a participant may claim at `current_slot`.
///
/// `formula_value` is the value of the growth formula on the terms that
/// [`yield_terms`] gives for the same arguments; it is not read where no yield is
/// due.
pub fn calculate_claimable(
    current_slot: u64,
    last_action_slot: u64,
    last_burn_amount: u64,
    tax_rate: u8,
    genesis_slot: u64,
    formula_value: u64,
) -> (r: u64)
    ensures
        r == spec_claimable(
            current_slot,
            last_action_slot,
            last_burn_amount,
            tax_rate,
            genesis_slot,
            formula_value,
        ),
{
    match yield_terms(current_slot, last_action_slot, last_burn_amount, tax_rate, genesis_slot) {
        Some(_) => formula_value,
        None => 0,
    }
}

/// No yield is due at the very time of the last action.
pub proof fn lemma_no_yield_without_elapsed_time(
    slot: u64,
    last_burn_amount: u64,
    tax_rate: u8,
    genesis_slot: u64,
    formula_value: u64,
)
    ensures
        spec_claimable(slot, slot, last_burn_amount, tax_rate, genesis_slot, formula_value) == 0,
{
}

/// No yield is due while fewer than the minimum dwell of 30 time units have passed
/// since the last action; 29 units are the most that give none for certain.
pub proof fn lemma_no_yield_within_dwell(
    current_slot: u64,
    last_action_slot: u64,
    last_burn_amount: u64,
    tax_rate: u8,
    genesis_slot: u64,
    formula_value: u64,
)
    requires
        last_action_slot <= current_slot,
        current_slot - last_action_slot < MIN_DWELL_SLOTS,
    ensures
        spec_claimable(
            current_slot,
            last_action_slot,
            last_burn_amount,
            tax_rate,
            genesis_slot,
            formula_value,
        ) == 0,
{
}

/// Once the minimum dwell has passed after an action on a burn, the claimable
/// amount is the formula's value whatever it is, so the dwell is the only bar.
pub proof fn lemma_yield_due_after_dwell(
    current_slot: u64,
    last_action_slot: u64,
    last_burn_amount: u64,
    tax_rate: u8,
    genesis_slot: u64,
    formula_value: u64,
)
    requires
        last_action_slot > 0,
        last_burn_amount > 0,
        current_slot >= last_action_slot + MIN_DWELL_SLOTS,
    ensures
        spec_claimable(
            current_slot,
            last_action_slot,
            last_burn_amount,
            tax_rate,
            genesis_slot,
            formula_value,
        ) == formula_value,
        spec_claimable(
            current_slot,
            last_action_slot,
            last_burn_amount,
            tax_rate,
            genesis_slot,
            formula_value,
        ) >= 0,
{
}

/// Without a burn nothing is ever due.
pub proof fn lemma_no_yield_without_stake(
    current_slot: u64,
    last_action_slot: u64,
    tax_rate: u8,
    genesis_slot: u64,
    formula_value: u64,
)
    ensures
        spec_claimable(current_slot, last_action_slot, 0, tax_rate, genesis_slot, formula_value)
            == 0,
{
}

/// Counting from the effective last action gives the same amount as counting from
/// the recorded one: the fallback to genesis is applied once either way.
pub proof fn lemma_effective_last_action_is_fixed_point(
    current_slot: u64,
    last_action_slot: u64,
    last_burn_amount: u64,
    tax_rate: u8,
    genesis_slot: u64,
    formula_value: u64,
)
    ensures
        spec_yield_terms(
            current_slot,
            spec_effective_last_action(last_action_slot, genesis_slot),
            last_burn_amount,
            tax_rate,
            genesis_slot,
        ) == spec_yield_terms(
            current_slot,
            last_action_slot,
            last_burn_amount,
            tax_rate,
            genesis_slot,
        ),
        spec_claimable(
            current_slot,
            spec_effective_last_action(last_action_slot, genesis_slot),
            last_burn_amount,
            tax_rate,
            genesis_slot,
            formula_value,
        ) == spec_claimable(
            current_slot,
            last_action_slot,
            last_burn_amount,
            tax_rate,
            genesis_slot,
            formula_value,
        ),
{
}

} // verus!
