//! The read-only view of the protocol's totals.

use crate::errors::ErrorCode;
use crate::state::GlobalState;
use vstd::prelude::*;

verus! {

/// The record that a reading of the totals works on.
#[derive(Clone, Copy, Debug, PartialEq, Eq)]
pub struct GetStats {
    pub global_state: GlobalState,
}

/// Reads the global record: the issuance authority, the totals burned and
/// issued, the genesis and the creator.  Changes nothing and refuses nothing.
pub fn get_stats(ctx: &GetStats) -> (r: Result<GlobalState, ErrorCode>)
    ensures
        r == Ok::<GlobalState, ErrorCode>(ctx.global_state),
{
    Ok(ctx.global_state)
}

} // verus!
