//! The creation of the global record.

use crate::errors::ErrorCode;
use crate::identity::Identity;
use crate::state::GlobalState;
use vstd::prelude::*;

verus! {

/// The base58 text of the identity that receives the tax of every burn.
pub const CREATOR_ADDRESS: &'static str = "7Cjt3kRF6FvQQ2XkfxcdsaU9hAZsz6odXWVaLUUhRLZ6";

/// The record and the values that the creation of the global record works on.
#[derive(Clone, Copy, Debug, PartialEq, Eq)]
pub struct Initialize {
    /// The record to fill.
    pub global_state: GlobalState,
    /// The record of the reward token's issuance authority.
    pub yrm_mint: Identity,
    /// The nonce of the global record's derived address.
    pub bump: u8,
}

impl Initialize {
    /// The global record as it is created at `now`: nothing burned, nothing
    /// issued, `now` as the genesis.
    pub open spec fn created(&self, creator: Identity, now: u64) -> GlobalState {
        GlobalState {
            creator,
            total_sol_burned: 0,
            total_yrm_minted: 0,
            genesis_slot: now,
            yrm_mint: self.yrm_mint,
            bump: self.bump,
        }
    }
}

/// Fills the global record for the creator that was read from the protocol's
/// creator address, or refuses where that address could not be read.
pub fn initialize_with_creator(ctx: &mut Initialize, creator: Option<Identity>, now: u64) -> (r:
    Result<(), ErrorCode>)
    ensures
        match creator {
            Some(id) => {
                &&& r is Ok
                &&& *final(ctx) == (Initialize {
                    global_state: old(ctx).created(id, now),
                    ..*old(ctx)
                })
            },
            None => r == Err::<(), ErrorCode>(ErrorCode::InvalidCreatorAddress) && *final(ctx)
                == *old(ctx),
        },
{
    match creator {
        Some(id) => {
            ctx.global_state.creator = id;
            ctx.global_state.total_sol_burned = 0;
            ctx.global_state.total_yrm_minted = 0;
            ctx.global_state.genesis_slot = now;
            ctx.global_state.yrm_mint = ctx.yrm_mint;
            ctx.global_state.bump = ctx.bump;
            Ok(())
        },
        None => Err(ErrorCode::InvalidCreatorAddress),
    }
}

/// The protocol's creator: the identity that [`CREATOR_ADDRESS`] is the text of.
pub open spec fn spec_creator() -> Option<Identity> {
    Identity::spec_from_base58(CREATOR_ADDRESS@)
}

/// Creates the global record at `now`, with the protocol's fixed creator.
///
/// The creator is what the base58 reading of [`CREATOR_ADDRESS`] gives; the
/// creation is refused where that text is not the text of an identity.
pub fn initialize(ctx: &mut Initialize, now: u64) -> (r: Result<(), ErrorCode>)
    ensures
        match spec_creator() {
            Some(id) => {
                &&& r is Ok
                &&& *final(ctx) == (Initialize {
                    global_state: old(ctx).created(id, now),
                    ..*old(ctx)
                })
            },
            None => r == Err::<(), ErrorCode>(ErrorCode::InvalidCreatorAddress) && *final(ctx)
                == *old(ctx),
        },
{
    let creator = Identity::from_base58(CREATOR_ADDRESS);
    initialize_with_creator(ctx, creator, now)
}

} // verus!
