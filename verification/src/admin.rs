//! The configuration and who may touch it: creating it once, and the three
//! changes that only its owner may make.

use vstd::prelude::*;
use crate::address::{
    address_matches, check_address, check_found, derive_global_state_address,
    find_global_state_address, found_matches, global_state_address, new_global_state_address,
};
use crate::context::{Admin, Initialize};
use crate::error::ClawDnaError;
use crate::pubkey::Pubkey;
use crate::state::{GlobalState, MAX_ROYALTY_BPS};

verus! {

/// The result of an operation that returns nothing: the error, if there is
/// one.
pub open spec fn outcome(error: Option<ClawDnaError>) -> Result<(), ClawDnaError> {
    match error {
        Some(e) => Err(e),
        None => Ok(()),
    }
}

/// Why the configuration cannot be created, if anything. `found` is the
/// address and bump found for the configuration record. In this order: the
/// record is not to be kept at the address found for it; a configuration
/// exists already; the treasury holds nothing; the royalty rate is more than
/// the whole price.
pub open spec fn initialize_error(
    ctx: Initialize,
    royalty_bps: u16,
    found: Option<(Pubkey, u8)>,
) -> Option<ClawDnaError> {
    if !found_matches(found, ctx.global_state_key) {
        Some(ClawDnaError::InvalidBump)
    } else if ctx.global_state is Some {
        Some(ClawDnaError::AlreadyInitialized)
    } else if ctx.treasury.lamports == 0 {
        Some(ClawDnaError::InvalidTreasury)
    } else if royalty_bps > MAX_ROYALTY_BPS {
        Some(ClawDnaError::InvalidMetadata)
    } else {
        None
    }
}

/// The configuration that `initialize` creates: the caller owns it, minting
/// is on, and no agent exists.
pub open spec fn initial_state(
    ctx: Initialize,
    breeding_fee_lamports: u64,
    royalty_bps: u16,
    bump: u8,
) -> GlobalState {
    GlobalState {
        owner: ctx.owner,
        treasury: ctx.treasury.key,
        breeding_fee_lamports,
        royalty_bps,
        paused: false,
        total_agents: 0,
        bump,
    }
}

/// The accounts after a call of `initialize`: unchanged if it failed, with
/// the new configuration if it succeeded.
pub open spec fn initialize_post(
    ctx: Initialize,
    breeding_fee_lamports: u64,
    royalty_bps: u16,
    found: Option<(Pubkey, u8)>,
) -> Initialize {
    if initialize_error(ctx, royalty_bps, found) is Some {
        ctx
    } else {
        Initialize {
            global_state: Some(
                initial_state(ctx, breeding_fee_lamports, royalty_bps, found.unwrap().1),
            ),
            ..ctx
        }
    }
}

/// Creates the configuration, given the address and bump that were found for
/// its record.
pub fn initialize_with(
    ctx: &mut Initialize,
    breeding_fee_lamports: u64,
    royalty_bps: u16,
    found: Option<(Pubkey, u8)>,
) -> (res: Result<(), ClawDnaError>)
    ensures
        res == outcome(initialize_error(*old(ctx), royalty_bps, found)),
        *final(ctx) == initialize_post(*old(ctx), breeding_fee_lamports, royalty_bps, found),
        res is Ok ==> final(ctx).global_state is Some && final(ctx).global_state->0.wf(),
{
    let bump = match check_found(&found, &ctx.global_state_key) {
        None => {
            return Err(ClawDnaError::InvalidBump);
        },
        Some(bump) => bump,
    };
    if ctx.global_state.is_some() {
        return Err(ClawDnaError::AlreadyInitialized);
    }
    if ctx.treasury.lamports == 0 {
        return Err(ClawDnaError::InvalidTreasury);
    }
    if royalty_bps > MAX_ROYALTY_BPS {
        return Err(ClawDnaError::InvalidMetadata);
    }
    ctx.global_state = Some(
        GlobalState {
            owner: ctx.owner,
            treasury: ctx.treasury.key,
            breeding_fee_lamports,
            royalty_bps,
            paused: false,
            total_agents: 0,
            bump,
        },
    );
    Ok(())
}

/// Creates the configuration: the caller becomes its owner, minting is on,
/// and no agent exists yet. It can be created once, at the address derived
/// for it, with a funded treasury and a royalty rate of at most
/// `MAX_ROYALTY_BPS`.
pub fn initialize(ctx: &mut Initialize, breeding_fee_lamports: u64, royalty_bps: u16) -> (res:
    Result<(), ClawDnaError>)
    ensures
        res == outcome(
            initialize_error(*old(ctx), royalty_bps, new_global_state_address(old(ctx).program_id)),
        ),
        *final(ctx) == initialize_post(
            *old(ctx),
            breeding_fee_lamports,
            royalty_bps,
            new_global_state_address(old(ctx).program_id),
        ),
        old(ctx).global_state is Some ==> res is Err && *final(ctx) == *old(ctx),
        res is Ok ==> final(ctx).global_state is Some && final(ctx).global_state->0.wf(),
        res is Ok ==> address_matches(
            global_state_address(final(ctx).program_id, final(ctx).global_state->0.bump),
            final(ctx).global_state_key,
        ),
{
    let found = find_global_state_address(&ctx.program_id);
    initialize_with(ctx, breeding_fee_lamports, royalty_bps, found)
}

/// Why a change to the configuration is refused, if anything.
/// `state_address` is the address derived for the configuration record. In
/// this order: the caller is not the owner; the record is not kept at the
/// address derived for it.
pub open spec fn admin_error(ctx: Admin, state_address: Option<Pubkey>) -> Option<ClawDnaError> {
    if ctx.global_state.owner != ctx.owner {
        Some(ClawDnaError::Unauthorized)
    } else if !address_matches(state_address, ctx.global_state_key) {
        Some(ClawDnaError::InvalidBump)
    } else {
        None
    }
}

/// The address derived for the configuration record of `ctx`.
pub open spec fn admin_state_address(ctx: Admin) -> Option<Pubkey> {
    global_state_address(ctx.program_id, ctx.global_state.bump)
}

/// The accounts with the circuit breaker set to `paused`.
pub open spec fn with_paused(ctx: Admin, paused: bool) -> Admin {
    Admin { global_state: GlobalState { paused, ..ctx.global_state }, ..ctx }
}

/// The accounts with the fee set to `fee`.
pub open spec fn with_fee(ctx: Admin, fee: u64) -> Admin {
    Admin { global_state: GlobalState { breeding_fee_lamports: fee, ..ctx.global_state }, ..ctx }
}

/// The accounts after an attempt to set the circuit breaker.
pub open spec fn set_paused_post(ctx: Admin, paused: bool, state_address: Option<Pubkey>) -> Admin {
    if admin_error(ctx, state_address) is Some {
        ctx
    } else {
        with_paused(ctx, paused)
    }
}

/// The accounts after an attempt to set the fee.
pub open spec fn update_fee_post(ctx: Admin, fee: u64, state_address: Option<Pubkey>) -> Admin {
    if admin_error(ctx, state_address) is Some {
        ctx
    } else {
        with_fee(ctx, fee)
    }
}

/// What every change to the configuration has to pass first.
pub fn require_admin(ctx: &Admin, state_address: &Option<Pubkey>) -> (res: Result<
    (),
    ClawDnaError,
>)
    ensures
        res == outcome(admin_error(*ctx, *state_address)),
{
    ctx.global_state.require_owner(&ctx.owner)?;
    if !check_address(state_address, &ctx.global_state_key) {
        return Err(ClawDnaError::InvalidBump);
    }
    Ok(())
}

/// Switches minting off, given the address derived for the configuration
/// record.
pub fn pause_with(ctx: &mut Admin, state_address: Option<Pubkey>) -> (res: Result<
    (),
    ClawDnaError,
>)
    ensures
        res == outcome(admin_error(*old(ctx), state_address)),
        *final(ctx) == set_paused_post(*old(ctx), true, state_address),
        old(ctx).owner != old(ctx).global_state.owner ==> res == Err::<(), ClawDnaError>(
            ClawDnaError::Unauthorized,
        ) && *final(ctx) == *old(ctx),
        res is Ok ==> final(ctx).global_state.paused,
{
    require_admin(ctx, &state_address)?;
    ctx.global_state.paused = true;
    Ok(())
}

/// Switches minting on again, given the address derived for the
/// configuration record.
pub fn unpause_with(ctx: &mut Admin, state_address: Option<Pubkey>) -> (res: Result<
    (),
    ClawDnaError,
>)
    ensures
        res == outcome(admin_error(*old(ctx), state_address)),
        *final(ctx) == set_paused_post(*old(ctx), false, state_address),
        old(ctx).owner != old(ctx).global_state.owner ==> res == Err::<(), ClawDnaError>(
            ClawDnaError::Unauthorized,
        ) && *final(ctx) == *old(ctx),
        res is Ok ==> !final(ctx).global_state.paused,
{
    require_admin(ctx, &state_address)?;
    ctx.global_state.paused = false;
    Ok(())
}

/// Sets the fee, whatever the new fee is, given the address derived for the
/// configuration record.
pub fn update_breeding_fee_with(
    ctx: &mut Admin,
    new_fee: u64,
    state_address: Option<Pubkey>,
) -> (res: Result<(), ClawDnaError>)
    ensures
        res == outcome(admin_error(*old(ctx), state_address)),
        *final(ctx) == update_fee_post(*old(ctx), new_fee, state_address),
        old(ctx).owner != old(ctx).global_state.owner ==> res == Err::<(), ClawDnaError>(
            ClawDnaError::Unauthorized,
        ) && *final(ctx) == *old(ctx),
        res is Ok ==> final(ctx).global_state.breeding_fee_lamports == new_fee,
{
    require_admin(ctx, &state_address)?;
    ctx.global_state.breeding_fee_lamports = new_fee;
    Ok(())
}

/// Switches minting off. Only the owner may, and only on the configuration
/// that is kept at the address derived for it; nothing else changes.
pub fn pause(ctx: &mut Admin) -> (res: Result<(), ClawDnaError>)
    ensures
        res == outcome(admin_error(*old(ctx), admin_state_address(*old(ctx)))),
        *final(ctx) == set_paused_post(*old(ctx), true, admin_state_address(*old(ctx))),
        old(ctx).owner != old(ctx).global_state.owner ==> res == Err::<(), ClawDnaError>(
            ClawDnaError::Unauthorized,
        ) && *final(ctx) == *old(ctx),
        res is Ok ==> final(ctx).global_state.paused,
{
    let state_address = derive_global_state_address(&ctx.program_id, ctx.global_state.bump);
    pause_with(ctx, state_address)
}

/// Switches minting on again. Only the owner may, and only on the
/// configuration that is kept at the address derived for it; nothing else
/// changes.
pub fn unpause(ctx: &mut Admin) -> (res: Result<(), ClawDnaError>)
    ensures
        res == outcome(admin_error(*old(ctx), admin_state_address(*old(ctx)))),
        *final(ctx) == set_paused_post(*old(ctx), false, admin_state_address(*old(ctx))),
        old(ctx).owner != old(ctx).global_state.owner ==> res == Err::<(), ClawDnaError>(
            ClawDnaError::Unauthorized,
        ) && *final(ctx) == *old(ctx),
        res is Ok ==> !final(ctx).global_state.paused,
{
    let state_address = derive_global_state_address(&ctx.program_id, ctx.global_state.bump);
    unpause_with(ctx, state_address)
}

/// Sets the fee to `new_fee`, whatever it is. Only the owner may, and only
/// on the configuration that is kept at the address derived for it; nothing
/// else changes.
pub fn update_breeding_fee(ctx: &mut Admin, new_fee: u64) -> (res: Result<(), ClawDnaError>)
    ensures
        res == outcome(admin_error(*old(ctx), admin_state_address(*old(ctx)))),
        *final(ctx) == update_fee_post(*old(ctx), new_fee, admin_state_address(*old(ctx))),
        old(ctx).owner != old(ctx).global_state.owner ==> res == Err::<(), ClawDnaError>(
            ClawDnaError::Unauthorized,
        ) && *final(ctx) == *old(ctx),
        res is Ok ==> final(ctx).global_state.breeding_fee_lamports == new_fee,
{
    let state_address = derive_global_state_address(&ctx.program_id, ctx.global_state.bump);
    update_breeding_fee_with(ctx, new_fee, state_address)
}

} // verus!
