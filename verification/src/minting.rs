//! The two ways in which an agent comes to be: minted from nothing, or bred
//! from two agents that the caller holds. Either way the call finds minting
//! switched on, pays the fee, takes the next number, and leaves a record to
//! keep, a token to issue and its metadata to register.
//!
//! The fee is paid before anything else changes, and it is not given back:
//! a call that fails after it has paid leaves the fee with the treasury.

use vstd::prelude::*;
use crate::address::{
    address_matches, agent_data_address, check_address, check_found, derive_agent_data_address,
    derive_global_state_address, find_agent_data_address, found_matches, global_state_address,
    new_agent_data_address,
};
use crate::context::{MergeAgents, MintGenesis, Minted};
use crate::error::ClawDnaError;
use crate::fee::{collect, credited, debited, transfer, transfer_error, FeeTransfer};
use crate::genome::{validate_genome, MIN_ENTROPY_LEN, TRAIT_COUNT};
use crate::metadata::{agent_metadata, agent_token, is_metadata_of, issue_agent_token};
use crate::pubkey::Pubkey;
use crate::state::{child_generation, name_fits, validate_name, AgentData, GlobalState};

verus! {

/// The configuration with one agent more.
pub open spec fn counted(state: GlobalState) -> GlobalState {
    GlobalState { total_agents: (state.total_agents + 1) as u64, ..state }
}

/// The fee that a genesis mint pays: none where the fee is zero.
pub open spec fn genesis_fee(ctx: MintGenesis) -> Option<FeeTransfer> {
    if ctx.global_state.breeding_fee_lamports > 0 {
        Some(
            FeeTransfer {
                from: ctx.minter.key,
                to: ctx.treasury.key,
                lamports: ctx.global_state.breeding_fee_lamports,
            },
        )
    } else {
        None
    }
}

/// Why a genesis mint is refused with nothing changed, if anything.
/// `state_address` is the address derived for the configuration record,
/// `found` the address and bump found for the new agent's record. In this
/// order: minting is paused; the new record is not to be kept at the address
/// found for it; the configuration is not kept at the address derived for
/// it; the treasury is not the configured one; a trait is out of range; the
/// name does not fit; the fee, if there is one, cannot be paid.
pub open spec fn mint_genesis_refusal(
    ctx: MintGenesis,
    name: Seq<char>,
    genome: Seq<u8>,
    state_address: Option<Pubkey>,
    found: Option<(Pubkey, u8)>,
) -> Option<ClawDnaError> {
    if ctx.global_state.paused {
        Some(ClawDnaError::ProgramPaused)
    } else if !found_matches(found, ctx.agent_data_key) {
        Some(ClawDnaError::InvalidBump)
    } else if !address_matches(state_address, ctx.global_state_key) {
        Some(ClawDnaError::InvalidBump)
    } else if ctx.treasury.key != ctx.global_state.treasury {
        Some(ClawDnaError::InvalidTreasury)
    } else if AgentData::genesis_error(genome, name) is Some {
        AgentData::genesis_error(genome, name)
    } else if ctx.global_state.breeding_fee_lamports > 0 {
        transfer_error(ctx.minter, ctx.treasury, ctx.global_state.breeding_fee_lamports)
    } else {
        None
    }
}

/// Why a genesis mint that has paid its fee still fails, if it does: the
/// counter of agents is full.
pub open spec fn mint_genesis_late_error(ctx: MintGenesis) -> Option<ClawDnaError> {
    if ctx.global_state.total_agents == u64::MAX {
        Some(ClawDnaError::MathOverflow)
    } else {
        None
    }
}

/// Why a genesis mint fails, if it does.
pub open spec fn mint_genesis_error(
    ctx: MintGenesis,
    name: Seq<char>,
    genome: Seq<u8>,
    state_address: Option<Pubkey>,
    found: Option<(Pubkey, u8)>,
) -> Option<ClawDnaError> {
    if mint_genesis_refusal(ctx, name, genome, state_address, found) is Some {
        mint_genesis_refusal(ctx, name, genome, state_address, found)
    } else {
        mint_genesis_late_error(ctx)
    }
}

/// The accounts of a genesis mint once the fee, if there is one, has moved.
pub open spec fn genesis_fee_paid(ctx: MintGenesis) -> MintGenesis {
    if ctx.global_state.breeding_fee_lamports > 0 {
        MintGenesis {
            minter: debited(ctx.minter, ctx.treasury, ctx.global_state.breeding_fee_lamports),
            treasury: credited(ctx.minter, ctx.treasury, ctx.global_state.breeding_fee_lamports),
            ..ctx
        }
    } else {
        ctx
    }
}

/// The accounts after a genesis mint. A call that is refused changes
/// nothing. A call that fails after the fee was paid leaves the fee where it
/// went and changes nothing else. A call that succeeds has also counted one
/// agent more.
pub open spec fn mint_genesis_post(
    ctx: MintGenesis,
    name: Seq<char>,
    genome: Seq<u8>,
    state_address: Option<Pubkey>,
    found: Option<(Pubkey, u8)>,
) -> MintGenesis {
    if mint_genesis_refusal(ctx, name, genome, state_address, found) is Some {
        ctx
    } else if mint_genesis_late_error(ctx) is Some {
        genesis_fee_paid(ctx)
    } else {
        MintGenesis { global_state: counted(ctx.global_state), ..genesis_fee_paid(ctx) }
    }
}

/// What a successful genesis mint hands back: the next number, a record of
/// generation 0 without parents that holds the genome as it was given, the
/// fee as it was paid, and the orders for the token and its metadata.
pub open spec fn is_genesis_minted(
    minted: Minted,
    ctx: MintGenesis,
    name: Seq<char>,
    genome: Seq<u8>,
    uri: Seq<char>,
    bump: u8,
) -> bool {
    &&& minted.agent_id == ctx.global_state.total_agents + 1
    &&& minted.agent.is_genesis_of(ctx.mint, genome, name, ctx.unix_timestamp, bump)
    &&& minted.fee == genesis_fee(ctx)
    &&& is_metadata_of(
        minted.metadata,
        name,
        minted.agent_id,
        uri,
        ctx.global_state.royalty_bps,
        ctx.global_state.owner,
    )
    &&& minted.issue == agent_token(ctx.mint, ctx.minter.key)
}

/// Mints an agent from nothing, given the address derived for the
/// configuration record and the address and bump found for the new agent's
/// record.
pub fn mint_genesis_with(
    ctx: &mut MintGenesis,
    name: String,
    genome: [u8; TRAIT_COUNT],
    uri: String,
    state_address: Option<Pubkey>,
    found: Option<(Pubkey, u8)>,
) -> (res: Result<Minted, ClawDnaError>)
    ensures
        match mint_genesis_error(*old(ctx), name@, genome@, state_address, found) {
            Some(e) => res == Err::<Minted, ClawDnaError>(e),
            None => res is Ok && is_genesis_minted(
                res->Ok_0,
                *old(ctx),
                name@,
                genome@,
                uri@,
                found.unwrap().1,
            ),
        },
        *final(ctx) == mint_genesis_post(*old(ctx), name@, genome@, state_address, found),
        old(ctx).global_state.paused ==> res == Err::<Minted, ClawDnaError>(
            ClawDnaError::ProgramPaused,
        ) && *final(ctx) == *old(ctx),
        res is Ok ==> final(ctx).global_state.total_agents == old(ctx).global_state.total_agents
            + 1,
        res is Err ==> final(ctx).global_state == old(ctx).global_state,
        res is Ok ==> res->Ok_0.agent.wf(),
{
    ctx.global_state.require_not_paused()?;
    let bump = match check_found(&found, &ctx.agent_data_key) {
        None => {
            return Err(ClawDnaError::InvalidBump);
        },
        Some(bump) => bump,
    };
    if !check_address(&state_address, &ctx.global_state_key) {
        return Err(ClawDnaError::InvalidBump);
    }
    if ctx.treasury.key != ctx.global_state.treasury {
        return Err(ClawDnaError::InvalidTreasury);
    }
    validate_genome(&genome)?;
    validate_name(&name)?;
    let fee = collect(
        &mut ctx.minter,
        &mut ctx.treasury,
        ctx.global_state.breeding_fee_lamports,
    )?;
    let agent_id = match ctx.global_state.total_agents.checked_add(1) {
        None => {
            return Err(ClawDnaError::MathOverflow);
        },
        Some(agent_id) => agent_id,
    };
    ctx.global_state.total_agents = agent_id;
    let metadata = agent_metadata(
        &name,
        agent_id,
        uri,
        ctx.global_state.royalty_bps,
        ctx.global_state.owner,
    );
    let agent = AgentData::create_genesis(ctx.mint, genome, name, ctx.unix_timestamp, bump)?;
    let issue = issue_agent_token(ctx.mint, ctx.minter.key);
    Ok(Minted { agent_id, agent, fee, metadata, issue })
}

/// The address derived for the configuration record of `ctx`.
pub open spec fn genesis_state_address(ctx: MintGenesis) -> Option<Pubkey> {
    global_state_address(ctx.program_id, ctx.global_state.bump)
}

/// The address and bump found for the record of the agent that `ctx` mints.
pub open spec fn genesis_agent_address(ctx: MintGenesis) -> Option<(Pubkey, u8)> {
    new_agent_data_address(ctx.program_id, ctx.mint)
}

/// Mints an agent from nothing. While minting is paused nothing happens. The
/// accounts must be the ones derived for this program, the treasury the
/// configured one, the genome in range and the name short enough. Then the
/// fee, if there is one, moves from the minter to the treasury, the agent
/// takes the next number, and the record, the token and its metadata are
/// handed back.
pub fn mint_genesis(
    ctx: &mut MintGenesis,
    name: String,
    genome: [u8; TRAIT_COUNT],
    uri: String,
) -> (res: Result<Minted, ClawDnaError>)
    ensures
        match mint_genesis_error(
            *old(ctx),
            name@,
            genome@,
            genesis_state_address(*old(ctx)),
            genesis_agent_address(*old(ctx)),
        ) {
            Some(e) => res == Err::<Minted, ClawDnaError>(e),
            None => res is Ok && is_genesis_minted(
                res->Ok_0,
                *old(ctx),
                name@,
                genome@,
                uri@,
                genesis_agent_address(*old(ctx)).unwrap().1,
            ),
        },
        *final(ctx) == mint_genesis_post(
            *old(ctx),
            name@,
            genome@,
            genesis_state_address(*old(ctx)),
            genesis_agent_address(*old(ctx)),
        ),
        old(ctx).global_state.paused ==> res == Err::<Minted, ClawDnaError>(
            ClawDnaError::ProgramPaused,
        ) && *final(ctx) == *old(ctx),
        res is Ok ==> final(ctx).global_state.total_agents == old(ctx).global_state.total_agents
            + 1,
        res is Err ==> final(ctx).global_state == old(ctx).global_state,
        res is Ok ==> res->Ok_0.agent.wf(),
        res is Ok ==> address_matches(
            agent_data_address(old(ctx).program_id, res->Ok_0.agent.mint, res->Ok_0.agent.bump),
            old(ctx).agent_data_key,
        ),
{
    let state_address = derive_global_state_address(&ctx.program_id, ctx.global_state.bump);
    let found = find_agent_data_address(&ctx.program_id, &ctx.mint);
    mint_genesis_with(ctx, name, genome, uri, state_address, found)
}

/// The fee that a merge pays: always a transfer, also of nothing.
pub open spec fn merge_fee(ctx: MergeAgents) -> Option<FeeTransfer> {
    Some(
        FeeTransfer {
            from: ctx.breeder.key,
            to: ctx.treasury.key,
            lamports: ctx.global_state.breeding_fee_lamports,
        },
    )
}

/// The addresses derived for the records that a merge reads and writes.
#[derive(Clone, Copy, Debug, PartialEq, Eq)]
pub struct MergeAddresses {
    /// The address derived for the configuration record.
    pub state: Option<Pubkey>,
    /// The address derived for the first parent's record.
    pub parent1: Option<Pubkey>,
    /// The address derived for the second parent's record.
    pub parent2: Option<Pubkey>,
    /// The address and bump found for the child's record.
    pub child: Option<(Pubkey, u8)>,
}

/// Why a merge is refused with nothing changed, if anything. In this order:
/// minting is paused; the child's record is not to be kept at the address
/// found for it; the configuration is not kept at the address derived for
/// it; the treasury is not the configured one; for the first parent and then
/// for the second, the record is not kept at the address derived for it, or
/// the caller does not hold exactly one unit of its token; the two parents
/// are one; the name does not fit; the fee cannot be paid.
pub open spec fn merge_refusal(ctx: MergeAgents, name: Seq<char>, derived: MergeAddresses) -> Option<
    ClawDnaError,
> {
    if ctx.global_state.paused {
        Some(ClawDnaError::ProgramPaused)
    } else if !found_matches(derived.child, ctx.child_data_key) {
        Some(ClawDnaError::InvalidBump)
    } else if !address_matches(derived.state, ctx.global_state_key) {
        Some(ClawDnaError::InvalidBump)
    } else if ctx.treasury.key != ctx.global_state.treasury {
        Some(ClawDnaError::InvalidTreasury)
    } else if !address_matches(derived.parent1, ctx.parent1_data_key) {
        Some(ClawDnaError::InvalidBump)
    } else if !ctx.parent1_token.is_one_held_by(ctx.parent1_data.mint, ctx.breeder.key) {
        Some(ClawDnaError::InvalidParent)
    } else if !address_matches(derived.parent2, ctx.parent2_data_key) {
        Some(ClawDnaError::InvalidBump)
    } else if !ctx.parent2_token.is_one_held_by(ctx.parent2_data.mint, ctx.breeder.key) {
        Some(ClawDnaError::InvalidParent)
    } else if ctx.parent1_data.mint == ctx.parent2_data.mint {
        Some(ClawDnaError::SameParent)
    } else if !name_fits(name) {
        Some(ClawDnaError::InvalidMetadata)
    } else {
        transfer_error(ctx.breeder, ctx.treasury, ctx.global_state.breeding_fee_lamports)
    }
}

/// Why a merge that has paid its fee still fails, if it does. In this order:
/// the child's generation does not fit; the entropy is too short; the
/// counter of agents is full.
pub open spec fn merge_late_error(ctx: MergeAgents) -> Option<ClawDnaError> {
    if child_generation(ctx.parent1_data.generation, ctx.parent2_data.generation) > u16::MAX {
        Some(ClawDnaError::GenerationOverflow)
    } else if ctx.recent_slot_hashes@.len() < MIN_ENTROPY_LEN {
        Some(ClawDnaError::EntropyTooShort)
    } else if ctx.global_state.total_agents == u64::MAX {
        Some(ClawDnaError::MathOverflow)
    } else {
        None
    }
}

/// Why a merge fails, if it does.
pub open spec fn merge_error(ctx: MergeAgents, name: Seq<char>, derived: MergeAddresses) -> Option<
    ClawDnaError,
> {
    if merge_refusal(ctx, name, derived) is Some {
        merge_refusal(ctx, name, derived)
    } else {
        merge_late_error(ctx)
    }
}

/// The accounts of a merge once the fee has moved.
pub open spec fn merge_fee_paid(ctx: MergeAgents) -> MergeAgents {
    MergeAgents {
        breeder: debited(ctx.breeder, ctx.treasury, ctx.global_state.breeding_fee_lamports),
        treasury: credited(ctx.breeder, ctx.treasury, ctx.global_state.breeding_fee_lamports),
        ..ctx
    }
}

/// The accounts after a merge. A call that is refused changes nothing. A
/// call that fails after the fee was paid leaves the fee where it went and
/// changes nothing else. A call that succeeds has also counted one agent
/// more.
pub open spec fn merge_post(ctx: MergeAgents, name: Seq<char>, derived: MergeAddresses) -> MergeAgents {
    if merge_refusal(ctx, name, derived) is Some {
        ctx
    } else if merge_late_error(ctx) is Some {
        merge_fee_paid(ctx)
    } else {
        MergeAgents { global_state: counted(ctx.global_state), ..merge_fee_paid(ctx) }
    }
}

/// What a successful merge hands back: the next number, the record of the
/// child of the two parents under the entropy of the call, the fee as it
/// was paid, and the orders for the token and its metadata.
pub open spec fn is_merge_minted(
    minted: Minted,
    ctx: MergeAgents,
    name: Seq<char>,
    uri: Seq<char>,
    bump: u8,
) -> bool {
    &&& minted.agent_id == ctx.global_state.total_agents + 1
    &&& minted.agent.is_child_of(
        ctx.child_mint,
        ctx.parent1_data,
        ctx.parent2_data,
        ctx.recent_slot_hashes@,
        name,
        ctx.unix_timestamp,
        bump,
    )
    &&& minted.fee == merge_fee(ctx)
    &&& is_metadata_of(
        minted.metadata,
        name,
        minted.agent_id,
        uri,
        ctx.global_state.royalty_bps,
        ctx.global_state.owner,
    )
    &&& minted.issue == agent_token(ctx.child_mint, ctx.breeder.key)
}

/// Breeds a child from two agents, given the addresses derived for the
/// records of the call.
pub fn merge_agents_with(
    ctx: &mut MergeAgents,
    name: String,
    uri: String,
    derived: MergeAddresses,
) -> (res: Result<Minted, ClawDnaError>)
    ensures
        match merge_error(*old(ctx), name@, derived) {
            Some(e) => res == Err::<Minted, ClawDnaError>(e),
            None => res is Ok && is_merge_minted(
                res->Ok_0,
                *old(ctx),
                name@,
                uri@,
                derived.child.unwrap().1,
            ),
        },
        *final(ctx) == merge_post(*old(ctx), name@, derived),
        old(ctx).global_state.paused ==> res == Err::<Minted, ClawDnaError>(
            ClawDnaError::ProgramPaused,
        ) && *final(ctx) == *old(ctx),
        res is Ok ==> final(ctx).global_state.total_agents == old(ctx).global_state.total_agents
            + 1,
        res is Ok ==> res->Ok_0.agent.generation == child_generation(
            old(ctx).parent1_data.generation,
            old(ctx).parent2_data.generation,
        ),
        res is Err ==> final(ctx).global_state == old(ctx).global_state,
        res is Ok ==> res->Ok_0.agent.wf(),
{
    ctx.global_state.require_not_paused()?;
    let bump = match check_found(&derived.child, &ctx.child_data_key) {
        None => {
            return Err(ClawDnaError::InvalidBump);
        },
        Some(bump) => bump,
    };
    if !check_address(&derived.state, &ctx.global_state_key) {
        return Err(ClawDnaError::InvalidBump);
    }
    if ctx.treasury.key != ctx.global_state.treasury {
        return Err(ClawDnaError::InvalidTreasury);
    }
    if !check_address(&derived.parent1, &ctx.parent1_data_key) {
        return Err(ClawDnaError::InvalidBump);
    }
    ctx.parent1_token.require_one_held_by(&ctx.parent1_data.mint, &ctx.breeder.key)?;
    if !check_address(&derived.parent2, &ctx.parent2_data_key) {
        return Err(ClawDnaError::InvalidBump);
    }
    ctx.parent2_token.require_one_held_by(&ctx.parent2_data.mint, &ctx.breeder.key)?;
    if ctx.parent1_data.mint == ctx.parent2_data.mint {
        return Err(ClawDnaError::SameParent);
    }
    validate_name(&name)?;
    let paid = transfer(
        &mut ctx.breeder,
        &mut ctx.treasury,
        ctx.global_state.breeding_fee_lamports,
    )?;
    let agent = AgentData::create_merged(
        ctx.child_mint,
        &ctx.parent1_data,
        &ctx.parent2_data,
        ctx.recent_slot_hashes.as_slice(),
        name.clone(),
        ctx.unix_timestamp,
        bump,
    )?;
    let agent_id = match ctx.global_state.total_agents.checked_add(1) {
        None => {
            return Err(ClawDnaError::MathOverflow);
        },
        Some(agent_id) => agent_id,
    };
    ctx.global_state.total_agents = agent_id;
    let metadata = agent_metadata(
        &name,
        agent_id,
        uri,
        ctx.global_state.royalty_bps,
        ctx.global_state.owner,
    );
    let issue = issue_agent_token(ctx.child_mint, ctx.breeder.key);
    Ok(Minted { agent_id, agent, fee: Some(paid), metadata, issue })
}

/// The addresses derived for the records of `ctx`.
pub open spec fn merge_addresses(ctx: MergeAgents) -> MergeAddresses {
    MergeAddresses {
        state: global_state_address(ctx.program_id, ctx.global_state.bump),
        parent1: agent_data_address(ctx.program_id, ctx.parent1_data.mint, ctx.parent1_data.bump),
        parent2: agent_data_address(ctx.program_id, ctx.parent2_data.mint, ctx.parent2_data.bump),
        child: new_agent_data_address(ctx.program_id, ctx.child_mint),
    }
}

/// Breeds a child from two agents. While minting is paused nothing happens.
/// The accounts must be the ones derived for this program, the treasury the
/// configured one, each parent's token held by the caller as exactly one
/// unit, the parents two different agents, and the name short enough. Then
/// the fee moves from the caller to the treasury, whatever it is; the child
/// gets a generation one above the deeper parent's and a genome mixed from
/// both under the entropy of the call; it takes the next number; and its
/// record, its token and its metadata are handed back.
pub fn merge_agents(ctx: &mut MergeAgents, name: String, uri: String) -> (res: Result<
    Minted,
    ClawDnaError,
>)
    ensures
        match merge_error(*old(ctx), name@, merge_addresses(*old(ctx))) {
            Some(e) => res == Err::<Minted, ClawDnaError>(e),
            None => res is Ok && is_merge_minted(
                res->Ok_0,
                *old(ctx),
                name@,
                uri@,
                merge_addresses(*old(ctx)).child.unwrap().1,
            ),
        },
        *final(ctx) == merge_post(*old(ctx), name@, merge_addresses(*old(ctx))),
        old(ctx).global_state.paused ==> res == Err::<Minted, ClawDnaError>(
            ClawDnaError::ProgramPaused,
        ) && *final(ctx) == *old(ctx),
        res is Ok ==> final(ctx).global_state.total_agents == old(ctx).global_state.total_agents
            + 1,
        res is Ok ==> res->Ok_0.agent.generation == child_generation(
            old(ctx).parent1_data.generation,
            old(ctx).parent2_data.generation,
        ),
        res is Err ==> final(ctx).global_state == old(ctx).global_state,
        res is Ok ==> res->Ok_0.agent.wf(),
        res is Ok ==> address_matches(
            agent_data_address(old(ctx).program_id, res->Ok_0.agent.mint, res->Ok_0.agent.bump),
            old(ctx).child_data_key,
        ),
{
    let derived = MergeAddresses {
        state: derive_global_state_address(&ctx.program_id, ctx.global_state.bump),
        parent1: derive_agent_data_address(
            &ctx.program_id,
            &ctx.parent1_data.mint,
            ctx.parent1_data.bump,
        ),
        parent2: derive_agent_data_address(
            &ctx.program_id,
            &ctx.parent2_data.mint,
            ctx.parent2_data.bump,
        ),
        child: find_agent_data_address(&ctx.program_id, &ctx.child_mint),
    };
    merge_agents_with(ctx, name, uri, derived)
}

} // verus!
