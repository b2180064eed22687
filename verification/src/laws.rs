//! What holds of the program as a whole: of the owner's privilege, of the
//! circuit breaker, and of the counter of agents over any run of calls.

use vstd::prelude::*;
use crate::admin::{admin_error, set_paused_post, update_fee_post};
use crate::context::{Admin, MergeAgents, MintGenesis};
use crate::error::ClawDnaError;
use crate::genome::combined;
use crate::minting::{
    merge_error, merge_post, merge_refusal, mint_genesis_error, mint_genesis_post,
    mint_genesis_refusal, MergeAddresses,
};
use crate::pubkey::Pubkey;
use crate::state::{child_generation, GlobalState};

verus! {

/// Mixing is a function of its three arguments: the same parents and the
/// same entropy, byte for byte, give the same child.
pub proof fn law_combine_deterministic(
    parent1: Seq<u8>,
    parent2: Seq<u8>,
    entropy: Seq<u8>,
    other1: Seq<u8>,
    other2: Seq<u8>,
    other_entropy: Seq<u8>,
)
    requires
        parent1 =~= other1,
        parent2 =~= other2,
        entropy =~= other_entropy,
    ensures
        combined(parent1, parent2, entropy) == combined(other1, other2, other_entropy),
{
}

/// A child is one generation above the deeper of its parents, and that
/// generation fits as long as neither parent is of the last generation.
pub proof fn law_child_generation(generation1: u16, generation2: u16)
    ensures
        child_generation(generation1, generation2) > generation1,
        child_generation(generation1, generation2) > generation2,
        child_generation(generation1, generation2) == generation1 + 1 || child_generation(
            generation1,
            generation2,
        ) == generation2 + 1,
        child_generation(generation1, generation2) <= u16::MAX <==> (generation1 < u16::MAX
            && generation2 < u16::MAX),
{
}

/// A caller who is not the owner can neither pause, nor unpause, nor set the
/// fee: each attempt fails as unauthorized and changes nothing.
pub proof fn law_only_owner_administers(ctx: Admin, new_fee: u64, state_address: Option<Pubkey>)
    requires
        ctx.owner != ctx.global_state.owner,
    ensures
        admin_error(ctx, state_address) == Some(ClawDnaError::Unauthorized),
        set_paused_post(ctx, true, state_address) == ctx,
        set_paused_post(ctx, false, state_address) == ctx,
        update_fee_post(ctx, new_fee, state_address) == ctx,
{
}

/// While the configuration is paused a genesis mint fails as paused, whatever
/// else it is called with, and changes nothing: neither the counter nor any
/// balance.
pub proof fn law_pause_stops_genesis(
    ctx: MintGenesis,
    name: Seq<char>,
    genome: Seq<u8>,
    state_address: Option<Pubkey>,
    found: Option<(Pubkey, u8)>,
)
    requires
        ctx.global_state.paused,
    ensures
        mint_genesis_error(ctx, name, genome, state_address, found) == Some(
            ClawDnaError::ProgramPaused,
        ),
        mint_genesis_post(ctx, name, genome, state_address, found) == ctx,
{
}

/// While the configuration is paused a merge fails as paused, whatever else
/// it is called with, and changes nothing: neither the counter nor any
/// balance.
pub proof fn law_pause_stops_merge(ctx: MergeAgents, name: Seq<char>, derived: MergeAddresses)
    requires
        ctx.global_state.paused,
    ensures
        merge_error(ctx, name, derived) == Some(ClawDnaError::ProgramPaused),
        merge_post(ctx, name, derived) == ctx,
{
}

/// A pause by the owner takes hold, and an unpause after it gives back the
/// configuration as it was before the pause: whatever a mint or a merge did
/// then, it does again.
pub proof fn law_unpause_restores(ctx: Admin, state_address: Option<Pubkey>)
    requires
        admin_error(ctx, state_address) is None,
        !ctx.global_state.paused,
    ensures
        set_paused_post(ctx, true, state_address).global_state.paused,
        admin_error(set_paused_post(ctx, true, state_address), state_address) is None,
        set_paused_post(set_paused_post(ctx, true, state_address), false, state_address) == ctx,
{
}

/// An unpause by the owner switches minting on, whatever the circuit breaker
/// was before; and while it is on, no mint and no merge fails as paused.
pub proof fn law_unpaused_is_open(
    ctx: Admin,
    admin_address: Option<Pubkey>,
    genesis: MintGenesis,
    genome: Seq<u8>,
    state_address: Option<Pubkey>,
    found: Option<(Pubkey, u8)>,
    merge: MergeAgents,
    name: Seq<char>,
    derived: MergeAddresses,
)
    requires
        admin_error(ctx, admin_address) is None,
        genesis.global_state == set_paused_post(ctx, false, admin_address).global_state,
        merge.global_state == set_paused_post(ctx, false, admin_address).global_state,
    ensures
        !set_paused_post(ctx, false, admin_address).global_state.paused,
        mint_genesis_error(genesis, name, genome, state_address, found) != Some(
            ClawDnaError::ProgramPaused,
        ),
        merge_error(merge, name, derived) != Some(ClawDnaError::ProgramPaused),
{
}

/// A mint or a merge that pays moves exactly the fee, once, from the caller
/// to the treasury: a genesis mint that gets past its refusals, and a merge
/// that gets past its own, leave the treasury richer and the caller poorer by
/// the fee of the configuration, whether or not the call then succeeds.
pub proof fn law_fee_moves_once(
    genesis: MintGenesis,
    genome: Seq<u8>,
    state_address: Option<Pubkey>,
    found: Option<(Pubkey, u8)>,
    merge: MergeAgents,
    name: Seq<char>,
    derived: MergeAddresses,
)
    ensures
        mint_genesis_refusal(genesis, name, genome, state_address, found) is None
            && genesis.minter.key != genesis.treasury.key ==> {
            let after = mint_genesis_post(genesis, name, genome, state_address, found);
            &&& after.treasury.lamports == genesis.treasury.lamports
                + genesis.global_state.breeding_fee_lamports
            &&& after.minter.lamports == genesis.minter.lamports
                - genesis.global_state.breeding_fee_lamports
        },
        merge_refusal(merge, name, derived) is None && merge.breeder.key != merge.treasury.key ==> {
            let after = merge_post(merge, name, derived);
            &&& after.treasury.lamports == merge.treasury.lamports
                + merge.global_state.breeding_fee_lamports
            &&& after.breeder.lamports == merge.breeder.lamports
                - merge.global_state.breeding_fee_lamports
        },
        mint_genesis_refusal(genesis, name, genome, state_address, found) is Some ==> {
            let after = mint_genesis_post(genesis, name, genome, state_address, found);
            after.treasury == genesis.treasury && after.minter == genesis.minter
        },
        merge_refusal(merge, name, derived) is Some ==> {
            let after = merge_post(merge, name, derived);
            after.treasury == merge.treasury && after.breeder == merge.breeder
        },
{
}

/// A record, once written, is never changed: a merge reads its parents and
/// hands them back as they were, whether it succeeds or fails. All that a
/// mint or a merge can change in its accounts are the two balances and the
/// configuration.
pub proof fn law_records_never_change(
    genesis: MintGenesis,
    genome: Seq<u8>,
    state_address: Option<Pubkey>,
    found: Option<(Pubkey, u8)>,
    merge: MergeAgents,
    name: Seq<char>,
    derived: MergeAddresses,
)
    ensures
        merge_post(merge, name, derived).parent1_data == merge.parent1_data,
        merge_post(merge, name, derived).parent2_data == merge.parent2_data,
        merge_post(merge, name, derived) == (MergeAgents {
            breeder: merge_post(merge, name, derived).breeder,
            treasury: merge_post(merge, name, derived).treasury,
            global_state: merge_post(merge, name, derived).global_state,
            ..merge
        }),
        mint_genesis_post(genesis, name, genome, state_address, found) == (MintGenesis {
            minter: mint_genesis_post(genesis, name, genome, state_address, found).minter,
            treasury: mint_genesis_post(genesis, name, genome, state_address, found).treasury,
            global_state: mint_genesis_post(
                genesis,
                name,
                genome,
                state_address,
                found,
            ).global_state,
            ..genesis
        }),
{
}

/// One call of an operation on an existing configuration, with all that it
/// is called with.
pub enum Call {
    Pause { admin: Admin, state_address: Option<Pubkey> },
    Unpause { admin: Admin, state_address: Option<Pubkey> },
    UpdateBreedingFee { admin: Admin, new_fee: u64, state_address: Option<Pubkey> },
    MintGenesis {
        genesis: MintGenesis,
        name: Seq<char>,
        genome: Seq<u8>,
        state_address: Option<Pubkey>,
        found: Option<(Pubkey, u8)>,
    },
    MergeAgents { merge: MergeAgents, name: Seq<char>, derived: MergeAddresses },
}

impl Call {
    /// The configuration that the call is made on.
    pub open spec fn before(self) -> GlobalState {
        match self {
            Call::Pause { admin, .. } => admin.global_state,
            Call::Unpause { admin, .. } => admin.global_state,
            Call::UpdateBreedingFee { admin, .. } => admin.global_state,
            Call::MintGenesis { genesis, .. } => genesis.global_state,
            Call::MergeAgents { merge, .. } => merge.global_state,
        }
    }

    /// The configuration that the call leaves.
    pub open spec fn after(self) -> GlobalState {
        match self {
            Call::Pause { admin, state_address } => set_paused_post(
                admin,
                true,
                state_address,
            ).global_state,
            Call::Unpause { admin, state_address } => set_paused_post(
                admin,
                false,
                state_address,
            ).global_state,
            Call::UpdateBreedingFee { admin, new_fee, state_address } => update_fee_post(
                admin,
                new_fee,
                state_address,
            ).global_state,
            Call::MintGenesis { genesis, name, genome, state_address, found } => mint_genesis_post(
                genesis,
                name,
                genome,
                state_address,
                found,
            ).global_state,
            Call::MergeAgents { merge, name, derived } => merge_post(
                merge,
                name,
                derived,
            ).global_state,
        }
    }

    /// The number of the agent that the call mints, if it mints one.
    pub open spec fn minted(self) -> Option<u64> {
        match self {
            Call::MintGenesis { genesis, name, genome, state_address, found } => {
                if mint_genesis_error(genesis, name, genome, state_address, found) is None {
                    Some((genesis.global_state.total_agents + 1) as u64)
                } else {
                    None
                }
            },
            Call::MergeAgents { merge, name, derived } => {
                if merge_error(merge, name, derived) is None {
                    Some((merge.global_state.total_agents + 1) as u64)
                } else {
                    None
                }
            },
            _ => None,
        }
    }
}

/// A history: calls made one after the other on one configuration, each on
/// what the one before it left.
pub open spec fn is_history(calls: Seq<Call>) -> bool {
    forall|i: int| 0 <= i < calls.len() - 1 ==> (#[trigger] calls[i]).after() == calls[i + 1].before()
}

/// A call that mints counts exactly one agent more and gives the new agent
/// the new count as its number. Any other call, failed or not, leaves the
/// counter as it is. No call changes the owner, and none breaks the bound on
/// the royalty rate.
pub proof fn law_one_call(call: Call)
    ensures
        call.minted() is Some ==> call.after().total_agents == call.before().total_agents + 1
            && call.minted() == Some(call.after().total_agents),
        call.minted() is None ==> call.after().total_agents == call.before().total_agents,
        call.after().owner == call.before().owner,
        call.after().treasury == call.before().treasury,
        call.after().royalty_bps == call.before().royalty_bps,
        call.before().wf() ==> call.after().wf(),
{
}

/// Over any history the counter of agents never goes down.
pub proof fn law_counter_never_decreases(calls: Seq<Call>, i: int, j: int)
    requires
        is_history(calls),
        0 <= i <= j < calls.len(),
    ensures
        calls[i].before().total_agents <= calls[j].before().total_agents,
        calls[i].before().total_agents <= calls[j].after().total_agents,
        calls[i].after().total_agents <= calls[j].after().total_agents,
        calls[i].before().owner == calls[j].after().owner,
    decreases j - i,
{
    law_one_call(calls[j]);
    if i < j {
        law_counter_never_decreases(calls, i, j - 1);
        assert(calls[j - 1].after() == calls[j].before());
    }
}

/// Over any history no number is given twice: of two calls that mint, the
/// later one gives the larger number.
pub proof fn law_numbers_never_repeat(calls: Seq<Call>, i: int, j: int)
    requires
        is_history(calls),
        0 <= i < j < calls.len(),
        calls[i].minted() is Some,
        calls[j].minted() is Some,
    ensures
        calls[i].minted().unwrap() < calls[j].minted().unwrap(),
{
    law_one_call(calls[i]);
    law_one_call(calls[j]);
    law_counter_never_decreases(calls, i + 1, j);
    assert(calls[i].after() == calls[i + 1].before());
}

} // verus!
