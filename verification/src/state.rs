//! The two kinds of record that the program keeps: the configuration, of
//! which there is one, and the data of an agent, of which there is one per
//! token.

use vstd::prelude::*;
use vstd::utf8::encode_utf8;
use crate::error::ClawDnaError;
use crate::genome::{combine_genomes, combined, genome_valid, validate_genome};
use crate::genome::{MIN_ENTROPY_LEN, TRAIT_COUNT};
use crate::pubkey::Pubkey;

verus! {

/// The royalty rate that a deployment starts from, in basis points.
pub const DEFAULT_ROYALTY_BPS: u16 = 500;

/// The largest royalty rate, in basis points: the whole price.
pub const MAX_ROYALTY_BPS: u16 = 10000;

/// Bytes that precede every stored record.
pub const DISCRIMINATOR_SIZE: usize = 8;

/// The configuration of the program: who owns it, where fees go, what a
/// mint costs, and whether minting is switched off.
#[derive(Clone, Copy, Debug, PartialEq, Eq)]
pub struct GlobalState {
    /// The identity that may pause, unpause and set the fee.
    pub owner: Pubkey,
    /// The identity that receives every fee.
    pub treasury: Pubkey,
    /// What one mint or merge costs.
    pub breeding_fee_lamports: u64,
    /// The royalty rate written into every token's metadata.
    pub royalty_bps: u16,
    /// The circuit breaker.
    pub paused: bool,
    /// How many agents exist; the last one's number.
    pub total_agents: u64,
    /// The bump under which the record's address was derived.
    pub bump: u8,
}

impl GlobalState {
    /// Bytes that a stored configuration takes.
    pub const LEN: usize = DISCRIMINATOR_SIZE + 32 + 32 + 8 + 2 + 1 + 8 + 1;

    /// The royalty rate is at most the whole price.
    pub open spec fn wf(&self) -> bool {
        self.royalty_bps <= MAX_ROYALTY_BPS
    }

    /// Succeeds for the owner and for nobody else.
    pub fn require_owner(&self, signer: &Pubkey) -> (res: Result<(), ClawDnaError>)
        ensures
            res is Ok <==> self.owner == *signer,
            res is Err ==> res == Err::<(), ClawDnaError>(ClawDnaError::Unauthorized),
    {
        if self.owner == *signer {
            Ok(())
        } else {
            Err(ClawDnaError::Unauthorized)
        }
    }

    /// Succeeds while the circuit breaker is off.
    pub fn require_not_paused(&self) -> (res: Result<(), ClawDnaError>)
        ensures
            res is Ok <==> !self.paused,
            res is Err ==> res == Err::<(), ClawDnaError>(ClawDnaError::ProgramPaused),
    {
        if self.paused {
            Err(ClawDnaError::ProgramPaused)
        } else {
            Ok(())
        }
    }
}

/// Whether a display name fits the space a stored record leaves for it.
pub open spec fn name_fits(name: Seq<char>) -> bool {
    encode_utf8(name).len() <= AgentData::MAX_NAME_LEN
}

/// Checks that a display name takes at most `AgentData::MAX_NAME_LEN` bytes.
pub fn validate_name(name: &String) -> (res: Result<(), ClawDnaError>)
    ensures
        res is Ok <==> name_fits(name@),
        res is Err ==> res == Err::<(), ClawDnaError>(ClawDnaError::InvalidMetadata),
{
    broadcast use vstd::slice::axiom_spec_len;

    if name.as_str().as_bytes().len() <= AgentData::MAX_NAME_LEN {
        Ok(())
    } else {
        Err(ClawDnaError::InvalidMetadata)
    }
}

/// The generation of a child: one more than the deeper of its parents.
pub open spec fn child_generation(generation1: u16, generation2: u16) -> int {
    if generation1 >= generation2 {
        generation1 + 1
    } else {
        generation2 + 1
    }
}

/// Computes the generation of a child, or fails if it does not fit.
pub fn next_generation(generation1: u16, generation2: u16) -> (res: Result<u16, ClawDnaError>)
    ensures
        child_generation(generation1, generation2) <= u16::MAX ==> res == Ok::<u16, ClawDnaError>(
            child_generation(generation1, generation2) as u16,
        ),
        child_generation(generation1, generation2) > u16::MAX ==> res == Err::<u16, ClawDnaError>(
            ClawDnaError::GenerationOverflow,
        ),
{
    let deeper: u16 = if generation1 >= generation2 {
        generation1
    } else {
        generation2
    };
    match deeper.checked_add(1) {
        Some(generation) => Ok(generation),
        None => Err(ClawDnaError::GenerationOverflow),
    }
}

/// What the program knows of one agent. A record is written once, when the
/// agent is minted, and never changed.
#[derive(Debug, PartialEq, Eq)]
pub struct AgentData {
    /// The token this record belongs to.
    pub mint: Pubkey,
    /// The agent's traits.
    pub genome: [u8; TRAIT_COUNT],
    /// 0 for an agent minted from nothing, else one more than the deeper
    /// parent's.
    pub generation: u16,
    /// The parents' tokens; both null for an agent minted from nothing.
    pub parents: [Pubkey; 2],
    /// When the agent was minted, by the ledger's clock.
    pub created_at: i64,
    /// The display name.
    pub name: String,
    /// The bump under which the record's address was derived.
    pub bump: u8,
}

impl Clone for AgentData {
    fn clone(&self) -> (copy: AgentData)
        ensures
            copy == *self,
    {
        AgentData {
            mint: self.mint,
            genome: self.genome,
            generation: self.generation,
            parents: self.parents,
            created_at: self.created_at,
            name: self.name.clone(),
            bump: self.bump,
        }
    }
}

impl AgentData {
    /// Bytes that a stored agent takes, its name aside.
    pub const BASE_LEN: usize = DISCRIMINATOR_SIZE + 32 + TRAIT_COUNT + 2 + 64 + 8 + 4 + 1;

    /// The most bytes that a display name may take.
    pub const MAX_NAME_LEN: usize = 50;

    /// Bytes set aside for a stored agent.
    pub const LEN: usize = AgentData::BASE_LEN + AgentData::MAX_NAME_LEN;

    /// Every trait is in range and the name fits.
    pub open spec fn wf(&self) -> bool {
        &&& genome_valid(self.genome@)
        &&& name_fits(self.name@)
    }

    /// The record of an agent minted from nothing.
    pub open spec fn is_genesis_of(
        &self,
        mint: Pubkey,
        genome: Seq<u8>,
        name: Seq<char>,
        created_at: i64,
        bump: u8,
    ) -> bool {
        &&& self.mint == mint
        &&& self.genome@ == genome
        &&& self.generation == 0
        &&& self.parents@ == seq![Pubkey::null(), Pubkey::null()]
        &&& self.created_at == created_at
        &&& self.name@ == name
        &&& self.bump == bump
    }

    /// The record of the child of `parent1` and `parent2` under `entropy`.
    pub open spec fn is_child_of(
        &self,
        mint: Pubkey,
        parent1: AgentData,
        parent2: AgentData,
        entropy: Seq<u8>,
        name: Seq<char>,
        created_at: i64,
        bump: u8,
    ) -> bool {
        &&& self.mint == mint
        &&& self.genome@ == combined(parent1.genome@, parent2.genome@, entropy)
        &&& self.generation == child_generation(parent1.generation, parent2.generation)
        &&& self.parents@ == seq![parent1.mint, parent2.mint]
        &&& self.created_at == created_at
        &&& self.name@ == name
        &&& self.bump == bump
    }

    /// Why no agent can be minted from nothing with this genome and name, if
    /// anything.
    pub open spec fn genesis_error(genome: Seq<u8>, name: Seq<char>) -> Option<ClawDnaError> {
        if !genome_valid(genome) {
            Some(ClawDnaError::InvalidGenome)
        } else if !name_fits(name) {
            Some(ClawDnaError::InvalidMetadata)
        } else {
            None
        }
    }

    /// Why these two parents cannot have a child under this entropy and by
    /// this name, if anything.
    pub open spec fn merge_error(
        parent1: AgentData,
        parent2: AgentData,
        entropy: Seq<u8>,
        name: Seq<char>,
    ) -> Option<ClawDnaError> {
        if parent1.mint == parent2.mint {
            Some(ClawDnaError::SameParent)
        } else if !name_fits(name) {
            Some(ClawDnaError::InvalidMetadata)
        } else if child_generation(parent1.generation, parent2.generation) > u16::MAX {
            Some(ClawDnaError::GenerationOverflow)
        } else if entropy.len() < MIN_ENTROPY_LEN {
            Some(ClawDnaError::EntropyTooShort)
        } else {
            None
        }
    }

    /// Makes the record of an agent minted from nothing: generation 0, no
    /// parents. Refuses a genome with a trait out of range, then a name that
    /// does not fit.
    pub fn create_genesis(
        mint: Pubkey,
        genome: [u8; TRAIT_COUNT],
        name: String,
        created_at: i64,
        bump: u8,
    ) -> (res: Result<AgentData, ClawDnaError>)
        ensures
            match AgentData::genesis_error(genome@, name@) {
                Some(e) => res == Err::<AgentData, ClawDnaError>(e),
                None => res is Ok && res->Ok_0.is_genesis_of(
                    mint,
                    genome@,
                    name@,
                    created_at,
                    bump,
                ),
            },
            res is Ok ==> res->Ok_0.wf(),
    {
        validate_genome(&genome)?;
        validate_name(&name)?;
        let nobody = Pubkey::default();
        let agent = AgentData {
            mint,
            genome,
            generation: 0,
            parents: [nobody, nobody],
            created_at,
            name,
            bump,
        };
        assert(agent.parents@ =~= seq![Pubkey::null(), Pubkey::null()]);
        Ok(agent)
    }

    /// Makes the record of the child of two agents: its genome is mixed from
    /// theirs under `entropy`, its generation is one more than the deeper
    /// parent's, and it remembers both parents' tokens. Refuses, in this
    /// order, a parent bred with itself, a name that does not fit, a
    /// generation that overflows, and an entropy source that is too short.
    pub fn create_merged(
        mint: Pubkey,
        parent1: &AgentData,
        parent2: &AgentData,
        entropy: &[u8],
        name: String,
        created_at: i64,
        bump: u8,
    ) -> (res: Result<AgentData, ClawDnaError>)
        ensures
            match AgentData::merge_error(*parent1, *parent2, entropy@, name@) {
                Some(e) => res == Err::<AgentData, ClawDnaError>(e),
                None => res is Ok && res->Ok_0.is_child_of(
                    mint,
                    *parent1,
                    *parent2,
                    entropy@,
                    name@,
                    created_at,
                    bump,
                ),
            },
            res is Ok ==> res->Ok_0.wf(),
    {
        if parent1.mint == parent2.mint {
            return Err(ClawDnaError::SameParent);
        }
        validate_name(&name)?;
        let generation = next_generation(parent1.generation, parent2.generation)?;
        let genome = combine_genomes(&parent1.genome, &parent2.genome, entropy)?;
        let agent = AgentData {
            mint,
            genome,
            generation,
            parents: [parent1.mint, parent2.mint],
            created_at,
            name,
            bump,
        };
        assert(agent.parents@ =~= seq![parent1.mint, parent2.mint]);
        Ok(agent)
    }
}

} // verus!
