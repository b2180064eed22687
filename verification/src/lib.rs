//! Breeding of agents on a ledger: a configuration with an owner, a fee and a
//! circuit breaker, agents with a genome of eight traits, and the rules by
//! which an agent is minted or bred from two others.

pub mod address;
pub mod admin;
pub mod context;
pub mod error;
pub mod fee;
pub mod genome;
pub mod laws;
pub mod metadata;
pub mod minting;
pub mod pubkey;
pub mod state;

pub use crate::error::ClawDnaError;
pub use crate::pubkey::Pubkey;
pub use crate::genome::{
    combine_genomes, combine_trait, validate_genome, MAX_TRAIT_VALUE, MIN_ENTROPY_LEN,
    MUTATION_OFFSET, MUTATION_RANGE, TRAIT_COUNT,
};
pub use crate::state::{
    next_generation, validate_name, AgentData, GlobalState, DEFAULT_ROYALTY_BPS,
    DISCRIMINATOR_SIZE, MAX_ROYALTY_BPS,
};
pub use crate::fee::{collect, transfer, FeeTransfer, Wallet};
pub use crate::metadata::{
    agent_metadata, decimal_string, full_name, issue_agent_token, Creator, TokenIssue,
    TokenMetadata, TOKEN_DECIMALS, TOKEN_UNITS,
};
pub use crate::context::{Admin, Initialize, MergeAgents, MintGenesis, Minted, TokenHolding};
pub use crate::admin::{
    initialize, initialize_with, pause, pause_with, require_admin, unpause, unpause_with,
    update_breeding_fee, update_breeding_fee_with,
};
pub use crate::minting::{
    merge_agents, merge_agents_with, mint_genesis, mint_genesis_with, MergeAddresses,
};
