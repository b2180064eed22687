//! The accounts that each operation is called with, as plain values: what
//! the ledger hands in, and, after the call, what it is to keep.

use vstd::prelude::*;
use crate::error::ClawDnaError;
use crate::fee::{FeeTransfer, Wallet};
use crate::metadata::{TokenIssue, TokenMetadata};
use crate::pubkey::Pubkey;
use crate::state::{AgentData, GlobalState};

verus! {

/// A holding of a token: which token, who holds it, and how many units.
#[derive(Clone, Copy, Debug, PartialEq, Eq)]
pub struct TokenHolding {
    pub mint: Pubkey,
    pub owner: Pubkey,
    pub amount: u64,
}

impl TokenHolding {
    /// Exactly one unit of `mint`, held by `holder`.
    pub open spec fn is_one_held_by(self, mint: Pubkey, holder: Pubkey) -> bool {
        &&& self.mint == mint
        &&& self.owner == holder
        &&& self.amount == 1
    }

    /// Succeeds if this is exactly one unit of `mint` held by `holder`.
    pub fn require_one_held_by(&self, mint: &Pubkey, holder: &Pubkey) -> (res: Result<
        (),
        ClawDnaError,
    >)
        ensures
            res is Ok <==> self.is_one_held_by(*mint, *holder),
            res is Err ==> res == Err::<(), ClawDnaError>(ClawDnaError::InvalidParent),
    {
        if self.mint == *mint && self.owner == *holder && self.amount == 1 {
            Ok(())
        } else {
            Err(ClawDnaError::InvalidParent)
        }
    }
}

/// The accounts of `initialize`.
#[derive(Clone, Copy, Debug, PartialEq, Eq)]
pub struct Initialize {
    /// The program that is being configured.
    pub program_id: Pubkey,
    /// The caller, who becomes the owner.
    pub owner: Pubkey,
    /// Where fees are to go.
    pub treasury: Wallet,
    /// The address at which the configuration is to be kept.
    pub global_state_key: Pubkey,
    /// The configuration kept there: none before the first call.
    pub global_state: Option<GlobalState>,
}

/// The accounts of `pause`, `unpause` and `update_breeding_fee`.
#[derive(Clone, Copy, Debug, PartialEq, Eq)]
pub struct Admin {
    pub program_id: Pubkey,
    /// The caller.
    pub owner: Pubkey,
    /// The address at which the configuration is kept.
    pub global_state_key: Pubkey,
    pub global_state: GlobalState,
}

/// The accounts of `mint_genesis`.
#[derive(Clone, Copy, Debug, PartialEq, Eq)]
pub struct MintGenesis {
    pub program_id: Pubkey,
    /// The caller, who pays the fee and receives the token.
    pub minter: Wallet,
    /// The address at which the configuration is kept.
    pub global_state_key: Pubkey,
    pub global_state: GlobalState,
    /// The account that is to receive the fee.
    pub treasury: Wallet,
    /// The token of the new agent.
    pub mint: Pubkey,
    /// The address at which the new agent's record is to be kept.
    pub agent_data_key: Pubkey,
    /// The ledger's clock.
    pub unix_timestamp: i64,
}

/// The accounts of `merge_agents`.
#[derive(Debug, PartialEq, Eq)]
pub struct MergeAgents {
    pub program_id: Pubkey,
    /// The caller, who pays the fee, holds both parents and receives the
    /// child.
    pub breeder: Wallet,
    /// The address at which the configuration is kept.
    pub global_state_key: Pubkey,
    pub global_state: GlobalState,
    /// The account that is to receive the fee.
    pub treasury: Wallet,
    /// The address at which the first parent's record is kept.
    pub parent1_data_key: Pubkey,
    pub parent1_data: AgentData,
    /// The caller's holding of the first parent's token.
    pub parent1_token: TokenHolding,
    /// The address at which the second parent's record is kept.
    pub parent2_data_key: Pubkey,
    pub parent2_data: AgentData,
    /// The caller's holding of the second parent's token.
    pub parent2_token: TokenHolding,
    /// The token of the child.
    pub child_mint: Pubkey,
    /// The address at which the child's record is to be kept.
    pub child_data_key: Pubkey,
    /// The entropy that the ledger supplies.
    pub recent_slot_hashes: Vec<u8>,
    /// The ledger's clock.
    pub unix_timestamp: i64,
}

impl Clone for MergeAgents {
    fn clone(&self) -> (copy: MergeAgents)
        ensures
            copy.recent_slot_hashes@ == self.recent_slot_hashes@,
            copy == (MergeAgents { recent_slot_hashes: copy.recent_slot_hashes, ..*self }),
    {
        MergeAgents {
            program_id: self.program_id,
            breeder: self.breeder,
            global_state_key: self.global_state_key,
            global_state: self.global_state,
            treasury: self.treasury,
            parent1_data_key: self.parent1_data_key,
            parent1_data: self.parent1_data.clone(),
            parent1_token: self.parent1_token,
            parent2_data_key: self.parent2_data_key,
            parent2_data: self.parent2_data.clone(),
            parent2_token: self.parent2_token,
            child_mint: self.child_mint,
            child_data_key: self.child_data_key,
            recent_slot_hashes: self.recent_slot_hashes.clone(),
            unix_timestamp: self.unix_timestamp,
        }
    }
}

/// What a successful mint or merge leaves to be done and kept: the record
/// to store, the metadata to register and the token to issue.
#[derive(Debug, PartialEq, Eq)]
pub struct Minted {
    /// The number of the new agent.
    pub agent_id: u64,
    /// The record to keep for it.
    pub agent: AgentData,
    /// The transfer that was made for the fee, if one was made.
    pub fee: Option<FeeTransfer>,
    /// The metadata to register for the token.
    pub metadata: TokenMetadata,
    /// The units to issue.
    pub issue: TokenIssue,
}

impl Clone for Minted {
    fn clone(&self) -> (copy: Minted)
        ensures
            copy == *self,
    {
        Minted {
            agent_id: self.agent_id,
            agent: self.agent.clone(),
            fee: self.fee,
            metadata: self.metadata.clone(),
            issue: self.issue,
        }
    }
}

} // verus!
