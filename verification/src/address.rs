//! Where the program's records live: each record sits at an address derived
//! from a fixed tag, the identity it belongs to, the program's own identity
//! and a one-byte bump. The derivation itself is the ledger's; this module
//! names what it returns and builds the seeds.

use vstd::prelude::*;
use vstd::slice::slice_to_vec;
use crate::pubkey::Pubkey;

verus! {

/// Seed reserved for the program as a whole: `clawdna`.
pub const PROGRAM_SEED: [u8; 7] = [99, 108, 97, 119, 100, 110, 97];

/// Seed of the configuration record: `global_state`.
pub const GLOBAL_STATE_SEED: [u8; 12] = [103, 108, 111, 98, 97, 108, 95, 115, 116, 97, 116, 101];

/// Seed prefix of an agent's record: `agent_data`.
pub const AGENT_DATA_SEED: [u8; 10] = [97, 103, 101, 110, 116, 95, 100, 97, 116, 97];

/// The address that `seeds` derive under `program_id`, as
/// `Pubkey::create_program_address` of `solana_program` computes it; `None`
/// where that function returns an error (too many seeds, a seed too long, or
/// a derived point that lies on the curve).
pub uninterp spec fn program_address(seeds: Seq<Seq<u8>>, program_id: Pubkey) -> Option<Pubkey>;

/// The address and bump that `Pubkey::try_find_program_address` of
/// `solana_program` finds for `seeds` under `program_id`; `None` where it
/// finds none.
pub uninterp spec fn found_program_address(seeds: Seq<Seq<u8>>, program_id: Pubkey) -> Option<
    (Pubkey, u8),
>;

/// Calls `solana_program::pubkey::Pubkey::create_program_address` on the
/// seeds and the program's identity. Nothing is claimed of the address but
/// that it is a function of the two arguments, named `program_address`; an
/// error of the outside function becomes `None`.
#[verifier::external_body]
fn create_program_address(seeds: &Vec<Vec<u8>>, program_id: &Pubkey) -> (address: Option<Pubkey>)
    ensures
        address == program_address(seeds.deep_view(), *program_id),
{
    let parts: Vec<&[u8]> = seeds.iter().map(|s| s.as_slice()).collect();
    let program = solana_program::pubkey::Pubkey::new_from_array(program_id.bytes);
    match solana_program::pubkey::Pubkey::create_program_address(&parts, &program) {
        Ok(key) => Some(Pubkey { bytes: key.to_bytes() }),
        Err(_) => None,
    }
}

/// Calls `solana_program::pubkey::Pubkey::try_find_program_address` on the
/// seeds and the program's identity. Two things are claimed of what it
/// finds: that the address and the bump are a function of the two arguments,
/// named `found_program_address`; and that the address is the one that
/// `create_program_address` derives from the same seeds followed by the bump
/// as a seed of one byte, which is how the outside function finds it.
#[verifier::external_body]
fn try_find_program_address(seeds: &Vec<Vec<u8>>, program_id: &Pubkey) -> (found: Option<
    (Pubkey, u8),
>)
    ensures
        found == found_program_address(seeds.deep_view(), *program_id),
        found is Some ==> program_address(
            seeds.deep_view().push(seq![found.unwrap().1]),
            *program_id,
        ) == Some(found.unwrap().0),
{
    let parts: Vec<&[u8]> = seeds.iter().map(|s| s.as_slice()).collect();
    let program = solana_program::pubkey::Pubkey::new_from_array(program_id.bytes);
    match solana_program::pubkey::Pubkey::try_find_program_address(&parts, &program) {
        Some((key, bump)) => Some((Pubkey { bytes: key.to_bytes() }, bump)),
        None => None,
    }
}

/// The seeds of the configuration record, before the bump.
pub open spec fn global_state_seeds() -> Seq<Seq<u8>> {
    seq![GLOBAL_STATE_SEED@]
}

/// The seeds of the record of the agent whose token is `mint`, before the
/// bump.
pub open spec fn agent_data_seeds(mint: Pubkey) -> Seq<Seq<u8>> {
    seq![AGENT_DATA_SEED@, mint@]
}

/// The address of the configuration record under a stored bump.
pub open spec fn global_state_address(program_id: Pubkey, bump: u8) -> Option<Pubkey> {
    program_address(global_state_seeds().push(seq![bump]), program_id)
}

/// The address and bump at which the configuration record is created.
pub open spec fn new_global_state_address(program_id: Pubkey) -> Option<(Pubkey, u8)> {
    found_program_address(global_state_seeds(), program_id)
}

/// The address of an agent's record under a stored bump.
pub open spec fn agent_data_address(program_id: Pubkey, mint: Pubkey, bump: u8) -> Option<
    Pubkey,
> {
    program_address(agent_data_seeds(mint).push(seq![bump]), program_id)
}

/// The address and bump at which an agent's record is created.
pub open spec fn new_agent_data_address(program_id: Pubkey, mint: Pubkey) -> Option<(Pubkey, u8)> {
    found_program_address(agent_data_seeds(mint), program_id)
}

/// A vector of one byte.
fn single(byte: u8) -> (v: Vec<u8>)
    ensures
        v@ == seq![byte],
{
    let mut v: Vec<u8> = Vec::new();
    v.push(byte);
    assert(v@ =~= seq![byte]);
    v
}

/// Derives the address of the configuration record from a stored bump.
pub fn derive_global_state_address(program_id: &Pubkey, bump: u8) -> (address: Option<Pubkey>)
    ensures
        address == global_state_address(*program_id, bump),
{
    let mut seeds: Vec<Vec<u8>> = Vec::new();
    seeds.push(slice_to_vec(GLOBAL_STATE_SEED.as_slice()));
    seeds.push(single(bump));
    assert(seeds.deep_view() =~~= global_state_seeds().push(seq![bump]));
    create_program_address(&seeds, program_id)
}

/// Finds the address and the bump at which the configuration record is
/// created.
pub fn find_global_state_address(program_id: &Pubkey) -> (found: Option<(Pubkey, u8)>)
    ensures
        found == new_global_state_address(*program_id),
        found is Some ==> global_state_address(*program_id, found.unwrap().1) == Some(
            found.unwrap().0,
        ),
{
    let mut seeds: Vec<Vec<u8>> = Vec::new();
    seeds.push(slice_to_vec(GLOBAL_STATE_SEED.as_slice()));
    assert(seeds.deep_view() =~~= global_state_seeds());
    try_find_program_address(&seeds, program_id)
}

/// Derives the address of the record of the agent whose token is `mint` from
/// a stored bump.
pub fn derive_agent_data_address(program_id: &Pubkey, mint: &Pubkey, bump: u8) -> (address: Option<
    Pubkey,
>)
    ensures
        address == agent_data_address(*program_id, *mint, bump),
{
    let mut seeds: Vec<Vec<u8>> = Vec::new();
    seeds.push(slice_to_vec(AGENT_DATA_SEED.as_slice()));
    seeds.push(mint.to_vec());
    seeds.push(single(bump));
    assert(seeds.deep_view() =~~= agent_data_seeds(*mint).push(seq![bump]));
    create_program_address(&seeds, program_id)
}

/// Finds the address and the bump at which the record of the agent whose
/// token is `mint` is created.
pub fn find_agent_data_address(program_id: &Pubkey, mint: &Pubkey) -> (found: Option<(Pubkey, u8)>)
    ensures
        found == new_agent_data_address(*program_id, *mint),
        found is Some ==> agent_data_address(*program_id, *mint, found.unwrap().1) == Some(
            found.unwrap().0,
        ),
{
    let mut seeds: Vec<Vec<u8>> = Vec::new();
    seeds.push(slice_to_vec(AGENT_DATA_SEED.as_slice()));
    seeds.push(mint.to_vec());
    assert(seeds.deep_view() =~~= agent_data_seeds(*mint));
    try_find_program_address(&seeds, program_id)
}

/// Whether a record sits where its derivation says: the derived address
/// exists and is `key`.
pub open spec fn address_matches(derived: Option<Pubkey>, key: Pubkey) -> bool {
    derived == Some(key)
}

/// Compares a derived address with the one that was handed in.
pub fn check_address(derived: &Option<Pubkey>, key: &Pubkey) -> (ok: bool)
    ensures
        ok == address_matches(*derived, *key),
{
    match derived {
        Some(address) => *address == *key,
        None => false,
    }
}

/// Whether a new record is to be kept at the address found for it.
pub open spec fn found_matches(found: Option<(Pubkey, u8)>, key: Pubkey) -> bool {
    found is Some && found.unwrap().0 == key
}

/// Compares the address found for a new record with the one handed in, and
/// gives the bump.
pub fn check_found(found: &Option<(Pubkey, u8)>, key: &Pubkey) -> (bump: Option<u8>)
    ensures
        bump is Some <==> found_matches(*found, *key),
        bump is Some ==> bump.unwrap() == found.unwrap().1,
{
    match found {
        Some((address, bump)) => {
            if *address == *key {
                Some(*bump)
            } else {
                None
            }
        },
        None => None,
    }
}

} // verus!
