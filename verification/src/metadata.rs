//! What is asked of the two services that stand behind every mint: the one
//! that registers a token's metadata and the one that issues the token.

use vstd::prelude::*;
use crate::pubkey::Pubkey;

verus! {

/// The one who is credited with a token, and with how much of its royalty.
#[derive(Clone, Copy, Debug, PartialEq, Eq)]
pub struct Creator {
    pub address: Pubkey,
    pub verified: bool,
    /// Share of the royalty, in hundredths.
    pub share: u8,
}

/// The metadata to register for a token.
#[derive(Debug, PartialEq, Eq)]
pub struct TokenMetadata {
    /// The display name, with the agent's number.
    pub name: String,
    pub symbol: String,
    pub uri: String,
    /// The royalty rate, in basis points.
    pub seller_fee_basis_points: u16,
    pub creator: Creator,
}

impl Clone for TokenMetadata {
    fn clone(&self) -> (copy: TokenMetadata)
        ensures
            copy == *self,
    {
        TokenMetadata {
            name: self.name.clone(),
            symbol: self.symbol.clone(),
            uri: self.uri.clone(),
            seller_fee_basis_points: self.seller_fee_basis_points,
            creator: self.creator,
        }
    }
}

/// The order to issue units of a token.
#[derive(Clone, Copy, Debug, PartialEq, Eq)]
pub struct TokenIssue {
    /// The token to issue.
    pub mint: Pubkey,
    /// Who receives the units.
    pub recipient: Pubkey,
    /// Under whose authority they are issued.
    pub authority: Pubkey,
    /// Decimal places of the token.
    pub decimals: u8,
    pub amount: u64,
}

/// An agent's token cannot be divided.
pub const TOKEN_DECIMALS: u8 = 0;

/// Of an agent's token there is one unit.
pub const TOKEN_UNITS: u64 = 1;

/// The order to issue the token of an agent to the one who mints it, under
/// that one's own authority: one unit, not divisible.
pub open spec fn agent_token(mint: Pubkey, holder: Pubkey) -> TokenIssue {
    TokenIssue {
        mint,
        recipient: holder,
        authority: holder,
        decimals: TOKEN_DECIMALS,
        amount: TOKEN_UNITS,
    }
}

/// Builds the order to issue the token of an agent.
pub fn issue_agent_token(mint: Pubkey, holder: Pubkey) -> (issue: TokenIssue)
    ensures
        issue == agent_token(mint, holder),
{
    TokenIssue {
        mint,
        recipient: holder,
        authority: holder,
        decimals: TOKEN_DECIMALS,
        amount: TOKEN_UNITS,
    }
}

/// The character of a decimal digit.
pub open spec fn digit_char(d: nat) -> char {
    if d == 0 {
        '0'
    } else if d == 1 {
        '1'
    } else if d == 2 {
        '2'
    } else if d == 3 {
        '3'
    } else if d == 4 {
        '4'
    } else if d == 5 {
        '5'
    } else if d == 6 {
        '6'
    } else if d == 7 {
        '7'
    } else if d == 8 {
        '8'
    } else {
        '9'
    }
}

/// A number in decimal, without leading zeros.
pub open spec fn decimal(n: nat) -> Seq<char>
    decreases n,
{
    if n < 10 {
        seq![digit_char(n)]
    } else {
        decimal(n / 10).push(digit_char(n % 10))
    }
}

/// The name under which agent number `agent_id` is displayed: its own name,
/// then ` # `, then the number.
pub open spec fn display_name(name: Seq<char>, agent_id: u64) -> Seq<char> {
    name + seq![' ', '#', ' '] + decimal(agent_id as nat)
}

/// The metadata of agent number `agent_id`: it carries the symbol of the
/// collection, the royalty rate of the configuration, and the owner as the
/// one verified creator with the whole share.
pub open spec fn is_metadata_of(
    metadata: TokenMetadata,
    name: Seq<char>,
    agent_id: u64,
    uri: Seq<char>,
    royalty_bps: u16,
    owner: Pubkey,
) -> bool {
    &&& metadata.name@ == display_name(name, agent_id)
    &&& metadata.symbol@ == seq!['C', 'L', 'A', 'W', 'D', 'N', 'A']
    &&& metadata.uri@ == uri
    &&& metadata.seller_fee_basis_points == royalty_bps
    &&& metadata.creator == Creator { address: owner, verified: true, share: 100 }
}

/// One decimal digit as text.
fn digit_str(d: u64) -> (s: &'static str)
    requires
        d < 10,
    ensures
        s@ == seq![digit_char(d as nat)],
{
    proof {
        reveal_strlit("0");
        reveal_strlit("1");
        reveal_strlit("2");
        reveal_strlit("3");
        reveal_strlit("4");
        reveal_strlit("5");
        reveal_strlit("6");
        reveal_strlit("7");
        reveal_strlit("8");
        reveal_strlit("9");
    }
    let s = if d == 0 {
        "0"
    } else if d == 1 {
        "1"
    } else if d == 2 {
        "2"
    } else if d == 3 {
        "3"
    } else if d == 4 {
        "4"
    } else if d == 5 {
        "5"
    } else if d == 6 {
        "6"
    } else if d == 7 {
        "7"
    } else if d == 8 {
        "8"
    } else {
        "9"
    };
    assert(s@ =~= seq![digit_char(d as nat)]);
    s
}

/// Writes a number in decimal.
pub fn decimal_string(n: u64) -> (s: String)
    ensures
        s@ == decimal(n as nat),
    decreases n,
{
    if n < 10 {
        String::from_str(digit_str(n))
    } else {
        let mut s = decimal_string(n / 10);
        s.append(digit_str(n % 10));
        assert(s@ =~= decimal(n as nat));
        s
    }
}

/// Builds the name under which an agent is displayed.
pub fn full_name(name: &String, agent_id: u64) -> (full: String)
    ensures
        full@ == display_name(name@, agent_id),
{
    proof {
        reveal_strlit(" # ");
    }
    let mut full = name.clone();
    full.append(" # ");
    let number = decimal_string(agent_id);
    full.append(number.as_str());
    assert(full@ =~= display_name(name@, agent_id));
    full
}

/// Builds the metadata of agent number `agent_id`.
pub fn agent_metadata(
    name: &String,
    agent_id: u64,
    uri: String,
    royalty_bps: u16,
    owner: Pubkey,
) -> (metadata: TokenMetadata)
    ensures
        is_metadata_of(metadata, name@, agent_id, uri@, royalty_bps, owner),
{
    proof {
        reveal_strlit("CLAWDNA");
    }
    let symbol = String::from_str("CLAWDNA");
    assert(symbol@ =~= seq!['C', 'L', 'A', 'W', 'D', 'N', 'A']);
    TokenMetadata {
        name: full_name(name, agent_id),
        symbol,
        uri,
        seller_fee_basis_points: royalty_bps,
        creator: Creator { address: owner, verified: true, share: 100 },
    }
}

} // verus!
