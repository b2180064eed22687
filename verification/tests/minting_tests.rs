use clawdna::address::{find_agent_data_address, find_global_state_address};
use clawdna::{
    combine_genomes, initialize, merge_agents, merge_agents_with, mint_genesis, mint_genesis_with,
    pause, unpause, update_breeding_fee, Admin, AgentData, ClawDnaError, Creator, FeeTransfer,
    GlobalState, Initialize, MergeAddresses, MergeAgents, MintGenesis, Minted, Pubkey,
    TokenHolding, TokenIssue, Wallet,
};

const PROGRAM: u8 = 77;
const OWNER: u8 = 1;
const TREASURY: u8 = 2;
const MINTER: u8 = 3;

fn id(n: u8) -> Pubkey {
    Pubkey::new_from_array([n; 32])
}

fn state_key() -> Pubkey {
    find_global_state_address(&id(PROGRAM)).unwrap().0
}

fn record_key(mint: &Pubkey) -> Pubkey {
    find_agent_data_address(&id(PROGRAM), mint).unwrap().0
}

fn record_bump(mint: &Pubkey) -> u8 {
    find_agent_data_address(&id(PROGRAM), mint).unwrap().1
}

fn setup(fee: u64, royalty: u16) -> GlobalState {
    let mut ctx = Initialize {
        program_id: id(PROGRAM),
        owner: id(OWNER),
        treasury: Wallet { key: id(TREASURY), lamports: 1 },
        global_state_key: state_key(),
        global_state: None,
    };
    initialize(&mut ctx, fee, royalty).unwrap();
    ctx.global_state.unwrap()
}

fn genesis_call(state: GlobalState, balance: u64, treasury: u64, mint: u8) -> MintGenesis {
    MintGenesis {
        program_id: id(PROGRAM),
        minter: Wallet { key: id(MINTER), lamports: balance },
        global_state_key: state_key(),
        global_state: state,
        treasury: Wallet { key: id(TREASURY), lamports: treasury },
        mint: id(mint),
        agent_data_key: record_key(&id(mint)),
        unix_timestamp: 1_700_000_000,
    }
}

fn agent(mint: u8, genome: [u8; 8], generation: u16) -> AgentData {
    AgentData {
        mint: id(mint),
        genome,
        generation,
        parents: [Pubkey::default(), Pubkey::default()],
        created_at: 5,
        name: "parent".to_string(),
        bump: record_bump(&id(mint)),
    }
}

fn holding(mint: u8) -> TokenHolding {
    TokenHolding { mint: id(mint), owner: id(MINTER), amount: 1 }
}

fn entropy_2_5() -> Vec<u8> {
    (0..32).map(|i| if i % 2 == 0 { 2u8 } else { 5u8 }).collect()
}

fn merge_call(state: GlobalState, balance: u64, a: AgentData, b: AgentData, child: u8) -> MergeAgents {
    MergeAgents {
        program_id: id(PROGRAM),
        breeder: Wallet { key: id(MINTER), lamports: balance },
        global_state_key: state_key(),
        global_state: state,
        treasury: Wallet { key: id(TREASURY), lamports: 1 },
        parent1_data_key: record_key(&a.mint),
        parent1_token: TokenHolding { mint: a.mint, owner: id(MINTER), amount: 1 },
        parent1_data: a,
        parent2_data_key: record_key(&b.mint),
        parent2_token: TokenHolding { mint: b.mint, owner: id(MINTER), amount: 1 },
        parent2_data: b,
        child_mint: id(child),
        child_data_key: record_key(&id(child)),
        recent_slot_hashes: entropy_2_5(),
        unix_timestamp: 1_700_000_123,
    }
}

fn rex(ctx: &mut MintGenesis) -> Result<Minted, ClawDnaError> {
    mint_genesis(ctx, "Rex".to_string(), [10, 20, 30, 40, 50, 60, 70, 80], "ipfs://rex".to_string())
}

fn kid(ctx: &mut MergeAgents) -> Result<Minted, ClawDnaError> {
    merge_agents(ctx, "Kid".to_string(), "ipfs://kid".to_string())
}

#[test]
fn genesis_scenario() {
    let state = setup(1000, 500);
    let mut ctx = genesis_call(state, 2000, 1, 10);
    let minted = rex(&mut ctx).unwrap();
    assert_eq!(ctx.treasury.lamports, 1001);
    assert_eq!(ctx.minter.lamports, 1000);
    assert_eq!(ctx.global_state.total_agents, 1);
    assert_eq!(ctx.global_state, GlobalState { total_agents: 1, ..state });
    assert_eq!(minted.agent_id, 1);
    assert_eq!(
        minted.agent,
        AgentData {
            mint: id(10),
            genome: [10, 20, 30, 40, 50, 60, 70, 80],
            generation: 0,
            parents: [Pubkey::default(), Pubkey::default()],
            created_at: 1_700_000_000,
            name: "Rex".to_string(),
            bump: record_bump(&id(10)),
        }
    );
    assert_eq!(
        minted.fee,
        Some(FeeTransfer { from: id(MINTER), to: id(TREASURY), lamports: 1000 })
    );
    assert_eq!(minted.metadata.name, "Rex # 1");
    assert_eq!(minted.metadata.symbol, "CLAWDNA");
    assert_eq!(minted.metadata.uri, "ipfs://rex");
    assert_eq!(minted.metadata.seller_fee_basis_points, 500);
    assert_eq!(minted.metadata.creator, Creator { address: id(OWNER), verified: true, share: 100 });
    assert_eq!(
        minted.issue,
        TokenIssue {
            mint: id(10),
            recipient: id(MINTER),
            authority: id(MINTER),
            decimals: 0,
            amount: 1,
        }
    );
}

#[test]
fn genesis_changes_nothing_but_balances_and_counter() {
    let state = setup(1000, 500);
    let mut ctx = genesis_call(state, 2000, 1, 10);
    let before = ctx;
    rex(&mut ctx).unwrap();
    assert_eq!(
        ctx,
        MintGenesis {
            minter: Wallet { key: id(MINTER), lamports: 1000 },
            treasury: Wallet { key: id(TREASURY), lamports: 1001 },
            global_state: GlobalState { total_agents: 1, ..state },
            ..before
        }
    );
}

#[test]
fn genesis_without_fee_makes_no_transfer() {
    let state = setup(0, 500);
    let mut ctx = genesis_call(state, 0, 1, 10);
    let minted = rex(&mut ctx).unwrap();
    assert_eq!(minted.fee, None);
    assert_eq!(ctx.minter.lamports, 0);
    assert_eq!(ctx.treasury.lamports, 1);
    assert_eq!(ctx.global_state.total_agents, 1);
}

#[test]
fn genesis_numbers_count_up() {
    let mut state = setup(10, 500);
    let mut balance = 100;
    let mut treasury = 1;
    for n in 1..=5u8 {
        let mut ctx = genesis_call(state, balance, treasury, 10 + n);
        let minted = rex(&mut ctx).unwrap();
        assert_eq!(minted.agent_id, n as u64);
        assert_eq!(minted.metadata.name, format!("Rex # {}", n));
        assert_eq!(ctx.global_state.total_agents, n as u64);
        state = ctx.global_state;
        balance = ctx.minter.lamports;
        treasury = ctx.treasury.lamports;
    }
    assert_eq!(balance, 50);
    assert_eq!(treasury, 51);
}

#[test]
fn failed_calls_leave_the_counter() {
    let state = setup(10, 500);
    let mut ctx = genesis_call(state, 100, 1, 10);
    rex(&mut ctx).unwrap();
    let counted = ctx.global_state;
    let mut poor = genesis_call(counted, 5, 11, 11);
    assert_eq!(rex(&mut poor), Err(ClawDnaError::InsufficientFee));
    assert_eq!(poor.global_state, counted);
    let mut bad = genesis_call(counted, 100, 11, 11);
    assert_eq!(
        mint_genesis(&mut bad, "Bad".to_string(), [101; 8], "u".to_string()),
        Err(ClawDnaError::InvalidGenome)
    );
    assert_eq!(bad.global_state, counted);
    let mut next = genesis_call(counted, 100, 11, 11);
    assert_eq!(rex(&mut next).unwrap().agent_id, 2);
}

#[test]
fn paused_program_mints_nothing() {
    let state = setup(1000, 500);
    let mut admin = Admin {
        program_id: id(PROGRAM),
        owner: id(OWNER),
        global_state_key: state_key(),
        global_state: state,
    };
    pause(&mut admin).unwrap();
    let mut ctx = genesis_call(admin.global_state, 2000, 1, 10);
    let before = ctx;
    assert_eq!(rex(&mut ctx), Err(ClawDnaError::ProgramPaused));
    assert_eq!(ctx, before);
    assert_eq!(ctx.global_state.total_agents, 0);
    assert_eq!(ctx.treasury.lamports, 1);
    let a = agent(20, [50; 8], 0);
    let b = agent(21, [60; 8], 0);
    let mut merge = merge_call(admin.global_state, 2000, a, b, 30);
    let before = merge.clone();
    assert_eq!(kid(&mut merge), Err(ClawDnaError::ProgramPaused));
    assert_eq!(merge, before);
    unpause(&mut admin).unwrap();
    assert_eq!(admin.global_state, state);
    let mut ctx = genesis_call(admin.global_state, 2000, 1, 10);
    assert_eq!(rex(&mut ctx).unwrap().agent_id, 1);
    assert_eq!(ctx.treasury.lamports, 1001);
}

#[test]
fn paused_comes_before_every_other_refusal() {
    let state = GlobalState { paused: true, ..setup(1000, 500) };
    let mut ctx = genesis_call(state, 0, 1, 10);
    ctx.treasury.key = id(99);
    ctx.global_state_key = id(98);
    ctx.agent_data_key = id(97);
    let before = ctx;
    assert_eq!(
        mint_genesis(&mut ctx, "x".repeat(60), [200; 8], "u".to_string()),
        Err(ClawDnaError::ProgramPaused)
    );
    assert_eq!(ctx, before);
    let a = agent(20, [50; 8], 65535);
    let mut merge = merge_call(state, 0, a.clone(), a, 30);
    merge.recent_slot_hashes = vec![];
    merge.parent1_token.amount = 0;
    let before = merge.clone();
    assert_eq!(kid(&mut merge), Err(ClawDnaError::ProgramPaused));
    assert_eq!(merge, before);
}

#[test]
fn genesis_refuses_a_trait_out_of_range() {
    let state = setup(1000, 500);
    let mut ctx = genesis_call(state, 2000, 1, 10);
    let before = ctx;
    assert_eq!(
        mint_genesis(&mut ctx, "Rex".to_string(), [10, 20, 30, 40, 50, 60, 70, 101], "u".to_string()),
        Err(ClawDnaError::InvalidGenome)
    );
    assert_eq!(ctx, before);
    assert!(mint_genesis(&mut ctx, "Rex".to_string(), [100; 8], "u".to_string()).is_ok());
}

#[test]
fn genesis_refuses_a_name_that_does_not_fit() {
    let state = setup(1000, 500);
    let mut ctx = genesis_call(state, 2000, 1, 10);
    let before = ctx;
    assert_eq!(
        mint_genesis(&mut ctx, "x".repeat(51), [1; 8], "u".to_string()),
        Err(ClawDnaError::InvalidMetadata)
    );
    assert_eq!(ctx, before);
    let minted = mint_genesis(&mut ctx, "x".repeat(50), [1; 8], "u".to_string()).unwrap();
    assert_eq!(minted.agent.name, "x".repeat(50));
}

#[test]
fn genesis_refuses_a_poor_minter() {
    let state = setup(1000, 500);
    let mut ctx = genesis_call(state, 999, 1, 10);
    let before = ctx;
    assert_eq!(rex(&mut ctx), Err(ClawDnaError::InsufficientFee));
    assert_eq!(ctx, before);
    let mut ctx = genesis_call(state, 1000, 1, 10);
    assert!(rex(&mut ctx).is_ok());
    assert_eq!(ctx.minter.lamports, 0);
}

#[test]
fn genesis_refuses_another_treasury() {
    let state = setup(1000, 500);
    let mut ctx = genesis_call(state, 2000, 1, 10);
    ctx.treasury.key = id(MINTER);
    let before = ctx;
    assert_eq!(rex(&mut ctx), Err(ClawDnaError::InvalidTreasury));
    assert_eq!(ctx, before);
}

#[test]
fn genesis_refuses_records_at_other_addresses() {
    let state = setup(1000, 500);
    let mut ctx = genesis_call(state, 2000, 1, 10);
    ctx.agent_data_key = record_key(&id(11));
    let before = ctx;
    assert_eq!(rex(&mut ctx), Err(ClawDnaError::InvalidBump));
    assert_eq!(ctx, before);
    let mut ctx = genesis_call(state, 2000, 1, 10);
    ctx.global_state_key = id(9);
    assert_eq!(rex(&mut ctx), Err(ClawDnaError::InvalidBump));
    let mut ctx = genesis_call(GlobalState { bump: state.bump.wrapping_sub(1), ..state }, 2000, 1, 10);
    assert_eq!(rex(&mut ctx), Err(ClawDnaError::InvalidBump));
    let mut ctx = genesis_call(state, 2000, 1, 10);
    ctx.program_id = id(PROGRAM + 1);
    assert_eq!(rex(&mut ctx), Err(ClawDnaError::InvalidBump));
}

#[test]
fn genesis_with_a_full_counter_fails_after_the_fee() {
    let state = GlobalState { total_agents: u64::MAX, ..setup(1000, 500) };
    let mut ctx = genesis_call(state, 2000, 1, 10);
    let before = ctx;
    assert_eq!(rex(&mut ctx), Err(ClawDnaError::MathOverflow));
    assert_eq!(ctx.global_state, state);
    assert_eq!(ctx.minter.lamports, 1000);
    assert_eq!(ctx.treasury.lamports, 1001);
    assert_eq!(
        ctx,
        MintGenesis {
            minter: Wallet { key: id(MINTER), lamports: 1000 },
            treasury: Wallet { key: id(TREASURY), lamports: 1001 },
            ..before
        }
    );
}

#[test]
fn genesis_with_a_full_treasury_moves_nothing() {
    let state = setup(1000, 500);
    let mut ctx = genesis_call(state, 2000, u64::MAX - 999, 10);
    let before = ctx;
    assert_eq!(rex(&mut ctx), Err(ClawDnaError::MathOverflow));
    assert_eq!(ctx, before);
}

#[test]
fn genesis_with_takes_the_addresses_that_were_derived() {
    let state = GlobalState {
        owner: id(OWNER),
        treasury: id(TREASURY),
        breeding_fee_lamports: 7,
        royalty_bps: 250,
        paused: false,
        total_agents: 41,
        bump: 3,
    };
    let mut ctx = MintGenesis {
        program_id: id(PROGRAM),
        minter: Wallet { key: id(MINTER), lamports: 10 },
        global_state_key: id(60),
        global_state: state,
        treasury: Wallet { key: id(TREASURY), lamports: 0 },
        mint: id(61),
        agent_data_key: id(62),
        unix_timestamp: -4,
    };
    let before = ctx;
    let call = |ctx: &mut MintGenesis, s: Option<Pubkey>, f: Option<(Pubkey, u8)>| {
        mint_genesis_with(ctx, "Ada".to_string(), [0, 1, 2, 3, 4, 5, 6, 100], "u".to_string(), s, f)
    };
    assert_eq!(call(&mut ctx, Some(id(60)), None), Err(ClawDnaError::InvalidBump));
    assert_eq!(call(&mut ctx, Some(id(60)), Some((id(63), 9))), Err(ClawDnaError::InvalidBump));
    assert_eq!(call(&mut ctx, None, Some((id(62), 9))), Err(ClawDnaError::InvalidBump));
    assert_eq!(call(&mut ctx, Some(id(61)), Some((id(62), 9))), Err(ClawDnaError::InvalidBump));
    assert_eq!(ctx, before);
    let minted = call(&mut ctx, Some(id(60)), Some((id(62), 9))).unwrap();
    assert_eq!(minted.agent_id, 42);
    assert_eq!(minted.agent.bump, 9);
    assert_eq!(minted.agent.created_at, -4);
    assert_eq!(minted.agent.genome, [0, 1, 2, 3, 4, 5, 6, 100]);
    assert_eq!(minted.metadata.name, "Ada # 42");
    assert_eq!(minted.metadata.seller_fee_basis_points, 250);
    assert_eq!(ctx.minter.lamports, 3);
    assert_eq!(ctx.treasury.lamports, 7);
    assert_eq!(ctx.global_state.total_agents, 42);
}

#[test]
fn minter_who_is_the_treasury_keeps_the_balance() {
    let state = GlobalState { treasury: id(MINTER), ..setup(1000, 500) };
    let mut ctx = genesis_call(state, 2000, 2000, 10);
    ctx.treasury.key = id(MINTER);
    let minted = rex(&mut ctx).unwrap();
    assert_eq!(minted.fee, Some(FeeTransfer { from: id(MINTER), to: id(MINTER), lamports: 1000 }));
    assert_eq!(ctx.minter.lamports, 2000);
    assert_eq!(ctx.treasury.lamports, 2000);
}

#[test]
fn merge_scenario() {
    let state = GlobalState { total_agents: 2, ..setup(1000, 500) };
    let a = agent(20, [50; 8], 0);
    let b = agent(21, [60; 8], 0);
    let mut ctx = merge_call(state, 2000, a.clone(), b.clone(), 30);
    let before = ctx.clone();
    let minted = kid(&mut ctx).unwrap();
    assert_eq!(minted.agent_id, 3);
    assert_eq!(minted.agent.generation, 1);
    assert_eq!(minted.agent.genome, [52, 55, 52, 55, 52, 55, 52, 55]);
    assert_eq!(
        minted.agent,
        AgentData {
            mint: id(30),
            genome: combine_genomes(&a.genome, &b.genome, &entropy_2_5()).unwrap(),
            generation: 1,
            parents: [id(20), id(21)],
            created_at: 1_700_000_123,
            name: "Kid".to_string(),
            bump: record_bump(&id(30)),
        }
    );
    assert_eq!(
        minted.fee,
        Some(FeeTransfer { from: id(MINTER), to: id(TREASURY), lamports: 1000 })
    );
    assert_eq!(minted.metadata.name, "Kid # 3");
    assert_eq!(minted.metadata.symbol, "CLAWDNA");
    assert_eq!(minted.metadata.uri, "ipfs://kid");
    assert_eq!(minted.metadata.seller_fee_basis_points, 500);
    assert_eq!(minted.metadata.creator, Creator { address: id(OWNER), verified: true, share: 100 });
    assert_eq!(
        minted.issue,
        TokenIssue {
            mint: id(30),
            recipient: id(MINTER),
            authority: id(MINTER),
            decimals: 0,
            amount: 1,
        }
    );
    assert_eq!(
        ctx,
        MergeAgents {
            breeder: Wallet { key: id(MINTER), lamports: 1000 },
            treasury: Wallet { key: id(TREASURY), lamports: 1001 },
            global_state: GlobalState { total_agents: 3, ..state },
            ..before
        }
    );
}

#[test]
fn merge_of_two_minted_agents() {
    let state = setup(100, 500);
    let mut first = genesis_call(state, 1000, 1, 20);
    let a = mint_genesis(&mut first, "A".to_string(), [50; 8], "u".to_string()).unwrap();
    let mut second = genesis_call(first.global_state, first.minter.lamports, first.treasury.lamports, 21);
    let b = mint_genesis(&mut second, "B".to_string(), [60; 8], "u".to_string()).unwrap();
    let mut ctx = merge_call(second.global_state, second.minter.lamports, a.agent, b.agent, 30);
    ctx.treasury.lamports = second.treasury.lamports;
    let child = kid(&mut ctx).unwrap();
    assert_eq!(child.agent_id, 3);
    assert_eq!(child.agent.generation, 1);
    assert_eq!(child.agent.parents, [id(20), id(21)]);
    assert_eq!(child.agent.genome, [52, 55, 52, 55, 52, 55, 52, 55]);
    assert_eq!(ctx.breeder.lamports, 700);
    assert_eq!(ctx.treasury.lamports, 301);
    assert_eq!(ctx.global_state.total_agents, 3);
}

#[test]
fn merge_charges_once_whatever_the_fee() {
    for fee in [0u64, 1, 1000] {
        let state = setup(fee, 500);
        let mut ctx = merge_call(state, 1000, agent(20, [50; 8], 0), agent(21, [60; 8], 0), 30);
        let minted = kid(&mut ctx).unwrap();
        assert_eq!(
            minted.fee,
            Some(FeeTransfer { from: id(MINTER), to: id(TREASURY), lamports: fee })
        );
        assert_eq!(ctx.breeder.lamports, 1000 - fee);
        assert_eq!(ctx.treasury.lamports, 1 + fee);
    }
}

#[test]
fn merge_of_an_agent_with_itself_is_refused() {
    let state = setup(1000, 500);
    let a = agent(20, [50; 8], 0);
    let mut ctx = merge_call(state, 2000, a.clone(), a, 30);
    let before = ctx.clone();
    assert_eq!(kid(&mut ctx), Err(ClawDnaError::SameParent));
    assert_eq!(ctx, before);
    assert_eq!(ctx.global_state.total_agents, 0);
    assert_eq!(ctx.breeder.lamports, 2000);
    assert_eq!(ctx.treasury.lamports, 1);
}

#[test]
fn merge_generation_is_one_above_the_deeper_parent() {
    let state = setup(0, 500);
    for (g1, g2, expected) in [(0u16, 0u16, 1u16), (3, 7, 8), (7, 3, 8), (65534, 0, 65535)] {
        let mut ctx = merge_call(state, 0, agent(20, [50; 8], g1), agent(21, [60; 8], g2), 30);
        assert_eq!(kid(&mut ctx).unwrap().agent.generation, expected);
    }
}

#[test]
fn merge_at_the_last_generation_fails_after_the_fee() {
    let state = setup(1000, 500);
    let mut ctx = merge_call(state, 2000, agent(20, [50; 8], 65535), agent(21, [60; 8], 0), 30);
    let before = ctx.clone();
    assert_eq!(kid(&mut ctx), Err(ClawDnaError::GenerationOverflow));
    assert_eq!(ctx.global_state, state);
    assert_eq!(
        ctx,
        MergeAgents {
            breeder: Wallet { key: id(MINTER), lamports: 1000 },
            treasury: Wallet { key: id(TREASURY), lamports: 1001 },
            ..before
        }
    );
}

#[test]
fn merge_with_short_entropy_fails_after_the_fee() {
    let state = setup(1000, 500);
    let mut ctx = merge_call(state, 2000, agent(20, [50; 8], 0), agent(21, [60; 8], 0), 30);
    ctx.recent_slot_hashes = vec![2u8; 17];
    assert_eq!(kid(&mut ctx), Err(ClawDnaError::EntropyTooShort));
    assert_eq!(ctx.global_state, state);
    assert_eq!(ctx.breeder.lamports, 1000);
    assert_eq!(ctx.treasury.lamports, 1001);
    let mut ctx = merge_call(state, 2000, agent(20, [50; 8], 0), agent(21, [60; 8], 0), 30);
    ctx.recent_slot_hashes = vec![2u8; 18];
    assert_eq!(kid(&mut ctx).unwrap().agent.genome, [52; 8]);
}

#[test]
fn merge_with_a_full_counter_fails_after_the_fee() {
    let state = GlobalState { total_agents: u64::MAX, ..setup(1000, 500) };
    let mut ctx = merge_call(state, 2000, agent(20, [50; 8], 0), agent(21, [60; 8], 0), 30);
    assert_eq!(kid(&mut ctx), Err(ClawDnaError::MathOverflow));
    assert_eq!(ctx.global_state, state);
    assert_eq!(ctx.breeder.lamports, 1000);
    assert_eq!(ctx.treasury.lamports, 1001);
}

#[test]
fn merge_refuses_a_poor_breeder() {
    let state = setup(1000, 500);
    let mut ctx = merge_call(state, 999, agent(20, [50; 8], 0), agent(21, [60; 8], 0), 30);
    let before = ctx.clone();
    assert_eq!(kid(&mut ctx), Err(ClawDnaError::InsufficientFee));
    assert_eq!(ctx, before);
}

#[test]
fn merge_refuses_parents_that_the_caller_does_not_hold() {
    let state = setup(1000, 500);
    let fresh = || merge_call(state, 2000, agent(20, [50; 8], 0), agent(21, [60; 8], 0), 30);
    let mut ctx = fresh();
    ctx.parent1_token.amount = 0;
    let before = ctx.clone();
    assert_eq!(kid(&mut ctx), Err(ClawDnaError::InvalidParent));
    assert_eq!(ctx, before);
    let mut ctx = fresh();
    ctx.parent2_token.amount = 2;
    assert_eq!(kid(&mut ctx), Err(ClawDnaError::InvalidParent));
    let mut ctx = fresh();
    ctx.parent1_token.owner = id(OWNER);
    assert_eq!(kid(&mut ctx), Err(ClawDnaError::InvalidParent));
    let mut ctx = fresh();
    ctx.parent2_token = holding(20);
    assert_eq!(kid(&mut ctx), Err(ClawDnaError::InvalidParent));
    let mut ctx = fresh();
    ctx.parent1_token = holding(22);
    assert_eq!(kid(&mut ctx), Err(ClawDnaError::InvalidParent));
}

#[test]
fn merge_refuses_records_at_other_addresses() {
    let state = setup(1000, 500);
    let fresh = || merge_call(state, 2000, agent(20, [50; 8], 0), agent(21, [60; 8], 0), 30);
    let mut ctx = fresh();
    ctx.parent1_data_key = record_key(&id(21));
    let before = ctx.clone();
    assert_eq!(kid(&mut ctx), Err(ClawDnaError::InvalidBump));
    assert_eq!(ctx, before);
    let mut ctx = fresh();
    ctx.parent2_data.bump = ctx.parent2_data.bump.wrapping_sub(1);
    assert_eq!(kid(&mut ctx), Err(ClawDnaError::InvalidBump));
    let mut ctx = fresh();
    ctx.child_data_key = record_key(&id(31));
    assert_eq!(kid(&mut ctx), Err(ClawDnaError::InvalidBump));
    let mut ctx = fresh();
    ctx.global_state_key = record_key(&id(30));
    assert_eq!(kid(&mut ctx), Err(ClawDnaError::InvalidBump));
    let mut ctx = fresh();
    ctx.program_id = id(PROGRAM + 1);
    assert_eq!(kid(&mut ctx), Err(ClawDnaError::InvalidBump));
}

#[test]
fn merge_refuses_another_treasury_and_a_long_name() {
    let state = setup(1000, 500);
    let mut ctx = merge_call(state, 2000, agent(20, [50; 8], 0), agent(21, [60; 8], 0), 30);
    ctx.treasury.key = id(OWNER);
    assert_eq!(kid(&mut ctx), Err(ClawDnaError::InvalidTreasury));
    let mut ctx = merge_call(state, 2000, agent(20, [50; 8], 0), agent(21, [60; 8], 0), 30);
    let before = ctx.clone();
    assert_eq!(
        merge_agents(&mut ctx, "x".repeat(51), "u".to_string()),
        Err(ClawDnaError::InvalidMetadata)
    );
    assert_eq!(ctx, before);
}

#[test]
fn merge_with_takes_the_addresses_that_were_derived() {
    let state = GlobalState {
        owner: id(OWNER),
        treasury: id(TREASURY),
        breeding_fee_lamports: 0,
        royalty_bps: 1,
        paused: false,
        total_agents: 9,
        bump: 3,
    };
    let mut a = agent(20, [100; 8], 4);
    a.bump = 1;
    let mut b = agent(21, [0; 8], 2);
    b.bump = 2;
    let mut ctx = merge_call(state, 0, a, b, 30);
    ctx.global_state_key = id(60);
    ctx.parent1_data_key = id(61);
    ctx.parent2_data_key = id(62);
    ctx.child_data_key = id(63);
    ctx.recent_slot_hashes = vec![5u8; 32];
    let good = MergeAddresses {
        state: Some(id(60)),
        parent1: Some(id(61)),
        parent2: Some(id(62)),
        child: Some((id(63), 8)),
    };
    let before = ctx.clone();
    for bad in [
        MergeAddresses { state: None, ..good },
        MergeAddresses { parent1: None, ..good },
        MergeAddresses { parent2: Some(id(61)), ..good },
        MergeAddresses { child: None, ..good },
        MergeAddresses { child: Some((id(62), 8)), ..good },
    ] {
        assert_eq!(
            merge_agents_with(&mut ctx, "Kid".to_string(), "u".to_string(), bad),
            Err(ClawDnaError::InvalidBump)
        );
        assert_eq!(ctx, before);
    }
    let minted = merge_agents_with(&mut ctx, "Kid".to_string(), "u".to_string(), good).unwrap();
    assert_eq!(minted.agent_id, 10);
    assert_eq!(minted.agent.bump, 8);
    assert_eq!(minted.agent.generation, 5);
    assert_eq!(minted.agent.genome, [0; 8]);
    assert_eq!(minted.fee, Some(FeeTransfer { from: id(MINTER), to: id(TREASURY), lamports: 0 }));
}

#[test]
fn counter_over_a_run_of_calls() {
    let mut state = setup(10, 500);
    let mut seen: Vec<u64> = Vec::new();
    let mut last = state.total_agents;
    for step in 0..12u8 {
        let mut admin = Admin {
            program_id: id(PROGRAM),
            owner: id(OWNER),
            global_state_key: state_key(),
            global_state: state,
        };
        match step % 4 {
            0 => {
                let mut ctx = genesis_call(state, 100, 1, 100 + step);
                seen.push(rex(&mut ctx).unwrap().agent_id);
                state = ctx.global_state;
            }
            1 => {
                update_breeding_fee(&mut admin, step as u64).unwrap();
                state = admin.global_state;
            }
            2 => {
                let mut ctx = merge_call(state, 100, agent(20, [50; 8], 0), agent(21, [60; 8], 0), 150 + step);
                seen.push(kid(&mut ctx).unwrap().agent_id);
                state = ctx.global_state;
            }
            _ => {
                let mut ctx = genesis_call(state, 0, 1, 200 + step);
                assert_eq!(rex(&mut ctx), Err(ClawDnaError::InsufficientFee));
                state = ctx.global_state;
            }
        }
        assert!(state.total_agents >= last);
        assert_eq!(state.owner, id(OWNER));
        last = state.total_agents;
    }
    assert_eq!(seen, vec![1, 2, 3, 4, 5, 6]);
    assert_eq!(state.total_agents, 6);
}

#[test]
fn records_are_made_alone_too() {
    let made = AgentData::create_genesis(id(10), [1, 2, 3, 4, 5, 6, 7, 8], "Solo".to_string(), 9, 250)
        .unwrap();
    assert_eq!(made.generation, 0);
    assert_eq!(made.parents, [Pubkey::default(), Pubkey::default()]);
    assert_eq!(made.bump, 250);
    assert_eq!(
        AgentData::create_genesis(id(10), [1, 2, 3, 4, 5, 6, 7, 108], "Solo".to_string(), 9, 250),
        Err(ClawDnaError::InvalidGenome)
    );
    assert_eq!(
        AgentData::create_genesis(id(10), [1, 2, 3, 4, 5, 6, 7, 108], "x".repeat(51), 9, 250),
        Err(ClawDnaError::InvalidGenome)
    );
    assert_eq!(
        AgentData::create_genesis(id(10), [1; 8], "x".repeat(51), 9, 250),
        Err(ClawDnaError::InvalidMetadata)
    );
    let a = agent(20, [50; 8], 1);
    let b = agent(21, [60; 8], 6);
    let child =
        AgentData::create_merged(id(30), &a, &b, &entropy_2_5(), "Kid".to_string(), 11, 7).unwrap();
    assert_eq!(child.generation, 7);
    assert_eq!(child.parents, [id(20), id(21)]);
    assert_eq!(child.genome, [52, 55, 52, 55, 52, 55, 52, 55]);
    assert_eq!(child.created_at, 11);
    assert_eq!(child.bump, 7);
    assert_eq!(
        AgentData::create_merged(id(30), &a, &a, &entropy_2_5(), "Kid".to_string(), 11, 7),
        Err(ClawDnaError::SameParent)
    );
    let last = agent(22, [1; 8], 65535);
    assert_eq!(
        AgentData::create_merged(id(30), &a, &last, &entropy_2_5(), "Kid".to_string(), 11, 7),
        Err(ClawDnaError::GenerationOverflow)
    );
    assert_eq!(
        AgentData::create_merged(id(30), &a, &b, &[0u8; 17], "Kid".to_string(), 11, 7),
        Err(ClawDnaError::EntropyTooShort)
    );
    assert_eq!(
        AgentData::create_merged(id(30), &a, &b, &entropy_2_5(), "x".repeat(51), 11, 7),
        Err(ClawDnaError::InvalidMetadata)
    );
}

#[test]
fn holdings_are_checked_in_full() {
    let h = holding(20);
    assert_eq!(h.require_one_held_by(&id(20), &id(MINTER)), Ok(()));
    assert_eq!(h.require_one_held_by(&id(21), &id(MINTER)), Err(ClawDnaError::InvalidParent));
    assert_eq!(h.require_one_held_by(&id(20), &id(OWNER)), Err(ClawDnaError::InvalidParent));
    let none = TokenHolding { amount: 0, ..h };
    assert_eq!(none.require_one_held_by(&id(20), &id(MINTER)), Err(ClawDnaError::InvalidParent));
    let many = TokenHolding { amount: u64::MAX, ..h };
    assert_eq!(many.require_one_held_by(&id(20), &id(MINTER)), Err(ClawDnaError::InvalidParent));
}
