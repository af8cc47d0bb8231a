use tatami_v2::key::{program_id, vault_address};
use tatami_v2::{
    airdrop_tokens, airdrop_tokens_with_vault, burn_authority, create_config, init_project,
    initialize_dao, initialize_lp, AirdropTokens, BurnAuthority, Config, CreateConfig, Errors,
    InitProject, InitializeDao, InitializeLp, Key, Project, Request,
};

fn key(n: u8) -> Key {
    Key::new([n; 32])
}

fn config_with_fee(fee: u64) -> Config {
    let mut slot: Option<Config> = None;
    let ctx = CreateConfig { signer: key(9), config_bump: 254 };
    assert_eq!(create_config(&mut slot, &ctx, fee), Ok(()));
    slot.unwrap()
}

fn init_ctx(team: bool) -> InitProject {
    InitProject {
        signer: key(1),
        mint: key(2),
        project_bump: 253,
        vault: key(3),
        vault_token_account: key(4),
        team_token_account: if team { Some(key(5)) } else { None },
        team_wallet: if team { Some(key(6)) } else { None },
        metadata: key(7),
    }
}

fn new_project(recipients: u16, supply: [u64; 2], team: bool) -> (Project, Vec<Request>) {
    let config = config_with_fee(1000);
    let mut slot: Option<Project> = None;
    let reqs = init_project(
        &mut slot,
        &init_ctx(team),
        &config,
        6,
        "Tatami".to_string(),
        "TAT".to_string(),
        "https://example.com/t.json".to_string(),
        recipients,
        supply,
    )
    .unwrap();
    (slot.unwrap(), reqs)
}

fn derived_vault() -> Key {
    vault_address().unwrap().0
}

fn airdrop_ctx() -> AirdropTokens {
    AirdropTokens {
        signer: key(1),
        mint: key(2),
        mint_decimals: 6,
        vault: derived_vault(),
        vault_token_account: key(4),
        recipient_token_account: key(20),
        receiver: key(21),
    }
}

fn dao_ctx(council_mint: Option<Key>, council_holding: Option<Key>) -> InitializeDao {
    InitializeDao {
        signer: key(1),
        mint: key(2),
        council_mint,
        realm_account: key(30),
        community_token_holding: key(31),
        council_token_holding: council_holding,
        realm_config: key(32),
        governance: key(33),
        governed_account: key(34),
        native_treasury: key(35),
        dao_token_account: key(36),
        system_program: key(37),
        token_program: key(38),
        rent: key(39),
    }
}

fn minted(r: &Request) -> Option<(Key, u64)> {
    match r {
        Request::MintTo { to, amount, .. } => Some((*to, *amount)),
        _ => None,
    }
}

#[test]
fn create_config_records_fee_and_creator() {
    let config = config_with_fee(1000);
    assert_eq!(config.fee, 1000);
    assert_eq!(config.creator.bytes, [9u8; 32]);
    assert_eq!(config.bump, 254);
}

#[test]
fn create_config_twice_fails() {
    let mut slot: Option<Config> = None;
    let ctx = CreateConfig { signer: key(9), config_bump: 254 };
    assert_eq!(create_config(&mut slot, &ctx, 1000), Ok(()));
    let other = CreateConfig { signer: key(8), config_bump: 1 };
    assert_eq!(create_config(&mut slot, &other, 5), Err(Errors::AlreadyInitialized));
    assert_eq!(slot.unwrap().fee, 1000);
    assert_eq!(slot.unwrap().creator.bytes, [9u8; 32]);
}

#[test]
fn init_project_without_team_then_three_payouts() {
    let (mut project, reqs) = new_project(3, [0, 1_000_000], false);
    assert_eq!(reqs.len(), 3);
    match &reqs[0] {
        Request::CreateMetadata(m) => {
            assert_eq!(m.name, "Tatami");
            assert_eq!(m.symbol, "TAT");
            assert_eq!(m.creator.bytes, [1u8; 32]);
            assert!(m.creator_verified);
            assert_eq!(m.creator_share, 100);
            assert_eq!(m.seller_fee_basis_points, 0);
        }
        _ => panic!("metadata must come first"),
    }
    let (to, amount) = minted(&reqs[1]).unwrap();
    assert_eq!(to.bytes, [4u8; 32]);
    assert_eq!(amount, 1_000_000);
    assert!(reqs.iter().filter(|r| minted(r).is_some()).count() == 1);
    match &reqs[2] {
        Request::TransferLamports { from, to, amount } => {
            assert_eq!(from.bytes, [1u8; 32]);
            assert_eq!(to.bytes, [9u8; 32]);
            assert_eq!(*amount, 1000);
        }
        _ => panic!("the fee comes last"),
    }
    assert_eq!(project.recipients, 3);
    assert_eq!(project.recipients_paid, 0);
    assert!(project.mint_exist);
    assert!(!project.dao_init);
    assert!(!project.lp_init);
    assert_eq!(project.bump, 253);

    let ctx = airdrop_ctx();
    for paid in 1..=3u16 {
        let reqs = airdrop_tokens(&mut project, &ctx, 100).unwrap();
        assert_eq!(reqs.len(), 1);
        assert_eq!(project.recipients_paid, paid);
    }
    assert_eq!(airdrop_tokens(&mut project, &ctx, 100).unwrap_err(), Errors::MaxRecipientsPaid);
    assert_eq!(project.recipients_paid, 3);
}

#[test]
fn init_project_with_team_mints_both_shares() {
    let (_, reqs) = new_project(2, [200, 800], true);
    assert_eq!(reqs.len(), 4);
    let mints: Vec<(Key, u64)> = reqs.iter().filter_map(minted).collect();
    assert_eq!(mints.len(), 2);
    assert_eq!(mints[0].0.bytes, [5u8; 32]);
    assert_eq!(mints[0].1, 200);
    assert_eq!(mints[1].0.bytes, [4u8; 32]);
    assert_eq!(mints[1].1, 800);
}

#[test]
fn init_project_with_only_team_wallet_skips_team_mint() {
    let config = config_with_fee(1);
    let mut ctx = init_ctx(true);
    ctx.team_token_account = None;
    let mut slot: Option<Project> = None;
    let reqs = init_project(&mut slot, &ctx, &config, 6, "a".to_string(), "b".to_string(), "c".to_string(), 1, [200, 800]).unwrap();
    let mints: Vec<(Key, u64)> = reqs.iter().filter_map(minted).collect();
    assert_eq!(mints.len(), 1);
    assert_eq!(mints[0].1, 800);
}

#[test]
fn init_project_twice_fails() {
    let config = config_with_fee(1);
    let mut slot: Option<Project> = None;
    let ctx = init_ctx(false);
    assert!(init_project(&mut slot, &ctx, &config, 6, "a".to_string(), "b".to_string(), "c".to_string(), 1, [0, 5]).is_ok());
    let again = init_project(&mut slot, &ctx, &config, 6, "a".to_string(), "b".to_string(), "c".to_string(), 9, [0, 5]);
    assert_eq!(again.unwrap_err(), Errors::AlreadyInitialized);
    assert_eq!(slot.unwrap().recipients, 1);
}

#[test]
fn airdrop_signs_with_the_derived_vault() {
    let (mut project, _) = new_project(1, [0, 10], false);
    let ctx = airdrop_ctx();
    let reqs = airdrop_tokens(&mut project, &ctx, 7).unwrap();
    let program = solana_program::pubkey::Pubkey::new_from_array(program_id().bytes);
    let (vault, bump) = solana_program::pubkey::Pubkey::find_program_address(&[b"tatami-vault"], &program);
    assert_eq!(derived_vault().bytes, vault.to_bytes());
    match &reqs[0] {
        Request::TransferChecked { from, to, authority, amount, decimals, signer_seeds, .. } => {
            assert_eq!(from.bytes, [4u8; 32]);
            assert_eq!(to.bytes, [20u8; 32]);
            assert_eq!(authority.bytes, vault.to_bytes());
            assert_eq!(*amount, 7);
            assert_eq!(*decimals, 6);
            assert_eq!(signer_seeds.clone(), vec![b"tatami-vault".to_vec(), vec![bump]]);
        }
        _ => panic!("a payout is a checked transfer"),
    }
}

#[test]
fn transfer_builder_leaves_signing_to_the_payout() {
    let ctx = airdrop_ctx();
    match ctx.transfer_tokens_ctx(42) {
        Request::TransferChecked { from, to, mint, authority, amount, decimals, signer_seeds } => {
            assert_eq!(from.bytes, [4u8; 32]);
            assert_eq!(to.bytes, [20u8; 32]);
            assert_eq!(mint.bytes, [2u8; 32]);
            assert_eq!(authority.bytes, derived_vault().bytes);
            assert_eq!(amount, 42);
            assert_eq!(decimals, 6);
            assert!(signer_seeds.is_empty());
        }
        _ => panic!("a payout is a checked transfer"),
    }
    match ctx.transfer_tokens_ctx(42).with_signer(vec![vec![1u8], vec![2u8]]) {
        Request::TransferChecked { amount, signer_seeds, .. } => {
            assert_eq!(amount, 42);
            assert_eq!(signer_seeds, vec![vec![1u8], vec![2u8]]);
        }
        _ => panic!("signing keeps the transfer"),
    }
}

#[test]
fn airdrop_rejects_a_vault_that_is_not_derived() {
    let (mut project, _) = new_project(2, [0, 10], false);
    let mut ctx = airdrop_ctx();
    ctx.vault = key(3);
    assert_eq!(airdrop_tokens(&mut project, &ctx, 1).unwrap_err(), Errors::InvalidVault);
    assert_eq!(airdrop_tokens_with_vault(&mut project, &airdrop_ctx(), 1, None).unwrap_err(), Errors::InvalidVault);
    assert_eq!(project.recipients_paid, 0);
}

#[test]
fn airdrop_by_another_caller_is_unauthorized() {
    let (mut project, _) = new_project(2, [0, 10], false);
    let mut ctx = airdrop_ctx();
    ctx.signer = key(99);
    assert_eq!(airdrop_tokens(&mut project, &ctx, 1).unwrap_err(), Errors::Unauthorized);
    let mut ctx = airdrop_ctx();
    ctx.mint = key(98);
    assert_eq!(airdrop_tokens(&mut project, &ctx, 1).unwrap_err(), Errors::MintMismatch);
    assert_eq!(project.recipients_paid, 0);
}

#[test]
fn airdrop_with_no_slots_fails() {
    let (mut project, _) = new_project(0, [0, 10], false);
    assert_eq!(airdrop_tokens(&mut project, &airdrop_ctx(), 1).unwrap_err(), Errors::MaxRecipientsPaid);
}

#[test]
fn initialize_dao_succeeds_once() {
    let (mut project, _) = new_project(1, [0, 10], false);
    let ctx = dao_ctx(None, None);
    let reqs = initialize_dao(&mut project, &ctx, "Tatami DAO".to_string(), 5000, 1, false, 60, 86400).unwrap();
    assert_eq!(reqs.len(), 5);
    assert!(project.dao_init);
    let (to, amount) = minted(&reqs[4]).unwrap();
    assert_eq!(to.bytes, [36u8; 32]);
    assert_eq!(amount, 5000);
    let again = initialize_dao(&mut project, &ctx, "Tatami DAO".to_string(), 5000, 1, false, 60, 86400);
    assert_eq!(again.unwrap_err(), Errors::DaoAlreadyInitialized);
    assert!(project.dao_init);
}

#[test]
fn initialize_dao_with_council_mint_only_fails() {
    let (mut project, _) = new_project(1, [0, 10], false);
    let ctx = dao_ctx(Some(key(40)), None);
    let r = initialize_dao(&mut project, &ctx, "D".to_string(), 1, 1, true, 50, 10);
    assert_eq!(r.unwrap_err(), Errors::MissingCouncilTokenHolding);
    assert!(!project.dao_init);
}

#[test]
fn initialize_dao_with_council_holding_only_fails() {
    let (mut project, _) = new_project(1, [0, 10], false);
    let ctx = dao_ctx(None, Some(key(41)));
    let r = initialize_dao(&mut project, &ctx, "D".to_string(), 1, 1, true, 50, 10);
    assert_eq!(r.unwrap_err(), Errors::MissingCouncilTokenHolding);
    assert!(!project.dao_init);
}

#[test]
fn initialize_dao_with_full_council_adds_its_accounts() {
    let (mut project, _) = new_project(1, [0, 10], false);
    let ctx = dao_ctx(Some(key(40)), Some(key(41)));
    let reqs = initialize_dao(&mut project, &ctx, "D".to_string(), 1, 1, true, 50, 10).unwrap();
    match &reqs[0] {
        Request::Invoke(ix) => {
            assert_eq!(ix.accounts.len(), 11);
            assert_eq!(ix.accounts[8].bytes, [40u8; 32]);
            assert_eq!(ix.accounts[9].bytes, [41u8; 32]);
            assert_eq!(ix.accounts[10].bytes, [32u8; 32]);
            assert_eq!(ix.data[0], 0);
            assert_eq!(ix.data[1..5].to_vec(), vec![1u8, 0, 0, 0]);
            assert_eq!(ix.data[5], b'D');
            assert_eq!(ix.data[6], 1);
        }
        _ => panic!("the realm comes first"),
    }
}

#[test]
fn initialize_dao_quorum_bounds() {
    for (quorum, ok) in [(0u8, true), (100u8, true), (101u8, false), (255u8, false)] {
        let (mut project, _) = new_project(1, [0, 10], false);
        let r = initialize_dao(&mut project, &dao_ctx(None, None), "D".to_string(), 1, 1, false, quorum, 10);
        if ok {
            assert!(r.is_ok());
        } else {
            assert_eq!(r.unwrap_err(), Errors::InvalidQuorum);
            assert!(!project.dao_init);
        }
    }
}

#[test]
fn initialize_dao_by_another_caller_is_unauthorized() {
    let (mut project, _) = new_project(1, [0, 10], false);
    let mut ctx = dao_ctx(None, None);
    ctx.signer = key(77);
    let r = initialize_dao(&mut project, &ctx, "D".to_string(), 1, 1, false, 50, 10);
    assert_eq!(r.unwrap_err(), Errors::Unauthorized);
}

#[test]
fn burn_authority_then_no_more_supply() {
    let (mut project, _) = new_project(1, [0, 10], false);
    let ctx = BurnAuthority { signer: key(1), mint: key(2) };
    let reqs = burn_authority(&mut project, &ctx).unwrap();
    assert_eq!(reqs.len(), 1);
    match &reqs[0] {
        Request::RevokeMintAuthority { mint, current_authority } => {
            assert_eq!(mint.bytes, [2u8; 32]);
            assert_eq!(current_authority.bytes, [1u8; 32]);
        }
        _ => panic!("burning revokes the mint authority"),
    }
    assert!(!project.mint_exist);
    assert_eq!(burn_authority(&mut project, &ctx).unwrap_err(), Errors::MintAuthorityRevoked);
    let r = initialize_dao(&mut project, &dao_ctx(None, None), "D".to_string(), 1, 1, false, 50, 10);
    assert_eq!(r.unwrap_err(), Errors::MintAuthorityRevoked);
    assert!(!project.mint_exist);
}

#[test]
fn burn_authority_by_another_caller_is_unauthorized() {
    let (mut project, _) = new_project(1, [0, 10], false);
    let ctx = BurnAuthority { signer: key(5), mint: key(2) };
    assert_eq!(burn_authority(&mut project, &ctx).unwrap_err(), Errors::Unauthorized);
    assert!(project.mint_exist);
}

#[test]
fn initialize_lp_asks_for_nothing() {
    assert_eq!(initialize_lp(&InitializeLp {}).unwrap().len(), 0);
}
