use tatami_v2::key::{program_id, realms_id, vault_seed};
use tatami_v2::wire::{push_bool, push_string, push_u32, push_u64};
use tatami_v2::{
    CreateRealmConfig, GovernanceConfig, GoverningTokenConfigArgs, GoverningTokenType, InitializeDao,
    Key, MintMaxVoterWeightSource, RealmConfigArgs, SetRealmAuthorityAction, SetRealmAuthorityArgs,
    VoteThreshold, VoteTipping,
};

fn key(n: u8) -> Key {
    Key::new([n; 32])
}

fn dao_ctx() -> InitializeDao {
    InitializeDao {
        signer: key(1),
        mint: key(2),
        council_mint: None,
        realm_account: key(30),
        community_token_holding: key(31),
        council_token_holding: None,
        realm_config: key(32),
        governance: key(33),
        governed_account: key(34),
        native_treasury: key(35),
        dao_token_account: key(36),
        system_program: key(37),
        token_program: key(38),
        rent: key(39),
    }
}

#[test]
fn integers_are_little_endian() {
    let mut out = vec![0xAAu8];
    push_u64(&mut out, 0x0102030405060708);
    assert_eq!(out, vec![0xAA, 8, 7, 6, 5, 4, 3, 2, 1]);
    let mut out = Vec::new();
    push_u32(&mut out, 86400);
    assert_eq!(out, vec![0x80, 0x51, 0x01, 0x00]);
    push_bool(&mut out, true);
    push_bool(&mut out, false);
    assert_eq!(out[4..].to_vec(), vec![1, 0]);
}

#[test]
fn strings_carry_their_byte_length() {
    let mut out = Vec::new();
    push_string(&mut out, &"h\u{e9}llo".to_string());
    assert_eq!(out, vec![6, 0, 0, 0, b'h', 0xC3, 0xA9, b'l', b'l', b'o']);
}

#[test]
fn realm_arguments_encoding() {
    let args = CreateRealmConfig {
        name: "DAO".to_string(),
        config: RealmConfigArgs {
            use_council_mint: false,
            min_community_weight_to_create_governance: 5,
            community_mint_max_voter_weight_source: MintMaxVoterWeightSource::SupplyFraction(10000000000),
            community_token_config_args: GoverningTokenConfigArgs {
                use_voter_weight_addin: false,
                use_max_voter_weight_addin: false,
                token_type: GoverningTokenType::Liquid,
            },
            council_token_config_args: GoverningTokenConfigArgs {
                use_voter_weight_addin: false,
                use_max_voter_weight_addin: false,
                token_type: GoverningTokenType::Membership,
            },
        },
    };
    let mut out = Vec::new();
    args.serialize(&mut out);
    let expected: Vec<u8> = vec![
        3, 0, 0, 0, b'D', b'A', b'O', 0, 5, 0, 0, 0, 0, 0, 0, 0, 0, 0x00, 0xE4, 0x0B, 0x54, 0x02, 0, 0, 0,
        0, 0, 0, 0, 0, 1,
    ];
    assert_eq!(out, expected);

    let ix = dao_ctx().create_realm("DAO".to_string(), 5, false).unwrap();
    assert_eq!(ix.program_id.bytes, realms_id().bytes);
    let mut data = vec![0u8];
    data.extend_from_slice(&expected);
    assert_eq!(ix.data, data);
    assert_eq!(ix.accounts.len(), 9);
}

#[test]
fn governance_arguments_encoding() {
    let ix = dao_ctx().create_governance(86400, 60, 1).unwrap();
    let expected: Vec<u8> = vec![
        4, 0, 60, 1, 0, 0, 0, 0, 0, 0, 0, 0, 0, 0, 0, 0x80, 0x51, 0x01, 0x00, 0, 0, 60, 0, 60, 1, 0, 0, 0,
        0, 0, 0, 0, 0, 2, 0xC0, 0xA8, 0, 0, 10,
    ];
    assert_eq!(ix.data, expected);
    let accounts: Vec<[u8; 32]> = ix.accounts.iter().map(|k| k.bytes).collect();
    assert_eq!(accounts, vec![[30u8; 32], [33; 32], [34; 32], [37; 32], [1; 32], [37; 32], [1; 32], [32; 32]]);

    let direct = GovernanceConfig {
        community_vote_threshold: VoteThreshold::QuorumPercentage(7),
        min_community_weight_to_create_proposal: 0,
        min_transaction_hold_up_time: 1,
        voting_base_time: 0,
        community_vote_tipping: VoteTipping::Early,
        council_vote_threshold: VoteThreshold::Disabled,
        council_veto_vote_threshold: VoteThreshold::Disabled,
        min_council_weight_to_create_proposal: 0,
        council_vote_tipping: VoteTipping::Disabled,
        community_veto_vote_threshold: VoteThreshold::Disabled,
        voting_cool_off_time: 0,
        deposit_exempt_proposal_count: 0,
    };
    let mut out = Vec::new();
    direct.serialize(&mut out);
    assert_eq!(out[..2].to_vec(), vec![1, 7]);
    assert_eq!(out[10..14].to_vec(), vec![1, 0, 0, 0]);
    assert_eq!(out[18], 1);
    assert_eq!(out.len(), 36);
}

#[test]
fn create_governance_quorum_boundaries() {
    assert!(dao_ctx().create_governance(10, 0, 1).is_ok());
    assert!(dao_ctx().create_governance(10, 100, 1).is_ok());
    assert_eq!(dao_ctx().create_governance(10, 101, 1).unwrap_err(), tatami_v2::Errors::InvalidQuorum);
}

#[test]
fn create_realm_needs_both_council_accounts() {
    let mut ctx = dao_ctx();
    ctx.council_mint = Some(key(40));
    assert_eq!(ctx.create_realm("D".to_string(), 1, true).unwrap_err(), tatami_v2::Errors::MissingCouncilTokenHolding);
    assert!(ctx.create_realm("D".to_string(), 1, false).is_ok());
}

#[test]
fn treasury_and_authority_instructions() {
    let ctx = dao_ctx();
    let t = ctx.create_native_treasury();
    assert_eq!(t.data, vec![25]);
    assert_eq!(t.accounts.len(), 4);
    let a = ctx.set_realm_authority();
    assert_eq!(a.data, vec![21, 1]);
    let mut out = Vec::new();
    SetRealmAuthorityArgs { action: SetRealmAuthorityAction::Remove }.serialize(&mut out);
    assert_eq!(out, vec![2]);
}

#[test]
fn fixed_identities() {
    assert_eq!(vault_seed(), b"tatami-vault".to_vec());
    let realms: solana_program::pubkey::Pubkey = "GovER5Lthms3bLBqWub97yVrMmEogzX7xNjdXpPPCVZw".parse().unwrap();
    assert_eq!(realms_id().bytes, realms.to_bytes());
    let program: solana_program::pubkey::Pubkey = "HrKLeJB6yoSWkFzVSfsg8Yi3Zs4PKZ7qqjkMz978qqZv".parse().unwrap();
    assert_eq!(program_id().bytes, program.to_bytes());
    assert!(key(3).same(&key(3)));
    assert!(!key(3).same(&key(4)));
}
