//! Governance bootstrap: the realm, its governance policy, the treasury, the
//! hand-over of the realm's authority, and the treasury's token allocation.
use vstd::prelude::*;
use vstd::utf8::encode_utf8;
use crate::governance::{
    CreateRealmConfig, GovernanceConfig, GoverningTokenConfigArgs, GoverningTokenType,
    MintMaxVoterWeightSource, RealmConfigArgs, SetRealmAuthorityAction, SetRealmAuthorityArgs,
    VoteThreshold, VoteTipping,
};
use crate::key::{Key, realms_id, realms_id_spec};
use crate::request::{Instruction, Request};
use crate::state::Errors;

verus! {

/// Instruction tags of the governance program.
pub const CREATE_REALM_TAG: u8 = 0;
pub const CREATE_GOVERNANCE_TAG: u8 = 4;
pub const SET_REALM_AUTHORITY_TAG: u8 = 21;
pub const CREATE_NATIVE_TREASURY_TAG: u8 = 25;

/// The community's maximum voter weight: the whole supply.
pub const FULL_SUPPLY_FRACTION: u64 = 10000000000;

/// The name's UTF-8 length fits the 32-bit length that precedes it.
pub open spec fn name_fits(name: Seq<char>) -> bool {
    encode_utf8(name).len() <= u32::MAX
}

/// Accounts of the governance bootstrap.
pub struct InitializeDao {
    pub signer: Key,
    pub mint: Key,
    pub council_mint: Option<Key>,
    pub realm_account: Key,
    pub community_token_holding: Key,
    pub council_token_holding: Option<Key>,
    pub realm_config: Key,
    pub governance: Key,
    pub governed_account: Key,
    pub native_treasury: Key,
    pub dao_token_account: Key,
    pub system_program: Key,
    pub token_program: Key,
    pub rent: Key,
}

/// The realm's settings: liquid community tokens weighted by the whole
/// supply, membership council tokens, no voter-weight add-ins.
pub open spec fn realm_args(name: String, min_vote_to_govern: u64, is_council: bool) -> CreateRealmConfig {
    CreateRealmConfig {
        name,
        config: RealmConfigArgs {
            use_council_mint: is_council,
            min_community_weight_to_create_governance: min_vote_to_govern,
            community_mint_max_voter_weight_source: MintMaxVoterWeightSource::SupplyFraction(FULL_SUPPLY_FRACTION),
            community_token_config_args: GoverningTokenConfigArgs {
                use_voter_weight_addin: false,
                use_max_voter_weight_addin: false,
                token_type: GoverningTokenType::Liquid,
            },
            council_token_config_args: GoverningTokenConfigArgs {
                use_voter_weight_addin: false,
                use_max_voter_weight_addin: false,
                token_type: GoverningTokenType::Membership,
            },
        },
    }
}

/// The governance policy: `quorum` percent of yes votes for the community,
/// 60 percent for the council, strict tipping, a twelve-hour cool-off.
pub open spec fn governance_args(vote_duration: u32, quorum: u8, min_vote_to_govern: u64) -> GovernanceConfig {
    GovernanceConfig {
        community_vote_threshold: VoteThreshold::YesVotePercentage(quorum),
        min_community_weight_to_create_proposal: min_vote_to_govern,
        min_transaction_hold_up_time: 0,
        voting_base_time: vote_duration,
        community_vote_tipping: VoteTipping::Strict,
        council_vote_threshold: VoteThreshold::YesVotePercentage(60),
        council_veto_vote_threshold: VoteThreshold::YesVotePercentage(60),
        min_council_weight_to_create_proposal: 1,
        council_vote_tipping: VoteTipping::Strict,
        community_veto_vote_threshold: VoteThreshold::Disabled,
        voting_cool_off_time: 43200,
        deposit_exempt_proposal_count: 10,
    }
}

impl InitializeDao {
    /// Both council accounts are supplied.
    pub open spec fn council_complete(self) -> bool {
        self.council_mint.is_some() && self.council_token_holding.is_some()
    }

    pub open spec fn realm_accounts(self, is_council: bool) -> Seq<Key> {
        seq![
            self.realm_account,
            self.signer,
            self.mint,
            self.community_token_holding,
            self.signer,
            self.system_program,
            self.token_program,
            self.rent,
        ] + (if is_council {
            seq![self.council_mint.unwrap(), self.council_token_holding.unwrap()]
        } else {
            seq![]
        }) + seq![self.realm_config]
    }

    pub open spec fn governance_accounts(self) -> Seq<Key> {
        seq![
            self.realm_account,
            self.governance,
            self.governed_account,
            self.system_program,
            self.signer,
            self.system_program,
            self.signer,
            self.realm_config,
        ]
    }

    pub open spec fn treasury_accounts(self) -> Seq<Key> {
        seq![self.governance, self.native_treasury, self.signer, self.system_program]
    }

    pub open spec fn authority_accounts(self) -> Seq<Key> {
        seq![self.realm_account, self.signer, self.governance]
    }

    /// The realm creation; a council needs both council accounts, and the
    /// name must fit its length prefix.
    pub fn create_realm(&self, name: String, min_vote_to_govern: u64, is_council: bool) -> (r: Result<Instruction, Errors>)
        ensures
            r is Err <==> (is_council && !self.council_complete()) || !name_fits(name@),
            is_council && !self.council_complete() ==> r == Err::<Instruction, Errors>(Errors::MissingCouncilTokenHolding),
            !(is_council && !self.council_complete()) && !name_fits(name@) ==> r == Err::<Instruction, Errors>(Errors::NameTooLong),
            r matches Ok(ix) ==> ix.is(
                realms_id_spec(),
                self.realm_accounts(is_council),
                seq![CREATE_REALM_TAG] + realm_args(name, min_vote_to_govern, is_council).encoding(),
            ),
    {
        let mut accounts: Vec<Key> = vec![
            self.realm_account,
            self.signer,
            self.mint,
            self.community_token_holding,
            self.signer,
            self.system_program,
            self.token_program,
            self.rent,
        ];
        if is_council {
            match (self.council_mint, self.council_token_holding) {
                (Some(council_mint), Some(council_token_holding)) => {
                    accounts.push(council_mint);
                    accounts.push(council_token_holding);
                },
                _ => {
                    return Err(Errors::MissingCouncilTokenHolding);
                },
            }
        }
        let name_bytes: &[u8] = name.as_str().as_bytes();
        if name_bytes.len() > u32::MAX as usize {
            return Err(Errors::NameTooLong);
        }
        accounts.push(self.realm_config);
        let ghost spec_name = name;
        let args = CreateRealmConfig {
            name,
            config: RealmConfigArgs {
                use_council_mint: is_council,
                min_community_weight_to_create_governance: min_vote_to_govern,
                community_mint_max_voter_weight_source: MintMaxVoterWeightSource::SupplyFraction(FULL_SUPPLY_FRACTION),
                community_token_config_args: GoverningTokenConfigArgs {
                    use_voter_weight_addin: false,
                    use_max_voter_weight_addin: false,
                    token_type: GoverningTokenType::Liquid,
                },
                council_token_config_args: GoverningTokenConfigArgs {
                    use_voter_weight_addin: false,
                    use_max_voter_weight_addin: false,
                    token_type: GoverningTokenType::Membership,
                },
            },
        };
        assert(args == realm_args(spec_name, min_vote_to_govern, is_council));
        let mut data: Vec<u8> = vec![CREATE_REALM_TAG];
        assert(data@ =~= seq![CREATE_REALM_TAG]);
        args.serialize(&mut data);
        assert(accounts@ =~= self.realm_accounts(is_council));
        Ok(Instruction { program_id: realms_id(), accounts, data })
    }

    /// The governance policy; the quorum is a percentage, at most 100.
    pub fn create_governance(&self, vote_duration: u32, quorum: u8, min_vote_to_govern: u64) -> (r: Result<Instruction, Errors>)
        ensures
            r is Err <==> quorum > 100,
            r is Err ==> r == Err::<Instruction, Errors>(Errors::InvalidQuorum),
            r matches Ok(ix) ==> ix.is(
                realms_id_spec(),
                self.governance_accounts(),
                seq![CREATE_GOVERNANCE_TAG] + governance_args(vote_duration, quorum, min_vote_to_govern).encoding(),
            ),
    {
        if quorum > 100 {
            return Err(Errors::InvalidQuorum);
        }
        let accounts: Vec<Key> = vec![
            self.realm_account,
            self.governance,
            self.governed_account,
            self.system_program,
            self.signer,
            self.system_program,
            self.signer,
            self.realm_config,
        ];
        let args = GovernanceConfig {
            community_vote_threshold: VoteThreshold::YesVotePercentage(quorum),
            min_community_weight_to_create_proposal: min_vote_to_govern,
            min_transaction_hold_up_time: 0,
            voting_base_time: vote_duration,
            community_vote_tipping: VoteTipping::Strict,
            council_vote_threshold: VoteThreshold::YesVotePercentage(60),
            council_veto_vote_threshold: VoteThreshold::YesVotePercentage(60),
            min_council_weight_to_create_proposal: 1,
            council_vote_tipping: VoteTipping::Strict,
            community_veto_vote_threshold: VoteThreshold::Disabled,
            voting_cool_off_time: 43200,
            deposit_exempt_proposal_count: 10,
        };
        let mut data: Vec<u8> = vec![CREATE_GOVERNANCE_TAG];
        assert(data@ =~= seq![CREATE_GOVERNANCE_TAG]);
        args.serialize(&mut data);
        assert(accounts@ =~= self.governance_accounts());
        Ok(Instruction { program_id: realms_id(), accounts, data })
    }

    /// The native treasury, owned by the governance.
    pub fn create_native_treasury(&self) -> (r: Instruction)
        ensures
            r.is(realms_id_spec(), self.treasury_accounts(), seq![CREATE_NATIVE_TREASURY_TAG]),
    {
        let accounts: Vec<Key> = vec![self.governance, self.native_treasury, self.signer, self.system_program];
        let data: Vec<u8> = vec![CREATE_NATIVE_TREASURY_TAG];
        assert(accounts@ =~= self.treasury_accounts());
        assert(data@ =~= seq![CREATE_NATIVE_TREASURY_TAG]);
        Instruction { program_id: realms_id(), accounts, data }
    }

    /// Hands the realm's authority to its own governance, checked.
    pub fn set_realm_authority(&self) -> (r: Instruction)
        ensures
            r.is(
                realms_id_spec(),
                self.authority_accounts(),
                seq![SET_REALM_AUTHORITY_TAG] + (SetRealmAuthorityArgs { action: SetRealmAuthorityAction::SetChecked }).encoding(),
            ),
    {
        let accounts: Vec<Key> = vec![self.realm_account, self.signer, self.governance];
        let args = SetRealmAuthorityArgs { action: SetRealmAuthorityAction::SetChecked };
        let mut data: Vec<u8> = vec![SET_REALM_AUTHORITY_TAG];
        assert(data@ =~= seq![SET_REALM_AUTHORITY_TAG]);
        args.serialize(&mut data);
        assert(accounts@ =~= self.authority_accounts());
        Instruction { program_id: realms_id(), accounts, data }
    }

    /// The requests of the bootstrap, in order: realm, governance, treasury,
    /// authority hand-over, and the treasury's allocation.
    pub open spec fn dao_requests(self, reqs: Seq<Request>, name: String, supply: u64, min_vote_to_govern: u64, is_council: bool, quorum: u8, vote_duration: u32) -> bool {
        &&& reqs.len() == 5
        &&& reqs[0].invokes(
            realms_id_spec(),
            self.realm_accounts(is_council),
            seq![CREATE_REALM_TAG] + realm_args(name, min_vote_to_govern, is_council).encoding(),
        )
        &&& reqs[1].invokes(
            realms_id_spec(),
            self.governance_accounts(),
            seq![CREATE_GOVERNANCE_TAG] + governance_args(vote_duration, quorum, min_vote_to_govern).encoding(),
        )
        &&& reqs[2].invokes(realms_id_spec(), self.treasury_accounts(), seq![CREATE_NATIVE_TREASURY_TAG])
        &&& reqs[3].invokes(
            realms_id_spec(),
            self.authority_accounts(),
            seq![SET_REALM_AUTHORITY_TAG] + (SetRealmAuthorityArgs { action: SetRealmAuthorityAction::SetChecked }).encoding(),
        )
        &&& reqs[4].mints(self.mint, self.dao_token_account, self.signer, supply)
    }

    /// The treasury's allocation of `amount` tokens.
    pub fn mint_dao_allocation(&self, amount: u64) -> (r: Request)
        ensures
            r.mints(self.mint, self.dao_token_account, self.signer, amount),
    {
        Request::MintTo { mint: self.mint, to: self.dao_token_account, authority: self.signer, amount }
    }
}

} // verus!
