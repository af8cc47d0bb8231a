//! Arguments of the governance program's instructions, and their encoding:
//! fields in declaration order, integers little-endian, a variant as its
//! index byte followed by its fields.
use vstd::prelude::*;
use vstd::utf8::encode_utf8;
use crate::wire::{le_bytes, bool_byte, string_bytes, push_u8, push_bool, push_u32, push_u64, push_string};

verus! {

pub enum GoverningTokenType {
    Liquid,
    Membership,
    Dormant,
}

impl GoverningTokenType {
    pub open spec fn encoding(self) -> Seq<u8> {
        match self {
            GoverningTokenType::Liquid => seq![0u8],
            GoverningTokenType::Membership => seq![1u8],
            GoverningTokenType::Dormant => seq![2u8],
        }
    }

    pub fn serialize(&self, out: &mut Vec<u8>)
        ensures
            final(out)@ == old(out)@ + self.encoding(),
    {
        match self {
            GoverningTokenType::Liquid => push_u8(out, 0),
            GoverningTokenType::Membership => push_u8(out, 1),
            GoverningTokenType::Dormant => push_u8(out, 2),
        }
    }
}

pub enum MintMaxVoterWeightSource {
    SupplyFraction(u64),
    Absolute(u64),
}

impl MintMaxVoterWeightSource {
    pub open spec fn encoding(self) -> Seq<u8> {
        match self {
            MintMaxVoterWeightSource::SupplyFraction(v) => seq![0u8] + le_bytes(v as nat, 8),
            MintMaxVoterWeightSource::Absolute(v) => seq![1u8] + le_bytes(v as nat, 8),
        }
    }

    pub fn serialize(&self, out: &mut Vec<u8>)
        ensures
            final(out)@ == old(out)@ + self.encoding(),
    {
        let ghost start = out@;
        match self {
            MintMaxVoterWeightSource::SupplyFraction(v) => {
                push_u8(out, 0);
                push_u64(out, *v);
                assert(out@ =~= start + (seq![0u8] + le_bytes(*v as nat, 8)));
            },
            MintMaxVoterWeightSource::Absolute(v) => {
                push_u8(out, 1);
                push_u64(out, *v);
                assert(out@ =~= start + (seq![1u8] + le_bytes(*v as nat, 8)));
            },
        }
    }
}

pub struct GoverningTokenConfigArgs {
    pub use_voter_weight_addin: bool,
    pub use_max_voter_weight_addin: bool,
    pub token_type: GoverningTokenType,
}

impl GoverningTokenConfigArgs {
    pub open spec fn encoding(self) -> Seq<u8> {
        bool_byte(self.use_voter_weight_addin) + bool_byte(self.use_max_voter_weight_addin)
            + self.token_type.encoding()
    }

    pub fn serialize(&self, out: &mut Vec<u8>)
        ensures
            final(out)@ == old(out)@ + self.encoding(),
    {
        let ghost start = out@;
        push_bool(out, self.use_voter_weight_addin);
        push_bool(out, self.use_max_voter_weight_addin);
        self.token_type.serialize(out);
        assert(out@ =~= start + self.encoding());
    }
}

pub struct RealmConfigArgs {
    pub use_council_mint: bool,
    pub min_community_weight_to_create_governance: u64,
    pub community_mint_max_voter_weight_source: MintMaxVoterWeightSource,
    pub community_token_config_args: GoverningTokenConfigArgs,
    pub council_token_config_args: GoverningTokenConfigArgs,
}

impl RealmConfigArgs {
    pub open spec fn encoding(self) -> Seq<u8> {
        bool_byte(self.use_council_mint)
            + le_bytes(self.min_community_weight_to_create_governance as nat, 8)
            + self.community_mint_max_voter_weight_source.encoding()
            + self.community_token_config_args.encoding()
            + self.council_token_config_args.encoding()
    }

    pub fn serialize(&self, out: &mut Vec<u8>)
        ensures
            final(out)@ == old(out)@ + self.encoding(),
    {
        let ghost start = out@;
        push_bool(out, self.use_council_mint);
        push_u64(out, self.min_community_weight_to_create_governance);
        self.community_mint_max_voter_weight_source.serialize(out);
        self.community_token_config_args.serialize(out);
        self.council_token_config_args.serialize(out);
        assert(out@ =~= start + self.encoding());
    }
}

pub struct CreateRealmConfig {
    pub name: String,
    pub config: RealmConfigArgs,
}

impl CreateRealmConfig {
    pub open spec fn encoding(self) -> Seq<u8> {
        string_bytes(self.name@) + self.config.encoding()
    }

    pub fn serialize(&self, out: &mut Vec<u8>)
        requires
            encode_utf8(self.name@).len() <= u32::MAX,
        ensures
            final(out)@ == old(out)@ + self.encoding(),
    {
        let ghost start = out@;
        push_string(out, &self.name);
        self.config.serialize(out);
        assert(out@ =~= start + self.encoding());
    }
}

pub enum VoteThreshold {
    YesVotePercentage(u8),
    QuorumPercentage(u8),
    Disabled,
}

impl VoteThreshold {
    pub open spec fn encoding(self) -> Seq<u8> {
        match self {
            VoteThreshold::YesVotePercentage(p) => seq![0u8, p],
            VoteThreshold::QuorumPercentage(p) => seq![1u8, p],
            VoteThreshold::Disabled => seq![2u8],
        }
    }

    pub fn serialize(&self, out: &mut Vec<u8>)
        ensures
            final(out)@ == old(out)@ + self.encoding(),
    {
        let ghost start = out@;
        match self {
            VoteThreshold::YesVotePercentage(p) => {
                push_u8(out, 0);
                push_u8(out, *p);
            },
            VoteThreshold::QuorumPercentage(p) => {
                push_u8(out, 1);
                push_u8(out, *p);
            },
            VoteThreshold::Disabled => {
                push_u8(out, 2);
            },
        }
        assert(out@ =~= start + self.encoding());
    }
}

pub enum VoteTipping {
    Strict,
    Early,
    Disabled,
}

impl VoteTipping {
    pub open spec fn encoding(self) -> Seq<u8> {
        match self {
            VoteTipping::Strict => seq![0u8],
            VoteTipping::Early => seq![1u8],
            VoteTipping::Disabled => seq![2u8],
        }
    }

    pub fn serialize(&self, out: &mut Vec<u8>)
        ensures
            final(out)@ == old(out)@ + self.encoding(),
    {
        match self {
            VoteTipping::Strict => push_u8(out, 0),
            VoteTipping::Early => push_u8(out, 1),
            VoteTipping::Disabled => push_u8(out, 2),
        }
    }
}

pub struct GovernanceConfig {
    pub community_vote_threshold: VoteThreshold,
    pub min_community_weight_to_create_proposal: u64,
    pub min_transaction_hold_up_time: u32,
    pub voting_base_time: u32,
    pub community_vote_tipping: VoteTipping,
    pub council_vote_threshold: VoteThreshold,
    pub council_veto_vote_threshold: VoteThreshold,
    pub min_council_weight_to_create_proposal: u64,
    pub council_vote_tipping: VoteTipping,
    pub community_veto_vote_threshold: VoteThreshold,
    pub voting_cool_off_time: u32,
    pub deposit_exempt_proposal_count: u8,
}

impl GovernanceConfig {
    pub open spec fn encoding(self) -> Seq<u8> {
        self.community_vote_threshold.encoding()
            + le_bytes(self.min_community_weight_to_create_proposal as nat, 8)
            + le_bytes(self.min_transaction_hold_up_time as nat, 4)
            + le_bytes(self.voting_base_time as nat, 4)
            + self.community_vote_tipping.encoding()
            + self.council_vote_threshold.encoding()
            + self.council_veto_vote_threshold.encoding()
            + le_bytes(self.min_council_weight_to_create_proposal as nat, 8)
            + self.council_vote_tipping.encoding()
            + self.community_veto_vote_threshold.encoding()
            + le_bytes(self.voting_cool_off_time as nat, 4)
            + seq![self.deposit_exempt_proposal_count]
    }

    pub fn serialize(&self, out: &mut Vec<u8>)
        ensures
            final(out)@ == old(out)@ + self.encoding(),
    {
        let ghost start = out@;
        self.community_vote_threshold.serialize(out);
        push_u64(out, self.min_community_weight_to_create_proposal);
        push_u32(out, self.min_transaction_hold_up_time);
        push_u32(out, self.voting_base_time);
        self.community_vote_tipping.serialize(out);
        self.council_vote_threshold.serialize(out);
        self.council_veto_vote_threshold.serialize(out);
        push_u64(out, self.min_council_weight_to_create_proposal);
        self.council_vote_tipping.serialize(out);
        self.community_veto_vote_threshold.serialize(out);
        push_u32(out, self.voting_cool_off_time);
        push_u8(out, self.deposit_exempt_proposal_count);
        assert(out@ =~= start + self.encoding());
    }
}

pub enum SetRealmAuthorityAction {
    SetUnchecked,
    SetChecked,
    Remove,
}

pub struct SetRealmAuthorityArgs {
    pub action: SetRealmAuthorityAction,
}

impl SetRealmAuthorityArgs {
    pub open spec fn encoding(self) -> Seq<u8> {
        match self.action {
            SetRealmAuthorityAction::SetUnchecked => seq![0u8],
            SetRealmAuthorityAction::SetChecked => seq![1u8],
            SetRealmAuthorityAction::Remove => seq![2u8],
        }
    }

    pub fn serialize(&self, out: &mut Vec<u8>)
        ensures
            final(out)@ == old(out)@ + self.encoding(),
    {
        match self.action {
            SetRealmAuthorityAction::SetUnchecked => push_u8(out, 0),
            SetRealmAuthorityAction::SetChecked => push_u8(out, 1),
            SetRealmAuthorityAction::Remove => push_u8(out, 2),
        }
    }
}

} // verus!
