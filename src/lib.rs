//! Launch lifecycle of a tokenized project: a global fee configuration, a
//! per-token project record, and the ordered requests that each lifecycle
//! operation hands to the token, metadata and governance services.

pub mod key;
pub mod wire;
pub mod governance;
pub mod state;
pub mod request;
pub mod lifecycle;
pub mod dao;
pub mod laws;

pub use dao::InitializeDao;
pub use governance::{
    CreateRealmConfig, GovernanceConfig, GoverningTokenConfigArgs, GoverningTokenType,
    MintMaxVoterWeightSource, RealmConfigArgs, SetRealmAuthorityAction, SetRealmAuthorityArgs,
    VoteThreshold, VoteTipping,
};
pub use key::Key;
pub use lifecycle::{
    airdrop_tokens, airdrop_tokens_with_vault, burn_authority, create_config, init_project,
    initialize_dao, initialize_lp, AirdropTokens, BurnAuthority, CreateConfig, InitProject,
    InitializeLp,
};
pub use request::{Instruction, MetadataRequest, Request};
pub use state::{Config, Errors, Project};
