//! The stored records and the failure kinds of the lifecycle operations.
use vstd::prelude::*;
use crate::key::Key;

verus! {

/// Why a lifecycle operation was rejected. A rejected operation changes nothing.
#[derive(Clone, Copy, Debug, PartialEq, Eq, Structural)]
pub enum Errors {
    /// The record to be created already exists.
    AlreadyInitialized,
    /// The caller is not the project's creator.
    Unauthorized,
    /// The token supplied is not the project's token.
    MintMismatch,
    /// A council was asked for without both the council mint and its holding account.
    MissingCouncilTokenHolding,
    /// The quorum is above 100 percent.
    InvalidQuorum,
    /// Every distribution slot has been paid.
    MaxRecipientsPaid,
    /// Governance was already set up for this project.
    DaoAlreadyInitialized,
    /// The mint authority was revoked: no supply can be created.
    MintAuthorityRevoked,
    /// The vault account supplied is not the derived vault address.
    InvalidVault,
    /// The realm name is too long for the 32-bit length that precedes it.
    NameTooLong,
}

/// The global fee configuration.
#[derive(Clone, Copy, Debug)]
pub struct Config {
    pub fee: u64,
    pub creator: Key,
    pub bump: u8,
}

/// The lifecycle record of one launched token.
#[derive(Clone, Copy, Debug)]
pub struct Project {
    pub creator: Key,
    pub mint: Key,
    pub dao_init: bool,
    pub lp_init: bool,
    pub mint_exist: bool,
    pub bump: u8,
    pub recipients: u16,
    pub recipients_paid: u16,
}

impl Project {
    /// No more slots are paid than were configured.
    pub open spec fn wf(self) -> bool {
        self.recipients_paid <= self.recipients
    }
}

} // verus!
