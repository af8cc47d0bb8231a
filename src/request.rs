//! What the lifecycle operations ask of the outside services, in order.
use vstd::prelude::*;
use crate::key::Key;

verus! {

/// Descriptive metadata to register for a token, with a single creator.
#[derive(Debug)]
pub struct MetadataRequest {
    pub metadata: Key,
    pub mint: Key,
    pub mint_authority: Key,
    pub payer: Key,
    pub update_authority: Key,
    pub name: String,
    pub symbol: String,
    pub uri: String,
    pub seller_fee_basis_points: u16,
    pub creator: Key,
    pub creator_verified: bool,
    pub creator_share: u8,
    pub is_mutable: bool,
    pub update_authority_is_signer: bool,
}

/// A call into another program: its identity, its accounts in order, and its data.
#[derive(Debug)]
pub struct Instruction {
    pub program_id: Key,
    pub accounts: Vec<Key>,
    pub data: Vec<u8>,
}

impl Instruction {
    pub open spec fn is(self, program: Seq<u8>, accounts: Seq<Key>, data: Seq<u8>) -> bool {
        &&& self.program_id@ == program
        &&& self.accounts@ == accounts
        &&& self.data@ == data
    }
}

/// One call to an outside service. An operation's requests run in order and
/// all take effect or none does.
#[derive(Debug)]
pub enum Request {
    /// Register token metadata with the metadata service.
    CreateMetadata(MetadataRequest),
    /// Create `amount` new tokens of `mint` in account `to`.
    MintTo { mint: Key, to: Key, authority: Key, amount: u64 },
    /// Move `amount` of the native currency.
    TransferLamports { from: Key, to: Key, amount: u64 },
    /// Move `amount` tokens; `signer_seeds`, when not empty, prove that the
    /// program owns `authority`.
    TransferChecked {
        from: Key,
        to: Key,
        mint: Key,
        authority: Key,
        amount: u64,
        decimals: u8,
        signer_seeds: Vec<Vec<u8>>,
    },
    /// Remove the mint authority of `mint` for good.
    RevokeMintAuthority { mint: Key, current_authority: Key },
    /// Invoke another program.
    Invoke(Instruction),
}

impl Request {
    pub open spec fn invokes(self, program: Seq<u8>, accounts: Seq<Key>, data: Seq<u8>) -> bool {
        self matches Request::Invoke(ix) && ix.is(program, accounts, data)
    }

    /// The same request, signed by `seeds` when it is a checked transfer.
    pub open spec fn signed_by(self, seeds: Vec<Vec<u8>>) -> Request {
        match self {
            Request::TransferChecked { from, to, mint, authority, amount, decimals, signer_seeds } =>
                Request::TransferChecked { from, to, mint, authority, amount, decimals, signer_seeds: seeds },
            other => other,
        }
    }

    /// Attaches the seeds that prove the program owns a checked transfer's authority.
    pub fn with_signer(self, seeds: Vec<Vec<u8>>) -> (r: Request)
        ensures
            r == self.signed_by(seeds),
    {
        match self {
            Request::TransferChecked { from, to, mint, authority, amount, decimals, signer_seeds: _ } =>
                Request::TransferChecked { from, to, mint, authority, amount, decimals, signer_seeds: seeds },
            other => other,
        }
    }

    pub open spec fn mints(self, mint: Key, to: Key, authority: Key, amount: u64) -> bool {
        self matches Request::MintTo { mint: m, to: t, authority: a, amount: n } && m == mint
            && t == to && a == authority && n == amount
    }
}

} // verus!
