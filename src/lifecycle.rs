//! The lifecycle operations. Each one checks the caller and the stored
//! record, and either returns the requests to run together with the updated
//! record, or an error with the record left as it was.
use vstd::prelude::*;
use crate::dao::{InitializeDao, name_fits};
use crate::key::{Key, derived_view, program_address, program_id_spec, vault_address, vault_seed, vault_seed_spec, vault_seeds, seeds_view};
use crate::request::{MetadataRequest, Request};
use crate::state::{Config, Errors, Project};

verus! {

/// Accounts of the one-time creation of the fee configuration.
pub struct CreateConfig {
    pub signer: Key,
    /// Bump seed of the configuration's derived address.
    pub config_bump: u8,
}

/// Creates the global configuration, recording the caller as fee recipient.
pub fn create_config(slot: &mut Option<Config>, ctx: &CreateConfig, fee: u64) -> (r: Result<(), Errors>)
    ensures
        r == (if old(slot).is_some() { Err(Errors::AlreadyInitialized) } else { Ok::<(), Errors>(()) }),
        r is Ok ==> *final(slot) == Some(Config { fee, creator: ctx.signer, bump: ctx.config_bump }),
        r is Err ==> *final(slot) == *old(slot),
{
    if slot.is_some() {
        return Err(Errors::AlreadyInitialized);
    }
    *slot = Some(Config { fee, creator: ctx.signer, bump: ctx.config_bump });
    Ok(())
}

/// Accounts of a project's creation.
pub struct InitProject {
    pub signer: Key,
    pub mint: Key,
    /// Bump seed of the project record's derived address.
    pub project_bump: u8,
    pub vault: Key,
    pub vault_token_account: Key,
    pub team_token_account: Option<Key>,
    pub team_wallet: Option<Key>,
    pub metadata: Key,
}

impl InitProject {
    /// A team allocation is minted only when both team accounts are supplied.
    pub open spec fn has_team(self) -> bool {
        self.team_wallet.is_some() && self.team_token_account.is_some()
    }

    pub open spec fn is_metadata_request(self, m: MetadataRequest, name: Seq<char>, symbol: Seq<char>, uri: Seq<char>) -> bool {
        &&& m.metadata == self.metadata
        &&& m.mint == self.mint
        &&& m.mint_authority == self.signer
        &&& m.payer == self.signer
        &&& m.update_authority == self.signer
        &&& m.name@ == name
        &&& m.symbol@ == symbol
        &&& m.uri@ == uri
        &&& m.seller_fee_basis_points == 0
        &&& m.creator == self.signer
        &&& m.creator_verified
        &&& m.creator_share == 100
        &&& m.is_mutable
        &&& m.update_authority_is_signer
    }

    /// The metadata registration: the caller is the verified sole creator,
    /// with a full share and no seller fee.
    pub fn create_metadata_ctx(&self, name: String, symbol: String, uri: String) -> (r: MetadataRequest)
        ensures
            self.is_metadata_request(r, name@, symbol@, uri@),
    {
        MetadataRequest {
            metadata: self.metadata,
            mint: self.mint,
            mint_authority: self.signer,
            payer: self.signer,
            update_authority: self.signer,
            name,
            symbol,
            uri,
            seller_fee_basis_points: 0,
            creator: self.signer,
            creator_verified: true,
            creator_share: 100,
            is_mutable: true,
            update_authority_is_signer: true,
        }
    }

    /// The fee payment, from the caller to the configuration's fee recipient.
    pub fn transfer_sol_ctx(&self, config: &Config) -> (r: Request)
        ensures
            r == (Request::TransferLamports { from: self.signer, to: config.creator, amount: config.fee }),
    {
        Request::TransferLamports { from: self.signer, to: config.creator, amount: config.fee }
    }

    /// A mint of `amount` to the team's account, or else to the vault's.
    pub fn mint_supply_ctx(&self, is_team: bool, amount: u64) -> (r: Request)
        requires
            is_team ==> self.team_token_account.is_some(),
        ensures
            r.mints(
                self.mint,
                if is_team { self.team_token_account.unwrap() } else { self.vault_token_account },
                self.signer,
                amount,
            ),
    {
        let to = if is_team {
            self.team_token_account.unwrap()
        } else {
            self.vault_token_account
        };
        Request::MintTo { mint: self.mint, to, authority: self.signer, amount }
    }

    /// The requests of a project's creation: metadata, the team mint when
    /// both team accounts are there, the vault mint, then the fee.
    pub open spec fn init_requests(self, config: Config, reqs: Seq<Request>, name: Seq<char>, symbol: Seq<char>, uri: Seq<char>, supply: [u64; 2]) -> bool {
        let k: int = if self.has_team() { 1 } else { 0 };
        &&& reqs.len() == 3 + k
        &&& reqs[0] matches Request::CreateMetadata(m) && self.is_metadata_request(m, name, symbol, uri)
        &&& self.has_team() ==> reqs[1].mints(self.mint, self.team_token_account.unwrap(), self.signer, supply[0])
        &&& reqs[1 + k].mints(self.mint, self.vault_token_account, self.signer, supply[1])
        &&& reqs[2 + k] == (Request::TransferLamports { from: self.signer, to: config.creator, amount: config.fee })
    }

    /// The record of a new project: minted, nothing paid, no governance yet.
    pub open spec fn new_project(self, recipients: u16) -> Project {
        Project {
            creator: self.signer,
            mint: self.mint,
            dao_init: false,
            lp_init: false,
            mint_exist: true,
            bump: self.project_bump,
            recipients,
            recipients_paid: 0,
        }
    }
}

/// Creates a project: registers its metadata, mints the team share (when a
/// team wallet and its token account are both given) and the rest to the
/// vault, collects the fee, and stores the record.
pub fn init_project(
    slot: &mut Option<Project>,
    ctx: &InitProject,
    config: &Config,
    _decimals: u8,
    name: String,
    symbol: String,
    uri: String,
    recipients: u16,
    supply: [u64; 2],
) -> (r: Result<Vec<Request>, Errors>)
    ensures
        r is Err <==> old(slot).is_some(),
        r is Err ==> r == Err::<Vec<Request>, Errors>(Errors::AlreadyInitialized) && *final(slot) == *old(slot),
        r matches Ok(reqs) ==> ctx.init_requests(*config, reqs@, name@, symbol@, uri@, supply)
            && *final(slot) == Some(ctx.new_project(recipients)),
{
    if slot.is_some() {
        return Err(Errors::AlreadyInitialized);
    }
    let mut reqs: Vec<Request> = Vec::new();
    reqs.push(Request::CreateMetadata(ctx.create_metadata_ctx(name, symbol, uri)));
    if ctx.team_wallet.is_some() && ctx.team_token_account.is_some() {
        reqs.push(ctx.mint_supply_ctx(true, supply[0]));
    }
    reqs.push(ctx.mint_supply_ctx(false, supply[1]));
    reqs.push(ctx.transfer_sol_ctx(config));
    *slot = Some(
        Project {
            creator: ctx.signer,
            mint: ctx.mint,
            dao_init: false,
            lp_init: false,
            mint_exist: true,
            bump: ctx.project_bump,
            recipients,
            recipients_paid: 0,
        },
    );
    Ok(reqs)
}

/// The first check that rejects a caller: only the project's creator may act,
/// and only on the project's own token.
pub open spec fn access_error(p: Project, signer: Seq<u8>, mint: Seq<u8>) -> Option<Errors> {
    if signer != p.creator@ {
        Some(Errors::Unauthorized)
    } else if mint != p.mint@ {
        Some(Errors::MintMismatch)
    } else {
        None
    }
}

/// The record after a governance bootstrap, or why it is rejected.
/// `name_fits` says whether the realm name fits its length prefix.
pub open spec fn dao_outcome(p: Project, signer: Seq<u8>, mint: Seq<u8>, is_council: bool, council_complete: bool, quorum: u8, name_fits: bool) -> Result<Project, Errors> {
    match access_error(p, signer, mint) {
        Some(e) => Err(e),
        None => if is_council && !council_complete {
            Err(Errors::MissingCouncilTokenHolding)
        } else if quorum > 100 {
            Err(Errors::InvalidQuorum)
        } else if p.dao_init {
            Err(Errors::DaoAlreadyInitialized)
        } else if !p.mint_exist {
            Err(Errors::MintAuthorityRevoked)
        } else if !name_fits {
            Err(Errors::NameTooLong)
        } else {
            Ok(Project { dao_init: true, ..p })
        },
    }
}

/// The record after paying one distribution slot, or why it is rejected;
/// `vault_ok` says whether the vault account is the derived vault address.
pub open spec fn airdrop_outcome(p: Project, signer: Seq<u8>, mint: Seq<u8>, vault_ok: bool) -> Result<Project, Errors> {
    match access_error(p, signer, mint) {
        Some(e) => Err(e),
        None => if p.recipients_paid >= p.recipients {
            Err(Errors::MaxRecipientsPaid)
        } else if !vault_ok {
            Err(Errors::InvalidVault)
        } else {
            Ok(Project { recipients_paid: (p.recipients_paid + 1) as u16, ..p })
        },
    }
}

/// The record after revoking the mint authority, or why it is rejected.
pub open spec fn burn_outcome(p: Project, signer: Seq<u8>, mint: Seq<u8>) -> Result<Project, Errors> {
    match access_error(p, signer, mint) {
        Some(e) => Err(e),
        None => if !p.mint_exist {
            Err(Errors::MintAuthorityRevoked)
        } else {
            Ok(Project { mint_exist: false, ..p })
        },
    }
}

/// The stored record agrees with an outcome: updated on success, unchanged on failure.
pub open spec fn follows<T>(r: Result<T, Errors>, outcome: Result<Project, Errors>, before: Project, after: Project) -> bool {
    match r {
        Ok(_) => outcome == Ok::<Project, Errors>(after),
        Err(e) => outcome == Err::<Project, Errors>(e) && after == before,
    }
}

fn check_access(project: &Project, signer: &Key, mint: &Key) -> (r: Option<Errors>)
    ensures
        r == access_error(*project, signer@, mint@),
{
    if !signer.same(&project.creator) {
        Some(Errors::Unauthorized)
    } else if !mint.same(&project.mint) {
        Some(Errors::MintMismatch)
    } else {
        None
    }
}

/// Sets up governance for a project: a realm (with a council when asked
/// for), its policy with the given quorum, a treasury, the realm's authority
/// handed to its governance, and `supply` tokens minted to the treasury.
pub fn initialize_dao(
    project: &mut Project,
    ctx: &InitializeDao,
    name: String,
    supply: u64,
    min_vote_to_govern: u64,
    is_council: bool,
    quorum: u8,
    vote_duration: u32,
) -> (r: Result<Vec<Request>, Errors>)
    ensures
        follows(
            r,
            dao_outcome(*old(project), ctx.signer@, ctx.mint@, is_council, ctx.council_complete(), quorum, name_fits(name@)),
            *old(project),
            *final(project),
        ),
        r matches Ok(reqs) ==> ctx.dao_requests(reqs@, name, supply, min_vote_to_govern, is_council, quorum, vote_duration),
{
    if let Some(e) = check_access(project, &ctx.signer, &ctx.mint) {
        return Err(e);
    }
    if is_council && !(ctx.council_mint.is_some() && ctx.council_token_holding.is_some()) {
        return Err(Errors::MissingCouncilTokenHolding);
    }
    if quorum > 100 {
        return Err(Errors::InvalidQuorum);
    }
    if project.dao_init {
        return Err(Errors::DaoAlreadyInitialized);
    }
    if !project.mint_exist {
        return Err(Errors::MintAuthorityRevoked);
    }
    let realm = match ctx.create_realm(name, min_vote_to_govern, is_council) {
        Ok(ix) => ix,
        Err(e) => {
            return Err(e);
        },
    };
    let governance = match ctx.create_governance(vote_duration, quorum, min_vote_to_govern) {
        Ok(ix) => ix,
        Err(e) => {
            return Err(e);
        },
    };
    let mut reqs: Vec<Request> = Vec::new();
    reqs.push(Request::Invoke(realm));
    reqs.push(Request::Invoke(governance));
    reqs.push(Request::Invoke(ctx.create_native_treasury()));
    reqs.push(Request::Invoke(ctx.set_realm_authority()));
    reqs.push(ctx.mint_dao_allocation(supply));
    project.dao_init = true;
    Ok(reqs)
}

/// Accounts of a payout from the vault.
pub struct AirdropTokens {
    pub signer: Key,
    pub mint: Key,
    pub mint_decimals: u8,
    pub vault: Key,
    pub vault_token_account: Key,
    pub recipient_token_account: Key,
    pub receiver: Key,
}

/// The seeds that prove the program owns the vault: its label and its bump.
pub open spec fn vault_signer_seeds(bump: u8) -> Seq<Seq<u8>> {
    seq![vault_seed_spec(), seq![bump]]
}

/// Whether a derived address is present and is the account supplied.
pub open spec fn vault_ok(derived: Option<(Seq<u8>, u8)>, vault: Key) -> bool {
    derived matches Some((a, _)) && a == vault@
}

impl AirdropTokens {
    /// `r` moves `amount` from the vault to the recipient, signed by `seeds`.
    pub open spec fn is_transfer_with(self, r: Request, amount: u64, seeds: Seq<Seq<u8>>) -> bool {
        r matches Request::TransferChecked { from, to, mint, authority, amount: n, decimals, signer_seeds }
            && from == self.vault_token_account && to == self.recipient_token_account
            && mint == self.mint && authority == self.vault && n == amount
            && decimals == self.mint_decimals && seeds_view(signer_seeds@) == seeds
    }

    /// `r` moves `amount` from the vault to the recipient, signed by the
    /// vault's label and `bump`.
    pub open spec fn is_transfer(self, r: Request, amount: u64, bump: u8) -> bool {
        self.is_transfer_with(r, amount, vault_signer_seeds(bump))
    }

    /// The transfer of `amount` from the vault to the recipient, without
    /// signer seeds: the payout attaches the vault's.
    pub fn transfer_tokens_ctx(&self, amount: u64) -> (r: Request)
        ensures
            self.is_transfer_with(r, amount, seq![]),
    {
        let signer_seeds: Vec<Vec<u8>> = Vec::new();
        assert(seeds_view(signer_seeds@) =~= seq![]);
        Request::TransferChecked {
            from: self.vault_token_account,
            to: self.recipient_token_account,
            mint: self.mint,
            authority: self.vault,
            amount,
            decimals: self.mint_decimals,
            signer_seeds,
        }
    }
}

/// Pays one distribution slot, given the derived vault address and bump.
pub fn airdrop_tokens_with_vault(
    project: &mut Project,
    ctx: &AirdropTokens,
    amount: u64,
    vault: Option<(Key, u8)>,
) -> (r: Result<Vec<Request>, Errors>)
    ensures
        follows(
            r,
            airdrop_outcome(*old(project), ctx.signer@, ctx.mint@, vault_ok(derived_view(vault), ctx.vault)),
            *old(project),
            *final(project),
        ),
        r matches Ok(reqs) ==> reqs@.len() == 1 && ctx.is_transfer(reqs@[0], amount, vault.unwrap().1),
{
    if let Some(e) = check_access(project, &ctx.signer, &ctx.mint) {
        return Err(e);
    }
    if project.recipients_paid >= project.recipients {
        return Err(Errors::MaxRecipientsPaid);
    }
    let bump = match vault {
        Some((address, bump)) => {
            if !address.same(&ctx.vault) {
                return Err(Errors::InvalidVault);
            }
            bump
        },
        None => {
            return Err(Errors::InvalidVault);
        },
    };
    let vault_bump: Vec<u8> = vec![bump];
    assert(vault_bump@ =~= seq![bump]);
    let signer_seeds: Vec<Vec<u8>> = vec![vault_seed(), vault_bump];
    assert(signer_seeds@[1]@ == seq![bump]);
    assert(seeds_view(signer_seeds@) =~= vault_signer_seeds(bump));
    let mut reqs: Vec<Request> = Vec::new();
    reqs.push(ctx.transfer_tokens_ctx(amount).with_signer(signer_seeds));
    project.recipients_paid = project.recipients_paid + 1;
    Ok(reqs)
}

/// Pays one distribution slot: `amount` tokens from the vault to the
/// recipient, the vault's movement authorized by its derivation.
pub fn airdrop_tokens(project: &mut Project, ctx: &AirdropTokens, amount: u64) -> (r: Result<Vec<Request>, Errors>)
    ensures
        follows(
            r,
            airdrop_outcome(
                *old(project),
                ctx.signer@,
                ctx.mint@,
                vault_ok(program_address(vault_seeds(), program_id_spec()), ctx.vault),
            ),
            *old(project),
            *final(project),
        ),
        r matches Ok(reqs) ==> reqs@.len() == 1
            && ctx.is_transfer(reqs@[0], amount, program_address(vault_seeds(), program_id_spec()).unwrap().1),
{
    let vault = vault_address();
    airdrop_tokens_with_vault(project, ctx, amount, vault)
}

/// Accounts of the revocation of the mint authority.
pub struct BurnAuthority {
    pub signer: Key,
    pub mint: Key,
}

impl BurnAuthority {
    /// The removal of the mint authority, by its current holder.
    pub fn set_auth_ctx(&self) -> (r: Request)
        ensures
            r == (Request::RevokeMintAuthority { mint: self.mint, current_authority: self.signer }),
    {
        Request::RevokeMintAuthority { mint: self.mint, current_authority: self.signer }
    }
}

/// Revokes the token's mint authority for good.
pub fn burn_authority(project: &mut Project, ctx: &BurnAuthority) -> (r: Result<Vec<Request>, Errors>)
    ensures
        follows(r, burn_outcome(*old(project), ctx.signer@, ctx.mint@), *old(project), *final(project)),
        r matches Ok(reqs) ==> reqs@ == seq![
            Request::RevokeMintAuthority { mint: ctx.mint, current_authority: ctx.signer },
        ],
{
    if let Some(e) = check_access(project, &ctx.signer, &ctx.mint) {
        return Err(e);
    }
    if !project.mint_exist {
        return Err(Errors::MintAuthorityRevoked);
    }
    let mut reqs: Vec<Request> = Vec::new();
    reqs.push(ctx.set_auth_ctx());
    project.mint_exist = false;
    Ok(reqs)
}

/// Accounts of the liquidity-market creation.
pub struct InitializeLp {}

/// Liquidity-market creation: an extension point that asks for nothing yet.
pub fn initialize_lp(_ctx: &InitializeLp) -> (r: Result<Vec<Request>, Errors>)
    ensures
        r matches Ok(reqs) && reqs@.len() == 0,
{
    Ok(Vec::new())
}

} // verus!
