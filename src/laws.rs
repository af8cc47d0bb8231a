//! What holds of a project record over any sequence of lifecycle calls.
use vstd::prelude::*;
use crate::dao::InitializeDao;
use crate::key::Key;
use crate::lifecycle::{airdrop_outcome, burn_outcome, dao_outcome};
use crate::state::{Errors, Project};

verus! {

/// One lifecycle call on an existing project, with what decides its outcome.
pub enum Call {
    InitializeDao { signer: Key, mint: Key, is_council: bool, council_complete: bool, quorum: u8, name_fits: bool },
    Airdrop { signer: Key, mint: Key, vault_ok: bool },
    BurnAuthority { signer: Key, mint: Key },
    InitializeLp,
}

/// The record after one call: updated on success, unchanged on failure.
pub open spec fn apply(p: Project, c: Call) -> Project {
    let outcome = match c {
        Call::InitializeDao { signer, mint, is_council, council_complete, quorum, name_fits } =>
            dao_outcome(p, signer@, mint@, is_council, council_complete, quorum, name_fits),
        Call::Airdrop { signer, mint, vault_ok } => airdrop_outcome(p, signer@, mint@, vault_ok),
        Call::BurnAuthority { signer, mint } => burn_outcome(p, signer@, mint@),
        Call::InitializeLp => Ok(p),
    };
    match outcome {
        Ok(q) => q,
        Err(_) => p,
    }
}

/// The record after the calls, in order.
pub open spec fn run(p: Project, calls: Seq<Call>) -> Project
    decreases calls.len(),
{
    if calls.len() == 0 {
        p
    } else {
        run(apply(p, calls[0]), calls.drop_first())
    }
}

proof fn lemma_step(p: Project, c: Call)
    requires
        p.wf(),
    ensures
        apply(p, c).wf(),
        apply(p, c).recipients == p.recipients,
        apply(p, c).recipients_paid >= p.recipients_paid,
        apply(p, c).dao_init == (p.dao_init || apply(p, c).dao_init),
        !p.mint_exist ==> !apply(p, c).mint_exist,
{
}

proof fn lemma_run(p: Project, calls: Seq<Call>)
    requires
        p.wf(),
    ensures
        run(p, calls).wf(),
        run(p, calls).recipients == p.recipients,
        run(p, calls).recipients_paid >= p.recipients_paid,
        p.dao_init ==> run(p, calls).dao_init,
        !p.mint_exist ==> !run(p, calls).mint_exist,
    decreases calls.len(),
{
    if calls.len() > 0 {
        lemma_step(p, calls[0]);
        lemma_run(apply(p, calls[0]), calls.drop_first());
    }
}

proof fn lemma_run_split(p: Project, calls: Seq<Call>, i: int)
    requires
        0 <= i <= calls.len(),
    ensures
        run(p, calls) == run(run(p, calls.take(i)), calls.skip(i)),
    decreases calls.len(),
{
    if i > 0 {
        assert(calls.take(i).drop_first() =~= calls.drop_first().take(i - 1));
        assert(calls.skip(i) =~= calls.drop_first().skip(i - 1));
        lemma_run_split(apply(p, calls[0]), calls.drop_first(), i - 1);
    } else {
        assert(calls.take(0).len() == 0);
        assert(calls.skip(0) =~= calls);
    }
}

/// Over any sequence of calls on a well-formed project, the number of paid
/// slots never decreases from one prefix to a longer one and never exceeds
/// the configured number of slots.
pub proof fn lemma_recipients_paid_monotone(p: Project, calls: Seq<Call>, i: int, j: int)
    requires
        p.wf(),
        0 <= i <= j <= calls.len(),
    ensures
        run(p, calls.take(i)).recipients_paid <= run(p, calls.take(j)).recipients_paid,
        run(p, calls.take(j)).recipients_paid <= run(p, calls.take(j)).recipients,
        run(p, calls.take(j)).recipients == p.recipients,
{
    let prefix = calls.take(j);
    lemma_run_split(p, prefix, i);
    assert(prefix.take(i) =~= calls.take(i));
    lemma_run(p, calls.take(i));
    lemma_run(run(p, calls.take(i)), prefix.skip(i));
}

/// A successful governance bootstrap sets the flag for good, and every
/// later bootstrap of the same project fails, whatever its arguments.
pub proof fn lemma_dao_initialized_once(
    p: Project,
    signer: Key,
    mint: Key,
    is_council: bool,
    council_complete: bool,
    quorum: u8,
    name_fits: bool,
    later: Seq<Call>,
    signer2: Key,
    mint2: Key,
    is_council2: bool,
    council_complete2: bool,
    quorum2: u8,
    name_fits2: bool,
)
    requires
        p.wf(),
        dao_outcome(p, signer@, mint@, is_council, council_complete, quorum, name_fits) is Ok,
    ensures
        !p.dao_init,
        ({
            let q = dao_outcome(p, signer@, mint@, is_council, council_complete, quorum, name_fits)->Ok_0;
            &&& q.dao_init
            &&& run(q, later).dao_init
            &&& dao_outcome(run(q, later), signer2@, mint2@, is_council2, council_complete2, quorum2, name_fits2) is Err
        }),
{
    let q = dao_outcome(p, signer@, mint@, is_council, council_complete, quorum, name_fits)->Ok_0;
    lemma_run(q, later);
}

/// Once the mint authority is revoked it stays revoked whatever follows, and
/// every later attempt to create supply (a treasury allocation, or another
/// revocation) fails.
pub proof fn lemma_burn_is_final(
    p: Project,
    signer: Key,
    mint: Key,
    later: Seq<Call>,
    signer2: Key,
    mint2: Key,
    is_council: bool,
    council_complete: bool,
    quorum: u8,
    name_fits: bool,
)
    requires
        p.wf(),
        burn_outcome(p, signer@, mint@) is Ok,
    ensures
        p.mint_exist,
        ({
            let q = burn_outcome(p, signer@, mint@)->Ok_0;
            &&& !q.mint_exist
            &&& !run(q, later).mint_exist
            &&& dao_outcome(run(q, later), signer2@, mint2@, is_council, council_complete, quorum, name_fits) is Err
            &&& burn_outcome(run(q, later), signer2@, mint2@) is Err
        }),
{
    let q = burn_outcome(p, signer@, mint@)->Ok_0;
    lemma_run(q, later);
}

/// An authorized bootstrap that asks for a council with only one of the two
/// council accounts fails with `MissingCouncilTokenHolding`, whichever is missing.
pub proof fn lemma_council_accounts_paired(p: Project, ctx: InitializeDao, quorum: u8, name_fits: bool)
    requires
        ctx.signer@ == p.creator@,
        ctx.mint@ == p.mint@,
        ctx.council_mint.is_some() != ctx.council_token_holding.is_some(),
    ensures
        dao_outcome(p, ctx.signer@, ctx.mint@, true, ctx.council_complete(), quorum, name_fits)
            == Err::<Project, Errors>(Errors::MissingCouncilTokenHolding),
{
}

} // verus!
