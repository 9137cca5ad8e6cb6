//! Quadratic voting: organisations ("DAOs") raise proposals, and token
//! holders vote on them with a weight equal to the integer square root of
//! their token balance.

pub mod credits;
pub mod state;
pub mod ledger;
pub mod handlers;
pub mod laws;

pub use credits::quadratic_sqrt;

use vstd::prelude::*;
use crate::handlers::cast_vote::cast_vote_outcome;
use crate::handlers::initialize_dao::initialize_dao_outcome;
use crate::handlers::initialize_proposal::initialize_proposal_outcome;
use crate::ledger::{DaoAddress, Ledger, ProposalAddress};
use crate::state::{Pubkey, QvError, TokenAccount};

verus! {

/// The parties to founding a DAO: the signer who becomes its authority.
pub struct InitializeDao {
    pub admin: Pubkey,
}

/// The parties to raising a proposal: the signer, and the DAO it is raised
/// under.
pub struct InitializeProposal {
    pub admin: Pubkey,
    pub dao_account: DaoAddress,
}

/// The parties to casting a vote: the voter, the DAO and the proposal voted
/// on, and the voter's token holding whose balance sets the vote's weight.
pub struct CastVote {
    pub voter: Pubkey,
    pub dao_account: DaoAddress,
    pub proposal_account: ProposalAddress,
    pub voter_token_account: TokenAccount,
}

/// Founds the DAO `name` with the signer as its authority; fails with
/// `AllocationConflict` if the signer already founded a DAO of that name.
pub fn initialize_dao(ledger: &mut Ledger, ctx: &InitializeDao, name: String) -> (r: Result<
    (),
    QvError,
>)
    requires
        old(ledger).wf(),
    ensures
        final(ledger).wf(),
        old(ledger).tallies_match() ==> final(ledger).tallies_match(),
        initialize_dao_outcome(*old(ledger), *final(ledger), ctx.admin@, name@, r),
{
    handlers::initialize_dao::handler(ledger, ctx, name)
}

/// Raises a proposal under the DAO on behalf of its authority and returns
/// the new proposal's slot key.
pub fn initialize_proposal(ledger: &mut Ledger, ctx: &InitializeProposal, metadata: String) -> (r:
    Result<ProposalAddress, QvError>)
    requires
        old(ledger).wf(),
    ensures
        final(ledger).wf(),
        old(ledger).tallies_match() ==> final(ledger).tallies_match(),
        initialize_proposal_outcome(
            *old(ledger),
            *final(ledger),
            ctx.admin@,
            ctx.dao_account@,
            metadata@,
            r,
        ),
{
    handlers::initialize_proposal::handler(ledger, ctx, metadata)
}

/// Casts the voter's vote (0 for no, 1 for yes) on the proposal, weighted by
/// the integer square root of the voter's token balance.
pub fn cast_vote(ledger: &mut Ledger, ctx: &CastVote, vote_type: u8) -> (r: Result<(), QvError>)
    requires
        old(ledger).wf(),
    ensures
        final(ledger).wf(),
        old(ledger).tallies_match() ==> final(ledger).tallies_match(),
        cast_vote_outcome(
            *old(ledger),
            *final(ledger),
            ctx.voter@,
            ctx.dao_account@,
            ctx.proposal_account@,
            ctx.voter_token_account,
            vote_type,
            r,
        ),
{
    handlers::cast_vote::handler(ledger, ctx, vote_type)
}

} // verus!
