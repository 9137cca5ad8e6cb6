//! Casting a vote on a proposal.

use vstd::prelude::*;
use crate::credits::floor_sqrt;
use crate::ledger::{dao_key, vote_key, Ledger, VoteSlot};
use crate::state::{QvError, TokenAccount, Vote, VOTE_NO, VOTE_YES};
use crate::CastVote;

pub use crate::credits::quadratic_sqrt;

verus! {

/// What a vote of `vote_type` by `voter`, holding `token`, on the proposal of
/// slot `proposal` (with the DAO of slot `dao` named alongside) does to the
/// store `pre`. In order: the DAO and the proposal must exist
/// (`AccountNotInitialized`), the voter must not have voted on it yet
/// (`AllocationConflict`), the token holding must be the voter's
/// (`Unauthorized`), the vote type must be 0 or 1 (`InvalidVoteType`) and the
/// chosen tally must have room for the credits (`ArithmeticOverflow`). On
/// success a vote worth the integer square root of the balance is recorded
/// and added to the chosen tally.
pub open spec fn cast_vote_outcome(
    pre: Ledger,
    post: Ledger,
    voter: Seq<u8>,
    dao: (Seq<char>, Seq<u8>),
    proposal: ((Seq<char>, Seq<u8>), u64),
    token: TokenAccount,
    vote_type: u8,
    r: Result<(), QvError>,
) -> bool {
    if !pre.has_dao(dao) || !pre.has_proposal(proposal) {
        r == Err::<(), QvError>(QvError::AccountNotInitialized) && post == pre
    } else if pre.has_vote((voter, proposal)) {
        r == Err::<(), QvError>(QvError::AllocationConflict) && post == pre
    } else if token.owner@ != voter {
        r == Err::<(), QvError>(QvError::Unauthorized) && post == pre
    } else if vote_type != VOTE_NO && vote_type != VOTE_YES {
        r == Err::<(), QvError>(QvError::InvalidVoteType) && post == pre
    } else {
        let j = pre.proposal_index(proposal);
        let p = pre.proposals@[j].proposal;
        let credits = floor_sqrt(token.amount as int);
        let yes = if vote_type == VOTE_YES { p.yes_vote_count + credits } else { p.yes_vote_count as int };
        let no = if vote_type == VOTE_NO { p.no_vote_count + credits } else { p.no_vote_count as int };
        if yes > u64::MAX || no > u64::MAX {
            r == Err::<(), QvError>(QvError::ArithmeticOverflow) && post == pre
        } else {
            &&& r == Ok::<(), QvError>(())
            &&& post.daos == pre.daos
            &&& post.proposals@.len() == pre.proposals@.len()
            &&& forall|m: int|
                0 <= m < pre.proposals@.len() && m != j ==> post.proposals@[m] == pre.proposals@[m]
            &&& post.proposals@[j].address == pre.proposals@[j].address
            &&& post.proposals@[j].proposal.authority == p.authority
            &&& post.proposals@[j].proposal.metadata == p.metadata
            &&& post.proposals@[j].proposal.yes_vote_count == yes
            &&& post.proposals@[j].proposal.no_vote_count == no
            &&& post.votes@.len() == pre.votes@.len() + 1
            &&& post.votes@.drop_last() == pre.votes@
            &&& vote_key(post.votes@.last()) == (voter, proposal)
            &&& post.votes@.last().vote.authority@ == voter
            &&& post.votes@.last().vote.vote_type == vote_type
            &&& post.votes@.last().vote.credits == credits
        }
    }
}

/// Records the voter's vote on the proposal, worth the integer square root
/// of the voter's token balance, and adds it to the yes or no tally.
pub fn handler(ledger: &mut Ledger, ctx: &CastVote, vote_type: u8) -> (r: Result<(), QvError>)
    requires
        old(ledger).wf(),
    ensures
        final(ledger).wf(),
        old(ledger).tallies_match() ==> final(ledger).tallies_match(),
        cast_vote_outcome(
            *old(ledger),
            *final(ledger),
            ctx.voter@,
            ctx.dao_account@,
            ctx.proposal_account@,
            ctx.voter_token_account,
            vote_type,
            r,
        ),
{
    if ledger.find_dao(&ctx.dao_account).is_none() {
        return Err(QvError::AccountNotInitialized);
    }
    let j = match ledger.find_proposal(&ctx.proposal_account) {
        None => return Err(QvError::AccountNotInitialized),
        Some(j) => j,
    };
    proof {
        ledger.lemma_proposal_index(j as int);
    }
    if ledger.find_vote(&ctx.voter, &ctx.proposal_account).is_some() {
        return Err(QvError::AllocationConflict);
    }
    if !ctx.voter_token_account.owner.same_as(&ctx.voter) {
        return Err(QvError::Unauthorized);
    }
    if vote_type != VOTE_NO && vote_type != VOTE_YES {
        return Err(QvError::InvalidVoteType);
    }
    let credits = quadratic_sqrt(ctx.voter_token_account.amount);
    let ghost pre = *ledger;
    if vote_type == VOTE_YES {
        match ledger.proposals[j].proposal.yes_vote_count.checked_add(credits) {
            None => return Err(QvError::ArithmeticOverflow),
            Some(n) => {
                ledger.proposals[j].proposal.yes_vote_count = n;
            },
        }
    } else {
        match ledger.proposals[j].proposal.no_vote_count.checked_add(credits) {
            None => return Err(QvError::ArithmeticOverflow),
            Some(n) => {
                ledger.proposals[j].proposal.no_vote_count = n;
            },
        }
    }
    let slot = VoteSlot {
        voter: ctx.voter,
        proposal: ctx.proposal_account.duplicate(),
        vote: Vote { authority: ctx.voter, vote_type, credits },
    };
    ledger.votes.push(slot);
    proof {
        let post = *ledger;
        assert(post.votes@.drop_last() =~= pre.votes@);
        assert forall|m: int| 0 <= m < pre.votes@.len() implies post.votes@[m] == pre.votes@[m] by {}
        assert forall|m: int| 0 <= m < post.proposals@.len() implies (
        #[trigger] post.proposals@[m]).address@ == pre.proposals@[m].address@ by {}
        assert(post.proposals_unique());
        assert(post.votes_unique());
        assert forall|m: int| 0 <= m < post.proposals@.len() implies {
            let a = (#[trigger] post.proposals@[m]).address@;
            post.has_dao(a.0) && a.1 < post.daos@[post.dao_index(a.0)].proposal_count
        } by {
            assert(pre.proposals@[m].address@ == post.proposals@[m].address@);
        }
        assert forall|i: int, n: u64|
            0 <= i < post.daos@.len() && n < post.daos@[i].proposal_count implies #[trigger] post.has_proposal(
                (dao_key(#[trigger] post.daos@[i]), n),
            ) by {
            assert(pre.has_proposal((dao_key(pre.daos@[i]), n)));
            let w = choose|w: int|
                0 <= w < pre.proposals@.len() && (#[trigger] pre.proposals@[w]).address@ == (
                dao_key(pre.daos@[i]), n);
            assert(post.proposals@[w].address@ == pre.proposals@[w].address@);
        }
    }
    Ok(())
}

} // verus!
