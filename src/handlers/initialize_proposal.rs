//! Raising a proposal under a DAO.

use vstd::prelude::*;
use crate::ledger::{credits_cast, dao_key, lemma_credits_cast_none, Ledger, ProposalAddress, ProposalSlot};
use crate::state::{Proposal, QvError, VOTE_NO, VOTE_YES};
use crate::InitializeProposal;

verus! {

/// What raising a proposal with `metadata` under the DAO of slot `dao` by
/// `admin` does to the store `pre`. In order: the DAO must exist
/// (`AccountNotInitialized`), `admin` must be its authority (`Unauthorized`),
/// the slot numbered by the DAO's count must be free (`AllocationConflict`)
/// and the count must have room to grow (`ArithmeticOverflow`). On success
/// the new proposal takes that slot with empty tallies and the count grows
/// by one.
pub open spec fn initialize_proposal_outcome(
    pre: Ledger,
    post: Ledger,
    admin: Seq<u8>,
    dao: (Seq<char>, Seq<u8>),
    metadata: Seq<char>,
    r: Result<ProposalAddress, QvError>,
) -> bool {
    if !pre.has_dao(dao) {
        r == Err::<ProposalAddress, QvError>(QvError::AccountNotInitialized) && post == pre
    } else {
        let i = pre.dao_index(dao);
        let d = pre.daos@[i];
        if d.authority@ != admin {
            r == Err::<ProposalAddress, QvError>(QvError::Unauthorized) && post == pre
        } else if pre.has_proposal((dao, d.proposal_count)) {
            r == Err::<ProposalAddress, QvError>(QvError::AllocationConflict) && post == pre
        } else if d.proposal_count == u64::MAX {
            r == Err::<ProposalAddress, QvError>(QvError::ArithmeticOverflow) && post == pre
        } else {
            &&& match r {
                Ok(a) => a@ == (dao, d.proposal_count),
                Err(_) => false,
            }
            &&& post.votes == pre.votes
            &&& post.daos@.len() == pre.daos@.len()
            &&& forall|j: int| 0 <= j < pre.daos@.len() && j != i ==> post.daos@[j] == pre.daos@[j]
            &&& post.daos@[i].name == d.name
            &&& post.daos@[i].authority == d.authority
            &&& post.daos@[i].proposal_count == d.proposal_count + 1
            &&& post.proposals@.len() == pre.proposals@.len() + 1
            &&& post.proposals@.drop_last() == pre.proposals@
            &&& post.proposals@.last().address@ == (dao, d.proposal_count)
            &&& post.proposals@.last().proposal.authority == d.authority
            &&& post.proposals@.last().proposal.metadata@ == metadata
            &&& post.proposals@.last().proposal.yes_vote_count == 0
            &&& post.proposals@.last().proposal.no_vote_count == 0
        }
    }
}

/// Raises a proposal under the DAO, numbered by the DAO's current count,
/// and returns its slot key.
pub fn handler(ledger: &mut Ledger, ctx: &InitializeProposal, metadata: String) -> (r: Result<
    ProposalAddress,
    QvError,
>)
    requires
        old(ledger).wf(),
    ensures
        final(ledger).wf(),
        old(ledger).tallies_match() ==> final(ledger).tallies_match(),
        initialize_proposal_outcome(
            *old(ledger),
            *final(ledger),
            ctx.admin@,
            ctx.dao_account@,
            metadata@,
            r,
        ),
{
    let i = match ledger.find_dao(&ctx.dao_account) {
        None => return Err(QvError::AccountNotInitialized),
        Some(i) => i,
    };
    proof {
        ledger.lemma_dao_index(i as int);
    }
    if !ledger.daos[i].authority.same_as(&ctx.admin) {
        return Err(QvError::Unauthorized);
    }
    let count = ledger.daos[i].proposal_count;
    let address = ProposalAddress { dao: ctx.dao_account.duplicate(), index: count };
    if ledger.find_proposal(&address).is_some() {
        return Err(QvError::AllocationConflict);
    }
    let next = match count.checked_add(1) {
        None => return Err(QvError::ArithmeticOverflow),
        Some(n) => n,
    };
    let authority = ledger.daos[i].authority;
    let ghost pre = *ledger;
    ledger.daos[i].proposal_count = next;
    let slot = ProposalSlot {
        address: address.duplicate(),
        proposal: Proposal { authority, metadata, yes_vote_count: 0, no_vote_count: 0 },
    };
    ledger.proposals.push(slot);
    proof {
        let post = *ledger;
        let k = ctx.dao_account@;
        assert(post.proposals@.drop_last() =~= pre.proposals@);
        assert forall|j: int| 0 <= j < pre.proposals@.len() implies post.proposals@[j]
            == pre.proposals@[j] by {}
        assert forall|j: int| 0 <= j < post.daos@.len() implies dao_key(#[trigger] post.daos@[j])
            == dao_key(pre.daos@[j]) by {}
        assert(post.daos_unique());
        assert(post.proposals_unique());
        assert forall|j: int| 0 <= j < post.proposals@.len() implies {
            let a = (#[trigger] post.proposals@[j]).address@;
            post.has_dao(a.0) && a.1 < post.daos@[post.dao_index(a.0)].proposal_count
        } by {
            let a = post.proposals@[j].address@;
            if j < pre.proposals@.len() {
                let m = pre.dao_index(a.0);
                assert(dao_key(post.daos@[m]) == a.0);
                post.lemma_dao_index(m);
            } else {
                assert(dao_key(post.daos@[i as int]) == a.0);
                post.lemma_dao_index(i as int);
            }
        }
        assert forall|j: int, n: u64|
            0 <= j < post.daos@.len() && n < post.daos@[j].proposal_count implies #[trigger] post.has_proposal(
                (dao_key(#[trigger] post.daos@[j]), n),
            ) by {
            if j == i && n == count {
                assert(post.proposals@.last().address@ == (dao_key(post.daos@[j]), n));
                assert(post.proposals@[post.proposals@.len() - 1].address@ == (
                dao_key(post.daos@[j]), n));
            } else {
                assert(pre.has_proposal((dao_key(pre.daos@[j]), n)));
                let w = choose|w: int|
                    0 <= w < pre.proposals@.len() && (#[trigger] pre.proposals@[w]).address@ == (
                    dao_key(pre.daos@[j]), n);
                assert(post.proposals@[w] == pre.proposals@[w]);
            }
        }
        assert forall|m: int| 0 <= m < post.votes@.len() implies post.has_proposal(
            (#[trigger] post.votes@[m]).proposal@,
        ) by {
            let w = choose|w: int|
                0 <= w < pre.proposals@.len() && (#[trigger] pre.proposals@[w]).address@
                    == pre.votes@[m].proposal@;
            assert(post.proposals@[w] == pre.proposals@[w]);
        }
        assert forall|m: int| 0 <= m < post.votes@.len() implies (
        #[trigger] post.votes@[m]).proposal@ != address@ by {
            if post.votes@[m].proposal@ == address@ {
                assert(pre.has_proposal(pre.votes@[m].proposal@));
            }
        }
        lemma_credits_cast_none(post.votes@, address@, VOTE_YES);
        lemma_credits_cast_none(post.votes@, address@, VOTE_NO);
        if pre.tallies_match() {
            assert forall|m: int| 0 <= m < post.proposals@.len() implies {
                let s = #[trigger] post.proposals@[m];
                &&& s.proposal.yes_vote_count == credits_cast(post.votes@, s.address@, VOTE_YES)
                &&& s.proposal.no_vote_count == credits_cast(post.votes@, s.address@, VOTE_NO)
            } by {
                if m < pre.proposals@.len() {
                    assert(pre.proposals@[m] == post.proposals@[m]);
                }
            }
        }
    }
    Ok(address)
}

} // verus!
