//! Properties that relate several transitions, proved over the transition
//! relations that the entry points guarantee.

use vstd::prelude::*;
use crate::credits::floor_sqrt;
use crate::handlers::cast_vote::cast_vote_outcome;
use crate::handlers::initialize_dao::initialize_dao_outcome;
use crate::handlers::initialize_proposal::initialize_proposal_outcome;
use crate::ledger::{dao_key, vote_key, Ledger, ProposalAddress};
use crate::state::{QvError, TokenAccount, VOTE_NO, VOTE_YES};

verus! {

/// Founding the same DAO twice: once the first founding of `name` by `admin`
/// has succeeded, a second one fails with `AllocationConflict` and leaves the
/// store, and so the first DAO, as it was.
pub proof fn lemma_dao_reinit_conflicts(
    l0: Ledger,
    l1: Ledger,
    l2: Ledger,
    admin: Seq<u8>,
    name: Seq<char>,
    r1: Result<(), QvError>,
    r2: Result<(), QvError>,
)
    requires
        initialize_dao_outcome(l0, l1, admin, name, r1),
        r1 is Ok,
        initialize_dao_outcome(l1, l2, admin, name, r2),
    ensures
        r2 == Err::<(), QvError>(QvError::AllocationConflict),
        l2 == l1,
{
    let last = l1.daos@.len() - 1;
    assert(dao_key(l1.daos@[last]) == (name, admin));
    assert(l1.has_dao((name, admin)));
}

/// Raising a proposal as anyone but the DAO's authority fails with
/// `Unauthorized`, creates no proposal and leaves the DAO's count unchanged.
pub proof fn lemma_proposal_needs_authority(
    pre: Ledger,
    post: Ledger,
    admin: Seq<u8>,
    dao: (Seq<char>, Seq<u8>),
    metadata: Seq<char>,
    r: Result<ProposalAddress, QvError>,
)
    requires
        initialize_proposal_outcome(pre, post, admin, dao, metadata, r),
        pre.has_dao(dao),
        pre.daos@[pre.dao_index(dao)].authority@ != admin,
    ensures
        r == Err::<ProposalAddress, QvError>(QvError::Unauthorized),
        post == pre,
{
}

/// How many of the results are successes.
pub open spec fn count_ok(rs: Seq<Result<ProposalAddress, QvError>>) -> nat
    decreases rs.len(),
{
    if rs.len() == 0 {
        0
    } else {
        count_ok(rs.drop_last()) + if rs.last() is Ok {
            1nat
        } else {
            0nat
        }
    }
}

/// The proposal count of the DAO in slot `dao`.
pub open spec fn dao_count(l: Ledger, dao: (Seq<char>, Seq<u8>)) -> int {
    l.daos@[l.dao_index(dao)].proposal_count as int
}

/// One attempt to raise a proposal: the DAO stays, its count grows by one
/// exactly when the attempt succeeds, and a success is numbered by the count
/// before it.
pub proof fn lemma_proposal_step(
    pre: Ledger,
    post: Ledger,
    admin: Seq<u8>,
    dao: (Seq<char>, Seq<u8>),
    metadata: Seq<char>,
    r: Result<ProposalAddress, QvError>,
)
    requires
        post.daos_unique(),
        pre.has_dao(dao),
        initialize_proposal_outcome(pre, post, admin, dao, metadata, r),
    ensures
        post.has_dao(dao),
        dao_count(post, dao) == dao_count(pre, dao) + if r is Ok {
            1int
        } else {
            0int
        },
        match r {
            Ok(a) => a@ == (dao, dao_count(pre, dao) as u64),
            Err(_) => true,
        },
{
    if r is Ok {
        let i = pre.dao_index(dao);
        assert(dao_key(post.daos@[i]) == dao);
        post.lemma_dao_index(i);
    }
}

/// Successive attempts to raise proposals under one DAO: the `k`-th success
/// is numbered by the DAO's starting count plus the successes before it (so
/// 0, 1, 2, ... for a new DAO), and afterwards the count has grown by the
/// number of successes.
pub proof fn lemma_proposals_numbered_in_order(
    ls: Seq<Ledger>,
    admin: Seq<u8>,
    dao: (Seq<char>, Seq<u8>),
    metadata: Seq<Seq<char>>,
    rs: Seq<Result<ProposalAddress, QvError>>,
)
    requires
        ls.len() == rs.len() + 1,
        metadata.len() == rs.len(),
        forall|k: int| 0 <= k < ls.len() ==> (#[trigger] ls[k]).wf(),
        ls[0].has_dao(dao),
        forall|k: int|
            0 <= k < rs.len() ==> initialize_proposal_outcome(
                ls[k],
                ls[k + 1],
                admin,
                dao,
                metadata[k],
                #[trigger] rs[k],
            ),
    ensures
        ls.last().has_dao(dao),
        dao_count(ls.last(), dao) == dao_count(ls[0], dao) + count_ok(rs),
        forall|k: int|
            0 <= k < rs.len() ==> match #[trigger] rs[k] {
                Ok(a) => a@ == (dao, (dao_count(ls[0], dao) + count_ok(rs.take(k))) as u64),
                Err(_) => true,
            },
    decreases rs.len(),
{
    if rs.len() > 0 {
        let n = rs.len() - 1;
        let ls0 = ls.drop_last();
        let rs0 = rs.drop_last();
        let md0 = metadata.drop_last();
        assert forall|k: int| 0 <= k < rs0.len() implies initialize_proposal_outcome(
            ls0[k],
            ls0[k + 1],
            admin,
            dao,
            md0[k],
            #[trigger] rs0[k],
        ) by {
            assert(initialize_proposal_outcome(ls[k], ls[k + 1], admin, dao, metadata[k], rs[k]));
        }
        assert forall|k: int| 0 <= k < ls0.len() implies (#[trigger] ls0[k]).wf() by {
            assert(ls[k].wf());
        }
        lemma_proposals_numbered_in_order(ls0, admin, dao, md0, rs0);
        assert(ls0.last() == ls[n]);
        assert(initialize_proposal_outcome(ls[n], ls[n + 1], admin, dao, metadata[n], rs[n]));
        assert(ls[n + 1].wf());
        assert(ls[n + 1].daos_unique());
        lemma_proposal_step(ls[n], ls[n + 1], admin, dao, metadata[n], rs[n]);
        assert(rs.take(n) =~= rs0);
        assert forall|k: int| 0 <= k < rs.len() implies match #[trigger] rs[k] {
            Ok(a) => a@ == (dao, (dao_count(ls[0], dao) + count_ok(rs.take(k))) as u64),
            Err(_) => true,
        } by {
            if k < n {
                assert(rs0[k] == rs[k]);
                assert(rs0.take(k) =~= rs.take(k));
            }
        }
    }
}

/// A vote whose type is neither 0 nor 1 always fails, recording no vote and
/// leaving every tally as it was; once the DAO and proposal exist, the voter
/// has not voted on it and holds the token account, the failure is
/// `InvalidVoteType`.
pub proof fn lemma_invalid_vote_type_rejected(
    pre: Ledger,
    post: Ledger,
    voter: Seq<u8>,
    dao: (Seq<char>, Seq<u8>),
    proposal: ((Seq<char>, Seq<u8>), u64),
    token: TokenAccount,
    vote_type: u8,
    r: Result<(), QvError>,
)
    requires
        cast_vote_outcome(pre, post, voter, dao, proposal, token, vote_type, r),
        vote_type != VOTE_NO,
        vote_type != VOTE_YES,
    ensures
        r is Err,
        post == pre,
        pre.has_dao(dao) && pre.has_proposal(proposal) && !pre.has_vote((voter, proposal))
            && token.owner@ == voter ==> r == Err::<(), QvError>(QvError::InvalidVoteType),
{
}

/// A voter votes on a proposal at most once: after a successful vote, worth
/// the integer square root of the balance and recorded under the voter and
/// the proposal, a second vote by the same voter on the same proposal fails
/// with `AllocationConflict` and leaves the tallies as the first vote left
/// them.
pub proof fn lemma_second_vote_conflicts(
    l0: Ledger,
    l1: Ledger,
    l2: Ledger,
    voter: Seq<u8>,
    dao: (Seq<char>, Seq<u8>),
    proposal: ((Seq<char>, Seq<u8>), u64),
    token1: TokenAccount,
    token2: TokenAccount,
    vote_type1: u8,
    vote_type2: u8,
    r1: Result<(), QvError>,
    r2: Result<(), QvError>,
)
    requires
        cast_vote_outcome(l0, l1, voter, dao, proposal, token1, vote_type1, r1),
        r1 is Ok,
        cast_vote_outcome(l1, l2, voter, dao, proposal, token2, vote_type2, r2),
    ensures
        l1.votes@.last().vote.credits == floor_sqrt(token1.amount as int),
        r2 == Err::<(), QvError>(QvError::AllocationConflict),
        l2 == l1,
{
    let last = l1.votes@.len() - 1;
    assert(vote_key(l1.votes@[last]) == (voter, proposal));
    assert(l1.has_vote((voter, proposal)));
    assert(l1.has_proposal(proposal)) by {
        let j = l0.proposal_index(proposal);
        assert(l1.proposals@[j].address@ == proposal);
    }
}

/// A vote whose credits would carry the chosen tally past the range of a
/// `u64` fails with `ArithmeticOverflow` and leaves the store, and so the
/// tally, as it was.
pub proof fn lemma_tally_overflow_rejected(
    pre: Ledger,
    post: Ledger,
    voter: Seq<u8>,
    dao: (Seq<char>, Seq<u8>),
    proposal: ((Seq<char>, Seq<u8>), u64),
    token: TokenAccount,
    vote_type: u8,
    r: Result<(), QvError>,
)
    requires
        cast_vote_outcome(pre, post, voter, dao, proposal, token, vote_type, r),
        pre.has_dao(dao),
        pre.has_proposal(proposal),
        !pre.has_vote((voter, proposal)),
        token.owner@ == voter,
        vote_type == VOTE_NO || vote_type == VOTE_YES,
        ({
            let p = pre.proposals@[pre.proposal_index(proposal)].proposal;
            let tally = if vote_type == VOTE_YES {
                p.yes_vote_count
            } else {
                p.no_vote_count
            };
            tally + floor_sqrt(token.amount as int) > u64::MAX
        }),
    ensures
        r == Err::<(), QvError>(QvError::ArithmeticOverflow),
        post == pre,
{
}

} // verus!
