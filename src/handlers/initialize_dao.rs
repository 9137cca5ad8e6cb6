//! Founding a DAO.

use vstd::prelude::*;
use crate::ledger::{dao_key, DaoAddress, Ledger};
use crate::state::{Dao, QvError};
use crate::InitializeDao;

verus! {

/// What founding a DAO named `name` by `admin` does to the store `pre`: it
/// fails with `AllocationConflict` when that slot is taken, and otherwise
/// appends the new DAO with no proposals.
pub open spec fn initialize_dao_outcome(
    pre: Ledger,
    post: Ledger,
    admin: Seq<u8>,
    name: Seq<char>,
    r: Result<(), QvError>,
) -> bool {
    if pre.has_dao((name, admin)) {
        r == Err::<(), QvError>(QvError::AllocationConflict) && post == pre
    } else {
        &&& r == Ok::<(), QvError>(())
        &&& post.proposals == pre.proposals
        &&& post.votes == pre.votes
        &&& post.daos@.len() == pre.daos@.len() + 1
        &&& post.daos@.drop_last() == pre.daos@
        &&& post.daos@.last().name@ == name
        &&& post.daos@.last().authority@ == admin
        &&& post.daos@.last().proposal_count == 0
    }
}

/// Founds the DAO `name` with the signer as its authority.
pub fn handler(ledger: &mut Ledger, ctx: &InitializeDao, name: String) -> (r: Result<(), QvError>)
    requires
        old(ledger).wf(),
    ensures
        final(ledger).wf(),
        old(ledger).tallies_match() ==> final(ledger).tallies_match(),
        initialize_dao_outcome(*old(ledger), *final(ledger), ctx.admin@, name@, r),
{
    let address = DaoAddress { name, admin: ctx.admin };
    if ledger.find_dao(&address).is_some() {
        return Err(QvError::AllocationConflict);
    }
    let ghost pre = *ledger;
    ledger.daos.push(Dao { name: address.name, authority: ctx.admin, proposal_count: 0 });
    proof {
        let post = *ledger;
        assert(post.daos@.drop_last() =~= pre.daos@);
        assert forall|i: int| 0 <= i < pre.daos@.len() implies post.daos@[i] == pre.daos@[i] by {}
        assert(post.daos_unique());
        assert forall|i: int| 0 <= i < post.proposals@.len() implies {
            let a = (#[trigger] post.proposals@[i]).address@;
            post.has_dao(a.0) && a.1 < post.daos@[post.dao_index(a.0)].proposal_count
        } by {
            let a = post.proposals@[i].address@;
            assert(pre.proposals@[i] == post.proposals@[i]);
            let j = pre.dao_index(a.0);
            assert(dao_key(post.daos@[j]) == a.0);
            post.lemma_dao_index(j);
        }
        assert forall|i: int, n: u64|
            0 <= i < post.daos@.len() && n < post.daos@[i].proposal_count implies #[trigger] post.has_proposal(
                (dao_key(#[trigger] post.daos@[i]), n),
            ) by {
            assert(i < pre.daos@.len());
            assert(pre.has_proposal((dao_key(pre.daos@[i]), n)));
        }
    }
    Ok(())
}

} // verus!
