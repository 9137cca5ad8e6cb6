//! The keyed store that holds every record. Each record lives in a slot
//! whose key is fixed by the logical identity of the record, so that a slot
//! can be created only once.

use vstd::prelude::*;
use crate::state::{Dao, Proposal, Pubkey, Vote, VOTE_NO, VOTE_YES};

verus! {

/// The slot key of a DAO: its name and the identity that founded it.
pub struct DaoAddress {
    pub name: String,
    pub admin: Pubkey,
}

impl View for DaoAddress {
    type V = (Seq<char>, Seq<u8>);

    open spec fn view(&self) -> (Seq<char>, Seq<u8>) {
        (self.name@, self.admin@)
    }
}

impl DaoAddress {
    /// A second copy of this address.
    pub fn duplicate(&self) -> (r: DaoAddress)
        ensures
            r@ == self@,
    {
        DaoAddress { name: self.name.clone(), admin: self.admin }
    }
}

/// The slot key of a proposal: the DAO it was raised under and its sequence
/// number there.
pub struct ProposalAddress {
    pub dao: DaoAddress,
    pub index: u64,
}

impl View for ProposalAddress {
    type V = ((Seq<char>, Seq<u8>), u64);

    open spec fn view(&self) -> ((Seq<char>, Seq<u8>), u64) {
        (self.dao@, self.index)
    }
}

impl ProposalAddress {
    /// A second copy of this address.
    pub fn duplicate(&self) -> (r: ProposalAddress)
        ensures
            r@ == self@,
    {
        ProposalAddress { dao: self.dao.duplicate(), index: self.index }
    }
}

/// A stored proposal together with its slot key.
pub struct ProposalSlot {
    pub address: ProposalAddress,
    pub proposal: Proposal,
}

/// A stored vote together with its slot key: the voter and the proposal.
pub struct VoteSlot {
    pub voter: Pubkey,
    pub proposal: ProposalAddress,
    pub vote: Vote,
}

/// The key under which a DAO record is stored.
pub open spec fn dao_key(d: Dao) -> (Seq<char>, Seq<u8>) {
    (d.name@, d.authority@)
}

/// The key under which a vote slot is stored.
pub open spec fn vote_key(v: VoteSlot) -> (Seq<u8>, ((Seq<char>, Seq<u8>), u64)) {
    (v.voter@, v.proposal@)
}

/// The credits of the votes of `vote_type` among `votes` that were cast on
/// the proposal of slot `k`.
pub open spec fn credits_cast(
    votes: Seq<VoteSlot>,
    k: ((Seq<char>, Seq<u8>), u64),
    vote_type: u8,
) -> int
    decreases votes.len(),
{
    if votes.len() == 0 {
        0
    } else {
        let v = votes.last();
        credits_cast(votes.drop_last(), k, vote_type) + if v.proposal@ == k && v.vote.vote_type
            == vote_type {
            v.vote.credits as int
        } else {
            0
        }
    }
}

/// No vote among `votes` was cast on the proposal of slot `k`, so none of
/// their credits count for it.
pub proof fn lemma_credits_cast_none(
    votes: Seq<VoteSlot>,
    k: ((Seq<char>, Seq<u8>), u64),
    vote_type: u8,
)
    requires
        forall|i: int| 0 <= i < votes.len() ==> (#[trigger] votes[i]).proposal@ != k,
    ensures
        credits_cast(votes, k, vote_type) == 0,
    decreases votes.len(),
{
    if votes.len() > 0 {
        let rest = votes.drop_last();
        assert forall|i: int| 0 <= i < rest.len() implies (#[trigger] rest[i]).proposal@ != k by {
            assert(rest[i] == votes[i]);
        }
        lemma_credits_cast_none(rest, k, vote_type);
        assert(votes[votes.len() - 1].proposal@ != k);
    }
}

/// All records of the system, each in its own slot.
pub struct Ledger {
    pub daos: Vec<Dao>,
    pub proposals: Vec<ProposalSlot>,
    pub votes: Vec<VoteSlot>,
}

impl Ledger {
    /// Some DAO occupies the slot `k`.
    pub open spec fn has_dao(self, k: (Seq<char>, Seq<u8>)) -> bool {
        exists|i: int| 0 <= i < self.daos@.len() && dao_key(#[trigger] self.daos@[i]) == k
    }

    /// Where the DAO of slot `k` is held, when there is one.
    pub open spec fn dao_index(self, k: (Seq<char>, Seq<u8>)) -> int {
        choose|i: int| 0 <= i < self.daos@.len() && dao_key(#[trigger] self.daos@[i]) == k
    }

    /// Some proposal occupies the slot `k`.
    pub open spec fn has_proposal(self, k: ((Seq<char>, Seq<u8>), u64)) -> bool {
        exists|i: int| 0 <= i < self.proposals@.len() && (#[trigger] self.proposals@[i]).address@ == k
    }

    /// Where the proposal of slot `k` is held, when there is one.
    pub open spec fn proposal_index(self, k: ((Seq<char>, Seq<u8>), u64)) -> int {
        choose|i: int| 0 <= i < self.proposals@.len() && (#[trigger] self.proposals@[i]).address@ == k
    }

    /// Some vote occupies the slot `k`.
    pub open spec fn has_vote(self, k: (Seq<u8>, ((Seq<char>, Seq<u8>), u64))) -> bool {
        exists|i: int| 0 <= i < self.votes@.len() && vote_key(#[trigger] self.votes@[i]) == k
    }

    /// No two DAOs share a slot.
    pub open spec fn daos_unique(self) -> bool {
        forall|i: int, j: int|
            0 <= i < self.daos@.len() && 0 <= j < self.daos@.len() && i != j ==> dao_key(
                #[trigger] self.daos@[i],
            ) != dao_key(#[trigger] self.daos@[j])
    }

    /// No two proposals share a slot.
    pub open spec fn proposals_unique(self) -> bool {
        forall|i: int, j: int|
            0 <= i < self.proposals@.len() && 0 <= j < self.proposals@.len() && i != j
                ==> (#[trigger] self.proposals@[i]).address@ != (
            #[trigger] self.proposals@[j]).address@
    }

    /// No two votes share a slot.
    pub open spec fn votes_unique(self) -> bool {
        forall|i: int, j: int|
            0 <= i < self.votes@.len() && 0 <= j < self.votes@.len() && i != j ==> vote_key(
                #[trigger] self.votes@[i],
            ) != vote_key(#[trigger] self.votes@[j])
    }

    /// Every proposal sits under an existing DAO, numbered below its count.
    pub open spec fn proposals_placed(self) -> bool {
        forall|i: int|
            0 <= i < self.proposals@.len() ==> {
                let a = (#[trigger] self.proposals@[i]).address@;
                self.has_dao(a.0) && a.1 < self.daos@[self.dao_index(a.0)].proposal_count
            }
    }

    /// Every number below a DAO's count addresses one of its proposals.
    pub open spec fn proposals_complete(self) -> bool {
        forall|i: int, n: u64|
            0 <= i < self.daos@.len() && n < self.daos@[i].proposal_count ==> #[trigger] self.has_proposal(
                (dao_key(#[trigger] self.daos@[i]), n),
            )
    }

    /// Every vote was cast on an existing proposal.
    pub open spec fn votes_placed(self) -> bool {
        forall|i: int| 0 <= i < self.votes@.len() ==> self.has_proposal((#[trigger] self.votes@[i]).proposal@)
    }

    /// The store is well formed: no two records share a slot, the proposals
    /// under each DAO are exactly those numbered below its count, and every
    /// vote refers to a proposal.
    pub open spec fn wf(self) -> bool {
        &&& self.daos_unique()
        &&& self.proposals_unique()
        &&& self.votes_unique()
        &&& self.proposals_placed()
        &&& self.proposals_complete()
        &&& self.votes_placed()
    }

    /// Each proposal's yes and no tallies are the credits of the yes and no
    /// votes cast on it.
    pub open spec fn tallies_match(self) -> bool {
        forall|i: int|
            0 <= i < self.proposals@.len() ==> {
                let s = #[trigger] self.proposals@[i];
                &&& s.proposal.yes_vote_count == credits_cast(self.votes@, s.address@, VOTE_YES)
                &&& s.proposal.no_vote_count == credits_cast(self.votes@, s.address@, VOTE_NO)
            }
    }

    /// Where DAO slots are unique, the DAO held at `i` is the one found under its key.
    pub proof fn lemma_dao_index(self, i: int)
        requires
            self.daos_unique(),
            0 <= i < self.daos@.len(),
        ensures
            self.has_dao(dao_key(self.daos@[i])),
            self.dao_index(dao_key(self.daos@[i])) == i,
    {
        let k = dao_key(self.daos@[i]);
        assert(self.has_dao(k));
        let j = self.dao_index(k);
        assert(dao_key(self.daos@[j]) == k);
    }

    /// Where proposal slots are unique, the proposal held at `i` is the one found under its key.
    pub proof fn lemma_proposal_index(self, i: int)
        requires
            self.proposals_unique(),
            0 <= i < self.proposals@.len(),
        ensures
            self.has_proposal(self.proposals@[i].address@),
            self.proposal_index(self.proposals@[i].address@) == i,
    {
        let k = self.proposals@[i].address@;
        assert(self.has_proposal(k));
        let j = self.proposal_index(k);
        assert(self.proposals@[j].address@ == k);
    }

    /// An empty store.
    pub fn new() -> (r: Ledger)
        ensures
            r.wf(),
            r.tallies_match(),
            r.daos@.len() == 0,
            r.proposals@.len() == 0,
            r.votes@.len() == 0,
    {
        Ledger { daos: Vec::new(), proposals: Vec::new(), votes: Vec::new() }
    }

    /// Looks up the DAO held in slot `address`.
    pub fn find_dao(&self, address: &DaoAddress) -> (r: Option<usize>)
        ensures
            match r {
                Some(i) => i < self.daos@.len() && dao_key(self.daos@[i as int]) == address@,
                None => !self.has_dao(address@),
            },
    {
        let mut i: usize = 0;
        while i < self.daos.len()
            invariant
                i <= self.daos@.len(),
                forall|j: int| 0 <= j < i ==> dao_key(#[trigger] self.daos@[j]) != address@,
            decreases self.daos@.len() - i,
        {
            if self.daos[i].name == address.name && self.daos[i].authority.same_as(&address.admin) {
                return Some(i);
            }
            i = i + 1;
        }
        None
    }

    /// Looks up the proposal held in slot `address`.
    pub fn find_proposal(&self, address: &ProposalAddress) -> (r: Option<usize>)
        ensures
            match r {
                Some(i) => i < self.proposals@.len() && self.proposals@[i as int].address@
                    == address@,
                None => !self.has_proposal(address@),
            },
    {
        let mut i: usize = 0;
        while i < self.proposals.len()
            invariant
                i <= self.proposals@.len(),
                forall|j: int| 0 <= j < i ==> (#[trigger] self.proposals@[j]).address@ != address@,
            decreases self.proposals@.len() - i,
        {
            let a = &self.proposals[i].address;
            if a.index == address.index && a.dao.name == address.dao.name && a.dao.admin.same_as(
                &address.dao.admin,
            ) {
                return Some(i);
            }
            i = i + 1;
        }
        None
    }

    /// Looks up the vote that `voter` cast on the proposal in slot `proposal`.
    pub fn find_vote(&self, voter: &Pubkey, proposal: &ProposalAddress) -> (r: Option<usize>)
        ensures
            match r {
                Some(i) => i < self.votes@.len() && vote_key(self.votes@[i as int]) == (
                voter@, proposal@),
                None => !self.has_vote((voter@, proposal@)),
            },
    {
        let mut i: usize = 0;
        while i < self.votes.len()
            invariant
                i <= self.votes@.len(),
                forall|j: int| 0 <= j < i ==> vote_key(#[trigger] self.votes@[j]) != (voter@, proposal@),
            decreases self.votes@.len() - i,
        {
            let v = &self.votes[i];
            if v.voter.same_as(voter) && v.proposal.index == proposal.index && v.proposal.dao.name
                == proposal.dao.name && v.proposal.dao.admin.same_as(&proposal.dao.admin) {
                return Some(i);
            }
            i = i + 1;
        }
        None
    }

    /// The DAO in slot `address`, if there is one.
    pub fn dao(&self, address: &DaoAddress) -> (r: Option<&Dao>)
        requires
            self.wf(),
        ensures
            match r {
                Some(d) => self.has_dao(address@) && *d == self.daos@[self.dao_index(address@)],
                None => !self.has_dao(address@),
            },
    {
        match self.find_dao(address) {
            Some(i) => {
                proof {
                    self.lemma_dao_index(i as int);
                }
                Some(&self.daos[i])
            },
            None => None,
        }
    }

    /// The proposal in slot `address`, if there is one.
    pub fn proposal(&self, address: &ProposalAddress) -> (r: Option<&Proposal>)
        requires
            self.wf(),
        ensures
            match r {
                Some(p) => self.has_proposal(address@) && *p == self.proposals@[self.proposal_index(
                    address@,
                )].proposal,
                None => !self.has_proposal(address@),
            },
    {
        match self.find_proposal(address) {
            Some(i) => {
                proof {
                    self.lemma_proposal_index(i as int);
                }
                Some(&self.proposals[i].proposal)
            },
            None => None,
        }
    }

    /// The vote that `voter` cast on the proposal in slot `proposal`, if any.
    pub fn vote(&self, voter: &Pubkey, proposal: &ProposalAddress) -> (r: Option<&Vote>)
        requires
            self.wf(),
        ensures
            match r {
                Some(v) => exists|i: int|
                    0 <= i < self.votes@.len() && vote_key(#[trigger] self.votes@[i]) == (
                    voter@, proposal@) && *v == self.votes@[i].vote,
                None => !self.has_vote((voter@, proposal@)),
            },
    {
        match self.find_vote(voter, proposal) {
            Some(i) => Some(&self.votes[i].vote),
            None => None,
        }
    }

    /// How many proposals have been raised in total.
    pub fn proposal_total(&self) -> (r: usize)
        ensures
            r == self.proposals@.len(),
    {
        self.proposals.len()
    }

    /// How many votes have been cast in total.
    pub fn vote_total(&self) -> (r: usize)
        ensures
            r == self.votes@.len(),
    {
        self.votes.len()
    }
}

} // verus!
