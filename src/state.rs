//! The persisted records and the identities that own them.

use vstd::prelude::*;

verus! {

/// A 32-byte public key identifying an account holder.
#[derive(Clone, Copy, Debug)]
pub struct Pubkey {
    pub bytes: [u8; 32],
}

impl View for Pubkey {
    type V = Seq<u8>;

    open spec fn view(&self) -> Seq<u8> {
        self.bytes@
    }
}

impl Pubkey {
    /// Two keys are the same identity when their bytes agree.
    pub fn same_as(&self, other: &Pubkey) -> (r: bool)
        ensures
            r == (self@ == other@),
    {
        let mut i: usize = 0;
        while i < 32
            invariant
                0 <= i <= 32,
                self@.len() == 32,
                other@.len() == 32,
                forall|j: int| 0 <= j < i ==> self@[j] == other@[j],
            decreases 32 - i,
        {
            if self.bytes[i] != other.bytes[i] {
                return false;
            }
            i = i + 1;
        }
        assert(self@ =~= other@);
        true
    }
}

impl PartialEq for Pubkey {
    fn eq(&self, other: &Pubkey) -> (r: bool) {
        self.same_as(other)
    }
}

impl vstd::std_specs::cmp::PartialEqSpecImpl for Pubkey {
    open spec fn obeys_eq_spec() -> bool {
        true
    }

    open spec fn eq_spec(&self, other: &Pubkey) -> bool {
        self@ == other@
    }
}

impl Eq for Pubkey {
}

/// An organisation: its name, the identity allowed to raise proposals under
/// it, and how many proposals it has raised so far.
pub struct Dao {
    pub name: String,
    pub authority: Pubkey,
    pub proposal_count: u64,
}

/// A proposal raised under a DAO, with its two running tallies.
pub struct Proposal {
    pub authority: Pubkey,
    pub metadata: String,
    pub yes_vote_count: u64,
    pub no_vote_count: u64,
}

/// A cast vote: who cast it, which way (0 is "no", 1 is "yes"), and the
/// credits it carried.
pub struct Vote {
    pub authority: Pubkey,
    pub vote_type: u8,
    pub credits: u64,
}

/// A token holding as read from the custody system: its owner and balance.
#[derive(Clone, Copy, Debug)]
pub struct TokenAccount {
    pub owner: Pubkey,
    pub amount: u64,
}

/// Vote type for a vote against a proposal.
pub const VOTE_NO: u8 = 0;

/// Vote type for a vote in favour of a proposal.
pub const VOTE_YES: u8 = 1;

/// Why a transition was rejected. A rejected transition changes nothing.
#[derive(Clone, Copy, Debug, PartialEq, Eq, Structural)]
pub enum QvError {
    /// The vote type was neither 0 nor 1.
    InvalidVoteType,
    /// Declared for a minimum balance rule; no transition raises it.
    InsufficientTokens,
    /// The signer is not the identity that the record names.
    Unauthorized,
    /// A counter or tally would exceed the range of a `u64`.
    ArithmeticOverflow,
    /// The slot that the transition would create is already taken.
    AllocationConflict,
    /// A record that the transition refers to does not exist.
    AccountNotInitialized,
}

} // verus!
