use quadratic_voting::handlers::cast_vote::quadratic_sqrt;
use quadratic_voting::ledger::{DaoAddress, Ledger, ProposalAddress, ProposalSlot};
use quadratic_voting::state::{Dao, Proposal, Pubkey, QvError, TokenAccount};
use quadratic_voting::{cast_vote, initialize_dao, initialize_proposal};
use quadratic_voting::{CastVote, InitializeDao, InitializeProposal};

fn key(b: u8) -> Pubkey {
    Pubkey { bytes: [b; 32] }
}

fn dao_address(name: &str, admin: Pubkey) -> DaoAddress {
    DaoAddress { name: name.to_string(), admin }
}

fn proposal_address(name: &str, admin: Pubkey, index: u64) -> ProposalAddress {
    ProposalAddress { dao: dao_address(name, admin), index }
}

fn found(ledger: &mut Ledger, name: &str, admin: Pubkey) {
    initialize_dao(ledger, &InitializeDao { admin }, name.to_string()).unwrap();
}

fn raise(ledger: &mut Ledger, name: &str, admin: Pubkey, signer: Pubkey, metadata: &str) -> Result<ProposalAddress, QvError> {
    let ctx = InitializeProposal { admin: signer, dao_account: dao_address(name, admin) };
    initialize_proposal(ledger, &ctx, metadata.to_string())
}

fn vote(ledger: &mut Ledger, voter: Pubkey, balance: u64, name: &str, admin: Pubkey, index: u64, vote_type: u8) -> Result<(), QvError> {
    let ctx = CastVote {
        voter,
        dao_account: dao_address(name, admin),
        proposal_account: proposal_address(name, admin, index),
        voter_token_account: TokenAccount { owner: voter, amount: balance },
    };
    cast_vote(ledger, &ctx, vote_type)
}

#[test]
fn sqrt_examples() {
    let cases: [(u64, u64); 8] = [(0, 0), (1, 1), (2, 1), (3, 1), (4, 2), (16, 4), (17, 4), (10_000, 100)];
    for (t, r) in cases {
        assert_eq!(quadratic_sqrt(t), r);
    }
}

#[test]
fn sqrt_floor_property_on_range() {
    for t in 0u64..5000 {
        let r = quadratic_sqrt(t);
        assert!(r * r <= t);
        assert!(t < (r + 1) * (r + 1));
    }
}

#[test]
fn sqrt_largest_balance() {
    assert_eq!(quadratic_sqrt(u64::MAX), 4_294_967_295);
    assert_eq!(quadratic_sqrt(u64::MAX - 1), 4_294_967_295);
    let big: u64 = 4_294_967_295 * 4_294_967_295;
    assert_eq!(quadratic_sqrt(big), 4_294_967_295);
    assert_eq!(quadratic_sqrt(big - 1), 4_294_967_294);
}

#[test]
fn dao_starts_with_no_proposals() {
    let mut l = Ledger::new();
    found(&mut l, "guild", key(1));
    let d = l.dao(&dao_address("guild", key(1))).unwrap();
    assert_eq!(d.name, "guild");
    assert!(d.authority == key(1));
    assert_eq!(d.proposal_count, 0);
}

#[test]
fn dao_reinit_conflicts() {
    let mut l = Ledger::new();
    found(&mut l, "guild", key(1));
    raise(&mut l, "guild", key(1), key(1), "first").unwrap();
    let r = initialize_dao(&mut l, &InitializeDao { admin: key(1) }, "guild".to_string());
    assert_eq!(r, Err(QvError::AllocationConflict));
    let d = l.dao(&dao_address("guild", key(1))).unwrap();
    assert_eq!(d.proposal_count, 1);
    assert!(d.authority == key(1));
}

#[test]
fn same_name_other_admin_is_another_dao() {
    let mut l = Ledger::new();
    found(&mut l, "guild", key(1));
    assert_eq!(initialize_dao(&mut l, &InitializeDao { admin: key(2) }, "guild".to_string()), Ok(()));
    assert_eq!(initialize_dao(&mut l, &InitializeDao { admin: key(1) }, "other".to_string()), Ok(()));
}

#[test]
fn proposal_by_non_authority_is_unauthorized() {
    let mut l = Ledger::new();
    found(&mut l, "guild", key(1));
    let r = raise(&mut l, "guild", key(1), key(2), "sneaky");
    assert!(matches!(r, Err(QvError::Unauthorized)));
    assert_eq!(l.proposal_total(), 0);
    assert_eq!(l.dao(&dao_address("guild", key(1))).unwrap().proposal_count, 0);
    assert!(l.proposal(&proposal_address("guild", key(1), 0)).is_none());
}

#[test]
fn proposal_under_missing_dao() {
    let mut l = Ledger::new();
    let r = raise(&mut l, "ghost", key(1), key(1), "x");
    assert!(matches!(r, Err(QvError::AccountNotInitialized)));
    assert_eq!(l.proposal_total(), 0);
}

#[test]
fn proposals_numbered_in_order() {
    let mut l = Ledger::new();
    found(&mut l, "guild", key(1));
    for n in 0u64..4 {
        let a = raise(&mut l, "guild", key(1), key(1), "p").unwrap();
        assert_eq!(a.index, n);
        assert_eq!(a.dao.name, "guild");
        let _ = raise(&mut l, "guild", key(1), key(9), "refused");
    }
    assert_eq!(l.dao(&dao_address("guild", key(1))).unwrap().proposal_count, 4);
    assert_eq!(l.proposal_total(), 4);
    for n in 0u64..4 {
        assert!(l.proposal(&proposal_address("guild", key(1), n)).is_some());
    }
    assert!(l.proposal(&proposal_address("guild", key(1), 4)).is_none());
}

#[test]
fn new_proposal_copies_authority_and_has_empty_tallies() {
    let mut l = Ledger::new();
    found(&mut l, "guild", key(1));
    let a = raise(&mut l, "guild", key(1), key(1), "build a bridge").unwrap();
    let p = l.proposal(&a).unwrap();
    assert!(p.authority == key(1));
    assert_eq!(p.metadata, "build a bridge");
    assert_eq!(p.yes_vote_count, 0);
    assert_eq!(p.no_vote_count, 0);
}

#[test]
fn invalid_vote_type_rejected() {
    let mut l = Ledger::new();
    found(&mut l, "guild", key(1));
    raise(&mut l, "guild", key(1), key(1), "p").unwrap();
    let r = vote(&mut l, key(2), 100, "guild", key(1), 0, 2);
    assert_eq!(r, Err(QvError::InvalidVoteType));
    assert_eq!(l.vote_total(), 0);
    assert!(l.vote(&key(2), &proposal_address("guild", key(1), 0)).is_none());
    let p = l.proposal(&proposal_address("guild", key(1), 0)).unwrap();
    assert_eq!((p.yes_vote_count, p.no_vote_count), (0, 0));
}

#[test]
fn second_vote_conflicts() {
    let mut l = Ledger::new();
    found(&mut l, "guild", key(1));
    raise(&mut l, "guild", key(1), key(1), "p").unwrap();
    assert_eq!(vote(&mut l, key(2), 50, "guild", key(1), 0, 1), Ok(()));
    let p = l.proposal(&proposal_address("guild", key(1), 0)).unwrap();
    assert_eq!((p.yes_vote_count, p.no_vote_count), (7, 0));
    let r = vote(&mut l, key(2), 10_000, "guild", key(1), 0, 0);
    assert_eq!(r, Err(QvError::AllocationConflict));
    let p = l.proposal(&proposal_address("guild", key(1), 0)).unwrap();
    assert_eq!((p.yes_vote_count, p.no_vote_count), (7, 0));
    assert_eq!(l.vote_total(), 1);
}

#[test]
fn end_to_end_votes() {
    let a = key(1);
    let b = key(2);
    let c = key(3);
    let mut l = Ledger::new();
    found(&mut l, "guild", a);
    let addr = raise(&mut l, "guild", a, a, "fund the garden").unwrap();
    assert_eq!(vote(&mut l, b, 100, "guild", a, 0, 1), Ok(()));
    let vb = l.vote(&b, &addr).unwrap();
    assert_eq!(vb.credits, 10);
    assert_eq!(vb.vote_type, 1);
    assert!(vb.authority == b);
    let p = l.proposal(&addr).unwrap();
    assert_eq!(p.yes_vote_count, 10);
    assert_eq!(p.no_vote_count, 0);
    assert_eq!(vote(&mut l, c, 9, "guild", a, 0, 0), Ok(()));
    let vc = l.vote(&c, &addr).unwrap();
    assert_eq!(vc.credits, 3);
    let p = l.proposal(&addr).unwrap();
    assert_eq!(p.no_vote_count, 3);
    assert_eq!(p.yes_vote_count, 10);
}

#[test]
fn zero_balance_vote_is_recorded() {
    let mut l = Ledger::new();
    found(&mut l, "guild", key(1));
    raise(&mut l, "guild", key(1), key(1), "p").unwrap();
    assert_eq!(vote(&mut l, key(2), 0, "guild", key(1), 0, 1), Ok(()));
    assert_eq!(l.vote(&key(2), &proposal_address("guild", key(1), 0)).unwrap().credits, 0);
    assert_eq!(l.proposal(&proposal_address("guild", key(1), 0)).unwrap().yes_vote_count, 0);
}

#[test]
fn vote_with_foreign_token_account_is_unauthorized() {
    let mut l = Ledger::new();
    found(&mut l, "guild", key(1));
    raise(&mut l, "guild", key(1), key(1), "p").unwrap();
    let ctx = CastVote {
        voter: key(2),
        dao_account: dao_address("guild", key(1)),
        proposal_account: proposal_address("guild", key(1), 0),
        voter_token_account: TokenAccount { owner: key(3), amount: 100 },
    };
    assert_eq!(cast_vote(&mut l, &ctx, 1), Err(QvError::Unauthorized));
    assert_eq!(l.vote_total(), 0);
}

#[test]
fn vote_on_missing_proposal() {
    let mut l = Ledger::new();
    found(&mut l, "guild", key(1));
    assert_eq!(vote(&mut l, key(2), 4, "guild", key(1), 0, 1), Err(QvError::AccountNotInitialized));
    assert_eq!(vote(&mut l, key(2), 4, "nowhere", key(1), 0, 1), Err(QvError::AccountNotInitialized));
}

#[test]
fn tally_overflow_rejected() {
    let admin = key(1);
    let mut l = Ledger::new();
    l.daos.push(Dao { name: "guild".to_string(), authority: admin, proposal_count: 1 });
    l.proposals.push(ProposalSlot {
        address: proposal_address("guild", admin, 0),
        proposal: Proposal { authority: admin, metadata: "p".to_string(), yes_vote_count: u64::MAX - 5, no_vote_count: 0 },
    });
    let r = vote(&mut l, key(2), 100, "guild", admin, 0, 1);
    assert_eq!(r, Err(QvError::ArithmeticOverflow));
    let p = l.proposal(&proposal_address("guild", admin, 0)).unwrap();
    assert_eq!(p.yes_vote_count, u64::MAX - 5);
    assert_eq!(l.vote_total(), 0);
    assert_eq!(vote(&mut l, key(3), 25, "guild", admin, 0, 1), Ok(()));
    assert_eq!(l.proposal(&proposal_address("guild", admin, 0)).unwrap().yes_vote_count, u64::MAX);
}
