use blind_auction::{AccountId, Auction, Balance, Balances, Config, Error, FinalResult};

fn acct(tag: u8) -> AccountId {
    AccountId([tag; 32])
}

fn with_slots(
    leader: Option<(AccountId, Balance)>,
    slots: Vec<Option<(AccountId, Balance)>>,
) -> Auction {
    let config = Config {
        seller: acct(100),
        nft_contract: acct(101),
        nft_id: 1,
        min_bid: 10,
        start_block: 5,
        opening_length: 3,
        ending_length: slots.len() as u32,
    };
    Auction::from_parts(config, Balances::new(), leader, slots, false).unwrap()
}

#[test]
fn finalize_before_the_end_is_too_early() {
    let mut a = Auction::new(acct(100), 0, acct(101), 1, 10, Some(5), 3, 2);
    a.place_bid(acct(1), 10, 5).unwrap();
    for step in 0..10 {
        assert_eq!(a.finalize(step), Err(Error::TooEarly));
        assert!(!a.is_finalized());
    }
    assert!(a.finalize(10).is_ok());
}

#[test]
fn finalize_twice_is_already_finalized() {
    let mut a = Auction::new(acct(100), 0, acct(101), 1, 10, Some(5), 3, 0);
    a.place_bid(acct(1), 10, 5).unwrap();
    assert_eq!(a.finalize(8), Ok(FinalResult { winner: Some((acct(1), 10)) }));
    assert_eq!(a.finalize(8), Err(Error::AlreadyFinalized));
    assert_eq!(a.finalize(900), Err(Error::AlreadyFinalized));
    assert!(a.is_finalized());
}

#[test]
fn too_early_comes_before_already_finalized() {
    let mut a = Auction::new(acct(100), 0, acct(101), 1, 10, Some(5), 3, 0);
    a.finalize(8).unwrap();
    assert_eq!(a.finalize(7), Err(Error::TooEarly));
    assert!(a.is_finalized());
}

#[test]
fn finalize_only_sets_the_mark() {
    let mut a = Auction::new(acct(100), 0, acct(101), 1, 10, Some(5), 3, 2);
    a.place_bid(acct(1), 10, 5).unwrap();
    a.place_bid(acct(2), 20, 9).unwrap();
    let config = a.config();
    let entries = a.balances().entries().clone();
    let leader = a.leader();
    let slots = a.checkpoints().clone();
    a.finalize(10).unwrap();
    assert_eq!(a.config(), config);
    assert_eq!(a.balances().entries().clone(), entries);
    assert_eq!(a.leader(), leader);
    assert_eq!(a.checkpoints().clone(), slots);
    assert!(a.is_finalized());
}

#[test]
fn refused_finalize_changes_nothing() {
    let mut a = Auction::new(acct(100), 0, acct(101), 1, 10, Some(5), 3, 2);
    a.place_bid(acct(1), 10, 8).unwrap();
    let entries = a.balances().entries().clone();
    let slots = a.checkpoints().clone();
    assert!(a.finalize(9).is_err());
    assert_eq!(a.balances().entries().clone(), entries);
    assert_eq!(a.checkpoints().clone(), slots);
    assert_eq!(a.leader(), Some((acct(1), 10)));
    assert!(!a.is_finalized());
}

#[test]
fn winner_without_slots_is_the_leader() {
    let mut a = with_slots(Some((acct(4), 77)), vec![]);
    assert_eq!(a.finalize(8).unwrap().winner, Some((acct(4), 77)));
    let mut b = with_slots(None, vec![]);
    assert_eq!(b.finalize(8).unwrap().winner, None);
}

#[test]
fn winner_is_the_highest_slot() {
    let mut a = with_slots(
        Some((acct(3), 30)),
        vec![Some((acct(1), 10)), Some((acct(3), 30)), None, Some((acct(2), 20))],
    );
    assert_eq!(a.finalize(12).unwrap().winner, Some((acct(3), 30)));
}

#[test]
fn winner_among_equal_amounts_is_the_earliest_slot() {
    let mut a = with_slots(
        None,
        vec![None, Some((acct(1), 20)), Some((acct(2), 20)), Some((acct(3), 5)), Some((acct(4), 20))],
    );
    assert_eq!(a.finalize(13).unwrap().winner, Some((acct(1), 20)));
}

#[test]
fn winner_with_only_empty_slots_is_nobody() {
    let mut a = Auction::new(acct(100), 0, acct(101), 1, 10, Some(5), 3, 2);
    a.place_bid(acct(1), 10, 5).unwrap();
    assert_eq!(a.finalize(10), Ok(FinalResult { winner: None }));
}

#[test]
fn winner_may_hold_amount_zero() {
    let mut a = with_slots(None, vec![None, Some((acct(1), 0)), Some((acct(2), 0))]);
    assert_eq!(a.finalize(11).unwrap().winner, Some((acct(1), 0)));
}
