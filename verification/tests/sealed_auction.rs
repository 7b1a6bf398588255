use auctionhouse::{
    cancel_sealed_auction, compute_bid_hash, create_sealed_auction, make_sealed_bid,
    reclaim_item_sealed, reclaim_sealed_bid, reveal_against_hash, reveal_sealed_bid,
    withdraw_item_sealed, withdraw_winning_bid_sealed, AuctionError, Entry, ErrorKind, PartyId,
    SealedAuction, SealedAuctionParts, SealedBid, Transfer,
};

fn party_of(tag: u8) -> PartyId {
    PartyId::new([tag; 32])
}

const SELLER: u8 = 1;
const ASSET: u8 = 200;

/// floor 50, commitments from 1000 to 2000, reveals until 3000.
fn sealed(first_price: bool, cap: u64) -> SealedAuction {
    create_sealed_auction(
        party_of(SELLER),
        party_of(ASSET),
        254,
        String::from("vase"),
        50,
        first_price,
        1_000,
        2_000,
        3_000,
        cap,
        1,
        1_500,
    )
    .unwrap()
    .0
}

fn list_sealed(
    title: &str,
    floor: u64,
    start: u64,
    end: u64,
    reveal: u64,
    amount: u64,
    now: u64,
) -> Option<AuctionError> {
    match create_sealed_auction(
        party_of(SELLER),
        party_of(ASSET),
        254,
        String::from(title),
        floor,
        false,
        start,
        end,
        reveal,
        5,
        amount,
        now,
    ) {
        Ok(_) => None,
        Err(e) => Some(e),
    }
}

fn commit(auction: &mut SealedAuction, tag: u8, bid: u64, nonce: u64, cover: u64) {
    assert_eq!(
        make_sealed_bid(auction, party_of(tag), compute_bid_hash(bid, nonce), cover, 1_500),
        Ok(Transfer::HoldCurrency { from: party_of(tag), amount: cover })
    );
}

fn sealed_sample() -> SealedAuctionParts {
    SealedAuctionParts {
        owner: party_of(SELLER),
        mint: party_of(ASSET),
        token_amount: 1,
        bump: 254,
        title: String::from("vase"),
        bid_floor: 50,
        first_price: false,
        start_time: 1_000,
        end_time: 2_000,
        reveal_deadline: 3_000,
        cancelled: false,
        bidder_cap: 5,
        highest_bid: 120,
        second_highest_bid: 100,
        highest_bidder: Some(party_of(2)),
        item_withdrawn: false,
        winning_bid_withdrawn: false,
        entries: vec![
            Entry { bidder: party_of(2), value: SealedBid { commitment: [7; 32], cover: 300 } },
            Entry { bidder: party_of(3), value: SealedBid { commitment: [8; 32], cover: 150 } },
        ],
    }
}

#[test]
fn sealed_listing_asks_for_the_item() {
    let (auction, hold) = create_sealed_auction(
        party_of(SELLER),
        party_of(ASSET),
        254,
        String::from("vase"),
        50,
        true,
        0,
        2_000,
        3_000,
        4,
        6,
        1_234,
    )
    .unwrap();
    assert_eq!(hold, Transfer::HoldItem { from: party_of(SELLER), amount: 6 });
    assert_eq!(auction.owner(), party_of(SELLER));
    assert_eq!(auction.title(), "vase");
    assert_eq!(auction.highest_bid(), 0);
    assert_eq!(auction.second_highest_bid(), 0);
    assert_eq!(auction.highest_bidder(), None);
    assert_eq!(auction.settlement_price(), 0);
    assert!(!auction.is_cancelled());
    assert!(!auction.is_winning_bid_withdrawn());
    assert_eq!(auction.bidder_count(), 0);
    let parts = auction.into_parts();
    assert_eq!(parts.start_time, 1_234);
    assert_eq!(parts.end_time, 2_000);
    assert_eq!(parts.reveal_deadline, 3_000);
    assert!(parts.first_price);
    assert_eq!(parts.bidder_cap, 4);
    assert_eq!(parts.bid_floor, 50);
    assert_eq!(parts.bump, 254);
    assert_eq!(parts.mint, party_of(ASSET));
}

#[test]
fn sealed_listing_rejects_bad_terms() {
    let long = "a".repeat(51);
    assert_eq!(list_sealed(&long, 50, 1_000, 2_000, 3_000, 1, 1_500), Some(AuctionError::TitleOverflow));
    assert_eq!(list_sealed("t", 50, 1_000, 2_000, 3_000, 0, 1_500), Some(AuctionError::InvalidTokenAmount));
    assert_eq!(list_sealed("t", 50, 2_000, 2_000, 3_000, 1, 1_500), Some(AuctionError::InvalidStartTime));
    assert_eq!(list_sealed("t", 50, 1_000, 2_000, 3_000, 1, 1_000), Some(AuctionError::InvalidStartTime));
    assert_eq!(list_sealed("t", 50, 1_000, 2_000, 3_000, 1, 2_000), Some(AuctionError::InvalidEndTime));
    assert_eq!(list_sealed("t", 50, 1_000, 2_000, 2_000, 1, 1_500), Some(AuctionError::InvalidRevealPeriod));
    assert_eq!(list_sealed("t", 50, 1_000, 2_000, 1_999, 1, 1_500), Some(AuctionError::InvalidRevealPeriod));
    assert_eq!(list_sealed("t", 50, 1_000, 2_000, 2_001, 1, 1_500), None);
    assert_eq!(list_sealed("t", 0, 1_000, 2_000, 3_000, 1, 1_500), Some(AuctionError::InvalidBidFloor));
    assert_eq!(list_sealed("t", 0, 1_000, 2_000, 2_000, 1, 1_500), Some(AuctionError::InvalidRevealPeriod));
    assert_eq!(list_sealed(&long, 0, 3_000, 2_000, 2_000, 0, 5_000), Some(AuctionError::TitleOverflow));
    assert_eq!(list_sealed("t", 0, 3_000, 2_000, 2_000, 0, 5_000), Some(AuctionError::InvalidTokenAmount));
}

#[test]
fn sealed_cancel_is_for_the_owner_before_the_end() {
    let mut auction = sealed(false, 5);
    assert_eq!(
        cancel_sealed_auction(&mut auction, party_of(2), 1_500),
        Err(AuctionError::Unauthorized)
    );
    assert_eq!(
        cancel_sealed_auction(&mut auction, party_of(SELLER), 2_000),
        Err(AuctionError::CannotCancelRevealPeriod)
    );
    assert!(!auction.is_cancelled());
    assert_eq!(cancel_sealed_auction(&mut auction, party_of(SELLER), 1_999), Ok(()));
    assert!(auction.is_cancelled());
    assert_eq!(
        reclaim_item_sealed(&auction, party_of(SELLER), 1_999),
        Ok(Transfer::ReleaseItem { to: party_of(SELLER), amount: 1 })
    );
}

#[test]
fn sealed_commit_is_refused_as_the_rules_say() {
    let mut auction = sealed(false, 2);
    let h = compute_bid_hash(120, 7);
    assert_eq!(make_sealed_bid(&mut auction, party_of(2), h, 300, 1_000), Err(AuctionError::BidBeforeStart));
    assert_eq!(make_sealed_bid(&mut auction, party_of(2), h, 300, 2_000), Err(AuctionError::BidAfterClose));
    assert_eq!(
        make_sealed_bid(&mut auction, party_of(SELLER), h, 300, 1_500),
        Err(AuctionError::OwnerCannotBid)
    );
    assert_eq!(make_sealed_bid(&mut auction, party_of(2), h, 0, 1_500), Err(AuctionError::MustSendSol));
    assert_eq!(
        make_sealed_bid(&mut auction, party_of(2), h, 300, 1_500),
        Ok(Transfer::HoldCurrency { from: party_of(2), amount: 300 })
    );
    assert_eq!(
        make_sealed_bid(&mut auction, party_of(2), h, 400, 1_500),
        Err(AuctionError::DuplicateSealedBid)
    );
    assert_eq!(auction.cover(&party_of(2)), Some(300));
    assert!(make_sealed_bid(&mut auction, party_of(3), h, 1, 1_500).is_ok());
    assert_eq!(
        make_sealed_bid(&mut auction, party_of(4), h, 10, 1_500),
        Err(AuctionError::BidderCapReached)
    );
    assert_eq!(
        make_sealed_bid(&mut auction, party_of(3), h, 10, 1_500),
        Err(AuctionError::DuplicateSealedBid)
    );
    assert_eq!(auction.bidder_count(), 2);
    assert_eq!(auction.highest_bid(), 0);
    assert_eq!(auction.second_highest_bid(), 0);
    assert_eq!(cancel_sealed_auction(&mut auction, party_of(SELLER), 1_600), Ok(()));
    assert_eq!(
        make_sealed_bid(&mut auction, party_of(5), h, 10, 1_700),
        Err(AuctionError::AuctionCancelled)
    );
}

#[test]
fn sealed_reclaim_pays_the_cover_back() {
    let mut auction = sealed(false, 5);
    commit(&mut auction, 2, 120, 7, 300);
    commit(&mut auction, 3, 100, 8, 150);
    commit(&mut auction, 4, 90, 9, 95);
    assert_eq!(reclaim_sealed_bid(&mut auction, party_of(9)), Err(AuctionError::NotBidder));
    assert_eq!(
        reclaim_sealed_bid(&mut auction, party_of(3)),
        Ok(Transfer::ReleaseCurrency { to: party_of(3), amount: 150 })
    );
    assert_eq!(reclaim_sealed_bid(&mut auction, party_of(3)), Err(AuctionError::NotBidder));
    assert_eq!(auction.cover(&party_of(3)), None);
    let parts = auction.into_parts();
    assert_eq!(parts.entries.len(), 2);
    assert_eq!(parts.entries[0].bidder, party_of(2));
    assert_eq!(parts.entries[0].value.cover, 300);
    assert_eq!(parts.entries[0].value.commitment, compute_bid_hash(120, 7));
    assert_eq!(parts.entries[1].bidder, party_of(4));
    assert_eq!(parts.entries[1].value.cover, 95);
    assert_eq!(parts.entries[1].value.commitment, compute_bid_hash(90, 9));
}

#[test]
fn sealed_reveal_is_refused_outside_the_reveal_phase() {
    let mut auction = sealed(false, 5);
    commit(&mut auction, 2, 120, 7, 300);
    assert_eq!(reveal_sealed_bid(&mut auction, party_of(2), 120, 7, 1_500), Err(AuctionError::AuctionNotOver));
    assert_eq!(reveal_sealed_bid(&mut auction, party_of(2), 120, 7, 2_000), Err(AuctionError::AuctionNotOver));
    assert_eq!(reveal_sealed_bid(&mut auction, party_of(2), 120, 7, 3_000), Err(AuctionError::RevealPeriodOver));
    assert_eq!(reveal_sealed_bid(&mut auction, party_of(2), 120, 7, 3_500), Err(AuctionError::RevealPeriodOver));
    assert_eq!(reveal_sealed_bid(&mut auction, party_of(3), 120, 7, 2_500), Err(AuctionError::NotBidder));
    assert_eq!(auction.highest_bid(), 0);
    assert_eq!(reveal_sealed_bid(&mut auction, party_of(2), 120, 7, 2_999), Ok(None));
    assert_eq!(auction.highest_bid(), 120);

    let mut cancelled = sealed(false, 5);
    commit(&mut cancelled, 2, 120, 7, 300);
    assert_eq!(cancel_sealed_auction(&mut cancelled, party_of(SELLER), 1_600), Ok(()));
    assert_eq!(
        reveal_sealed_bid(&mut cancelled, party_of(2), 120, 7, 2_500),
        Err(AuctionError::AuctionCancelled)
    );
    assert_eq!(
        reclaim_sealed_bid(&mut cancelled, party_of(2)),
        Ok(Transfer::ReleaseCurrency { to: party_of(2), amount: 300 })
    );
}

#[test]
fn sealed_reveal_checks_hash_then_floor_then_cover() {
    let mut auction = sealed(false, 5);
    commit(&mut auction, 2, 50, 7, 300);
    commit(&mut auction, 3, 51, 7, 50);
    commit(&mut auction, 4, 51, 7, 51);
    assert_eq!(reveal_sealed_bid(&mut auction, party_of(2), 51, 7, 2_500), Err(AuctionError::HashMismatch));
    assert_eq!(reveal_sealed_bid(&mut auction, party_of(2), 50, 7, 2_500), Err(AuctionError::UnderBidFloor));
    assert_eq!(reveal_sealed_bid(&mut auction, party_of(3), 51, 7, 2_500), Err(AuctionError::InsufficientSol));
    assert_eq!(reveal_sealed_bid(&mut auction, party_of(3), 40, 7, 2_500), Err(AuctionError::HashMismatch));
    assert_eq!(auction.highest_bid(), 0);
    assert_eq!(auction.bidder_count(), 3);
    assert_eq!(reveal_sealed_bid(&mut auction, party_of(4), 51, 7, 2_500), Ok(None));
    assert_eq!(auction.highest_bid(), 51);
    assert_eq!(auction.highest_bidder(), Some(party_of(4)));
    assert_eq!(
        reclaim_sealed_bid(&mut auction, party_of(3)),
        Ok(Transfer::ReleaseCurrency { to: party_of(3), amount: 50 })
    );
}

#[test]
fn sealed_reveal_rejects_every_single_bit_alteration() {
    let bid: u64 = 120;
    let nonce: u64 = 0x0123_4567_89ab_cdef;
    let mut auction = sealed(false, 5);
    commit(&mut auction, 2, bid, nonce, u64::MAX);
    for bit in 0..64u32 {
        assert_eq!(
            reveal_sealed_bid(&mut auction, party_of(2), bid ^ (1u64 << bit), nonce, 2_500),
            Err(AuctionError::HashMismatch)
        );
        assert_eq!(
            reveal_sealed_bid(&mut auction, party_of(2), bid, nonce ^ (1u64 << bit), 2_500),
            Err(AuctionError::HashMismatch)
        );
    }
    assert_eq!(
        reveal_sealed_bid(&mut auction, party_of(2), nonce, bid, 2_500),
        Err(AuctionError::HashMismatch)
    );
    assert_eq!(auction.highest_bid(), 0);
    assert_eq!(auction.cover(&party_of(2)), Some(u64::MAX));
    assert_eq!(reveal_sealed_bid(&mut auction, party_of(2), bid, nonce, 2_500), Ok(None));
    assert_eq!(auction.highest_bid(), 120);
}

#[test]
fn sealed_reveal_against_a_given_hash() {
    let mut auction = sealed(false, 5);
    let stored = [9u8; 32];
    let mut other = stored;
    other[31] = 8;
    assert!(make_sealed_bid(&mut auction, party_of(2), stored, 300, 1_500).is_ok());
    assert_eq!(
        reveal_against_hash(&mut auction, party_of(2), 120, &other, 2_500),
        Err(AuctionError::HashMismatch)
    );
    assert_eq!(
        reveal_sealed_bid(&mut auction, party_of(2), 120, 7, 2_500),
        Err(AuctionError::HashMismatch)
    );
    assert_eq!(reveal_against_hash(&mut auction, party_of(2), 120, &stored, 2_500), Ok(None));
    assert_eq!(auction.highest_bid(), 120);
}

#[test]
fn sealed_losing_reveal_is_refunded_at_once() {
    let mut auction = sealed(false, 5);
    commit(&mut auction, 2, 120, 7, 300);
    commit(&mut auction, 3, 100, 8, 150);
    commit(&mut auction, 4, 120, 9, 121);
    assert_eq!(reveal_sealed_bid(&mut auction, party_of(2), 120, 7, 2_100), Ok(None));
    assert_eq!(auction.second_highest_bid(), 0);
    assert_eq!(auction.settlement_price(), 120);
    assert_eq!(
        reveal_sealed_bid(&mut auction, party_of(3), 100, 8, 2_200),
        Ok(Some(Transfer::ReleaseCurrency { to: party_of(3), amount: 150 }))
    );
    assert_eq!(auction.cover(&party_of(3)), None);
    assert_eq!(auction.highest_bid(), 120);
    assert_eq!(auction.second_highest_bid(), 100);
    assert_eq!(
        reveal_sealed_bid(&mut auction, party_of(4), 120, 9, 2_300),
        Ok(Some(Transfer::ReleaseCurrency { to: party_of(4), amount: 121 }))
    );
    assert_eq!(
        reveal_sealed_bid(&mut auction, party_of(3), 100, 8, 2_400),
        Err(AuctionError::NotBidder)
    );
    assert_eq!(auction.highest_bid(), 120);
    assert_eq!(auction.second_highest_bid(), 120);
    assert_eq!(auction.highest_bidder(), Some(party_of(2)));
    assert_eq!(auction.bidder_count(), 1);
    assert_eq!(auction.settlement_price(), 120);
    assert_eq!(
        withdraw_winning_bid_sealed(&mut auction, party_of(SELLER), 3_001),
        Ok(Transfer::ReleaseCurrency { to: party_of(SELLER), amount: 120 })
    );
    assert_eq!(
        withdraw_item_sealed(&mut auction, party_of(2), 3_001),
        Ok((
            Transfer::ReleaseItem { to: party_of(2), amount: 1 },
            Transfer::ReleaseCurrency { to: party_of(2), amount: 180 },
        ))
    );
}

#[test]
fn sealed_falling_reveals_settle_at_the_second_price() {
    let mut auction = sealed(false, 5);
    commit(&mut auction, 2, 120, 7, 300);
    commit(&mut auction, 3, 100, 8, 150);
    commit(&mut auction, 4, 60, 9, 60);
    assert_eq!(reveal_sealed_bid(&mut auction, party_of(2), 120, 7, 2_100), Ok(None));
    assert_eq!(
        reveal_sealed_bid(&mut auction, party_of(3), 100, 8, 2_200),
        Ok(Some(Transfer::ReleaseCurrency { to: party_of(3), amount: 150 }))
    );
    assert_eq!(auction.highest_bid(), 120);
    assert_eq!(auction.highest_bidder(), Some(party_of(2)));
    assert_eq!(auction.second_highest_bid(), 100);
    assert_eq!(auction.cover(&party_of(3)), None);
    assert_eq!(auction.cover(&party_of(2)), Some(300));
    assert_eq!(
        reveal_sealed_bid(&mut auction, party_of(4), 60, 9, 2_300),
        Ok(Some(Transfer::ReleaseCurrency { to: party_of(4), amount: 60 }))
    );
    assert_eq!(auction.second_highest_bid(), 100);
    assert_eq!(auction.bidder_count(), 1);
    assert_eq!(auction.settlement_price(), 100);
    assert_eq!(
        withdraw_winning_bid_sealed(&mut auction, party_of(SELLER), 3_001),
        Ok(Transfer::ReleaseCurrency { to: party_of(SELLER), amount: 100 })
    );
    assert_eq!(
        withdraw_item_sealed(&mut auction, party_of(2), 3_002),
        Ok((
            Transfer::ReleaseItem { to: party_of(2), amount: 1 },
            Transfer::ReleaseCurrency { to: party_of(2), amount: 200 },
        ))
    );
}

#[test]
fn sealed_item_is_handed_over_once() {
    let mut auction = sealed(false, 5);
    commit(&mut auction, 2, 120, 7, 300);
    commit(&mut auction, 3, 100, 8, 1_000);
    assert_eq!(reveal_sealed_bid(&mut auction, party_of(3), 100, 8, 2_100), Ok(None));
    assert_eq!(reveal_sealed_bid(&mut auction, party_of(2), 120, 7, 2_200), Ok(None));
    assert!(!auction.is_item_withdrawn());
    assert_eq!(
        withdraw_item_sealed(&mut auction, party_of(2), 3_000),
        Err(AuctionError::RevealPeriodNotOver)
    );
    assert!(!auction.is_item_withdrawn());
    assert_eq!(
        withdraw_item_sealed(&mut auction, party_of(2), 3_001),
        Ok((
            Transfer::ReleaseItem { to: party_of(2), amount: 1 },
            Transfer::ReleaseCurrency { to: party_of(2), amount: 200 },
        ))
    );
    assert!(auction.is_item_withdrawn());
    assert_eq!(
        withdraw_item_sealed(&mut auction, party_of(2), 3_002),
        Err(AuctionError::AlreadyWithdrewItem)
    );
    assert_eq!(AuctionError::AlreadyWithdrewItem.kind(), ErrorKind::StateConflict);
    assert_eq!(
        withdraw_item_sealed(&mut auction, party_of(3), 3_002),
        Err(AuctionError::Unauthorized)
    );
    assert_eq!(
        reclaim_item_sealed(&auction, party_of(SELLER), 3_002),
        Err(AuctionError::RevealPeriodNotOver)
    );
    assert_eq!(
        withdraw_winning_bid_sealed(&mut auction, party_of(SELLER), 3_003),
        Ok(Transfer::ReleaseCurrency { to: party_of(SELLER), amount: 100 })
    );
    assert_eq!(
        withdraw_item_sealed(&mut auction, party_of(2), 3_004),
        Err(AuctionError::AlreadyWithdrewItem)
    );
    assert_eq!(auction.cover(&party_of(2)), Some(300));
    let parts = auction.into_parts();
    assert!(parts.item_withdrawn);
    assert!(parts.winning_bid_withdrawn);
    let mut again = SealedAuction::from_parts(parts).unwrap();
    assert_eq!(
        withdraw_item_sealed(&mut again, party_of(2), 3_005),
        Err(AuctionError::AlreadyWithdrewItem)
    );
}

#[test]
fn sealed_rising_reveals_settle_at_the_second_price() {
    let mut auction = sealed(false, 5);
    commit(&mut auction, 2, 120, 7, 300);
    commit(&mut auction, 3, 100, 8, 150);
    commit(&mut auction, 4, 60, 9, 60);
    assert_eq!(reveal_sealed_bid(&mut auction, party_of(4), 60, 9, 2_100), Ok(None));
    assert_eq!(reveal_sealed_bid(&mut auction, party_of(3), 100, 8, 2_200), Ok(None));
    assert_eq!(auction.second_highest_bid(), 60);
    assert_eq!(reveal_sealed_bid(&mut auction, party_of(2), 120, 7, 2_300), Ok(None));
    assert_eq!(auction.highest_bid(), 120);
    assert_eq!(auction.second_highest_bid(), 100);
    assert_eq!(auction.highest_bidder(), Some(party_of(2)));
    assert_eq!(auction.settlement_price(), 100);
    assert_eq!(auction.bidder_count(), 3);
    assert_eq!(
        withdraw_item_sealed(&mut auction, party_of(2), 3_001),
        Ok((
            Transfer::ReleaseItem { to: party_of(2), amount: 1 },
            Transfer::ReleaseCurrency { to: party_of(2), amount: 200 },
        ))
    );
    assert_eq!(
        withdraw_winning_bid_sealed(&mut auction, party_of(SELLER), 3_001),
        Ok(Transfer::ReleaseCurrency { to: party_of(SELLER), amount: 100 })
    );
    assert_eq!(
        reclaim_sealed_bid(&mut auction, party_of(3)),
        Ok(Transfer::ReleaseCurrency { to: party_of(3), amount: 150 })
    );
    assert_eq!(
        reclaim_sealed_bid(&mut auction, party_of(4)),
        Ok(Transfer::ReleaseCurrency { to: party_of(4), amount: 60 })
    );
}

#[test]
fn sealed_first_price_settles_at_the_highest_bid() {
    let mut auction = sealed(true, 5);
    commit(&mut auction, 2, 120, 7, 300);
    commit(&mut auction, 3, 100, 8, 150);
    assert_eq!(reveal_sealed_bid(&mut auction, party_of(3), 100, 8, 2_100), Ok(None));
    assert_eq!(reveal_sealed_bid(&mut auction, party_of(2), 120, 7, 2_200), Ok(None));
    assert_eq!(auction.second_highest_bid(), 100);
    assert_eq!(auction.settlement_price(), 120);
    assert_eq!(
        withdraw_winning_bid_sealed(&mut auction, party_of(SELLER), 3_001),
        Ok(Transfer::ReleaseCurrency { to: party_of(SELLER), amount: 120 })
    );
    assert_eq!(
        withdraw_item_sealed(&mut auction, party_of(2), 3_001),
        Ok((
            Transfer::ReleaseItem { to: party_of(2), amount: 1 },
            Transfer::ReleaseCurrency { to: party_of(2), amount: 180 },
        ))
    );
}

#[test]
fn sealed_item_goes_to_the_winner_after_the_reveal_phase() {
    let mut auction = sealed(false, 5);
    commit(&mut auction, 2, 120, 7, 120);
    commit(&mut auction, 3, 100, 8, 150);
    assert_eq!(withdraw_item_sealed(&mut auction, party_of(2), 3_001), Err(AuctionError::Unauthorized));
    assert_eq!(reveal_sealed_bid(&mut auction, party_of(2), 120, 7, 2_100), Ok(None));
    assert_eq!(withdraw_item_sealed(&mut auction, party_of(3), 3_001), Err(AuctionError::Unauthorized));
    assert_eq!(
        withdraw_item_sealed(&mut auction, party_of(SELLER), 3_001),
        Err(AuctionError::Unauthorized)
    );
    assert_eq!(
        withdraw_item_sealed(&mut auction, party_of(2), 3_000),
        Err(AuctionError::RevealPeriodNotOver)
    );
    assert_eq!(
        withdraw_item_sealed(&mut auction, party_of(2), 2_500),
        Err(AuctionError::RevealPeriodNotOver)
    );
    assert_eq!(
        withdraw_item_sealed(&mut auction, party_of(2), 3_001),
        Ok((
            Transfer::ReleaseItem { to: party_of(2), amount: 1 },
            Transfer::ReleaseCurrency { to: party_of(2), amount: 0 },
        ))
    );
    assert_eq!(
        reclaim_sealed_bid(&mut auction, party_of(2)),
        Err(AuctionError::WinnerCannotWithdrawBid)
    );
    assert_eq!(auction.cover(&party_of(2)), Some(120));
    assert_eq!(
        withdraw_winning_bid_sealed(&mut auction, party_of(SELLER), 3_001),
        Ok(Transfer::ReleaseCurrency { to: party_of(SELLER), amount: 120 })
    );
    assert_eq!(
        reclaim_sealed_bid(&mut auction, party_of(2)),
        Err(AuctionError::WinnerCannotWithdrawBid)
    );
    assert_eq!(auction.bidder_count(), 2);
}

#[test]
fn sealed_leader_is_held_to_the_bid() {
    let mut auction = sealed(false, 5);
    commit(&mut auction, 2, 120, 7, 300);
    commit(&mut auction, 3, 100, 8, 1_000);
    assert_eq!(reveal_sealed_bid(&mut auction, party_of(3), 100, 8, 2_100), Ok(None));
    assert_eq!(
        reclaim_sealed_bid(&mut auction, party_of(3)),
        Err(AuctionError::WinnerCannotWithdrawBid)
    );
    assert_eq!(auction.cover(&party_of(3)), Some(1_000));
    assert_eq!(reveal_sealed_bid(&mut auction, party_of(2), 120, 7, 2_200), Ok(None));
    assert_eq!(
        withdraw_item_sealed(&mut auction, party_of(2), 3_001),
        Ok((
            Transfer::ReleaseItem { to: party_of(2), amount: 1 },
            Transfer::ReleaseCurrency { to: party_of(2), amount: 200 },
        ))
    );
    assert_eq!(
        withdraw_winning_bid_sealed(&mut auction, party_of(SELLER), 3_001),
        Ok(Transfer::ReleaseCurrency { to: party_of(SELLER), amount: 100 })
    );
    assert_eq!(
        reclaim_sealed_bid(&mut auction, party_of(2)),
        Err(AuctionError::WinnerCannotWithdrawBid)
    );
    assert_eq!(auction.cover(&party_of(2)), Some(300));
    assert_eq!(auction.highest_bidder(), Some(party_of(2)));
    assert_eq!(
        reclaim_sealed_bid(&mut auction, party_of(3)),
        Ok(Transfer::ReleaseCurrency { to: party_of(3), amount: 1_000 })
    );
    assert_eq!(auction.bidder_count(), 1);
}

#[test]
fn sealed_commitment_of_the_leader_is_used_up() {
    let mut auction = sealed(false, 5);
    commit(&mut auction, 2, 120, 7, 300);
    commit(&mut auction, 3, 100, 8, 150);
    assert_eq!(reveal_sealed_bid(&mut auction, party_of(3), 100, 8, 2_100), Ok(None));
    assert_eq!(
        reveal_sealed_bid(&mut auction, party_of(3), 100, 8, 2_150),
        Err(AuctionError::HashMismatch)
    );
    assert_eq!(
        reveal_against_hash(&mut auction, party_of(3), 100, &compute_bid_hash(100, 8), 2_150),
        Err(AuctionError::HashMismatch)
    );
    assert_eq!(
        reveal_sealed_bid(&mut auction, party_of(3), 40, 8, 2_150),
        Err(AuctionError::HashMismatch)
    );
    assert_eq!(auction.cover(&party_of(3)), Some(150));
    assert_eq!(auction.highest_bid(), 100);
    assert_eq!(auction.second_highest_bid(), 0);
    assert_eq!(auction.highest_bidder(), Some(party_of(3)));
    assert_eq!(reveal_sealed_bid(&mut auction, party_of(2), 120, 7, 2_200), Ok(None));
    assert_eq!(
        reveal_sealed_bid(&mut auction, party_of(2), 120, 7, 2_250),
        Err(AuctionError::HashMismatch)
    );
    assert_eq!(auction.highest_bid(), 120);
    assert_eq!(auction.second_highest_bid(), 100);
    assert_eq!(auction.bidder_count(), 2);
    assert_eq!(
        reveal_sealed_bid(&mut auction, party_of(3), 100, 8, 2_300),
        Ok(Some(Transfer::ReleaseCurrency { to: party_of(3), amount: 150 }))
    );
    assert_eq!(auction.bidder_count(), 1);
    assert_eq!(auction.cover(&party_of(2)), Some(300));
}

#[test]
fn sealed_winning_bid_is_paid_once() {
    let mut auction = sealed(false, 5);
    commit(&mut auction, 2, 120, 7, 300);
    assert_eq!(
        withdraw_winning_bid_sealed(&mut auction, party_of(SELLER), 3_001),
        Err(AuctionError::NoWinningBid)
    );
    assert_eq!(reveal_sealed_bid(&mut auction, party_of(2), 120, 7, 2_100), Ok(None));
    assert_eq!(
        withdraw_winning_bid_sealed(&mut auction, party_of(2), 3_001),
        Err(AuctionError::Unauthorized)
    );
    assert_eq!(
        withdraw_winning_bid_sealed(&mut auction, party_of(SELLER), 2_000),
        Err(AuctionError::AuctionNotOver)
    );
    assert_eq!(
        withdraw_winning_bid_sealed(&mut auction, party_of(SELLER), 2_001),
        Err(AuctionError::RevealPeriodNotOver)
    );
    assert_eq!(
        withdraw_winning_bid_sealed(&mut auction, party_of(SELLER), 3_000),
        Err(AuctionError::RevealPeriodNotOver)
    );
    assert!(!auction.is_winning_bid_withdrawn());
    assert_eq!(
        withdraw_winning_bid_sealed(&mut auction, party_of(SELLER), 3_001),
        Ok(Transfer::ReleaseCurrency { to: party_of(SELLER), amount: 120 })
    );
    assert!(auction.is_winning_bid_withdrawn());
    assert_eq!(
        withdraw_winning_bid_sealed(&mut auction, party_of(SELLER), 3_002),
        Err(AuctionError::AlreadyWithdrewBid)
    );
    assert_eq!(AuctionError::AlreadyWithdrewBid.kind(), ErrorKind::StateConflict);
    assert_eq!(AuctionError::NoWinningBid.kind(), ErrorKind::StateConflict);
    assert_eq!(auction.cover(&party_of(2)), Some(300));
}

#[test]
fn sealed_item_returns_to_the_owner_when_nothing_was_sold() {
    let mut auction = sealed(false, 5);
    commit(&mut auction, 2, 120, 7, 300);
    assert_eq!(reclaim_item_sealed(&auction, party_of(2), 3_001), Err(AuctionError::Unauthorized));
    assert_eq!(
        reclaim_item_sealed(&auction, party_of(SELLER), 3_000),
        Err(AuctionError::RevealPeriodNotOver)
    );
    assert_eq!(
        reclaim_item_sealed(&auction, party_of(SELLER), 3_001),
        Ok(Transfer::ReleaseItem { to: party_of(SELLER), amount: 1 })
    );
    assert_eq!(reveal_sealed_bid(&mut auction, party_of(2), 120, 7, 2_100), Ok(None));
    assert_eq!(
        reclaim_item_sealed(&auction, party_of(SELLER), 3_001),
        Err(AuctionError::RevealPeriodNotOver)
    );
}

#[test]
fn sealed_escrow_matches_the_book_until_settlement() {
    let mut auction = sealed(false, 5);
    let mut held: u64 = 0;
    let h = compute_bid_hash(1, 1);
    let mut moves: Vec<Option<Transfer>> = Vec::new();
    moves.push(make_sealed_bid(&mut auction, party_of(2), compute_bid_hash(120, 7), 300, 1_100).ok());
    moves.push(make_sealed_bid(&mut auction, party_of(3), compute_bid_hash(100, 8), 150, 1_200).ok());
    moves.push(make_sealed_bid(&mut auction, party_of(3), h, 10, 1_300).ok());
    moves.push(make_sealed_bid(&mut auction, party_of(4), h, 70, 1_400).ok());
    moves.push(make_sealed_bid(&mut auction, party_of(5), compute_bid_hash(90, 9), 90, 1_400).ok());
    moves.push(reclaim_sealed_bid(&mut auction, party_of(4)).ok());
    moves.push(reveal_sealed_bid(&mut auction, party_of(3), 100, 8, 2_100).unwrap_or(None));
    moves.push(reveal_sealed_bid(&mut auction, party_of(5), 90, 9, 2_200).unwrap_or(None));
    moves.push(reveal_sealed_bid(&mut auction, party_of(2), 120, 7, 2_300).unwrap_or(None));
    let expected: [u64; 9] = [300, 450, 450, 520, 610, 540, 540, 450, 450];
    let mut seen: Vec<u64> = Vec::new();
    for m in moves {
        match m {
            Some(Transfer::HoldCurrency { amount, .. }) => held += amount,
            Some(Transfer::ReleaseCurrency { amount, .. }) => held -= amount,
            _ => {}
        }
        seen.push(held);
    }
    assert_eq!(seen, expected.to_vec());
    assert_eq!(auction.cover(&party_of(2)), Some(300));
    assert_eq!(auction.cover(&party_of(3)), Some(150));
    assert_eq!(auction.bidder_count(), 2);
    let parts = auction.into_parts();
    let booked: u64 = parts.entries.iter().map(|e| e.value.cover).sum();
    assert_eq!(booked, held);
}

#[test]
fn sealed_record_round_trips_through_its_parts() {
    let mut auction = sealed(false, 5);
    commit(&mut auction, 2, 120, 7, 300);
    commit(&mut auction, 3, 100, 8, 150);
    assert_eq!(reveal_sealed_bid(&mut auction, party_of(3), 100, 8, 2_100), Ok(None));
    let parts = auction.into_parts();
    assert_eq!(parts.highest_bid, 100);
    assert_eq!(parts.highest_bidder, Some(party_of(3)));
    let mut again = SealedAuction::from_parts(parts).unwrap();
    assert_eq!(reveal_sealed_bid(&mut again, party_of(2), 120, 7, 2_200), Ok(None));
    assert_eq!(again.second_highest_bid(), 100);
    assert!(SealedAuction::from_parts(sealed_sample()).is_some());
}

#[test]
fn sealed_record_is_not_made_from_parts_that_break_its_rules() {
    let mut p = sealed_sample();
    p.entries.push(Entry { bidder: party_of(3), value: SealedBid { commitment: [1; 32], cover: 1 } });
    assert!(SealedAuction::from_parts(p).is_none());

    let mut p = sealed_sample();
    p.entries.push(Entry { bidder: party_of(SELLER), value: SealedBid { commitment: [1; 32], cover: 1 } });
    assert!(SealedAuction::from_parts(p).is_none());

    let mut p = sealed_sample();
    p.bidder_cap = 1;
    assert!(SealedAuction::from_parts(p).is_none());

    let mut p = sealed_sample();
    p.second_highest_bid = 121;
    assert!(SealedAuction::from_parts(p).is_none());

    let mut p = sealed_sample();
    p.second_highest_bid = 50;
    assert!(SealedAuction::from_parts(p).is_none());

    let mut p = sealed_sample();
    p.highest_bidder = None;
    assert!(SealedAuction::from_parts(p).is_none());

    let mut p = sealed_sample();
    p.highest_bidder = Some(party_of(SELLER));
    assert!(SealedAuction::from_parts(p).is_none());

    let mut p = sealed_sample();
    p.reveal_deadline = 2_000;
    assert!(SealedAuction::from_parts(p).is_none());

    let mut p = sealed_sample();
    p.highest_bid = 0;
    p.second_highest_bid = 0;
    p.highest_bidder = None;
    p.winning_bid_withdrawn = true;
    assert!(SealedAuction::from_parts(p).is_none());

    let mut p = sealed_sample();
    p.highest_bid = 0;
    p.second_highest_bid = 0;
    p.highest_bidder = None;
    p.item_withdrawn = true;
    assert!(SealedAuction::from_parts(p).is_none());

    let mut p = sealed_sample();
    p.item_withdrawn = true;
    assert!(SealedAuction::from_parts(p).is_some());

    let mut p = sealed_sample();
    p.highest_bidder = Some(party_of(9));
    p.winning_bid_withdrawn = true;
    p.cancelled = true;
    assert!(SealedAuction::from_parts(p).is_some());
}

#[test]
fn sealed_record_keeps_the_leader_in_the_book_with_cover() {
    let mut p = sealed_sample();
    p.entries[0].value.cover = 119;
    assert!(SealedAuction::from_parts(p).is_none());

    let mut p = sealed_sample();
    p.entries.remove(0);
    assert!(SealedAuction::from_parts(p).is_none());

    let mut p = sealed_sample();
    p.highest_bidder = Some(party_of(9));
    assert!(SealedAuction::from_parts(p).is_none());

    let mut p = sealed_sample();
    p.entries[0].value.cover = 120;
    let mut exact = SealedAuction::from_parts(p).unwrap();
    assert_eq!(
        withdraw_item_sealed(&mut exact, party_of(2), 3_001),
        Ok((
            Transfer::ReleaseItem { to: party_of(2), amount: 1 },
            Transfer::ReleaseCurrency { to: party_of(2), amount: 20 },
        ))
    );
}

#[test]
fn sealed_cancelled_auction_lets_the_leader_go() {
    let mut p = sealed_sample();
    p.cancelled = true;
    let mut cancelled = SealedAuction::from_parts(p).unwrap();
    assert_eq!(
        withdraw_item_sealed(&mut cancelled, party_of(2), 3_001),
        Err(AuctionError::AuctionCancelled)
    );
    assert_eq!(
        withdraw_winning_bid_sealed(&mut cancelled, party_of(SELLER), 3_001),
        Err(AuctionError::AuctionCancelled)
    );
    assert_eq!(
        reveal_sealed_bid(&mut cancelled, party_of(2), 120, 7, 2_500),
        Err(AuctionError::AuctionCancelled)
    );
    assert_eq!(
        reclaim_item_sealed(&cancelled, party_of(SELLER), 0),
        Ok(Transfer::ReleaseItem { to: party_of(SELLER), amount: 1 })
    );
    assert_eq!(
        reclaim_sealed_bid(&mut cancelled, party_of(2)),
        Ok(Transfer::ReleaseCurrency { to: party_of(2), amount: 300 })
    );
    assert_eq!(reclaim_sealed_bid(&mut cancelled, party_of(2)), Err(AuctionError::NotBidder));
    assert_eq!(
        reclaim_sealed_bid(&mut cancelled, party_of(3)),
        Ok(Transfer::ReleaseCurrency { to: party_of(3), amount: 150 })
    );
    assert_eq!(cancelled.bidder_count(), 0);
}

#[test]
fn sealed_cover_can_be_taken_back_by_all_but_the_leader() {
    let mut auction = sealed(false, 5);
    commit(&mut auction, 2, 120, 7, 300);
    commit(&mut auction, 3, 100, 8, 150);
    commit(&mut auction, 4, 90, 9, 95);
    assert_eq!(reveal_sealed_bid(&mut auction, party_of(3), 100, 8, 2_100), Ok(None));
    assert_eq!(reveal_sealed_bid(&mut auction, party_of(2), 120, 7, 2_200), Ok(None));
    assert_eq!(
        reclaim_sealed_bid(&mut auction, party_of(3)),
        Ok(Transfer::ReleaseCurrency { to: party_of(3), amount: 150 })
    );
    assert_eq!(
        withdraw_winning_bid_sealed(&mut auction, party_of(SELLER), 3_001),
        Ok(Transfer::ReleaseCurrency { to: party_of(SELLER), amount: 100 })
    );
    assert_eq!(
        reclaim_sealed_bid(&mut auction, party_of(4)),
        Ok(Transfer::ReleaseCurrency { to: party_of(4), amount: 95 })
    );
    assert_eq!(
        reclaim_sealed_bid(&mut auction, party_of(2)),
        Err(AuctionError::WinnerCannotWithdrawBid)
    );
    assert_eq!(auction.bidder_count(), 1);
    assert_eq!(auction.cover(&party_of(2)), Some(300));
    assert_eq!(auction.highest_bid(), 120);
    assert_eq!(auction.second_highest_bid(), 100);
}

#[test]
fn sealed_refusal_leaves_the_record_as_it_is() {
    let mut auction = sealed(false, 2);
    commit(&mut auction, 2, 120, 7, 300);
    commit(&mut auction, 3, 100, 8, 99);
    assert!(make_sealed_bid(&mut auction, party_of(4), [0; 32], 10, 1_500).is_err());
    assert!(make_sealed_bid(&mut auction, party_of(2), [0; 32], 10, 1_500).is_err());
    assert!(reveal_sealed_bid(&mut auction, party_of(2), 120, 7, 1_999).is_err());
    assert!(reveal_sealed_bid(&mut auction, party_of(2), 120, 8, 2_500).is_err());
    assert!(reveal_sealed_bid(&mut auction, party_of(3), 100, 8, 2_500).is_err());
    assert!(reclaim_sealed_bid(&mut auction, party_of(4)).is_err());
    assert!(withdraw_winning_bid_sealed(&mut auction, party_of(SELLER), 3_001).is_err());
    assert!(cancel_sealed_auction(&mut auction, party_of(SELLER), 2_000).is_err());
    let parts = auction.into_parts();
    assert!(!parts.cancelled);
    assert!(!parts.winning_bid_withdrawn);
    assert_eq!(parts.highest_bid, 0);
    assert_eq!(parts.second_highest_bid, 0);
    assert_eq!(parts.highest_bidder, None);
    assert_eq!(parts.entries.len(), 2);
    assert_eq!(parts.entries[0].bidder, party_of(2));
    assert_eq!(parts.entries[0].value.cover, 300);
    assert_eq!(parts.entries[0].value.commitment, compute_bid_hash(120, 7));
    assert_eq!(parts.entries[1].bidder, party_of(3));
    assert_eq!(parts.entries[1].value.cover, 99);
}
