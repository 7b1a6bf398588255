//! The sealed-bid auction. A bidder commits to a secret bid by its digest and
//! puts a cover in escrow; after the commitments close, bids are revealed, and
//! the auction settles at the highest bid, or at the second-highest where it is
//! not first-price: the two bids on record are the two highest revealed, in
//! whatever order they came. The item is handed over once. A cover can be taken
//! back at any time, revealed or not, by every bidder but the one who leads:
//! the leader's cover stays in escrow until the auction is settled or
//! cancelled, and the leader's commitment is used up, so that it cannot be
//! revealed a second time.
use crate::bidbook::{
    distinct_bidders, has_bidder, index_of, lemma_push, lemma_remove, value_of, BidBook, Entry,
    Escrowed,
};
use crate::commitment::{bid_commitment, compute_bid_hash, same_digest};
use crate::error::AuctionError;
use crate::escrow::Transfer;
use crate::party::{holds_party, PartyId};
use crate::title::MAX_TITLE_CHARS;
use vstd::prelude::*;
use vstd::string::StrSliceExecFns;

verus! {

/// What a sealed auction keeps for one bidder: the commitment to the secret
/// bid, and the currency put in escrow to cover it.
#[derive(Clone, Copy, Debug)]
pub struct SealedBid {
    pub commitment: [u8; 32],
    pub cover: u64,
}

impl Escrowed for SealedBid {
    open spec fn escrowed(&self) -> nat {
        self.cover as nat
    }
}

/// What a sealed-bid auction is at one moment.
pub struct SealedState {
    pub owner: PartyId,
    pub mint: PartyId,
    pub token_amount: u64,
    pub bump: u8,
    pub title: Seq<char>,
    pub bid_floor: u64,
    pub first_price: bool,
    pub start_time: u64,
    pub end_time: u64,
    pub reveal_deadline: u64,
    pub cancelled: bool,
    pub bidder_cap: u64,
    pub highest_bid: u64,
    pub second_highest_bid: u64,
    pub highest_bidder: Option<PartyId>,
    /// Whether the item has been handed to the highest bidder.
    pub item_withdrawn: bool,
    pub winning_bid_withdrawn: bool,
    /// For each bidder the commitment and the cover in escrow.
    pub bids: Seq<Entry<SealedBid>>,
}

impl SealedState {
    /// What holds of a sealed auction after every operation.
    pub open spec fn wf(self) -> bool {
        &&& self.title.len() <= MAX_TITLE_CHARS
        &&& self.token_amount > 0
        &&& self.bid_floor > 0
        &&& self.start_time < self.end_time
        &&& self.end_time < self.reveal_deadline
        &&& distinct_bidders(self.bids)
        &&& self.bids.len() <= self.bidder_cap
        &&& !has_bidder(self.bids, self.owner)
        &&& self.second_highest_bid <= self.highest_bid
        &&& (self.highest_bidder is Some <==> self.highest_bid > 0)
        &&& (self.highest_bid > 0 ==> self.highest_bid > self.bid_floor)
        &&& (self.second_highest_bid > 0 ==> self.second_highest_bid > self.bid_floor)
        &&& self.highest_bidder != Some(self.owner)
        &&& (self.winning_bid_withdrawn ==> self.highest_bidder is Some)
        &&& (self.item_withdrawn ==> self.highest_bidder is Some)
        &&& (!self.cancelled && self.highest_bidder is Some ==> self.winner_stands())
    }

    /// The highest bidder still has an entry, and its cover pays for the
    /// highest bid.
    pub open spec fn winner_stands(self) -> bool {
        &&& has_bidder(self.bids, self.highest_bidder->0)
        &&& self.cover_of(self.highest_bidder->0) >= self.highest_bid
    }

    /// The cover that `who` has in escrow.
    pub open spec fn cover_of(self, who: PartyId) -> nat {
        match value_of(self.bids, who) {
            Some(v) => v.cover as nat,
            None => 0,
        }
    }

    /// What the winner owes: the highest bid in a first-price auction or where
    /// one bid only was revealed, else the second-highest bid.
    pub open spec fn settlement_price(self) -> u64 {
        if self.first_price || self.second_highest_bid == 0 {
            self.highest_bid
        } else {
            self.second_highest_bid
        }
    }

    /// What listing asks for: the item goes from the owner into escrow.
    pub open spec fn item_deposit(self) -> Transfer {
        Transfer::HoldItem { from: self.owner, amount: self.token_amount }
    }

    /// What an accepted commitment asks for: the cover goes from the bidder
    /// into escrow.
    pub open spec fn cover_deposit(bidder: PartyId, amount: u64) -> Transfer {
        Transfer::HoldCurrency { from: bidder, amount }
    }

    /// What a bidder who leaves gets back: the whole cover.
    pub open spec fn cover_refund(self, bidder: PartyId) -> Transfer {
        Transfer::ReleaseCurrency { to: bidder, amount: self.cover_of(bidder) as u64 }
    }

    /// What the owner is paid: the settlement price.
    pub open spec fn winning_bid_payout(self) -> Transfer {
        Transfer::ReleaseCurrency { to: self.owner, amount: self.settlement_price() }
    }

    /// What the winner gets back with the item: the cover less the settlement
    /// price.
    pub open spec fn winner_refund(self) -> Transfer {
        Transfer::ReleaseCurrency {
            to: self.highest_bidder->0,
            amount: (self.cover_of(self.highest_bidder->0) - self.settlement_price()) as u64,
        }
    }

    /// The whole item goes from escrow to `to`.
    pub open spec fn item_release(self, to: PartyId) -> Transfer {
        Transfer::ReleaseItem { to, amount: self.token_amount }
    }

    /// Why `cancel` is refused, if it is.
    pub open spec fn cancel_refusal(self, caller: PartyId, cur_time: u64) -> Option<AuctionError> {
        if caller != self.owner {
            Some(AuctionError::Unauthorized)
        } else if cur_time >= self.end_time {
            Some(AuctionError::CannotCancelRevealPeriod)
        } else {
            None
        }
    }

    /// The auction once cancelled.
    pub open spec fn after_cancel(self) -> SealedState {
        SealedState { cancelled: true, ..self }
    }

    /// Why a commitment is refused, if it is.
    pub open spec fn commit_refusal(self, bidder: PartyId, amount: u64, cur_time: u64) -> Option<
        AuctionError,
    > {
        if self.cancelled {
            Some(AuctionError::AuctionCancelled)
        } else if cur_time <= self.start_time {
            Some(AuctionError::BidBeforeStart)
        } else if cur_time >= self.end_time {
            Some(AuctionError::BidAfterClose)
        } else if bidder == self.owner {
            Some(AuctionError::OwnerCannotBid)
        } else if amount == 0 {
            Some(AuctionError::MustSendSol)
        } else if has_bidder(self.bids, bidder) {
            Some(AuctionError::DuplicateSealedBid)
        } else if self.bids.len() >= self.bidder_cap {
            Some(AuctionError::BidderCapReached)
        } else {
            None
        }
    }

    /// The auction with the new commitment at the end of the book.
    pub open spec fn after_commit(self, bidder: PartyId, bid_hash: [u8; 32], amount: u64)
        -> SealedState {
        SealedState {
            bids: self.bids.push(
                Entry { bidder, value: SealedBid { commitment: bid_hash, cover: amount } },
            ),
            ..self
        }
    }

    /// Why a bidder may not take the cover back, if so. The bidder who leads an
    /// auction that is not cancelled is held to the bid.
    pub open spec fn reclaim_bid_refusal(self, bidder: PartyId) -> Option<AuctionError> {
        if !has_bidder(self.bids, bidder) {
            Some(AuctionError::NotBidder)
        } else if self.highest_bidder == Some(bidder) && !self.cancelled {
            Some(AuctionError::WinnerCannotWithdrawBid)
        } else {
            None
        }
    }

    /// The auction without the entry of `bidder`.
    pub open spec fn without(self, bidder: PartyId) -> SealedState {
        SealedState { bids: self.bids.remove(index_of(self.bids, bidder)), ..self }
    }

    /// Why a reveal is refused, if it is; `proposed` is the digest of the
    /// revealed bid and nonce. The commitment of the bidder who leads was used
    /// up by the reveal that took the lead: whatever that bidder reveals now is
    /// refused as a mismatch.
    pub open spec fn reveal_refusal(
        self,
        bidder: PartyId,
        bid: u64,
        proposed: Seq<u8>,
        cur_time: u64,
    ) -> Option<AuctionError> {
        if self.cancelled {
            Some(AuctionError::AuctionCancelled)
        } else if cur_time <= self.end_time {
            Some(AuctionError::AuctionNotOver)
        } else if cur_time >= self.reveal_deadline {
            Some(AuctionError::RevealPeriodOver)
        } else if !has_bidder(self.bids, bidder) {
            Some(AuctionError::NotBidder)
        } else if self.highest_bidder == Some(bidder) {
            Some(AuctionError::HashMismatch)
        } else if value_of(self.bids, bidder)->0.commitment@ != proposed {
            Some(AuctionError::HashMismatch)
        } else if bid <= self.bid_floor {
            Some(AuctionError::UnderBidFloor)
        } else if self.cover_of(bidder) < bid {
            Some(AuctionError::InsufficientSol)
        } else {
            None
        }
    }

    /// The auction after an accepted reveal. A bid above the highest becomes the
    /// highest, and the former highest the second; any other bid has lost: its
    /// entry leaves the book, and it becomes the second-highest bid where it is
    /// above the one on record. So the two recorded bids are the two highest
    /// revealed, in whatever order they came.
    pub open spec fn after_reveal(self, bidder: PartyId, bid: u64) -> SealedState {
        if bid > self.highest_bid {
            SealedState {
                second_highest_bid: self.highest_bid,
                highest_bid: bid,
                highest_bidder: Some(bidder),
                ..self
            }
        } else {
            SealedState {
                second_highest_bid: if bid > self.second_highest_bid {
                    bid
                } else {
                    self.second_highest_bid
                },
                ..self.without(bidder)
            }
        }
    }

    /// What an accepted reveal pays back at once: nothing to a bid that leads,
    /// the whole cover to one that has lost.
    pub open spec fn reveal_refund(self, bidder: PartyId, bid: u64) -> Option<Transfer> {
        if bid > self.highest_bid {
            None
        } else {
            Some(self.cover_refund(bidder))
        }
    }

    /// Why the item is not handed to `caller`, if so. It is handed over once.
    pub open spec fn withdraw_item_refusal(self, caller: PartyId, cur_time: u64) -> Option<
        AuctionError,
    > {
        if self.highest_bidder != Some(caller) {
            Some(AuctionError::Unauthorized)
        } else if self.cancelled {
            Some(AuctionError::AuctionCancelled)
        } else if cur_time <= self.reveal_deadline {
            Some(AuctionError::RevealPeriodNotOver)
        } else if self.item_withdrawn {
            Some(AuctionError::AlreadyWithdrewItem)
        } else {
            None
        }
    }

    /// The auction once the item has been handed over.
    pub open spec fn after_withdraw_item(self) -> SealedState {
        SealedState { item_withdrawn: true, ..self }
    }

    /// Why the winning bid is not paid out to `caller`, if so.
    pub open spec fn withdraw_winning_bid_refusal(self, caller: PartyId, cur_time: u64) -> Option<
        AuctionError,
    > {
        if caller != self.owner {
            Some(AuctionError::Unauthorized)
        } else if self.cancelled {
            Some(AuctionError::AuctionCancelled)
        } else if cur_time <= self.end_time {
            Some(AuctionError::AuctionNotOver)
        } else if cur_time <= self.reveal_deadline {
            Some(AuctionError::RevealPeriodNotOver)
        } else if self.highest_bidder is None {
            Some(AuctionError::NoWinningBid)
        } else if self.winning_bid_withdrawn {
            Some(AuctionError::AlreadyWithdrewBid)
        } else {
            None
        }
    }

    /// The auction once the seller has been paid.
    pub open spec fn after_withdraw_winning_bid(self) -> SealedState {
        SealedState { winning_bid_withdrawn: true, ..self }
    }

    /// Why the item does not go back to `caller`, if so.
    pub open spec fn reclaim_item_refusal(self, caller: PartyId, cur_time: u64) -> Option<
        AuctionError,
    > {
        if caller != self.owner {
            Some(AuctionError::Unauthorized)
        } else if !((self.highest_bid == 0 && cur_time > self.reveal_deadline) || self.cancelled) {
            Some(AuctionError::RevealPeriodNotOver)
        } else {
            None
        }
    }
}

/// Why a sealed auction with these terms cannot be listed at `cur_time`, if so.
pub open spec fn sealed_listing_refusal(
    title: Seq<char>,
    floor: u64,
    start_time: u64,
    end_time: u64,
    reveal_deadline: u64,
    token_amount: u64,
    cur_time: u64,
) -> Option<AuctionError> {
    if title.len() > MAX_TITLE_CHARS {
        Some(AuctionError::TitleOverflow)
    } else if token_amount == 0 {
        Some(AuctionError::InvalidTokenAmount)
    } else if start_time >= end_time {
        Some(AuctionError::InvalidStartTime)
    } else if cur_time <= start_time && start_time != 0 {
        Some(AuctionError::InvalidStartTime)
    } else if cur_time >= end_time {
        Some(AuctionError::InvalidEndTime)
    } else if reveal_deadline <= end_time {
        Some(AuctionError::InvalidRevealPeriod)
    } else if floor == 0 {
        Some(AuctionError::InvalidBidFloor)
    } else {
        None
    }
}

/// The sealed auction as it is listed: no commitments, nothing revealed, not
/// cancelled. A start time of 0 stands for the time of listing.
pub open spec fn sealed_listed(
    owner: PartyId,
    mint: PartyId,
    bump: u8,
    title: Seq<char>,
    floor: u64,
    first_price: bool,
    start_time: u64,
    end_time: u64,
    reveal_deadline: u64,
    bidder_cap: u64,
    token_amount: u64,
    cur_time: u64,
) -> SealedState {
    SealedState {
        owner,
        mint,
        token_amount,
        bump,
        title,
        bid_floor: floor,
        first_price,
        start_time: if start_time == 0 {
            cur_time
        } else {
            start_time
        },
        end_time,
        reveal_deadline,
        cancelled: false,
        bidder_cap,
        highest_bid: 0,
        second_highest_bid: 0,
        highest_bidder: None,
        item_withdrawn: false,
        winning_bid_withdrawn: false,
        bids: Seq::empty(),
    }
}

/// The record of one sealed-bid auction.
pub struct SealedAuction {
    owner: PartyId,
    mint: PartyId,
    token_amount: u64,
    bump: u8,
    title: String,
    bid_floor: u64,
    first_price: bool,
    start_time: u64,
    end_time: u64,
    reveal_deadline: u64,
    cancelled: bool,
    highest_bid: u64,
    second_highest_bid: u64,
    highest_bidder: Option<PartyId>,
    item_withdrawn: bool,
    winning_bid_withdrawn: bool,
    book: BidBook<SealedBid>,
}

impl View for SealedAuction {
    type V = SealedState;

    closed spec fn view(&self) -> SealedState {
        SealedState {
            owner: self.owner,
            mint: self.mint,
            token_amount: self.token_amount,
            bump: self.bump,
            title: self.title@,
            bid_floor: self.bid_floor,
            first_price: self.first_price,
            start_time: self.start_time,
            end_time: self.end_time,
            reveal_deadline: self.reveal_deadline,
            cancelled: self.cancelled,
            bidder_cap: self.book.spec_capacity(),
            highest_bid: self.highest_bid,
            second_highest_bid: self.second_highest_bid,
            highest_bidder: self.highest_bidder,
            item_withdrawn: self.item_withdrawn,
            winning_bid_withdrawn: self.winning_bid_withdrawn,
            bids: self.book@,
        }
    }
}

/// The fields of a sealed auction's record as plain values, as they are stored
/// and read back.
pub struct SealedAuctionParts {
    pub owner: PartyId,
    pub mint: PartyId,
    pub token_amount: u64,
    pub bump: u8,
    pub title: String,
    pub bid_floor: u64,
    pub first_price: bool,
    pub start_time: u64,
    pub end_time: u64,
    pub reveal_deadline: u64,
    pub cancelled: bool,
    pub bidder_cap: u64,
    pub highest_bid: u64,
    pub second_highest_bid: u64,
    pub highest_bidder: Option<PartyId>,
    /// Whether the item has been handed to the highest bidder.
    pub item_withdrawn: bool,
    pub winning_bid_withdrawn: bool,
    pub entries: Vec<Entry<SealedBid>>,
}

impl View for SealedAuctionParts {
    type V = SealedState;

    open spec fn view(&self) -> SealedState {
        SealedState {
            owner: self.owner,
            mint: self.mint,
            token_amount: self.token_amount,
            bump: self.bump,
            title: self.title@,
            bid_floor: self.bid_floor,
            first_price: self.first_price,
            start_time: self.start_time,
            end_time: self.end_time,
            reveal_deadline: self.reveal_deadline,
            cancelled: self.cancelled,
            bidder_cap: self.bidder_cap,
            highest_bid: self.highest_bid,
            second_highest_bid: self.second_highest_bid,
            highest_bidder: self.highest_bidder,
            item_withdrawn: self.item_withdrawn,
            winning_bid_withdrawn: self.winning_bid_withdrawn,
            bids: self.entries@,
        }
    }
}

impl SealedAuction {
    /// The record's invariant.
    pub open spec fn wf(&self) -> bool {
        self@.wf()
    }

    /// The record with the given fields, where they make up a sealed auction
    /// that the operations can have reached.
    pub fn from_parts(parts: SealedAuctionParts) -> (r: Option<SealedAuction>)
        ensures
            r is Some <==> parts@.wf(),
            r is Some ==> r->0@ == parts@ && r->0.wf(),
    {
        if parts.title.as_str().unicode_len() > MAX_TITLE_CHARS || parts.token_amount == 0
            || parts.bid_floor == 0 || parts.start_time >= parts.end_time || parts.end_time
            >= parts.reveal_deadline {
            return None;
        }
        if parts.second_highest_bid > parts.highest_bid {
            return None;
        }
        if parts.highest_bidder.is_some() != (parts.highest_bid > 0) {
            return None;
        }
        if parts.highest_bid > 0 && parts.highest_bid <= parts.bid_floor {
            return None;
        }
        if parts.second_highest_bid > 0 && parts.second_highest_bid <= parts.bid_floor {
            return None;
        }
        if holds_party(&parts.highest_bidder, &parts.owner) {
            return None;
        }
        if parts.winning_bid_withdrawn && parts.highest_bidder.is_none() {
            return None;
        }
        if parts.item_withdrawn && parts.highest_bidder.is_none() {
            return None;
        }
        let book = match BidBook::from_entries(parts.bidder_cap, parts.entries) {
            Some(book) => book,
            None => {
                return None;
            },
        };
        if book.position(&parts.owner).is_some() {
            return None;
        }
        if !parts.cancelled {
            match parts.highest_bidder {
                Some(winner) => {
                    match book.get(&winner) {
                        Some(held) => {
                            if held.cover < parts.highest_bid {
                                return None;
                            }
                        },
                        None => {
                            return None;
                        },
                    }
                },
                None => {},
            }
        }
        let auction = SealedAuction {
            owner: parts.owner,
            mint: parts.mint,
            token_amount: parts.token_amount,
            bump: parts.bump,
            title: parts.title,
            bid_floor: parts.bid_floor,
            first_price: parts.first_price,
            start_time: parts.start_time,
            end_time: parts.end_time,
            reveal_deadline: parts.reveal_deadline,
            cancelled: parts.cancelled,
            highest_bid: parts.highest_bid,
            second_highest_bid: parts.second_highest_bid,
            highest_bidder: parts.highest_bidder,
            item_withdrawn: parts.item_withdrawn,
            winning_bid_withdrawn: parts.winning_bid_withdrawn,
            book,
        };
        Some(auction)
    }

    /// The fields of the record; the record is given up.
    pub fn into_parts(self) -> (parts: SealedAuctionParts)
        ensures
            parts@ == self@,
    {
        let bidder_cap = self.book.capacity();
        SealedAuctionParts {
            owner: self.owner,
            mint: self.mint,
            token_amount: self.token_amount,
            bump: self.bump,
            title: self.title,
            bid_floor: self.bid_floor,
            first_price: self.first_price,
            start_time: self.start_time,
            end_time: self.end_time,
            reveal_deadline: self.reveal_deadline,
            cancelled: self.cancelled,
            bidder_cap,
            highest_bid: self.highest_bid,
            second_highest_bid: self.second_highest_bid,
            highest_bidder: self.highest_bidder,
            item_withdrawn: self.item_withdrawn,
            winning_bid_withdrawn: self.winning_bid_withdrawn,
            entries: self.book.into_entries(),
        }
    }

    /// The party that listed the auction.
    pub fn owner(&self) -> (owner: PartyId)
        ensures
            owner == self@.owner,
    {
        self.owner
    }

    /// The title under which the auction was listed.
    pub fn title(&self) -> (title: &str)
        ensures
            title@ == self@.title,
    {
        self.title.as_str()
    }

    /// Whether the auction was cancelled.
    pub fn is_cancelled(&self) -> (cancelled: bool)
        ensures
            cancelled == self@.cancelled,
    {
        self.cancelled
    }

    /// The highest revealed bid so far; 0 where there is none.
    pub fn highest_bid(&self) -> (bid: u64)
        ensures
            bid == self@.highest_bid,
    {
        self.highest_bid
    }

    /// The bid that the highest one displaced; 0 where there is none.
    pub fn second_highest_bid(&self) -> (bid: u64)
        ensures
            bid == self@.second_highest_bid,
    {
        self.second_highest_bid
    }

    /// The bidder of the highest revealed bid, if there is one.
    pub fn highest_bidder(&self) -> (bidder: Option<PartyId>)
        ensures
            bidder == self@.highest_bidder,
    {
        self.highest_bidder
    }

    /// Whether the item has been handed to the highest bidder.
    pub fn is_item_withdrawn(&self) -> (gone: bool)
        ensures
            gone == self@.item_withdrawn,
    {
        self.item_withdrawn
    }

    /// Whether the owner has been paid.
    pub fn is_winning_bid_withdrawn(&self) -> (paid: bool)
        ensures
            paid == self@.winning_bid_withdrawn,
    {
        self.winning_bid_withdrawn
    }

    /// The number of bidders with an entry.
    pub fn bidder_count(&self) -> (n: usize)
        ensures
            n == self@.bids.len(),
    {
        self.book.len()
    }

    /// The cover that `who` has in escrow, if `who` has an entry.
    pub fn cover(&self, who: &PartyId) -> (held: Option<u64>)
        requires
            self.wf(),
        ensures
            held is Some <==> has_bidder(self@.bids, *who),
            held is Some ==> held->0 == self@.cover_of(*who),
    {
        match self.book.get(who) {
            Some(v) => Some(v.cover),
            None => None,
        }
    }

    /// What the winner owes as things stand.
    pub fn settlement_price(&self) -> (p: u64)
        ensures
            p == self@.settlement_price(),
    {
        self.price()
    }

    /// What the winner owes.
    fn price(&self) -> (p: u64)
        ensures
            p == self@.settlement_price(),
    {
        if self.first_price || self.second_highest_bid == 0 {
            self.highest_bid
        } else {
            self.second_highest_bid
        }
    }
}

/// Lists a sealed auction, or says why not. On success the item is to be taken
/// from the owner into escrow.
pub fn create_sealed_auction(
    owner: PartyId,
    mint: PartyId,
    bump: u8,
    title: String,
    floor: u64,
    first_price: bool,
    start_time: u64,
    end_time: u64,
    reveal_period: u64,
    bidder_cap: u64,
    token_amount: u64,
    cur_time: u64,
) -> (r: Result<(SealedAuction, Transfer), AuctionError>)
    ensures
        match sealed_listing_refusal(
            title@,
            floor,
            start_time,
            end_time,
            reveal_period,
            token_amount,
            cur_time,
        ) {
            Some(e) => r == Err::<(SealedAuction, Transfer), AuctionError>(e),
            None => r is Ok && r->Ok_0.0.wf() && r->Ok_0.0@ == sealed_listed(
                owner,
                mint,
                bump,
                title@,
                floor,
                first_price,
                start_time,
                end_time,
                reveal_period,
                bidder_cap,
                token_amount,
                cur_time,
            ) && r->Ok_0.1 == r->Ok_0.0@.item_deposit(),
        },
{
    if title.as_str().unicode_len() > MAX_TITLE_CHARS {
        return Err(AuctionError::TitleOverflow);
    }
    if token_amount == 0 {
        return Err(AuctionError::InvalidTokenAmount);
    }
    if !(start_time < end_time) {
        return Err(AuctionError::InvalidStartTime);
    }
    if !(cur_time > start_time || start_time == 0) {
        return Err(AuctionError::InvalidStartTime);
    }
    if !(cur_time < end_time) {
        return Err(AuctionError::InvalidEndTime);
    }
    if !(reveal_period > end_time) {
        return Err(AuctionError::InvalidRevealPeriod);
    }
    if !(floor > 0) {
        return Err(AuctionError::InvalidBidFloor);
    }
    let auction = SealedAuction {
        owner,
        mint,
        token_amount,
        bump,
        title,
        bid_floor: floor,
        first_price,
        start_time: if start_time == 0 {
            cur_time
        } else {
            start_time
        },
        end_time,
        reveal_deadline: reveal_period,
        cancelled: false,
        highest_bid: 0,
        second_highest_bid: 0,
        highest_bidder: None,
        item_withdrawn: false,
        winning_bid_withdrawn: false,
        book: BidBook::new(bidder_cap),
    };
    Ok((auction, Transfer::HoldItem { from: owner, amount: token_amount }))
}

/// Cancels the auction for its owner, before commitments have closed. Nothing
/// moves.
pub fn cancel_sealed_auction(auction: &mut SealedAuction, caller: PartyId, cur_time: u64) -> (r:
    Result<(), AuctionError>)
    requires
        old(auction).wf(),
    ensures
        final(auction).wf(),
        match old(auction)@.cancel_refusal(caller, cur_time) {
            Some(e) => r == Err::<(), AuctionError>(e) && final(auction)@ == old(auction)@,
            None => r is Ok && final(auction)@ == old(auction)@.after_cancel(),
        },
{
    if caller != auction.owner {
        return Err(AuctionError::Unauthorized);
    }
    if !(cur_time < auction.end_time) {
        return Err(AuctionError::CannotCancelRevealPeriod);
    }
    auction.cancelled = true;
    Ok(())
}

/// Enters the commitment of `bidder` with `amount` as its cover, or says why
/// not. On success `amount` is to be taken from the bidder into escrow.
pub fn make_sealed_bid(
    auction: &mut SealedAuction,
    bidder: PartyId,
    bid_hash: [u8; 32],
    amount: u64,
    cur_time: u64,
) -> (r: Result<Transfer, AuctionError>)
    requires
        old(auction).wf(),
    ensures
        final(auction).wf(),
        match old(auction)@.commit_refusal(bidder, amount, cur_time) {
            Some(e) => r == Err::<Transfer, AuctionError>(e) && final(auction)@ == old(auction)@,
            None => r == Ok::<Transfer, AuctionError>(SealedState::cover_deposit(bidder, amount))
                && final(auction)@ == old(auction)@.after_commit(bidder, bid_hash, amount),
        },
{
    if auction.cancelled {
        return Err(AuctionError::AuctionCancelled);
    }
    if !(cur_time > auction.start_time) {
        return Err(AuctionError::BidBeforeStart);
    }
    if !(cur_time < auction.end_time) {
        return Err(AuctionError::BidAfterClose);
    }
    if bidder == auction.owner {
        return Err(AuctionError::OwnerCannotBid);
    }
    if !(amount > 0) {
        return Err(AuctionError::MustSendSol);
    }
    if auction.book.position(&bidder).is_some() {
        return Err(AuctionError::DuplicateSealedBid);
    }
    if auction.book.is_full() {
        return Err(AuctionError::BidderCapReached);
    }
    proof {
        lemma_push(
            auction@.bids,
            Entry { bidder, value: SealedBid { commitment: bid_hash, cover: amount } },
        );
    }
    auction.book.insert(bidder, SealedBid { commitment: bid_hash, cover: amount });
    Ok(Transfer::HoldCurrency { from: bidder, amount })
}

/// Gives `bidder` the whole cover back and takes the entry out of the book, or
/// says why not. The bidder who leads an auction that is not cancelled cannot
/// leave; every other bidder can, in every phase.
pub fn reclaim_sealed_bid(auction: &mut SealedAuction, bidder: PartyId) -> (r: Result<
    Transfer,
    AuctionError,
>)
    requires
        old(auction).wf(),
    ensures
        final(auction).wf(),
        match old(auction)@.reclaim_bid_refusal(bidder) {
            Some(e) => r == Err::<Transfer, AuctionError>(e) && final(auction)@ == old(auction)@,
            None => r == Ok::<Transfer, AuctionError>(old(auction)@.cover_refund(bidder))
                && final(auction)@ == old(auction)@.without(bidder),
        },
{
    match auction.book.position(&bidder) {
        None => Err(AuctionError::NotBidder),
        Some(i) => {
            if holds_party(&auction.highest_bidder, &bidder) && !auction.cancelled {
                return Err(AuctionError::WinnerCannotWithdrawBid);
            }
            proof {
                lemma_remove(auction@.bids, i as int);
            }
            let entry = auction.book.remove_at(i);
            Ok(Transfer::ReleaseCurrency { to: bidder, amount: entry.value.cover })
        },
    }
}

/// Settles a reveal whose digest has been computed: `proposed_hash` stands for
/// the digest of the revealed bid and nonce. A bid above the highest takes the
/// lead and pays nothing back; any other accepted bid has lost, leaves the
/// book, has its whole cover paid back, and counts as the second-highest bid
/// where it is above the one on record. The bidder who leads cannot reveal
/// again: that commitment is used up, and the reveal is refused as a mismatch.
pub fn reveal_against_hash(
    auction: &mut SealedAuction,
    bidder: PartyId,
    bid: u64,
    proposed_hash: &[u8; 32],
    cur_time: u64,
) -> (r: Result<Option<Transfer>, AuctionError>)
    requires
        old(auction).wf(),
    ensures
        final(auction).wf(),
        match old(auction)@.reveal_refusal(bidder, bid, proposed_hash@, cur_time) {
            Some(e) => r == Err::<Option<Transfer>, AuctionError>(e) && final(auction)@ == old(
                auction,
            )@,
            None => r == Ok::<Option<Transfer>, AuctionError>(
                old(auction)@.reveal_refund(bidder, bid),
            ) && final(auction)@ == old(auction)@.after_reveal(bidder, bid),
        },
{
    if auction.cancelled {
        return Err(AuctionError::AuctionCancelled);
    }
    if !(cur_time > auction.end_time) {
        return Err(AuctionError::AuctionNotOver);
    }
    if !(cur_time < auction.reveal_deadline) {
        return Err(AuctionError::RevealPeriodOver);
    }
    match auction.book.position(&bidder) {
        None => Err(AuctionError::NotBidder),
        Some(i) => {
            let cover = auction.book.entry_at(i).value.cover;
            if holds_party(&auction.highest_bidder, &bidder) {
                return Err(AuctionError::HashMismatch);
            }
            if !same_digest(&auction.book.entry_at(i).value.commitment, proposed_hash) {
                return Err(AuctionError::HashMismatch);
            }
            if !(bid > auction.bid_floor) {
                return Err(AuctionError::UnderBidFloor);
            }
            if !(cover >= bid) {
                return Err(AuctionError::InsufficientSol);
            }
            if bid > auction.highest_bid {
                auction.second_highest_bid = auction.highest_bid;
                auction.highest_bidder = Some(bidder);
                auction.highest_bid = bid;
                Ok(None)
            } else {
                proof {
                    lemma_remove(auction@.bids, i as int);
                }
                auction.book.remove_at(i);
                if bid > auction.second_highest_bid {
                    auction.second_highest_bid = bid;
                }
                Ok(Some(Transfer::ReleaseCurrency { to: bidder, amount: cover }))
            }
        },
    }
}

/// Reveals the bid of `bidder`: accepted only where `bid` and `nonce` hash to
/// the stored commitment, byte for byte, and only once for a bid that leads.
pub fn reveal_sealed_bid(
    auction: &mut SealedAuction,
    bidder: PartyId,
    bid: u64,
    nonce: u64,
    cur_time: u64,
) -> (r: Result<Option<Transfer>, AuctionError>)
    requires
        old(auction).wf(),
    ensures
        final(auction).wf(),
        match old(auction)@.reveal_refusal(bidder, bid, bid_commitment(bid, nonce), cur_time) {
            Some(e) => r == Err::<Option<Transfer>, AuctionError>(e) && final(auction)@ == old(
                auction,
            )@,
            None => r == Ok::<Option<Transfer>, AuctionError>(
                old(auction)@.reveal_refund(bidder, bid),
            ) && final(auction)@ == old(auction)@.after_reveal(bidder, bid),
        },
{
    let proposed_hash = compute_bid_hash(bid, nonce);
    reveal_against_hash(auction, bidder, bid, &proposed_hash, cur_time)
}

/// Hands the item to the highest bidder once the reveal phase is over, and
/// pays back what the cover holds beyond the settlement price, or says why not.
/// The highest bidder of an auction that is not cancelled always has an entry
/// whose cover pays the price, so nothing else can stand in the way.
/// The two transfers are to be carried out in the order given: the item first,
/// then the refund. The hand-over goes on record, and a second one is refused,
/// so that neither the item nor the refund leaves escrow twice.
pub fn withdraw_item_sealed(auction: &mut SealedAuction, caller: PartyId, cur_time: u64) -> (r:
    Result<(Transfer, Transfer), AuctionError>)
    requires
        old(auction).wf(),
    ensures
        final(auction).wf(),
        match old(auction)@.withdraw_item_refusal(caller, cur_time) {
            Some(e) => r == Err::<(Transfer, Transfer), AuctionError>(e) && final(auction)@
                == old(auction)@,
            None => r == Ok::<(Transfer, Transfer), AuctionError>(
                (old(auction)@.item_release(caller), old(auction)@.winner_refund()),
            ) && final(auction)@ == old(auction)@.after_withdraw_item(),
        },
{
    if !holds_party(&auction.highest_bidder, &caller) {
        return Err(AuctionError::Unauthorized);
    }
    if auction.cancelled {
        return Err(AuctionError::AuctionCancelled);
    }
    if !(cur_time > auction.reveal_deadline) {
        return Err(AuctionError::RevealPeriodNotOver);
    }
    if auction.item_withdrawn {
        return Err(AuctionError::AlreadyWithdrewItem);
    }
    let cover = auction.book.get(&caller).unwrap().cover;
    let price = auction.price();
    auction.item_withdrawn = true;
    Ok(
        (
            Transfer::ReleaseItem { to: caller, amount: auction.token_amount },
            Transfer::ReleaseCurrency { to: caller, amount: cover - price },
        ),
    )
}

/// Pays the settlement price to the owner once the reveal phase is over, and
/// records that it was paid, or says why not.
pub fn withdraw_winning_bid_sealed(
    auction: &mut SealedAuction,
    caller: PartyId,
    cur_time: u64,
) -> (r: Result<Transfer, AuctionError>)
    requires
        old(auction).wf(),
    ensures
        final(auction).wf(),
        match old(auction)@.withdraw_winning_bid_refusal(caller, cur_time) {
            Some(e) => r == Err::<Transfer, AuctionError>(e) && final(auction)@ == old(auction)@,
            None => r == Ok::<Transfer, AuctionError>(old(auction)@.winning_bid_payout())
                && final(auction)@ == old(auction)@.after_withdraw_winning_bid(),
        },
{
    if caller != auction.owner {
        return Err(AuctionError::Unauthorized);
    }
    if auction.cancelled {
        return Err(AuctionError::AuctionCancelled);
    }
    if !(cur_time > auction.end_time) {
        return Err(AuctionError::AuctionNotOver);
    }
    if !(cur_time > auction.reveal_deadline) {
        return Err(AuctionError::RevealPeriodNotOver);
    }
    if auction.highest_bidder.is_none() {
        return Err(AuctionError::NoWinningBid);
    }
    let amount = auction.price();
    if auction.winning_bid_withdrawn {
        return Err(AuctionError::AlreadyWithdrewBid);
    }
    auction.winning_bid_withdrawn = true;
    Ok(Transfer::ReleaseCurrency { to: caller, amount })
}

/// Gives the item back to the owner of an auction that was cancelled, or whose
/// reveal phase ended without a valid bid, or says why not. The record does not
/// change.
pub fn reclaim_item_sealed(auction: &SealedAuction, caller: PartyId, cur_time: u64) -> (r: Result<
    Transfer,
    AuctionError,
>)
    requires
        auction.wf(),
    ensures
        match auction@.reclaim_item_refusal(caller, cur_time) {
            Some(e) => r == Err::<Transfer, AuctionError>(e),
            None => r == Ok::<Transfer, AuctionError>(auction@.item_release(caller)),
        },
{
    if caller != auction.owner {
        return Err(AuctionError::Unauthorized);
    }
    if !((auction.highest_bid == 0 && cur_time > auction.reveal_deadline) || auction.cancelled) {
        return Err(AuctionError::RevealPeriodNotOver);
    }
    Ok(Transfer::ReleaseItem { to: caller, amount: auction.token_amount })
}

} // verus!
