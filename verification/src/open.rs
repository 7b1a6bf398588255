//! The open ascending-bid auction. Bids are public and add up: what a bidder
//! sends comes on top of what that bidder has in escrow, and the new total must
//! beat the highest bid by more than the increment. A bidder who is outbid gets
//! nothing back until that bidder reclaims. After the end the item is handed to
//! the highest bidder once, and the highest bid paid to the owner once.
use crate::bidbook::{
    distinct_bidders, has_bidder, index_of, lemma_index_of_found, lemma_push, lemma_remove,
    lemma_update, value_of, BidBook, Entry,
};
use crate::error::AuctionError;
use crate::escrow::Transfer;
use crate::party::{holds_party, PartyId};
use crate::title::MAX_TITLE_CHARS;
use vstd::prelude::*;
use vstd::string::StrSliceExecFns;

verus! {

/// What an open ascending-bid auction is at one moment.
pub struct OpenState {
    pub owner: PartyId,
    pub mint: PartyId,
    pub token_amount: u64,
    pub bump: u8,
    pub title: Seq<char>,
    pub bid_floor: u64,
    pub min_bid_increment: u64,
    pub start_time: u64,
    pub end_time: u64,
    pub cancelled: bool,
    pub bidder_cap: u64,
    pub highest_bid: u64,
    pub highest_bidder: Option<PartyId>,
    /// Whether the item has been handed to the highest bidder.
    pub item_withdrawn: bool,
    /// For each bidder the currency that bidder has in escrow.
    pub bids: Seq<Entry<u64>>,
}

impl OpenState {
    /// What holds of an open auction after every operation.
    pub open spec fn wf(self) -> bool {
        &&& self.title.len() <= MAX_TITLE_CHARS
        &&& self.token_amount > 0
        &&& self.bid_floor > 0
        &&& self.min_bid_increment > 0
        &&& self.start_time < self.end_time
        &&& distinct_bidders(self.bids)
        &&& self.bids.len() <= self.bidder_cap
        &&& !has_bidder(self.bids, self.owner)
        &&& self.none_above_highest()
        &&& (self.highest_bidder is Some <==> self.highest_bid > 0)
        &&& (self.highest_bid > 0 ==> self.highest_bid > self.bid_floor)
        &&& self.highest_bidder != Some(self.owner)
        &&& (self.item_withdrawn ==> self.highest_bidder is Some)
        &&& (!self.cancelled && self.highest_bidder is Some ==> self.winner_stands())
    }

    /// No bidder has more in escrow than the highest bid, and none but the
    /// highest bidder has as much: two bidders never tie for the lead.
    pub open spec fn none_above_highest(self) -> bool {
        forall|i: int|
            0 <= i < self.bids.len() ==> {
                &&& (#[trigger] self.bids[i]).value <= self.highest_bid
                &&& (self.bids[i].value == self.highest_bid && self.highest_bid > 0
                    ==> self.highest_bidder == Some(self.bids[i].bidder))
            }
    }

    /// The highest bidder still has an entry, and it holds the highest bid or,
    /// once the seller has been paid, nothing.
    pub open spec fn winner_stands(self) -> bool {
        let held = value_of(self.bids, self.highest_bidder->0);
        held == Some(self.highest_bid) || held == Some(0u64)
    }

    /// The currency that `who` has in escrow.
    pub open spec fn escrowed_by(self, who: PartyId) -> nat {
        match value_of(self.bids, who) {
            Some(v) => v as nat,
            None => 0,
        }
    }

    /// What listing asks for: the item goes from the owner into escrow.
    pub open spec fn item_deposit(self) -> Transfer {
        Transfer::HoldItem { from: self.owner, amount: self.token_amount }
    }

    /// What an accepted bid asks for: `amount` goes from the bidder into escrow.
    pub open spec fn bid_deposit(bidder: PartyId, amount: u64) -> Transfer {
        Transfer::HoldCurrency { from: bidder, amount }
    }

    /// What a bidder who leaves gets back: all that the bidder has in escrow.
    pub open spec fn bid_refund(self, bidder: PartyId) -> Transfer {
        Transfer::ReleaseCurrency { to: bidder, amount: self.escrowed_by(bidder) as u64 }
    }

    /// What the owner is paid: all that the highest bidder has in escrow.
    pub open spec fn winning_bid_payout(self) -> Transfer {
        Transfer::ReleaseCurrency {
            to: self.owner,
            amount: self.escrowed_by(self.highest_bidder->0) as u64,
        }
    }

    /// The whole item goes from escrow to `to`.
    pub open spec fn item_release(self, to: PartyId) -> Transfer {
        Transfer::ReleaseItem { to, amount: self.token_amount }
    }

    /// Why `cancel` is refused, if it is.
    pub open spec fn cancel_refusal(self, caller: PartyId, cur_time: u64) -> Option<AuctionError> {
        if caller != self.owner {
            Some(AuctionError::Unauthorized)
        } else if cur_time >= self.end_time {
            Some(AuctionError::CannotCancelAfterClose)
        } else {
            None
        }
    }

    /// The auction once cancelled.
    pub open spec fn after_cancel(self) -> OpenState {
        OpenState { cancelled: true, ..self }
    }

    /// Why a bid is refused, if it is. `amount` comes on top of what the bidder
    /// has in escrow already. A total that is not above the floor, or not above
    /// the highest bid by more than the increment, is refused as such whatever
    /// its size; only a total that would lead and does not fit in 64 bits is
    /// refused for its size.
    pub open spec fn bid_refusal(self, bidder: PartyId, amount: u64, cur_time: u64) -> Option<
        AuctionError,
    > {
        let total = self.escrowed_by(bidder) + amount;
        if self.cancelled {
            Some(AuctionError::AuctionCancelled)
        } else if cur_time <= self.start_time {
            Some(AuctionError::BidBeforeStart)
        } else if cur_time >= self.end_time {
            Some(AuctionError::BidAfterClose)
        } else if bidder == self.owner {
            Some(AuctionError::OwnerCannotBid)
        } else if !has_bidder(self.bids, bidder) && self.bids.len() >= self.bidder_cap {
            Some(AuctionError::BidderCapReached)
        } else if total <= self.bid_floor {
            Some(AuctionError::UnderBidFloor)
        } else if total <= self.highest_bid + self.min_bid_increment {
            Some(AuctionError::InsufficientBid)
        } else if total > u64::MAX {
            Some(AuctionError::AmountOverflow)
        } else {
            None
        }
    }

    /// The auction after an accepted bid: the bidder's entry holds the new
    /// total, which is the highest bid.
    pub open spec fn after_bid(self, bidder: PartyId, amount: u64) -> OpenState {
        let total = (self.escrowed_by(bidder) + amount) as u64;
        let entry = Entry { bidder, value: total };
        OpenState {
            highest_bid: total,
            highest_bidder: Some(bidder),
            bids: if has_bidder(self.bids, bidder) {
                self.bids.update(index_of(self.bids, bidder), entry)
            } else {
                self.bids.push(entry)
            },
            ..self
        }
    }

    /// Why a bidder may not take the escrowed bid back, if so.
    pub open spec fn reclaim_bid_refusal(self, bidder: PartyId) -> Option<AuctionError> {
        if !has_bidder(self.bids, bidder) {
            Some(AuctionError::NotBidder)
        } else if self.highest_bidder == Some(bidder) && !self.cancelled {
            Some(AuctionError::WinnerCannotWithdrawBid)
        } else {
            None
        }
    }

    /// The auction without the entry of `bidder`.
    pub open spec fn after_reclaim_bid(self, bidder: PartyId) -> OpenState {
        OpenState { bids: self.bids.remove(index_of(self.bids, bidder)), ..self }
    }

    /// Why the item is not handed to `caller`, if so. It is handed over once.
    pub open spec fn withdraw_item_refusal(self, caller: PartyId, cur_time: u64) -> Option<
        AuctionError,
    > {
        if self.highest_bidder != Some(caller) {
            Some(AuctionError::Unauthorized)
        } else if self.cancelled {
            Some(AuctionError::AuctionCancelled)
        } else if cur_time <= self.end_time {
            Some(AuctionError::AuctionNotOver)
        } else if self.item_withdrawn {
            Some(AuctionError::AlreadyWithdrewItem)
        } else {
            None
        }
    }

    /// The auction once the item has been handed over.
    pub open spec fn after_withdraw_item(self) -> OpenState {
        OpenState { item_withdrawn: true, ..self }
    }

    /// Why the winning bid is not paid out to `caller`, if so.
    pub open spec fn withdraw_winning_bid_refusal(self, caller: PartyId, cur_time: u64) -> Option<
        AuctionError,
    > {
        if caller != self.owner {
            Some(AuctionError::Unauthorized)
        } else if self.cancelled {
            Some(AuctionError::AuctionCancelled)
        } else if cur_time <= self.end_time {
            Some(AuctionError::AuctionNotOver)
        } else if self.highest_bidder is None || !has_bidder(
            self.bids,
            self.highest_bidder->0,
        ) {
            Some(AuctionError::NoWinningBid)
        } else if self.escrowed_by(self.highest_bidder->0) == 0 {
            Some(AuctionError::AlreadyWithdrewBid)
        } else {
            None
        }
    }

    /// The auction once the seller has been paid: the winner's entry holds nothing.
    pub open spec fn after_withdraw_winning_bid(self) -> OpenState {
        let winner = self.highest_bidder->0;
        OpenState {
            bids: self.bids.update(
                index_of(self.bids, winner),
                Entry { bidder: winner, value: 0u64 },
            ),
            ..self
        }
    }

    /// Why the item does not go back to `caller`, if so.
    pub open spec fn reclaim_item_refusal(self, caller: PartyId, cur_time: u64) -> Option<
        AuctionError,
    > {
        if caller != self.owner {
            Some(AuctionError::Unauthorized)
        } else if !((self.highest_bid == 0 && cur_time > self.end_time) || self.cancelled) {
            Some(AuctionError::AuctionNotOver)
        } else {
            None
        }
    }
}

/// Why an open auction with these terms cannot be listed at `cur_time`, if so.
pub open spec fn open_listing_refusal(
    title: Seq<char>,
    floor: u64,
    increment: u64,
    start_time: u64,
    end_time: u64,
    token_amount: u64,
    cur_time: u64,
) -> Option<AuctionError> {
    if title.len() > MAX_TITLE_CHARS {
        Some(AuctionError::TitleOverflow)
    } else if increment == 0 {
        Some(AuctionError::InvalidIncrement)
    } else if token_amount == 0 {
        Some(AuctionError::InvalidTokenAmount)
    } else if start_time >= end_time {
        Some(AuctionError::InvalidStartTime)
    } else if cur_time <= start_time && start_time != 0 {
        Some(AuctionError::InvalidStartTime)
    } else if cur_time >= end_time {
        Some(AuctionError::InvalidEndTime)
    } else if floor == 0 {
        Some(AuctionError::InvalidBidFloor)
    } else {
        None
    }
}

/// The open auction as it is listed: no bids, not cancelled. A start time of 0
/// stands for the time of listing.
pub open spec fn open_listed(
    owner: PartyId,
    mint: PartyId,
    bump: u8,
    title: Seq<char>,
    floor: u64,
    increment: u64,
    start_time: u64,
    end_time: u64,
    bidder_cap: u64,
    token_amount: u64,
    cur_time: u64,
) -> OpenState {
    OpenState {
        owner,
        mint,
        token_amount,
        bump,
        title,
        bid_floor: floor,
        min_bid_increment: increment,
        start_time: if start_time == 0 {
            cur_time
        } else {
            start_time
        },
        end_time,
        cancelled: false,
        bidder_cap,
        highest_bid: 0,
        highest_bidder: None,
        item_withdrawn: false,
        bids: Seq::empty(),
    }
}

/// The record of one open ascending-bid auction.
pub struct OpenAuction {
    owner: PartyId,
    mint: PartyId,
    token_amount: u64,
    bump: u8,
    title: String,
    bid_floor: u64,
    min_bid_increment: u64,
    start_time: u64,
    end_time: u64,
    cancelled: bool,
    highest_bid: u64,
    highest_bidder: Option<PartyId>,
    item_withdrawn: bool,
    book: BidBook<u64>,
}

impl View for OpenAuction {
    type V = OpenState;

    closed spec fn view(&self) -> OpenState {
        OpenState {
            owner: self.owner,
            mint: self.mint,
            token_amount: self.token_amount,
            bump: self.bump,
            title: self.title@,
            bid_floor: self.bid_floor,
            min_bid_increment: self.min_bid_increment,
            start_time: self.start_time,
            end_time: self.end_time,
            cancelled: self.cancelled,
            bidder_cap: self.book.spec_capacity(),
            highest_bid: self.highest_bid,
            highest_bidder: self.highest_bidder,
            item_withdrawn: self.item_withdrawn,
            bids: self.book@,
        }
    }
}

/// Whether no entry of the book holds more than `highest`, and none but that
/// of `leader` as much.
fn none_above(book: &BidBook<u64>, highest: u64, leader: &Option<PartyId>) -> (ok: bool)
    ensures
        ok == (forall|j: int|
            0 <= j < book@.len() ==> {
                &&& (#[trigger] book@[j]).value <= highest
                &&& (book@[j].value == highest && highest > 0 ==> *leader == Some(book@[j].bidder))
            }),
{
    let n = book.len();
    let mut i: usize = 0;
    while i < n
        invariant
            n == book@.len(),
            i <= n,
            forall|j: int|
                0 <= j < i ==> {
                    &&& (#[trigger] book@[j]).value <= highest
                    &&& (book@[j].value == highest && highest > 0 ==> *leader == Some(
                        book@[j].bidder,
                    ))
                },
        decreases n - i,
    {
        let entry = book.entry_at(i);
        if entry.value > highest {
            return false;
        }
        if entry.value == highest && highest > 0 && !holds_party(leader, &entry.bidder) {
            return false;
        }
        i += 1;
    }
    true
}

/// The fields of an open auction's record as plain values, as they are stored
/// and read back.
pub struct OpenAuctionParts {
    pub owner: PartyId,
    pub mint: PartyId,
    pub token_amount: u64,
    pub bump: u8,
    pub title: String,
    pub bid_floor: u64,
    pub min_bid_increment: u64,
    pub start_time: u64,
    pub end_time: u64,
    pub cancelled: bool,
    pub bidder_cap: u64,
    pub highest_bid: u64,
    pub highest_bidder: Option<PartyId>,
    /// Whether the item has been handed to the highest bidder.
    pub item_withdrawn: bool,
    pub entries: Vec<Entry<u64>>,
}

impl View for OpenAuctionParts {
    type V = OpenState;

    open spec fn view(&self) -> OpenState {
        OpenState {
            owner: self.owner,
            mint: self.mint,
            token_amount: self.token_amount,
            bump: self.bump,
            title: self.title@,
            bid_floor: self.bid_floor,
            min_bid_increment: self.min_bid_increment,
            start_time: self.start_time,
            end_time: self.end_time,
            cancelled: self.cancelled,
            bidder_cap: self.bidder_cap,
            highest_bid: self.highest_bid,
            highest_bidder: self.highest_bidder,
            item_withdrawn: self.item_withdrawn,
            bids: self.entries@,
        }
    }
}

impl OpenAuction {
    /// The record's invariant.
    pub open spec fn wf(&self) -> bool {
        self@.wf()
    }

    /// The record with the given fields, where they make up an open auction
    /// that the operations can have reached.
    pub fn from_parts(parts: OpenAuctionParts) -> (r: Option<OpenAuction>)
        ensures
            r is Some <==> parts@.wf(),
            r is Some ==> r->0@ == parts@ && r->0.wf(),
    {
        if parts.title.as_str().unicode_len() > MAX_TITLE_CHARS || parts.token_amount == 0
            || parts.bid_floor == 0 || parts.min_bid_increment == 0 || parts.start_time
            >= parts.end_time {
            return None;
        }
        if parts.highest_bidder.is_some() != (parts.highest_bid > 0) {
            return None;
        }
        if parts.highest_bid > 0 && parts.highest_bid <= parts.bid_floor {
            return None;
        }
        if holds_party(&parts.highest_bidder, &parts.owner) {
            return None;
        }
        if parts.item_withdrawn && parts.highest_bidder.is_none() {
            return None;
        }
        let book = match BidBook::from_entries(parts.bidder_cap, parts.entries) {
            Some(book) => book,
            None => {
                return None;
            },
        };
        if book.position(&parts.owner).is_some() {
            return None;
        }
        if !none_above(&book, parts.highest_bid, &parts.highest_bidder) {
            return None;
        }
        if !parts.cancelled {
            match parts.highest_bidder {
                Some(winner) => {
                    match book.get(&winner) {
                        Some(held) => {
                            if *held != parts.highest_bid && *held != 0 {
                                return None;
                            }
                        },
                        None => {
                            return None;
                        },
                    }
                },
                None => {},
            }
        }
        let auction = OpenAuction {
            owner: parts.owner,
            mint: parts.mint,
            token_amount: parts.token_amount,
            bump: parts.bump,
            title: parts.title,
            bid_floor: parts.bid_floor,
            min_bid_increment: parts.min_bid_increment,
            start_time: parts.start_time,
            end_time: parts.end_time,
            cancelled: parts.cancelled,
            highest_bid: parts.highest_bid,
            highest_bidder: parts.highest_bidder,
            item_withdrawn: parts.item_withdrawn,
            book,
        };
        Some(auction)
    }

    /// The fields of the record; the record is given up.
    pub fn into_parts(self) -> (parts: OpenAuctionParts)
        ensures
            parts@ == self@,
    {
        let bidder_cap = self.book.capacity();
        OpenAuctionParts {
            owner: self.owner,
            mint: self.mint,
            token_amount: self.token_amount,
            bump: self.bump,
            title: self.title,
            bid_floor: self.bid_floor,
            min_bid_increment: self.min_bid_increment,
            start_time: self.start_time,
            end_time: self.end_time,
            cancelled: self.cancelled,
            bidder_cap,
            highest_bid: self.highest_bid,
            highest_bidder: self.highest_bidder,
            item_withdrawn: self.item_withdrawn,
            entries: self.book.into_entries(),
        }
    }

    /// The party that listed the auction.
    pub fn owner(&self) -> (owner: PartyId)
        ensures
            owner == self@.owner,
    {
        self.owner
    }

    /// The title under which the auction was listed.
    pub fn title(&self) -> (title: &str)
        ensures
            title@ == self@.title,
    {
        self.title.as_str()
    }

    /// Whether the auction was cancelled.
    pub fn is_cancelled(&self) -> (cancelled: bool)
        ensures
            cancelled == self@.cancelled,
    {
        self.cancelled
    }

    /// The highest bid so far; 0 where there is none.
    pub fn highest_bid(&self) -> (bid: u64)
        ensures
            bid == self@.highest_bid,
    {
        self.highest_bid
    }

    /// The bidder of the highest bid, if there is one.
    pub fn highest_bidder(&self) -> (bidder: Option<PartyId>)
        ensures
            bidder == self@.highest_bidder,
    {
        self.highest_bidder
    }

    /// Whether the item has been handed to the highest bidder.
    pub fn is_item_withdrawn(&self) -> (gone: bool)
        ensures
            gone == self@.item_withdrawn,
    {
        self.item_withdrawn
    }

    /// The number of bidders with an entry.
    pub fn bidder_count(&self) -> (n: usize)
        ensures
            n == self@.bids.len(),
    {
        self.book.len()
    }

    /// What `who` has in escrow, if `who` has an entry.
    pub fn escrowed(&self, who: &PartyId) -> (held: Option<u64>)
        requires
            self.wf(),
        ensures
            held == value_of(self@.bids, *who),
    {
        match self.book.get(who) {
            Some(v) => Some(*v),
            None => None,
        }
    }
}

/// Lists an open auction, or says why not. On success the item is to be taken
/// from the owner into escrow.
pub fn create_open_auction(
    owner: PartyId,
    mint: PartyId,
    bump: u8,
    title: String,
    floor: u64,
    increment: u64,
    start_time: u64,
    end_time: u64,
    bidder_cap: u64,
    token_amount: u64,
    cur_time: u64,
) -> (r: Result<(OpenAuction, Transfer), AuctionError>)
    ensures
        match open_listing_refusal(
            title@,
            floor,
            increment,
            start_time,
            end_time,
            token_amount,
            cur_time,
        ) {
            Some(e) => r == Err::<(OpenAuction, Transfer), AuctionError>(e),
            None => r is Ok && r->Ok_0.0.wf() && r->Ok_0.0@ == open_listed(
                owner,
                mint,
                bump,
                title@,
                floor,
                increment,
                start_time,
                end_time,
                bidder_cap,
                token_amount,
                cur_time,
            ) && r->Ok_0.1 == r->Ok_0.0@.item_deposit(),
        },
{
    if title.as_str().unicode_len() > MAX_TITLE_CHARS {
        return Err(AuctionError::TitleOverflow);
    }
    if increment == 0 {
        return Err(AuctionError::InvalidIncrement);
    }
    if token_amount == 0 {
        return Err(AuctionError::InvalidTokenAmount);
    }
    if !(start_time < end_time) {
        return Err(AuctionError::InvalidStartTime);
    }
    if !(cur_time > start_time || start_time == 0) {
        return Err(AuctionError::InvalidStartTime);
    }
    if !(cur_time < end_time) {
        return Err(AuctionError::InvalidEndTime);
    }
    if !(floor > 0) {
        return Err(AuctionError::InvalidBidFloor);
    }
    let auction = OpenAuction {
        owner,
        mint,
        token_amount,
        bump,
        title,
        bid_floor: floor,
        min_bid_increment: increment,
        start_time: if start_time == 0 {
            cur_time
        } else {
            start_time
        },
        end_time,
        cancelled: false,
        highest_bid: 0,
        highest_bidder: None,
        item_withdrawn: false,
        book: BidBook::new(bidder_cap),
    };
    Ok((auction, Transfer::HoldItem { from: owner, amount: token_amount }))
}

/// Cancels the auction for its owner, before it has closed. Nothing moves.
pub fn cancel_open_auction(auction: &mut OpenAuction, caller: PartyId, cur_time: u64) -> (r: Result<
    (),
    AuctionError,
>)
    requires
        old(auction).wf(),
    ensures
        final(auction).wf(),
        match old(auction)@.cancel_refusal(caller, cur_time) {
            Some(e) => r == Err::<(), AuctionError>(e) && final(auction)@ == old(auction)@,
            None => r is Ok && final(auction)@ == old(auction)@.after_cancel(),
        },
{
    if caller != auction.owner {
        return Err(AuctionError::Unauthorized);
    }
    if !(cur_time < auction.end_time) {
        return Err(AuctionError::CannotCancelAfterClose);
    }
    auction.cancelled = true;
    Ok(())
}

/// Adds `amount` to what `bidder` has in escrow and makes the new total the
/// highest bid, or says why not. On success `amount` is to be taken from the
/// bidder into escrow.
pub fn make_open_bid(auction: &mut OpenAuction, bidder: PartyId, amount: u64, cur_time: u64) -> (r:
    Result<Transfer, AuctionError>)
    requires
        old(auction).wf(),
    ensures
        final(auction).wf(),
        match old(auction)@.bid_refusal(bidder, amount, cur_time) {
            Some(e) => r == Err::<Transfer, AuctionError>(e) && final(auction)@ == old(auction)@,
            None => r == Ok::<Transfer, AuctionError>(OpenState::bid_deposit(bidder, amount))
                && final(auction)@ == old(auction)@.after_bid(bidder, amount),
        },
{
    if auction.cancelled {
        return Err(AuctionError::AuctionCancelled);
    }
    if !(cur_time > auction.start_time) {
        return Err(AuctionError::BidBeforeStart);
    }
    if !(cur_time < auction.end_time) {
        return Err(AuctionError::BidAfterClose);
    }
    if bidder == auction.owner {
        return Err(AuctionError::OwnerCannotBid);
    }
    let at = auction.book.position(&bidder);
    let prior: u64 = match at {
        None => {
            if auction.book.is_full() {
                return Err(AuctionError::BidderCapReached);
            }
            0
        },
        Some(i) => auction.book.entry_at(i).value,
    };
    let wide_total: u128 = prior as u128 + amount as u128;
    if !(wide_total > auction.bid_floor as u128) {
        return Err(AuctionError::UnderBidFloor);
    }
    if !(wide_total > auction.highest_bid as u128 + auction.min_bid_increment as u128) {
        return Err(AuctionError::InsufficientBid);
    }
    if wide_total > u64::MAX as u128 {
        return Err(AuctionError::AmountOverflow);
    }
    let total: u64 = wide_total as u64;
    let ghost before = auction@;
    match at {
        None => {
            proof {
                lemma_push(before.bids, Entry { bidder, value: total });
            }
            auction.book.insert(bidder, total);
        },
        Some(i) => {
            proof {
                lemma_update(before.bids, i as int, total);
            }
            auction.book.set_value(i, total);
        },
    }
    auction.highest_bidder = Some(bidder);
    auction.highest_bid = total;
    Ok(Transfer::HoldCurrency { from: bidder, amount })
}

/// Gives `bidder` the whole escrowed bid back and takes the entry out of the
/// book, or says why not. The highest bidder of an auction that is not
/// cancelled cannot leave.
pub fn reclaim_open_bid(auction: &mut OpenAuction, bidder: PartyId) -> (r: Result<
    Transfer,
    AuctionError,
>)
    requires
        old(auction).wf(),
    ensures
        final(auction).wf(),
        match old(auction)@.reclaim_bid_refusal(bidder) {
            Some(e) => r == Err::<Transfer, AuctionError>(e) && final(auction)@ == old(auction)@,
            None => r == Ok::<Transfer, AuctionError>(old(auction)@.bid_refund(bidder))
                && final(auction)@ == old(auction)@.after_reclaim_bid(bidder),
        },
{
    let at = auction.book.position(&bidder);
    match at {
        None => Err(AuctionError::NotBidder),
        Some(i) => {
            if holds_party(&auction.highest_bidder, &bidder) && !auction.cancelled {
                return Err(AuctionError::WinnerCannotWithdrawBid);
            }
            proof {
                lemma_remove(auction@.bids, i as int);
                if auction@.highest_bidder is Some && !auction@.cancelled {
                    lemma_index_of_found(auction@.bids, auction@.highest_bidder->0);
                }
            }
            let entry = auction.book.remove_at(i);
            Ok(Transfer::ReleaseCurrency { to: bidder, amount: entry.value })
        },
    }
}

/// Hands the item to the highest bidder once the auction has closed, and
/// records that it was handed over, or says why not. A second hand-over is
/// refused.
pub fn withdraw_item_open(auction: &mut OpenAuction, caller: PartyId, cur_time: u64) -> (r:
    Result<Transfer, AuctionError>)
    requires
        old(auction).wf(),
    ensures
        final(auction).wf(),
        match old(auction)@.withdraw_item_refusal(caller, cur_time) {
            Some(e) => r == Err::<Transfer, AuctionError>(e) && final(auction)@ == old(auction)@,
            None => r == Ok::<Transfer, AuctionError>(old(auction)@.item_release(caller))
                && final(auction)@ == old(auction)@.after_withdraw_item(),
        },
{
    if !holds_party(&auction.highest_bidder, &caller) {
        return Err(AuctionError::Unauthorized);
    }
    if auction.cancelled {
        return Err(AuctionError::AuctionCancelled);
    }
    if !(cur_time > auction.end_time) {
        return Err(AuctionError::AuctionNotOver);
    }
    if auction.item_withdrawn {
        return Err(AuctionError::AlreadyWithdrewItem);
    }
    auction.item_withdrawn = true;
    Ok(Transfer::ReleaseItem { to: caller, amount: auction.token_amount })
}

/// Pays the winning bid to the owner once the auction has closed, and leaves
/// nothing in the winner's entry, or says why not.
pub fn withdraw_winning_bid_open(auction: &mut OpenAuction, caller: PartyId, cur_time: u64) -> (r:
    Result<Transfer, AuctionError>)
    requires
        old(auction).wf(),
    ensures
        final(auction).wf(),
        match old(auction)@.withdraw_winning_bid_refusal(caller, cur_time) {
            Some(e) => r == Err::<Transfer, AuctionError>(e) && final(auction)@ == old(auction)@,
            None => r == Ok::<Transfer, AuctionError>(old(auction)@.winning_bid_payout())
                && final(auction)@ == old(auction)@.after_withdraw_winning_bid(),
        },
{
    if caller != auction.owner {
        return Err(AuctionError::Unauthorized);
    }
    if auction.cancelled {
        return Err(AuctionError::AuctionCancelled);
    }
    if !(cur_time > auction.end_time) {
        return Err(AuctionError::AuctionNotOver);
    }
    let winner = match auction.highest_bidder {
        Some(w) => w,
        None => {
            return Err(AuctionError::NoWinningBid);
        },
    };
    match auction.book.position(&winner) {
        None => Err(AuctionError::NoWinningBid),
        Some(i) => {
            let winning_bid = auction.book.entry_at(i).value;
            if !(winning_bid > 0) {
                return Err(AuctionError::AlreadyWithdrewBid);
            }
            proof {
                lemma_update(auction@.bids, i as int, 0u64);
            }
            auction.book.set_value(i, 0);
            Ok(Transfer::ReleaseCurrency { to: caller, amount: winning_bid })
        },
    }
}

/// Gives the item back to the owner of an auction that was cancelled, or that
/// closed without a bid, or says why not. The record does not change.
pub fn reclaim_item_open(auction: &OpenAuction, caller: PartyId, cur_time: u64) -> (r: Result<
    Transfer,
    AuctionError,
>)
    requires
        auction.wf(),
    ensures
        match auction@.reclaim_item_refusal(caller, cur_time) {
            Some(e) => r == Err::<Transfer, AuctionError>(e),
            None => r == Ok::<Transfer, AuctionError>(auction@.item_release(caller)),
        },
{
    if caller != auction.owner {
        return Err(AuctionError::Unauthorized);
    }
    if !((auction.highest_bid == 0 && cur_time > auction.end_time) || auction.cancelled) {
        return Err(AuctionError::AuctionNotOver);
    }
    Ok(Transfer::ReleaseItem { to: caller, amount: auction.token_amount })
}

} // verus!
