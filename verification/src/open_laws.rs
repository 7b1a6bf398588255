//! What holds of every sequence of calls against an open auction.
use crate::bidbook::{
    has_bidder, index_of, lemma_index_of_found, lemma_push, lemma_remove, lemma_total_push,
    lemma_total_remove, lemma_total_update, lemma_update, total_escrowed, value_of, Entry,
};
use crate::error::{AuctionError, ErrorKind};
use crate::escrow::Custody;
use crate::open::{open_listed, open_listing_refusal, OpenState};
use crate::party::PartyId;
use vstd::prelude::*;

verus! {

/// One call against an open auction, with the time at which it is made where
/// the operation looks at the clock.
pub enum OpenCall {
    Cancel { caller: PartyId, cur_time: u64 },
    Bid { bidder: PartyId, amount: u64, cur_time: u64 },
    ReclaimBid { bidder: PartyId },
    WithdrawItem { caller: PartyId, cur_time: u64 },
    WithdrawWinningBid { caller: PartyId, cur_time: u64 },
    ReclaimItem { caller: PartyId, cur_time: u64 },
}

impl OpenCall {
    /// The call is not made before `t`. A call that does not look at the clock
    /// may come at any time.
    pub open spec fn not_before(self, t: u64) -> bool {
        match self {
            OpenCall::Cancel { cur_time, .. } => cur_time >= t,
            OpenCall::Bid { cur_time, .. } => cur_time >= t,
            OpenCall::ReclaimBid { .. } => true,
            OpenCall::WithdrawItem { cur_time, .. } => cur_time >= t,
            OpenCall::WithdrawWinningBid { cur_time, .. } => cur_time >= t,
            OpenCall::ReclaimItem { cur_time, .. } => cur_time >= t,
        }
    }
}

impl OpenState {
    /// The terms under which the auction was listed are those of `other`.
    pub open spec fn same_terms(self, other: OpenState) -> bool {
        &&& self.owner == other.owner
        &&& self.mint == other.mint
        &&& self.token_amount == other.token_amount
        &&& self.bump == other.bump
        &&& self.title == other.title
        &&& self.bid_floor == other.bid_floor
        &&& self.min_bid_increment == other.min_bid_increment
        &&& self.start_time == other.start_time
        &&& self.end_time == other.end_time
        &&& self.bidder_cap == other.bidder_cap
    }

    /// Why the call is refused, if it is.
    pub open spec fn refusal(self, call: OpenCall) -> Option<AuctionError> {
        match call {
            OpenCall::Cancel { caller, cur_time } => self.cancel_refusal(caller, cur_time),
            OpenCall::Bid { bidder, amount, cur_time } => self.bid_refusal(
                bidder,
                amount,
                cur_time,
            ),
            OpenCall::ReclaimBid { bidder } => self.reclaim_bid_refusal(bidder),
            OpenCall::WithdrawItem { caller, cur_time } => self.withdraw_item_refusal(
                caller,
                cur_time,
            ),
            OpenCall::WithdrawWinningBid { caller, cur_time } => self.withdraw_winning_bid_refusal(
                caller,
                cur_time,
            ),
            OpenCall::ReclaimItem { caller, cur_time } => self.reclaim_item_refusal(
                caller,
                cur_time,
            ),
        }
    }

    /// The auction after the call: as before where the call is refused.
    pub open spec fn step(self, call: OpenCall) -> OpenState {
        if self.refusal(call) is Some {
            self
        } else {
            match call {
                OpenCall::Cancel { .. } => self.after_cancel(),
                OpenCall::Bid { bidder, amount, .. } => self.after_bid(bidder, amount),
                OpenCall::ReclaimBid { bidder } => self.after_reclaim_bid(bidder),
                OpenCall::WithdrawItem { .. } => self.after_withdraw_item(),
                OpenCall::WithdrawWinningBid { .. } => self.after_withdraw_winning_bid(),
                OpenCall::ReclaimItem { .. } => self,
            }
        }
    }

    /// By how much the call changes the currency in escrow: what an accepted
    /// call asks to take in, less what it asks to pay out.
    pub open spec fn flow(self, call: OpenCall) -> int {
        if self.refusal(call) is Some {
            0
        } else {
            match call {
                OpenCall::Bid { bidder, amount, .. } => OpenState::bid_deposit(
                    bidder,
                    amount,
                ).currency_flow(),
                OpenCall::ReclaimBid { bidder } => self.bid_refund(bidder).currency_flow(),
                OpenCall::WithdrawWinningBid { .. } => self.winning_bid_payout().currency_flow(),
                _ => 0,
            }
        }
    }

    /// By how much the call changes the quantity of the item in escrow.
    pub open spec fn item_flow(self, call: OpenCall) -> int {
        if self.refusal(call) is Some {
            0
        } else {
            match call {
                OpenCall::WithdrawItem { caller, .. } => self.item_release(caller).item_flow(),
                OpenCall::ReclaimItem { caller, .. } => self.item_release(caller).item_flow(),
                _ => 0,
            }
        }
    }

    /// The call is accepted, and the custodian holds what it asks to hand out.
    pub open spec fn carried_out(self, held: Custody, call: OpenCall) -> bool {
        self.refusal(call) is None && held.covers(self.flow(call), self.item_flow(call))
    }

    /// The auction and the custodian's holdings after the call: both as before
    /// unless the call is carried out.
    pub open spec fn settle(self, held: Custody, call: OpenCall) -> (OpenState, Custody) {
        if self.carried_out(held, call) {
            (self.step(call), held.moved(self.flow(call), self.item_flow(call)))
        } else {
            (self, held)
        }
    }

    /// The auction and the custodian's holdings after the calls, made one after
    /// the other.
    pub open spec fn settle_all(self, held: Custody, calls: Seq<OpenCall>) -> (OpenState, Custody)
        decreases calls.len(),
    {
        if calls.len() == 0 {
            (self, held)
        } else {
            let (s, h) = self.settle_all(held, calls.drop_last());
            s.settle(h, calls.last())
        }
    }

    /// How many of the calls were carried out and handed the item out.
    pub open spec fn items_handed_out(self, held: Custody, calls: Seq<OpenCall>) -> nat
        decreases calls.len(),
    {
        if calls.len() == 0 {
            0
        } else {
            let (s, h) = self.settle_all(held, calls.drop_last());
            let earlier = self.items_handed_out(held, calls.drop_last());
            if s.carried_out(h, calls.last()) && s.item_flow(calls.last()) < 0 {
                earlier + 1
            } else {
                earlier
            }
        }
    }

    /// The auction after the calls, made one after the other.
    pub open spec fn run(self, calls: Seq<OpenCall>) -> OpenState
        decreases calls.len(),
    {
        if calls.len() == 0 {
            self
        } else {
            self.run(calls.drop_last()).step(calls.last())
        }
    }

    /// By how much the calls together change the currency in escrow.
    pub open spec fn net_flow(self, calls: Seq<OpenCall>) -> int
        decreases calls.len(),
    {
        if calls.len() == 0 {
            0
        } else {
            self.net_flow(calls.drop_last()) + self.run(calls.drop_last()).flow(calls.last())
        }
    }

    /// The sum of the amounts of the accepted bids of `who` among the calls.
    pub open spec fn accepted_from(self, calls: Seq<OpenCall>, who: PartyId) -> int
        decreases calls.len(),
    {
        if calls.len() == 0 {
            0
        } else {
            let before = self.run(calls.drop_last());
            let earlier = self.accepted_from(calls.drop_last(), who);
            match calls.last() {
                OpenCall::Bid { bidder, amount, cur_time } => if bidder == who && before.bid_refusal(
                    bidder,
                    amount,
                    cur_time,
                ) is None {
                    earlier + amount
                } else {
                    earlier
                },
                _ => earlier,
            }
        }
    }
}

/// Every call is a bid.
pub open spec fn all_bids(calls: Seq<OpenCall>) -> bool {
    forall|i: int| 0 <= i < calls.len() ==> #[trigger] calls[i] is Bid
}

/// No call is made before `t`.
pub open spec fn none_before(calls: Seq<OpenCall>, t: u64) -> bool {
    forall|i: int| 0 <= i < calls.len() ==> (#[trigger] calls[i]).not_before(t)
}

/// A bid is accepted only where the bidder's new total is above the floor and
/// above the highest bid by more than the increment. An accepted bid raises the
/// bidder's escrowed total by its amount, leaves every other bidder's total as it
/// was, makes the bidder the highest bidder with that total, and raises the
/// book's total by the amount.
pub proof fn lemma_bid_accepted(s: OpenState, bidder: PartyId, amount: u64, cur_time: u64)
    requires
        s.wf(),
        s.bid_refusal(bidder, amount, cur_time) is None,
    ensures
        s.escrowed_by(bidder) + amount > s.highest_bid + s.min_bid_increment,
        s.escrowed_by(bidder) + amount > s.bid_floor,
        s.after_bid(bidder, amount).wf(),
        s.after_bid(bidder, amount).escrowed_by(bidder) == s.escrowed_by(bidder) + amount,
        s.after_bid(bidder, amount).highest_bid == s.escrowed_by(bidder) + amount,
        s.after_bid(bidder, amount).highest_bidder == Some(bidder),
        forall|who: PartyId|
            who != bidder ==> s.after_bid(bidder, amount).escrowed_by(who) == s.escrowed_by(who),
        total_escrowed(s.after_bid(bidder, amount).bids) == total_escrowed(s.bids) + amount,
{
    let total = (s.escrowed_by(bidder) + amount) as u64;
    let entry = Entry { bidder, value: total };
    let t = s.after_bid(bidder, amount);
    if has_bidder(s.bids, bidder) {
        let i = index_of(s.bids, bidder);
        lemma_index_of_found(s.bids, bidder);
        lemma_update(s.bids, i, total);
        lemma_total_update(s.bids, i, entry);
        assert(t.bids == s.bids.update(i, entry));
        assert forall|j: int| 0 <= j < t.bids.len() && j != i implies (#[trigger] t.bids[j])
            == s.bids[j] by {}
    } else {
        lemma_push(s.bids, entry);
        lemma_total_push(s.bids, entry);
        assert forall|j: int| 0 <= j < s.bids.len() implies (#[trigger] t.bids[j])
            == s.bids[j] by {}
    }
}

/// A bidder who leaves is paid exactly what that bidder had in escrow. The
/// entry is gone, every other bidder's total is as it was, and the book's total
/// is less by what was paid.
pub proof fn lemma_bid_reclaimed(s: OpenState, bidder: PartyId)
    requires
        s.wf(),
        s.reclaim_bid_refusal(bidder) is None,
    ensures
        s.after_reclaim_bid(bidder).wf(),
        !has_bidder(s.after_reclaim_bid(bidder).bids, bidder),
        s.after_reclaim_bid(bidder).escrowed_by(bidder) == 0,
        forall|who: PartyId|
            who != bidder ==> s.after_reclaim_bid(bidder).escrowed_by(who) == s.escrowed_by(who),
        total_escrowed(s.after_reclaim_bid(bidder).bids) == total_escrowed(s.bids) - s.escrowed_by(
            bidder,
        ),
        s.bid_refund(bidder).currency_flow() == -s.escrowed_by(bidder),
{
    let i = index_of(s.bids, bidder);
    let t = s.after_reclaim_bid(bidder);
    lemma_index_of_found(s.bids, bidder);
    lemma_remove(s.bids, i);
    lemma_total_remove(s.bids, i);
    assert forall|j: int| 0 <= j < t.bids.len() implies (#[trigger] t.bids[j]) == s.bids[if j
        < i {
        j
    } else {
        j + 1
    }] by {}
}

/// The owner is paid exactly what the highest bidder had in escrow, which is
/// more than nothing. Afterwards the winner's entry holds nothing, and the
/// book's total is less by what was paid.
pub proof fn lemma_winning_bid_withdrawn(s: OpenState, caller: PartyId, cur_time: u64)
    requires
        s.wf(),
        s.withdraw_winning_bid_refusal(caller, cur_time) is None,
    ensures
        s.after_withdraw_winning_bid().wf(),
        s.escrowed_by(s.highest_bidder->0) == s.highest_bid,
        s.winning_bid_payout().currency_flow() == -s.highest_bid,
        s.after_withdraw_winning_bid().escrowed_by(s.highest_bidder->0) == 0,
        has_bidder(s.after_withdraw_winning_bid().bids, s.highest_bidder->0),
        forall|who: PartyId|
            who != s.highest_bidder->0 ==> s.after_withdraw_winning_bid().escrowed_by(who)
                == s.escrowed_by(who),
        total_escrowed(s.after_withdraw_winning_bid().bids) == total_escrowed(s.bids)
            - s.highest_bid,
{
    let w = s.highest_bidder->0;
    let i = index_of(s.bids, w);
    let t = s.after_withdraw_winning_bid();
    lemma_index_of_found(s.bids, w);
    lemma_update(s.bids, i, 0u64);
    lemma_total_update(s.bids, i, Entry { bidder: w, value: 0u64 });
    assert forall|j: int| 0 <= j < t.bids.len() && j != i implies (#[trigger] t.bids[j])
        == s.bids[j] by {}
}

/// Whatever the call: the auction's invariant holds after it, the terms of the
/// listing are as before, a cancelled auction stays cancelled, an item handed
/// over stays handed over, the highest bid has not fallen, the book's total has
/// changed by exactly the currency that the call moves, and the item moves
/// whole or not at all.
pub proof fn lemma_open_step(s: OpenState, call: OpenCall)
    requires
        s.wf(),
    ensures
        s.step(call).wf(),
        s.step(call).same_terms(s),
        s.cancelled ==> s.step(call).cancelled,
        s.item_withdrawn ==> s.step(call).item_withdrawn,
        s.step(call).highest_bid >= s.highest_bid,
        total_escrowed(s.step(call).bids) == total_escrowed(s.bids) + s.flow(call),
        s.item_flow(call) == 0 || s.item_flow(call) == -s.token_amount,
{
    if s.refusal(call) is None {
        match call {
            OpenCall::Bid { bidder, amount, cur_time } => {
                lemma_bid_accepted(s, bidder, amount, cur_time);
            },
            OpenCall::ReclaimBid { bidder } => {
                lemma_bid_reclaimed(s, bidder);
            },
            OpenCall::WithdrawWinningBid { caller, cur_time } => {
                lemma_winning_bid_withdrawn(s, caller, cur_time);
            },
            _ => {},
        }
    }
}

/// Escrow conservation. From any state of an open auction and through any
/// calls, accepted or refused, the currency that the book records for the
/// bidders changes by exactly what the calls move into and out of escrow.
pub proof fn lemma_open_escrow_conserved(s: OpenState, calls: Seq<OpenCall>)
    requires
        s.wf(),
    ensures
        s.run(calls).wf(),
        s.run(calls).same_terms(s),
        total_escrowed(s.run(calls).bids) == total_escrowed(s.bids) + s.net_flow(calls),
    decreases calls.len(),
{
    if calls.len() > 0 {
        lemma_open_escrow_conserved(s, calls.drop_last());
        lemma_open_step(s.run(calls.drop_last()), calls.last());
    }
}

/// Escrow conservation from the listing on. In every state that an open auction
/// reaches, the currency held in escrow for it, which is what the calls so far
/// have moved in less what they have moved out, is the sum of what the book
/// records for the bidders.
pub proof fn lemma_open_escrow_matches_book(
    owner: PartyId,
    mint: PartyId,
    bump: u8,
    title: Seq<char>,
    floor: u64,
    increment: u64,
    start_time: u64,
    end_time: u64,
    bidder_cap: u64,
    token_amount: u64,
    cur_time: u64,
    calls: Seq<OpenCall>,
)
    requires
        open_listing_refusal(title, floor, increment, start_time, end_time, token_amount, cur_time)
            is None,
    ensures
        ({
            let listed = open_listed(
                owner,
                mint,
                bump,
                title,
                floor,
                increment,
                start_time,
                end_time,
                bidder_cap,
                token_amount,
                cur_time,
            );
            listed.wf() && listed.run(calls).wf() && listed.net_flow(calls) == total_escrowed(
                listed.run(calls).bids,
            )
        }),
{
    let listed = open_listed(
        owner,
        mint,
        bump,
        title,
        floor,
        increment,
        start_time,
        end_time,
        bidder_cap,
        token_amount,
        cur_time,
    );
    assert(listed.bids =~= Seq::empty());
    assert(listed.wf());
    lemma_open_escrow_conserved(listed, calls);
}

/// Cumulative bidding. Through any sequence of bids, by whichever bidders,
/// what a bidder has in escrow grows by exactly the sum of that bidder's
/// accepted amounts.
pub proof fn lemma_cumulative_bidding(s: OpenState, calls: Seq<OpenCall>, who: PartyId)
    requires
        s.wf(),
        all_bids(calls),
    ensures
        s.run(calls).wf(),
        s.run(calls).escrowed_by(who) == s.escrowed_by(who) + s.accepted_from(calls, who),
    decreases calls.len(),
{
    if calls.len() > 0 {
        let earlier = calls.drop_last();
        assert(all_bids(earlier)) by {
            assert forall|i: int| 0 <= i < earlier.len() implies #[trigger] earlier[i] is Bid by {
                assert(earlier[i] == calls[i]);
            }
        }
        lemma_cumulative_bidding(s, earlier, who);
        let before = s.run(earlier);
        assert(calls[calls.len() - 1] is Bid);
        match calls.last() {
            OpenCall::Bid { bidder, amount, cur_time } => {
                if before.bid_refusal(bidder, amount, cur_time) is None {
                    lemma_bid_accepted(before, bidder, amount, cur_time);
                }
            },
            _ => {},
        }
    }
}

/// Escrow conservation at the custodian, and the custody of the item. With
/// a custodian that holds for the auction the currency that the book records
/// and no more of the item than was listed, then after any calls: the currency
/// it holds is still what the book records, so that it can make every payment
/// that the auction asks for; and at most one call has handed the item out,
/// after which the custodian holds none of it.
pub proof fn lemma_open_custody(s: OpenState, held: Custody, calls: Seq<OpenCall>)
    requires
        s.wf(),
        held.currency == total_escrowed(s.bids),
        0 <= held.item <= s.token_amount,
    ensures
        ({
            let (after, left) = s.settle_all(held, calls);
            let handed_out = s.items_handed_out(held, calls);
            &&& after.wf()
            &&& after.token_amount == s.token_amount
            &&& left.currency == total_escrowed(after.bids)
            &&& forall|call: OpenCall|
                after.refusal(call) is None && after.item_flow(call) == 0
                    ==> #[trigger] after.carried_out(left, call)
            &&& handed_out <= 1
            &&& handed_out == 0 ==> left.item == held.item
            &&& handed_out == 1 ==> held.item == s.token_amount && left.item == 0
        }),
    decreases calls.len(),
{
    if calls.len() > 0 {
        lemma_open_custody(s, held, calls.drop_last());
        let (before, h) = s.settle_all(held, calls.drop_last());
        lemma_open_step(before, calls.last());
    }
    let (after, left) = s.settle_all(held, calls);
    assert forall|call: OpenCall|
        after.refusal(call) is None && after.item_flow(call) == 0 implies #[trigger] after.carried_out(
        left,
        call,
    ) by {
        lemma_open_step(after, call);
    }
}

/// A cancelled auction sells nothing and holds nothing back: bids, the
/// hand-over of the item and the payout of the winning bid are refused, every
/// bidder with an entry can take the bid back, and the owner the item,
/// whatever the time.
pub proof fn lemma_open_cancelled_refunds_only(
    s: OpenState,
    who: PartyId,
    amount: u64,
    cur_time: u64,
)
    requires
        s.wf(),
        s.cancelled,
    ensures
        s.bid_refusal(who, amount, cur_time) == Some(AuctionError::AuctionCancelled),
        s.withdraw_item_refusal(who, cur_time) is Some,
        s.withdraw_winning_bid_refusal(who, cur_time) is Some,
        has_bidder(s.bids, who) ==> s.reclaim_bid_refusal(who) is None,
        s.reclaim_item_refusal(s.owner, cur_time) is None,
{
}

/// An auction that has closed with a highest bid settles: the highest bidder
/// can take the item unless that was done, every other bidder can take the bid
/// back, the owner cannot take the item back, and the owner is paid the highest
/// bid unless that was done.
pub proof fn lemma_open_closed_settles(s: OpenState, who: PartyId, cur_time: u64)
    requires
        s.wf(),
        !s.cancelled,
        cur_time > s.end_time,
        s.highest_bidder is Some,
    ensures
        !s.item_withdrawn ==> s.withdraw_item_refusal(s.highest_bidder->0, cur_time) is None,
        s.item_withdrawn ==> s.withdraw_item_refusal(s.highest_bidder->0, cur_time) == Some(
            AuctionError::AlreadyWithdrewItem,
        ),
        has_bidder(s.bids, who) && s.highest_bidder != Some(who) ==> s.reclaim_bid_refusal(who)
            is None,
        s.reclaim_item_refusal(who, cur_time) is Some,
        s.bid_refusal(who, 0, cur_time) is Some,
        s.escrowed_by(s.highest_bidder->0) > 0 ==> s.withdraw_winning_bid_refusal(
            s.owner,
            cur_time,
        ) is None && s.winning_bid_payout().currency_flow() == -s.highest_bid,
        s.escrowed_by(s.highest_bidder->0) == 0 ==> s.withdraw_winning_bid_refusal(
            s.owner,
            cur_time,
        ) == Some(AuctionError::AlreadyWithdrewBid),
{
}

/// A bid whose total is not above the highest bid by more than the increment
/// is refused, whatever its size, and the auction stays as it is: the highest
/// bid, the highest bidder and every entry. In the bidding phase, from a party
/// other than the owner for whom the book has room, the refusal is for the
/// floor where the total is not above the floor, and for the increment
/// otherwise.
pub proof fn lemma_low_bid_refused(s: OpenState, bidder: PartyId, amount: u64, cur_time: u64)
    requires
        s.wf(),
        s.escrowed_by(bidder) + amount <= s.highest_bid + s.min_bid_increment,
    ensures
        s.bid_refusal(bidder, amount, cur_time) is Some,
        s.step(OpenCall::Bid { bidder, amount, cur_time }) == s,
        s.flow(OpenCall::Bid { bidder, amount, cur_time }) == 0,
        !s.cancelled && s.start_time < cur_time < s.end_time && bidder != s.owner && (has_bidder(
            s.bids,
            bidder,
        ) || s.bids.len() < s.bidder_cap) ==> s.bid_refusal(bidder, amount, cur_time) == Some(
            if s.escrowed_by(bidder) + amount <= s.bid_floor {
                AuctionError::UnderBidFloor
            } else {
                AuctionError::InsufficientBid
            },
        ),
{
}

/// The record that the item was handed over is never taken back: whatever
/// calls follow, at whatever times, a further hand-over is refused.
pub proof fn lemma_open_item_never_handed_over_again(
    s: OpenState,
    calls: Seq<OpenCall>,
    caller: PartyId,
    cur_time: u64,
)
    requires
        s.wf(),
        s.item_withdrawn,
    ensures
        s.run(calls).wf(),
        s.run(calls).item_withdrawn,
        s.run(calls).withdraw_item_refusal(caller, cur_time) is Some,
        s.run(calls).item_flow(OpenCall::WithdrawItem { caller, cur_time }) == 0,
    decreases calls.len(),
{
    if calls.len() > 0 {
        lemma_open_item_never_handed_over_again(s, calls.drop_last(), caller, cur_time);
        lemma_open_step(s.run(calls.drop_last()), calls.last());
    }
}

/// What holds from the moment the item has been handed over, as long as the
/// clock does not run backwards: the auction is closed and not cancelled, and
/// the hand-over is on record.
pub open spec fn item_handed_over(s: OpenState, handed_at: u64) -> bool {
    &&& s.wf()
    &&& !s.cancelled
    &&& handed_at > s.end_time
    &&& s.item_withdrawn
}

/// Once the item has been handed over, no call made at or after that time
/// undoes it, or changes who the highest bidder is.
pub proof fn lemma_handed_over_stays(s: OpenState, handed_at: u64, calls: Seq<OpenCall>)
    requires
        item_handed_over(s, handed_at),
        none_before(calls, handed_at),
    ensures
        item_handed_over(s.run(calls), handed_at),
        s.run(calls).same_terms(s),
        s.run(calls).highest_bidder == s.highest_bidder,
    decreases calls.len(),
{
    if calls.len() > 0 {
        let earlier = calls.drop_last();
        assert(none_before(earlier, handed_at)) by {
            assert forall|i: int| 0 <= i < earlier.len() implies (#[trigger] earlier[i]).not_before(
                handed_at,
            ) by {
                assert(earlier[i] == calls[i]);
            }
        }
        lemma_handed_over_stays(s, handed_at, earlier);
        assert(calls[calls.len() - 1].not_before(handed_at));
        lemma_open_step(s.run(earlier), calls.last());
    }
}

/// No double payout of the item. Where the item has been handed over at
/// `handed_at`, then after any calls made at or after that time, another call
/// for the item at or after that time is refused and the auction stays as it
/// is: made by the highest bidder, it is refused because the item was withdrawn
/// already; and the owner cannot take the item back either.
pub proof fn lemma_open_item_handed_over_once(
    s: OpenState,
    winner: PartyId,
    handed_at: u64,
    calls: Seq<OpenCall>,
    caller: PartyId,
    cur_time: u64,
)
    requires
        s.wf(),
        s.withdraw_item_refusal(winner, handed_at) is None,
        none_before(calls, handed_at),
        cur_time >= handed_at,
    ensures
        ({
            let later = s.after_withdraw_item().run(calls);
            let again = later.withdraw_item_refusal(caller, cur_time);
            &&& again is Some
            &&& caller == winner ==> again == Some(AuctionError::AlreadyWithdrewItem)
            &&& caller == winner ==> again->0.spec_kind() == ErrorKind::StateConflict
            &&& later.step(OpenCall::WithdrawItem { caller, cur_time }) == later
            &&& later.item_flow(OpenCall::WithdrawItem { caller, cur_time }) == 0
            &&& later.reclaim_item_refusal(caller, cur_time) is Some
        }),
{
    let handed = s.after_withdraw_item();
    lemma_handed_over_stays(handed, handed_at, calls);
}

/// What holds from the moment the owner has been paid, as long as the clock
/// does not run backwards: the auction is closed and not cancelled, and the
/// entry of its highest bidder holds nothing.
pub open spec fn winning_bid_settled(s: OpenState, paid_at: u64) -> bool {
    &&& s.wf()
    &&& !s.cancelled
    &&& paid_at > s.end_time
    &&& s.highest_bidder is Some
    &&& value_of(s.bids, s.highest_bidder->0) == Some(0u64)
}

/// Once the owner has been paid, no call made at or after that time undoes it.
pub proof fn lemma_settled_stays(s: OpenState, paid_at: u64, calls: Seq<OpenCall>)
    requires
        winning_bid_settled(s, paid_at),
        none_before(calls, paid_at),
    ensures
        winning_bid_settled(s.run(calls), paid_at),
        s.run(calls).owner == s.owner,
    decreases calls.len(),
{
    if calls.len() > 0 {
        let earlier = calls.drop_last();
        assert(none_before(earlier, paid_at)) by {
            assert forall|i: int| 0 <= i < earlier.len() implies (#[trigger] earlier[i]).not_before(
                paid_at,
            ) by {
                assert(earlier[i] == calls[i]);
            }
        }
        lemma_settled_stays(s, paid_at, earlier);
        let before = s.run(earlier);
        let call = calls.last();
        assert(calls[calls.len() - 1].not_before(paid_at));
        lemma_open_step(before, call);
        if before.refusal(call) is None {
            match call {
                OpenCall::ReclaimBid { bidder } => {
                    lemma_bid_reclaimed(before, bidder);
                    lemma_index_of_found(before.bids, bidder);
                    lemma_remove(before.bids, index_of(before.bids, bidder));
                },
                _ => {},
            }
        }
    }
}

/// No double payout of the winning bid. Where the owner has been paid at
/// `paid_at`, then after any calls made at or after that time, another call for
/// the winning bid at or after that time is refused and the auction stays as it
/// is; made by the owner, it is refused because the bid was withdrawn already.
pub proof fn lemma_open_winning_bid_paid_once(
    s: OpenState,
    first_caller: PartyId,
    paid_at: u64,
    calls: Seq<OpenCall>,
    caller: PartyId,
    cur_time: u64,
)
    requires
        s.wf(),
        s.withdraw_winning_bid_refusal(first_caller, paid_at) is None,
        none_before(calls, paid_at),
        cur_time >= paid_at,
    ensures
        ({
            let later = s.after_withdraw_winning_bid().run(calls);
            let again = later.withdraw_winning_bid_refusal(caller, cur_time);
            &&& again is Some
            &&& caller == s.owner ==> again == Some(AuctionError::AlreadyWithdrewBid)
            &&& caller == s.owner ==> again->0.spec_kind() == ErrorKind::StateConflict
        }),
{
    lemma_winning_bid_withdrawn(s, first_caller, paid_at);
    let paid = s.after_withdraw_winning_bid();
    lemma_settled_stays(paid, paid_at, calls);
}

} // verus!
