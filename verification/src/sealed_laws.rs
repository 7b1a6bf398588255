//! What holds of every sequence of calls against a sealed auction.
use crate::bidbook::{
    has_bidder, index_of, lemma_index_of_found, lemma_push, lemma_remove, lemma_total_push,
    lemma_total_remove, total_escrowed, value_of, Entry,
};
use crate::commitment::bid_commitment;
use crate::error::{AuctionError, ErrorKind};
use crate::escrow::{Custody, Transfer};
use crate::party::PartyId;
use crate::sealed::{sealed_listed, sealed_listing_refusal, SealedBid, SealedState};
use vstd::prelude::*;

verus! {

/// One call against a sealed auction, with the time at which it is made where
/// the operation looks at the clock.
pub enum SealedCall {
    Cancel { caller: PartyId, cur_time: u64 },
    Commit { bidder: PartyId, bid_hash: [u8; 32], amount: u64, cur_time: u64 },
    ReclaimBid { bidder: PartyId },
    Reveal { bidder: PartyId, bid: u64, nonce: u64, cur_time: u64 },
    WithdrawItem { caller: PartyId, cur_time: u64 },
    WithdrawWinningBid { caller: PartyId, cur_time: u64 },
    ReclaimItem { caller: PartyId, cur_time: u64 },
}

impl SealedCall {
    /// The call is not made before `t`. A call that does not look at the clock
    /// may come at any time.
    pub open spec fn not_before(self, t: u64) -> bool {
        match self {
            SealedCall::Cancel { cur_time, .. } => cur_time >= t,
            SealedCall::Commit { cur_time, .. } => cur_time >= t,
            SealedCall::ReclaimBid { .. } => true,
            SealedCall::Reveal { cur_time, .. } => cur_time >= t,
            SealedCall::WithdrawItem { cur_time, .. } => cur_time >= t,
            SealedCall::WithdrawWinningBid { cur_time, .. } => cur_time >= t,
            SealedCall::ReclaimItem { cur_time, .. } => cur_time >= t,
        }
    }
}

impl SealedState {
    /// The terms under which the auction was listed are those of `other`.
    pub open spec fn same_terms(self, other: SealedState) -> bool {
        &&& self.owner == other.owner
        &&& self.mint == other.mint
        &&& self.token_amount == other.token_amount
        &&& self.bump == other.bump
        &&& self.title == other.title
        &&& self.bid_floor == other.bid_floor
        &&& self.first_price == other.first_price
        &&& self.start_time == other.start_time
        &&& self.end_time == other.end_time
        &&& self.reveal_deadline == other.reveal_deadline
        &&& self.bidder_cap == other.bidder_cap
    }

    /// Why the call is refused, if it is.
    pub open spec fn refusal(self, call: SealedCall) -> Option<AuctionError> {
        match call {
            SealedCall::Cancel { caller, cur_time } => self.cancel_refusal(caller, cur_time),
            SealedCall::Commit { bidder, amount, cur_time, .. } => self.commit_refusal(
                bidder,
                amount,
                cur_time,
            ),
            SealedCall::ReclaimBid { bidder } => self.reclaim_bid_refusal(bidder),
            SealedCall::Reveal { bidder, bid, nonce, cur_time } => self.reveal_refusal(
                bidder,
                bid,
                bid_commitment(bid, nonce),
                cur_time,
            ),
            SealedCall::WithdrawItem { caller, cur_time } => self.withdraw_item_refusal(
                caller,
                cur_time,
            ),
            SealedCall::WithdrawWinningBid { caller, cur_time } => {
                self.withdraw_winning_bid_refusal(caller, cur_time)
            },
            SealedCall::ReclaimItem { caller, cur_time } => self.reclaim_item_refusal(
                caller,
                cur_time,
            ),
        }
    }

    /// The auction after the call: as before where the call is refused.
    pub open spec fn step(self, call: SealedCall) -> SealedState {
        if self.refusal(call) is Some {
            self
        } else {
            match call {
                SealedCall::Cancel { .. } => self.after_cancel(),
                SealedCall::Commit { bidder, bid_hash, amount, .. } => self.after_commit(
                    bidder,
                    bid_hash,
                    amount,
                ),
                SealedCall::ReclaimBid { bidder } => self.without(bidder),
                SealedCall::Reveal { bidder, bid, .. } => self.after_reveal(bidder, bid),
                SealedCall::WithdrawItem { .. } => self.after_withdraw_item(),
                SealedCall::WithdrawWinningBid { .. } => self.after_withdraw_winning_bid(),
                SealedCall::ReclaimItem { .. } => self,
            }
        }
    }

    /// By how much the call changes the currency in escrow: what an accepted
    /// call asks to take in, less what it asks to pay out.
    pub open spec fn flow(self, call: SealedCall) -> int {
        if self.refusal(call) is Some {
            0
        } else {
            match call {
                SealedCall::Commit { bidder, amount, .. } => SealedState::cover_deposit(
                    bidder,
                    amount,
                ).currency_flow(),
                SealedCall::ReclaimBid { bidder } => self.cover_refund(bidder).currency_flow(),
                SealedCall::Reveal { bidder, bid, .. } => match self.reveal_refund(bidder, bid) {
                    Some(refund) => refund.currency_flow(),
                    None => 0,
                },
                SealedCall::WithdrawItem { .. } => self.winner_refund().currency_flow(),
                SealedCall::WithdrawWinningBid { .. } => self.winning_bid_payout().currency_flow(),
                _ => 0,
            }
        }
    }

    /// What the call pays out in settlement of the sale: the price to the
    /// owner, or the rest of the cover to the winner. These payments leave the
    /// winner's entry in the book as it is.
    pub open spec fn settled(self, call: SealedCall) -> int {
        if self.refusal(call) is Some {
            0
        } else {
            match call {
                SealedCall::WithdrawItem { .. } => -self.winner_refund().currency_flow(),
                SealedCall::WithdrawWinningBid { .. } => -self.winning_bid_payout().currency_flow(),
                _ => 0,
            }
        }
    }

    /// By how much the call changes the quantity of the item in escrow.
    pub open spec fn item_flow(self, call: SealedCall) -> int {
        if self.refusal(call) is Some {
            0
        } else {
            match call {
                SealedCall::WithdrawItem { caller, .. } => self.item_release(caller).item_flow(),
                SealedCall::ReclaimItem { caller, .. } => self.item_release(caller).item_flow(),
                _ => 0,
            }
        }
    }

    /// The call is accepted, and the custodian holds what it asks to hand out.
    pub open spec fn carried_out(self, held: Custody, call: SealedCall) -> bool {
        self.refusal(call) is None && held.covers(self.flow(call), self.item_flow(call))
    }

    /// The auction and the custodian's holdings after the call: both as before
    /// unless the call is carried out.
    pub open spec fn settle(self, held: Custody, call: SealedCall) -> (SealedState, Custody) {
        if self.carried_out(held, call) {
            (self.step(call), held.moved(self.flow(call), self.item_flow(call)))
        } else {
            (self, held)
        }
    }

    /// The auction and the custodian's holdings after the calls, made one after
    /// the other.
    pub open spec fn settle_all(self, held: Custody, calls: Seq<SealedCall>) -> (
        SealedState,
        Custody,
    )
        decreases calls.len(),
    {
        if calls.len() == 0 {
            (self, held)
        } else {
            let (s, h) = self.settle_all(held, calls.drop_last());
            s.settle(h, calls.last())
        }
    }

    /// How many of the calls were carried out and handed the item out.
    pub open spec fn items_handed_out(self, held: Custody, calls: Seq<SealedCall>) -> nat
        decreases calls.len(),
    {
        if calls.len() == 0 {
            0
        } else {
            let (s, h) = self.settle_all(held, calls.drop_last());
            let earlier = self.items_handed_out(held, calls.drop_last());
            if s.carried_out(h, calls.last()) && s.item_flow(calls.last()) < 0 {
                earlier + 1
            } else {
                earlier
            }
        }
    }

    /// What the calls that were carried out have paid in settlement of the sale.
    pub open spec fn paid_in_settlement(self, held: Custody, calls: Seq<SealedCall>) -> int
        decreases calls.len(),
    {
        if calls.len() == 0 {
            0
        } else {
            let (s, h) = self.settle_all(held, calls.drop_last());
            let earlier = self.paid_in_settlement(held, calls.drop_last());
            if s.carried_out(h, calls.last()) {
                earlier + s.settled(calls.last())
            } else {
                earlier
            }
        }
    }

    /// The auction after the calls, made one after the other.
    pub open spec fn run(self, calls: Seq<SealedCall>) -> SealedState
        decreases calls.len(),
    {
        if calls.len() == 0 {
            self
        } else {
            self.run(calls.drop_last()).step(calls.last())
        }
    }

    /// By how much the calls together change the currency in escrow.
    pub open spec fn net_flow(self, calls: Seq<SealedCall>) -> int
        decreases calls.len(),
    {
        if calls.len() == 0 {
            0
        } else {
            self.net_flow(calls.drop_last()) + self.run(calls.drop_last()).flow(calls.last())
        }
    }

    /// What the calls together pay out in settlement of the sale.
    pub open spec fn net_settled(self, calls: Seq<SealedCall>) -> int
        decreases calls.len(),
    {
        if calls.len() == 0 {
            0
        } else {
            self.net_settled(calls.drop_last()) + self.run(calls.drop_last()).settled(calls.last())
        }
    }
}

/// No call is made before `t`.
pub open spec fn none_before(calls: Seq<SealedCall>, t: u64) -> bool {
    forall|i: int| 0 <= i < calls.len() ==> (#[trigger] calls[i]).not_before(t)
}

/// An accepted commitment is entered with its cover; every other entry and the
/// recorded bids stay as they were.
pub proof fn lemma_commit_accepted(
    s: SealedState,
    bidder: PartyId,
    bid_hash: [u8; 32],
    amount: u64,
    cur_time: u64,
)
    requires
        s.wf(),
        s.commit_refusal(bidder, amount, cur_time) is None,
    ensures
        s.after_commit(bidder, bid_hash, amount).wf(),
        value_of(s.after_commit(bidder, bid_hash, amount).bids, bidder) == Some(
            SealedBid { commitment: bid_hash, cover: amount },
        ),
        forall|who: PartyId|
            who != bidder ==> value_of(s.after_commit(bidder, bid_hash, amount).bids, who)
                == value_of(s.bids, who),
        total_escrowed(s.after_commit(bidder, bid_hash, amount).bids) == total_escrowed(s.bids)
            + amount,
        s.after_commit(bidder, bid_hash, amount).highest_bid == s.highest_bid,
        s.after_commit(bidder, bid_hash, amount).second_highest_bid == s.second_highest_bid,
{
    let entry = Entry { bidder, value: SealedBid { commitment: bid_hash, cover: amount } };
    lemma_push(s.bids, entry);
    lemma_total_push(s.bids, entry);
}

/// A bidder whose entry leaves the book is owed exactly the cover: every other
/// entry stays as it was, and the book's total is less by the cover. The entry
/// of the bidder who leads leaves only where the auction is cancelled.
pub proof fn lemma_entry_removed(s: SealedState, bidder: PartyId)
    requires
        s.wf(),
        has_bidder(s.bids, bidder),
        s.cancelled || s.highest_bidder != Some(bidder),
    ensures
        s.without(bidder).wf(),
        !has_bidder(s.without(bidder).bids, bidder),
        forall|who: PartyId|
            who != bidder ==> value_of(s.without(bidder).bids, who) == value_of(s.bids, who),
        total_escrowed(s.without(bidder).bids) == total_escrowed(s.bids) - s.cover_of(bidder),
        s.cover_refund(bidder).currency_flow() == -s.cover_of(bidder),
{
    let i = index_of(s.bids, bidder);
    lemma_index_of_found(s.bids, bidder);
    lemma_remove(s.bids, i);
    lemma_total_remove(s.bids, i);
}

/// An accepted reveal comes from a bidder who does not lead, and opens the
/// stored commitment with a bid above the floor that the cover pays for. Above
/// the highest bid it takes the lead, the former highest bid becomes the second,
/// and nothing is paid back; otherwise the entry leaves the book, its cover is
/// paid back, and the bid becomes the second-highest where it is above the one
/// on record. Either way the bidder who leads afterwards has an entry whose
/// cover pays for the highest bid, and the book has not grown.
pub proof fn lemma_reveal_accepted(
    s: SealedState,
    bidder: PartyId,
    bid: u64,
    proposed: Seq<u8>,
    cur_time: u64,
)
    requires
        s.wf(),
        s.reveal_refusal(bidder, bid, proposed, cur_time) is None,
    ensures
        s.highest_bidder != Some(bidder),
        value_of(s.bids, bidder)->0.commitment@ == proposed,
        bid > s.bid_floor,
        bid <= s.cover_of(bidder),
        s.after_reveal(bidder, bid).wf(),
        s.after_reveal(bidder, bid).highest_bid >= s.highest_bid,
        s.after_reveal(bidder, bid).bids.len() <= s.bids.len(),
        s.after_reveal(bidder, bid).highest_bid > 0 ==> s.after_reveal(bidder, bid).winner_stands(),
        bid > s.highest_bid ==> {
            &&& s.after_reveal(bidder, bid).highest_bid == bid
            &&& s.after_reveal(bidder, bid).second_highest_bid == s.highest_bid
            &&& s.after_reveal(bidder, bid).highest_bidder == Some(bidder)
            &&& s.after_reveal(bidder, bid).bids == s.bids
            &&& s.reveal_refund(bidder, bid) is None
        },
        bid <= s.highest_bid ==> {
            &&& s.after_reveal(bidder, bid).bids == s.without(bidder).bids
            &&& s.after_reveal(bidder, bid).highest_bid == s.highest_bid
            &&& s.after_reveal(bidder, bid).highest_bidder == s.highest_bidder
            &&& s.after_reveal(bidder, bid).second_highest_bid == if bid > s.second_highest_bid {
                bid
            } else {
                s.second_highest_bid
            }
            &&& s.reveal_refund(bidder, bid) == Some(s.cover_refund(bidder))
            &&& total_escrowed(s.after_reveal(bidder, bid).bids) == total_escrowed(s.bids)
                - s.cover_of(bidder)
        },
{
    lemma_index_of_found(s.bids, bidder);
    if bid <= s.highest_bid {
        lemma_entry_removed(s, bidder);
    }
}

/// Whatever the call: the auction's invariant holds after it; the terms of the
/// listing are as before; a cancelled auction stays cancelled, a paid winning
/// bid stays paid and an item handed over stays handed over; the recorded bids
/// never fall, and change in a reveal only; the book's total has changed by the
/// currency that the call moves, but for what the call pays in settlement; and
/// the item moves whole or not at all.
pub proof fn lemma_sealed_step(s: SealedState, call: SealedCall)
    requires
        s.wf(),
    ensures
        s.step(call).wf(),
        s.step(call).same_terms(s),
        s.cancelled ==> s.step(call).cancelled,
        s.winning_bid_withdrawn ==> s.step(call).winning_bid_withdrawn,
        s.item_withdrawn ==> s.step(call).item_withdrawn,
        s.step(call).highest_bid >= s.highest_bid,
        s.step(call).second_highest_bid >= s.second_highest_bid,
        !(call is Reveal) ==> s.step(call).highest_bid == s.highest_bid && s.step(
            call,
        ).second_highest_bid == s.second_highest_bid && s.step(call).highest_bidder
            == s.highest_bidder,
        s.settled(call) >= 0,
        total_escrowed(s.step(call).bids) == total_escrowed(s.bids) + s.flow(call) + s.settled(
            call,
        ),
        s.item_flow(call) == 0 || s.item_flow(call) == -s.token_amount,
{
    if s.refusal(call) is None {
        match call {
            SealedCall::Commit { bidder, bid_hash, amount, cur_time } => {
                lemma_commit_accepted(s, bidder, bid_hash, amount, cur_time);
            },
            SealedCall::ReclaimBid { bidder } => {
                lemma_entry_removed(s, bidder);
            },
            SealedCall::Reveal { bidder, bid, nonce, cur_time } => {
                lemma_reveal_accepted(s, bidder, bid, bid_commitment(bid, nonce), cur_time);
                if bid <= s.highest_bid {
                    lemma_entry_removed(s, bidder);
                }
            },
            _ => {},
        }
    }
}

/// Escrow accounting. From any state of a sealed auction and through any
/// calls, the covers that the book records change by what the calls move into
/// and out of escrow, but for what they pay in settlement of the sale.
pub proof fn lemma_sealed_escrow_accounted(s: SealedState, calls: Seq<SealedCall>)
    requires
        s.wf(),
    ensures
        s.run(calls).wf(),
        s.run(calls).same_terms(s),
        s.net_settled(calls) >= 0,
        total_escrowed(s.run(calls).bids) == total_escrowed(s.bids) + s.net_flow(calls)
            + s.net_settled(calls),
    decreases calls.len(),
{
    if calls.len() > 0 {
        lemma_sealed_escrow_accounted(s, calls.drop_last());
        lemma_sealed_step(s.run(calls.drop_last()), calls.last());
    }
}

/// Escrow conservation from the listing on. In every state that a sealed
/// auction reaches before anything has been paid in settlement of the sale, the
/// currency held in escrow for it, which is what the calls so far have moved in
/// less what they have moved out, is the sum of the covers in the book: the
/// covers committed, less those given back.
pub proof fn lemma_sealed_escrow_matches_book(
    owner: PartyId,
    mint: PartyId,
    bump: u8,
    title: Seq<char>,
    floor: u64,
    first_price: bool,
    start_time: u64,
    end_time: u64,
    reveal_deadline: u64,
    bidder_cap: u64,
    token_amount: u64,
    cur_time: u64,
    calls: Seq<SealedCall>,
)
    requires
        sealed_listing_refusal(
            title,
            floor,
            start_time,
            end_time,
            reveal_deadline,
            token_amount,
            cur_time,
        ) is None,
        sealed_listed(
            owner,
            mint,
            bump,
            title,
            floor,
            first_price,
            start_time,
            end_time,
            reveal_deadline,
            bidder_cap,
            token_amount,
            cur_time,
        ).net_settled(calls) == 0,
    ensures
        ({
            let listed = sealed_listed(
                owner,
                mint,
                bump,
                title,
                floor,
                first_price,
                start_time,
                end_time,
                reveal_deadline,
                bidder_cap,
                token_amount,
                cur_time,
            );
            listed.wf() && listed.run(calls).wf() && listed.net_flow(calls) == total_escrowed(
                listed.run(calls).bids,
            )
        }),
{
    let listed = sealed_listed(
        owner,
        mint,
        bump,
        title,
        floor,
        first_price,
        start_time,
        end_time,
        reveal_deadline,
        bidder_cap,
        token_amount,
        cur_time,
    );
    assert(listed.bids =~= Seq::empty());
    assert(listed.wf());
    lemma_sealed_escrow_accounted(listed, calls);
}

/// Escrow accounting at the custodian, and the custody of the item. With a
/// custodian that holds for the auction the covers that the book records and no
/// more of the item than was listed, then after any calls: the currency it
/// holds, together with what was paid in settlement of the sale, is what the
/// book records; it was never overdrawn; and at most one call has handed the
/// item out, after which the custodian holds none of it.
pub proof fn lemma_sealed_custody(s: SealedState, held: Custody, calls: Seq<SealedCall>)
    requires
        s.wf(),
        held.currency == total_escrowed(s.bids),
        0 <= held.item <= s.token_amount,
    ensures
        ({
            let (after, left) = s.settle_all(held, calls);
            let handed_out = s.items_handed_out(held, calls);
            let paid = s.paid_in_settlement(held, calls);
            &&& after.wf()
            &&& after.same_terms(s)
            &&& paid >= 0
            &&& left.currency >= 0
            &&& left.currency + paid == total_escrowed(after.bids)
            &&& handed_out <= 1
            &&& handed_out == 0 ==> left.item == held.item
            &&& handed_out == 1 ==> held.item == s.token_amount && left.item == 0
        }),
    decreases calls.len(),
{
    if calls.len() > 0 {
        lemma_sealed_custody(s, held, calls.drop_last());
        let (before, h) = s.settle_all(held, calls.drop_last());
        lemma_sealed_step(before, calls.last());
    }
}

/// Commit-reveal soundness. In the reveal phase of an auction that is not
/// cancelled, a bidder with an entry who does not lead and reveals a bid above
/// the floor that the cover pays for is accepted exactly where the digest of
/// bid and nonce is the stored commitment, byte for byte; any other digest is
/// refused as a mismatch.
pub proof fn lemma_reveal_sound(
    s: SealedState,
    bidder: PartyId,
    bid: u64,
    nonce: u64,
    cur_time: u64,
)
    requires
        s.wf(),
        !s.cancelled,
        s.end_time < cur_time < s.reveal_deadline,
        has_bidder(s.bids, bidder),
        s.highest_bidder != Some(bidder),
    ensures
        s.reveal_refusal(bidder, bid, bid_commitment(bid, nonce), cur_time) is None ==> value_of(
            s.bids,
            bidder,
        )->0.commitment@ == bid_commitment(bid, nonce),
        value_of(s.bids, bidder)->0.commitment@ != bid_commitment(bid, nonce)
            ==> s.reveal_refusal(bidder, bid, bid_commitment(bid, nonce), cur_time) == Some(
            AuctionError::HashMismatch,
        ),
        bid > s.bid_floor && bid <= s.cover_of(bidder) ==> (s.reveal_refusal(
            bidder,
            bid,
            bid_commitment(bid, nonce),
            cur_time,
        ) is None <==> value_of(s.bids, bidder)->0.commitment@ == bid_commitment(bid, nonce)),
{
}

/// A commitment is opened once. The bidder who leads cannot reveal again:
/// whatever bid and digest come, in the reveal phase of an auction that is not
/// cancelled the reveal is refused as a mismatch, and the auction, the leader's
/// entry and cover with it, stays as it is.
pub proof fn lemma_leader_cannot_reveal_again(
    s: SealedState,
    bid: u64,
    nonce: u64,
    proposed: Seq<u8>,
    cur_time: u64,
)
    requires
        s.wf(),
        !s.cancelled,
        s.end_time < cur_time < s.reveal_deadline,
        s.highest_bidder is Some,
    ensures
        s.reveal_refusal(s.highest_bidder->0, bid, proposed, cur_time) == Some(
            AuctionError::HashMismatch,
        ),
        s.step(SealedCall::Reveal { bidder: s.highest_bidder->0, bid, nonce, cur_time }) == s,
{
}

/// A reveal of another bid or nonce than the committed ones is refused as a
/// mismatch wherever its digest is not the commitment: an altered pair can pass
/// only where both pairs have the same 32 bytes for a digest.
pub proof fn lemma_altered_reveal_refused(
    s: SealedState,
    bidder: PartyId,
    bid: u64,
    nonce: u64,
    other_bid: u64,
    other_nonce: u64,
    cur_time: u64,
)
    requires
        s.wf(),
        !s.cancelled,
        s.end_time < cur_time < s.reveal_deadline,
        has_bidder(s.bids, bidder),
        value_of(s.bids, bidder)->0.commitment@ == bid_commitment(bid, nonce),
        bid_commitment(other_bid, other_nonce) != bid_commitment(bid, nonce),
    ensures
        s.reveal_refusal(bidder, other_bid, bid_commitment(other_bid, other_nonce), cur_time)
            == Some(AuctionError::HashMismatch),
        s.step(
            SealedCall::Reveal { bidder, bid: other_bid, nonce: other_nonce, cur_time },
        ) == s,
{
}

/// No cover is stuck, and the leader's cover is not paid twice. Whatever the
/// phase, revealed or not, a bidder with an entry can take the cover back,
/// except the bidder who leads an auction that is not cancelled: that bidder is
/// refused, and gets the cover back, less the price, with the item. In a
/// cancelled auction nothing is sold: commitments, reveals, the hand-over of
/// the item and the payout are refused, every bidder can take the cover back,
/// and the owner the item, whatever the time.
pub proof fn lemma_sealed_refund_paths(
    s: SealedState,
    who: PartyId,
    amount: u64,
    proposed: Seq<u8>,
    cur_time: u64,
)
    requires
        s.wf(),
    ensures
        has_bidder(s.bids, who) && (s.cancelled || s.highest_bidder != Some(who))
            ==> s.reclaim_bid_refusal(who) is None,
        !s.cancelled && s.highest_bidder == Some(who) ==> s.reclaim_bid_refusal(who) == Some(
            AuctionError::WinnerCannotWithdrawBid,
        ) && s.step(SealedCall::ReclaimBid { bidder: who }) == s,
        s.cancelled ==> {
            &&& s.commit_refusal(who, amount, cur_time) == Some(AuctionError::AuctionCancelled)
            &&& s.reveal_refusal(who, amount, proposed, cur_time) == Some(
                AuctionError::AuctionCancelled,
            )
            &&& s.withdraw_item_refusal(who, cur_time) is Some
            &&& s.withdraw_winning_bid_refusal(who, cur_time) is Some
            &&& s.reclaim_item_refusal(s.owner, cur_time) is None
        },
{
}

/// Second-price settlement. In an auction that is not first-price and has
/// recorded a second-highest bid, the owner is paid exactly the second-highest
/// bid, and the winner gets back exactly the cover less the second-highest bid.
pub proof fn lemma_second_price_settlement(s: SealedState, caller: PartyId, cur_time: u64)
    requires
        s.wf(),
        !s.first_price,
        s.second_highest_bid > 0,
    ensures
        s.settlement_price() == s.second_highest_bid,
        s.withdraw_winning_bid_refusal(caller, cur_time) is None ==> s.winning_bid_payout()
            == (Transfer::ReleaseCurrency {
            to: s.owner,
            amount: s.second_highest_bid,
        }),
        s.withdraw_item_refusal(caller, cur_time) is None ==> s.winner_refund()
            == (Transfer::ReleaseCurrency {
            to: caller,
            amount: (s.cover_of(caller) - s.second_highest_bid) as u64,
        }) && s.cover_of(caller) >= s.second_highest_bid,
{
}

/// Second-price correctness. Two accepted reveals, in whatever order their
/// bids come, leave a second-highest bid on record, no higher than the highest,
/// and an auction that is not first-price settles at it: the owner is paid the
/// second-highest bid, and the winner gets back the cover less that bid. Where
/// nothing was revealed before, the higher of the two bids is the highest and
/// the lower the second-highest, and the bidder of the higher one leads, the
/// first of them where the bids are equal.
pub proof fn lemma_two_reveals_fix_the_price(
    s: SealedState,
    first: PartyId,
    first_bid: u64,
    first_nonce: u64,
    first_time: u64,
    second: PartyId,
    second_bid: u64,
    second_nonce: u64,
    second_time: u64,
)
    requires
        s.wf(),
        s.refusal(
            SealedCall::Reveal {
                bidder: first,
                bid: first_bid,
                nonce: first_nonce,
                cur_time: first_time,
            },
        ) is None,
        s.after_reveal(first, first_bid).refusal(
            SealedCall::Reveal {
                bidder: second,
                bid: second_bid,
                nonce: second_nonce,
                cur_time: second_time,
            },
        ) is None,
    ensures
        ({
            let end = s.after_reveal(first, first_bid).after_reveal(second, second_bid);
            let winner = end.highest_bidder->0;
            &&& end.wf()
            &&& end.highest_bidder is Some
            &&& 0 < end.second_highest_bid <= end.highest_bid <= end.cover_of(winner)
            &&& !s.first_price ==> {
                &&& end.settlement_price() == end.second_highest_bid
                &&& end.winning_bid_payout() == (Transfer::ReleaseCurrency {
                    to: end.owner,
                    amount: end.second_highest_bid,
                })
                &&& end.winner_refund() == (Transfer::ReleaseCurrency {
                    to: winner,
                    amount: (end.cover_of(winner) - end.second_highest_bid) as u64,
                })
            }
            &&& s.highest_bid == 0 ==> {
                &&& end.highest_bid == if second_bid > first_bid {
                    second_bid
                } else {
                    first_bid
                }
                &&& end.second_highest_bid == if second_bid > first_bid {
                    first_bid
                } else {
                    second_bid
                }
                &&& end.highest_bidder == Some(if second_bid > first_bid {
                    second
                } else {
                    first
                })
            }
        }),
{
    lemma_reveal_accepted(s, first, first_bid, bid_commitment(first_bid, first_nonce), first_time);
    lemma_reveal_accepted(
        s.after_reveal(first, first_bid),
        second,
        second_bid,
        bid_commitment(second_bid, second_nonce),
        second_time,
    );
}

/// A sealed auction that has closed with a highest bid settles. The highest
/// bidder has an entry whose cover pays the settlement price, can take the item
/// unless that was done, and gets back the cover less the price with it; every
/// other bidder can take the cover back; the owner cannot take the item back,
/// and is paid the price unless that was done. Nothing can be committed or
/// revealed any more.
pub proof fn lemma_sealed_closed_settles(
    s: SealedState,
    who: PartyId,
    amount: u64,
    proposed: Seq<u8>,
    cur_time: u64,
)
    requires
        s.wf(),
        !s.cancelled,
        cur_time > s.reveal_deadline,
        s.highest_bidder is Some,
    ensures
        has_bidder(s.bids, s.highest_bidder->0),
        s.settlement_price() <= s.highest_bid <= s.cover_of(s.highest_bidder->0),
        !s.item_withdrawn ==> s.withdraw_item_refusal(s.highest_bidder->0, cur_time) is None,
        s.item_withdrawn ==> s.withdraw_item_refusal(s.highest_bidder->0, cur_time) == Some(
            AuctionError::AlreadyWithdrewItem,
        ),
        s.winner_refund().currency_flow() == s.settlement_price() - s.cover_of(
            s.highest_bidder->0,
        ),
        s.reclaim_bid_refusal(s.highest_bidder->0) == Some(AuctionError::WinnerCannotWithdrawBid),
        has_bidder(s.bids, who) && s.highest_bidder != Some(who) ==> s.reclaim_bid_refusal(who)
            is None,
        s.reclaim_item_refusal(who, cur_time) is Some,
        s.commit_refusal(who, amount, cur_time) is Some,
        s.reveal_refusal(who, amount, proposed, cur_time) is Some,
        !s.winning_bid_withdrawn ==> s.withdraw_winning_bid_refusal(s.owner, cur_time) is None
            && s.winning_bid_payout().currency_flow() == -s.settlement_price(),
        s.winning_bid_withdrawn ==> s.withdraw_winning_bid_refusal(s.owner, cur_time) == Some(
            AuctionError::AlreadyWithdrewBid,
        ),
{
}

/// No double payment in settlement. Take a sealed auction with a highest bidder
/// whose reveal phase is over and of which nothing has been settled yet. Then,
/// as long as the clock does not run backwards, settlement pays out of the
/// winner's cover and of nothing else: the owner is paid the price at most
/// once, the winner gets the rest of the cover back at most once, with the item,
/// and what is left in escrow is never less than what the book records for the
/// other bidders.
pub proof fn lemma_sealed_settlement_pays_once(s: SealedState, from: u64, calls: Seq<SealedCall>)
    requires
        s.wf(),
        !s.cancelled,
        s.highest_bidder is Some,
        !s.winning_bid_withdrawn,
        !s.item_withdrawn,
        from > s.reveal_deadline,
        none_before(calls, from),
    ensures
        ({
            let after = s.run(calls);
            let winner = s.highest_bidder->0;
            let to_owner: int = if after.winning_bid_withdrawn {
                s.settlement_price() as int
            } else {
                0
            };
            let to_winner: int = if after.item_withdrawn {
                s.cover_of(winner) - s.settlement_price()
            } else {
                0
            };
            &&& after.wf()
            &&& after.same_terms(s)
            &&& !after.cancelled
            &&& after.highest_bidder == s.highest_bidder
            &&& after.highest_bid == s.highest_bid
            &&& after.second_highest_bid == s.second_highest_bid
            &&& after.cover_of(winner) == s.cover_of(winner)
            &&& s.net_settled(calls) == to_owner + to_winner
            &&& s.net_settled(calls) <= s.cover_of(winner)
            &&& total_escrowed(s.bids) + s.net_flow(calls) == total_escrowed(after.bids) - to_owner
                - to_winner
            &&& total_escrowed(s.bids) + s.net_flow(calls) >= total_escrowed(after.bids)
                - s.cover_of(winner)
        }),
    decreases calls.len(),
{
    if calls.len() > 0 {
        let earlier = calls.drop_last();
        assert(none_before(earlier, from)) by {
            assert forall|i: int| 0 <= i < earlier.len() implies (#[trigger] earlier[i]).not_before(
                from,
            ) by {
                assert(earlier[i] == calls[i]);
            }
        }
        lemma_sealed_settlement_pays_once(s, from, earlier);
        let before = s.run(earlier);
        let call = calls.last();
        assert(calls[calls.len() - 1].not_before(from));
        lemma_sealed_step(before, call);
        if before.refusal(call) is None {
            match call {
                SealedCall::ReclaimBid { bidder } => {
                    lemma_entry_removed(before, bidder);
                },
                _ => {},
            }
        }
    }
    lemma_sealed_escrow_accounted(s, calls);
}

/// The record that the item was handed over is never taken back: whatever
/// calls follow, at whatever times, a further hand-over is refused, and with
/// it a further refund to the winner.
pub proof fn lemma_sealed_item_never_handed_over_again(
    s: SealedState,
    calls: Seq<SealedCall>,
    caller: PartyId,
    cur_time: u64,
)
    requires
        s.wf(),
        s.item_withdrawn,
    ensures
        s.run(calls).wf(),
        s.run(calls).item_withdrawn,
        s.run(calls).withdraw_item_refusal(caller, cur_time) is Some,
        s.run(calls).flow(SealedCall::WithdrawItem { caller, cur_time }) == 0,
        s.run(calls).item_flow(SealedCall::WithdrawItem { caller, cur_time }) == 0,
    decreases calls.len(),
{
    if calls.len() > 0 {
        lemma_sealed_item_never_handed_over_again(s, calls.drop_last(), caller, cur_time);
        lemma_sealed_step(s.run(calls.drop_last()), calls.last());
    }
}

/// What holds from the moment the item has been handed over, as long as the
/// clock does not run backwards: the reveal phase is over, the auction is not
/// cancelled, and the hand-over is on record.
pub open spec fn item_handed_over(s: SealedState, handed_at: u64) -> bool {
    &&& s.wf()
    &&& !s.cancelled
    &&& handed_at > s.reveal_deadline
    &&& s.item_withdrawn
}

/// Once the item has been handed over, no call made at or after that time
/// undoes it, or changes who the highest bidder is.
pub proof fn lemma_handed_over_stays(s: SealedState, handed_at: u64, calls: Seq<SealedCall>)
    requires
        item_handed_over(s, handed_at),
        none_before(calls, handed_at),
    ensures
        item_handed_over(s.run(calls), handed_at),
        s.run(calls).same_terms(s),
        s.run(calls).highest_bidder == s.highest_bidder,
    decreases calls.len(),
{
    if calls.len() > 0 {
        let earlier = calls.drop_last();
        assert(none_before(earlier, handed_at)) by {
            assert forall|i: int| 0 <= i < earlier.len() implies (#[trigger] earlier[i]).not_before(
                handed_at,
            ) by {
                assert(earlier[i] == calls[i]);
            }
        }
        lemma_handed_over_stays(s, handed_at, earlier);
        assert(calls[calls.len() - 1].not_before(handed_at));
        lemma_sealed_step(s.run(earlier), calls.last());
    }
}

/// No double payout of the item. Where the item has been handed over at
/// `handed_at`, then after any calls made at or after that time, another call
/// for the item at or after that time is refused and the auction stays as it
/// is: made by the highest bidder, it is refused because the item was withdrawn
/// already. Neither the item nor a refund leaves escrow again, and the owner
/// cannot take the item back either.
pub proof fn lemma_sealed_item_handed_over_once(
    s: SealedState,
    winner: PartyId,
    handed_at: u64,
    calls: Seq<SealedCall>,
    caller: PartyId,
    cur_time: u64,
)
    requires
        s.wf(),
        s.withdraw_item_refusal(winner, handed_at) is None,
        none_before(calls, handed_at),
        cur_time >= handed_at,
    ensures
        ({
            let later = s.after_withdraw_item().run(calls);
            let again = later.withdraw_item_refusal(caller, cur_time);
            &&& again is Some
            &&& caller == winner ==> again == Some(AuctionError::AlreadyWithdrewItem)
            &&& caller == winner ==> again->0.spec_kind() == ErrorKind::StateConflict
            &&& later.step(SealedCall::WithdrawItem { caller, cur_time }) == later
            &&& later.flow(SealedCall::WithdrawItem { caller, cur_time }) == 0
            &&& later.item_flow(SealedCall::WithdrawItem { caller, cur_time }) == 0
            &&& later.reclaim_item_refusal(caller, cur_time) is Some
        }),
{
    let handed = s.after_withdraw_item();
    lemma_handed_over_stays(handed, handed_at, calls);
}

/// What holds from the moment the owner has been paid, as long as the clock
/// does not run backwards: the reveal phase is over, the auction is not
/// cancelled, and the payment is on record.
pub open spec fn winning_bid_settled(s: SealedState, paid_at: u64) -> bool {
    &&& s.wf()
    &&& !s.cancelled
    &&& paid_at > s.reveal_deadline
    &&& s.winning_bid_withdrawn
}

/// Once the owner has been paid, no call made at or after that time undoes it.
pub proof fn lemma_settled_stays(s: SealedState, paid_at: u64, calls: Seq<SealedCall>)
    requires
        winning_bid_settled(s, paid_at),
        none_before(calls, paid_at),
    ensures
        winning_bid_settled(s.run(calls), paid_at),
        s.run(calls).same_terms(s),
    decreases calls.len(),
{
    if calls.len() > 0 {
        let earlier = calls.drop_last();
        assert(none_before(earlier, paid_at)) by {
            assert forall|i: int| 0 <= i < earlier.len() implies (#[trigger] earlier[i]).not_before(
                paid_at,
            ) by {
                assert(earlier[i] == calls[i]);
            }
        }
        lemma_settled_stays(s, paid_at, earlier);
        assert(calls[calls.len() - 1].not_before(paid_at));
        lemma_sealed_step(s.run(earlier), calls.last());
    }
}

/// The record that the winning bid was paid is never taken back: whatever
/// calls follow, at whatever times, a further call for the winning bid is
/// refused.
pub proof fn lemma_sealed_winning_bid_never_repaid(
    s: SealedState,
    calls: Seq<SealedCall>,
    caller: PartyId,
    cur_time: u64,
)
    requires
        s.wf(),
        s.winning_bid_withdrawn,
    ensures
        s.run(calls).winning_bid_withdrawn,
        s.run(calls).withdraw_winning_bid_refusal(caller, cur_time) is Some,
    decreases calls.len(),
{
    if calls.len() > 0 {
        lemma_sealed_winning_bid_never_repaid(s, calls.drop_last(), caller, cur_time);
        lemma_sealed_escrow_accounted(s, calls.drop_last());
        lemma_sealed_step(s.run(calls.drop_last()), calls.last());
    }
}

/// No double payout of the winning bid. Where the owner has been paid at
/// `paid_at`, then after any calls made at or after that time, another call for
/// the winning bid at or after that time is refused and the auction stays as it
/// is; made by the owner, it is refused because the bid was withdrawn already.
pub proof fn lemma_sealed_winning_bid_paid_once(
    s: SealedState,
    first_caller: PartyId,
    paid_at: u64,
    calls: Seq<SealedCall>,
    caller: PartyId,
    cur_time: u64,
)
    requires
        s.wf(),
        s.withdraw_winning_bid_refusal(first_caller, paid_at) is None,
        none_before(calls, paid_at),
        cur_time >= paid_at,
    ensures
        ({
            let later = s.after_withdraw_winning_bid().run(calls);
            let again = later.withdraw_winning_bid_refusal(caller, cur_time);
            &&& again is Some
            &&& caller == s.owner ==> again == Some(AuctionError::AlreadyWithdrewBid)
            &&& caller == s.owner ==> again->0.spec_kind() == ErrorKind::StateConflict
        }),
{
    let paid = s.after_withdraw_winning_bid();
    lemma_settled_stays(paid, paid_at, calls);
}

} // verus!
