//! Settlement engine for auctions of a single item: an open ascending-bid
//! auction and a sealed-bid commit-reveal auction, first-price or second-price.
//!
//! The engines decide and keep the record; they move nothing. Every accepted
//! operation returns the transfers that a custodian is to carry out, and every
//! refused one leaves the record as it was. The clock is an argument: each
//! operation is given the time once.
//!
//! [`open`] and [`sealed`] hold the two engines, [`bidbook`] the book of bidders
//! that both use, [`commitment`] the hashing of sealed bids, [`escrow`] the
//! transfers. [`open_laws`] and [`sealed_laws`] state what holds of every
//! sequence of operations.
pub mod bidbook;
pub mod commitment;
pub mod error;
pub mod escrow;
pub mod open;
pub mod open_laws;
pub mod party;
pub mod sealed;
pub mod sealed_laws;
pub mod title;

pub use bidbook::{BidBook, Entry};
pub use commitment::{compute_bid_hash, opens_commitment, same_digest};
pub use error::{AuctionError, ErrorKind};
pub use escrow::{transfer_from_owned_account, Transfer, TransferError};
pub use open::{
    cancel_open_auction, create_open_auction, make_open_bid, reclaim_item_open, reclaim_open_bid,
    withdraw_item_open, withdraw_winning_bid_open, OpenAuction, OpenAuctionParts, OpenState,
};
pub use party::PartyId;
pub use sealed::{
    cancel_sealed_auction, create_sealed_auction, make_sealed_bid, reclaim_item_sealed,
    reclaim_sealed_bid, reveal_against_hash, reveal_sealed_bid, withdraw_item_sealed,
    withdraw_winning_bid_sealed, SealedAuction, SealedAuctionParts, SealedBid, SealedState,
};
pub use title::{name_seed, MAX_SEED_BYTES, MAX_TITLE_CHARS};
