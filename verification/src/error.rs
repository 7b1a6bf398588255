//! The reasons for which an operation is refused.
use vstd::prelude::*;

verus! {

/// Why an auction operation was refused. Every refusal leaves the auction
/// record exactly as it was.
#[derive(Clone, Copy, Debug, PartialEq, Eq, Structural)]
pub enum AuctionError {
    TitleOverflow,
    InvalidIncrement,
    InvalidStartTime,
    InvalidEndTime,
    UnderBidFloor,
    InsufficientBid,
    AuctionCancelled,
    BidBeforeStart,
    BidAfterClose,
    BidderCapReached,
    OwnerCannotBid,
    AuctionNotOver,
    NotBidder,
    AlreadyReclaimedBid,
    NoWinningBid,
    WinnerCannotWithdrawBid,
    AlreadyWithdrewBid,
    DuplicateSealedBid,
    InvalidTokenAmount,
    InvalidBidFloor,
    CannotCancelAfterClose,
    InvalidRevealPeriod,
    CannotCancelRevealPeriod,
    MustSendSol,
    HashMismatch,
    InsufficientSol,
    RevealPeriodOver,
    RevealPeriodNotOver,
    Unauthorized,
    AmountOverflow,
    AlreadyWithdrewItem,
}

/// The four families of refusal.
#[derive(Clone, Copy, Debug, PartialEq, Eq, Structural)]
pub enum ErrorKind {
    /// An argument is unacceptable as it stands.
    Validation,
    /// The call came in the wrong phase of the auction.
    Timing,
    /// The bid book is full, or the caller is not who the call needs.
    CapacityIdentity,
    /// The auction's state rules the call out.
    StateConflict,
}

impl AuctionError {
    /// The family an error belongs to.
    pub open spec fn spec_kind(self) -> ErrorKind {
        match self {
            AuctionError::TitleOverflow => ErrorKind::Validation,
            AuctionError::InvalidIncrement => ErrorKind::Validation,
            AuctionError::InvalidStartTime => ErrorKind::Validation,
            AuctionError::InvalidEndTime => ErrorKind::Validation,
            AuctionError::UnderBidFloor => ErrorKind::Validation,
            AuctionError::InsufficientBid => ErrorKind::Validation,
            AuctionError::AuctionCancelled => ErrorKind::StateConflict,
            AuctionError::BidBeforeStart => ErrorKind::Timing,
            AuctionError::BidAfterClose => ErrorKind::Timing,
            AuctionError::BidderCapReached => ErrorKind::CapacityIdentity,
            AuctionError::OwnerCannotBid => ErrorKind::CapacityIdentity,
            AuctionError::AuctionNotOver => ErrorKind::Timing,
            AuctionError::NotBidder => ErrorKind::StateConflict,
            AuctionError::AlreadyReclaimedBid => ErrorKind::StateConflict,
            AuctionError::NoWinningBid => ErrorKind::StateConflict,
            AuctionError::WinnerCannotWithdrawBid => ErrorKind::StateConflict,
            AuctionError::AlreadyWithdrewBid => ErrorKind::StateConflict,
            AuctionError::DuplicateSealedBid => ErrorKind::CapacityIdentity,
            AuctionError::InvalidTokenAmount => ErrorKind::Validation,
            AuctionError::InvalidBidFloor => ErrorKind::Validation,
            AuctionError::CannotCancelAfterClose => ErrorKind::Timing,
            AuctionError::InvalidRevealPeriod => ErrorKind::Validation,
            AuctionError::CannotCancelRevealPeriod => ErrorKind::Timing,
            AuctionError::MustSendSol => ErrorKind::Validation,
            AuctionError::HashMismatch => ErrorKind::Validation,
            AuctionError::InsufficientSol => ErrorKind::Validation,
            AuctionError::RevealPeriodOver => ErrorKind::Timing,
            AuctionError::RevealPeriodNotOver => ErrorKind::Timing,
            AuctionError::Unauthorized => ErrorKind::CapacityIdentity,
            AuctionError::AmountOverflow => ErrorKind::Validation,
            AuctionError::AlreadyWithdrewItem => ErrorKind::StateConflict,
        }
    }

    /// The words that go with an error.
    pub open spec fn spec_message(self) -> Seq<char> {
        match self {
            AuctionError::TitleOverflow => "Title must be less than 50 characters."@,
            AuctionError::InvalidIncrement => "Minimum bid increment must be greater than 0."@,
            AuctionError::InvalidStartTime => "Start time must be in the future and before end time."@,
            AuctionError::InvalidEndTime => "End time must be after start time."@,
            AuctionError::UnderBidFloor => "Must bid higher than the floor."@,
            AuctionError::InsufficientBid => "Must bid at least min_bid_increment higher than max_bid."@,
            AuctionError::AuctionCancelled => "Auction is cancelled and only allows reclaiming past bids and the item."@,
            AuctionError::BidBeforeStart => "Auction period has not yet begun."@,
            AuctionError::BidAfterClose => "Auction period has elapsed."@,
            AuctionError::BidderCapReached => "Maximum number of unique bidders has been reached."@,
            AuctionError::OwnerCannotBid => "Owner cannot bid on auction."@,
            AuctionError::AuctionNotOver => "Auction is not over."@,
            AuctionError::NotBidder => "No previous bid associated with this key."@,
            AuctionError::AlreadyReclaimedBid => "Bid associated with this key has already been reclaimed."@,
            AuctionError::NoWinningBid => "No winning bid to withdraw."@,
            AuctionError::WinnerCannotWithdrawBid => "Auction winner cannot withdraw their bid."@,
            AuctionError::AlreadyWithdrewBid => "Winning bid has already been withdrawn."@,
            AuctionError::DuplicateSealedBid => "Each key can only have one active sealed bid per auction."@,
            AuctionError::InvalidTokenAmount => "Token amount must be greater than 0."@,
            AuctionError::InvalidBidFloor => "Bid floor must be greater than 0."@,
            AuctionError::CannotCancelAfterClose => "Auction cannot be cancelled after it has closed."@,
            AuctionError::InvalidRevealPeriod => "Reveal period must end after end time."@,
            AuctionError::CannotCancelRevealPeriod => "Auction cannot be cancelled once the reveal period has begun."@,
            AuctionError::MustSendSol => "Must send a nonzero amount of SOL."@,
            AuctionError::HashMismatch => "Revealed bid and nonce do not match the sealed bid."@,
            AuctionError::InsufficientSol => "SOL sent with the sealed bid does not cover the revealed bid."@,
            AuctionError::RevealPeriodOver => "Reveal period has elapsed."@,
            AuctionError::RevealPeriodNotOver => "Reveal period is not over."@,
            AuctionError::Unauthorized => "Caller is not the party this operation is reserved for."@,
            AuctionError::AmountOverflow => "Total bid does not fit in 64 bits."@,
            AuctionError::AlreadyWithdrewItem => "Item has already been withdrawn."@,
        }
    }

    /// The words that go with an error.
    pub fn message(self) -> (msg: &'static str)
        ensures
            msg@ == self.spec_message(),
    {
        match self {
            AuctionError::TitleOverflow => "Title must be less than 50 characters.",
            AuctionError::InvalidIncrement => "Minimum bid increment must be greater than 0.",
            AuctionError::InvalidStartTime => "Start time must be in the future and before end time.",
            AuctionError::InvalidEndTime => "End time must be after start time.",
            AuctionError::UnderBidFloor => "Must bid higher than the floor.",
            AuctionError::InsufficientBid => "Must bid at least min_bid_increment higher than max_bid.",
            AuctionError::AuctionCancelled => "Auction is cancelled and only allows reclaiming past bids and the item.",
            AuctionError::BidBeforeStart => "Auction period has not yet begun.",
            AuctionError::BidAfterClose => "Auction period has elapsed.",
            AuctionError::BidderCapReached => "Maximum number of unique bidders has been reached.",
            AuctionError::OwnerCannotBid => "Owner cannot bid on auction.",
            AuctionError::AuctionNotOver => "Auction is not over.",
            AuctionError::NotBidder => "No previous bid associated with this key.",
            AuctionError::AlreadyReclaimedBid => "Bid associated with this key has already been reclaimed.",
            AuctionError::NoWinningBid => "No winning bid to withdraw.",
            AuctionError::WinnerCannotWithdrawBid => "Auction winner cannot withdraw their bid.",
            AuctionError::AlreadyWithdrewBid => "Winning bid has already been withdrawn.",
            AuctionError::DuplicateSealedBid => "Each key can only have one active sealed bid per auction.",
            AuctionError::InvalidTokenAmount => "Token amount must be greater than 0.",
            AuctionError::InvalidBidFloor => "Bid floor must be greater than 0.",
            AuctionError::CannotCancelAfterClose => "Auction cannot be cancelled after it has closed.",
            AuctionError::InvalidRevealPeriod => "Reveal period must end after end time.",
            AuctionError::CannotCancelRevealPeriod => "Auction cannot be cancelled once the reveal period has begun.",
            AuctionError::MustSendSol => "Must send a nonzero amount of SOL.",
            AuctionError::HashMismatch => "Revealed bid and nonce do not match the sealed bid.",
            AuctionError::InsufficientSol => "SOL sent with the sealed bid does not cover the revealed bid.",
            AuctionError::RevealPeriodOver => "Reveal period has elapsed.",
            AuctionError::RevealPeriodNotOver => "Reveal period is not over.",
            AuctionError::Unauthorized => "Caller is not the party this operation is reserved for.",
            AuctionError::AmountOverflow => "Total bid does not fit in 64 bits.",
            AuctionError::AlreadyWithdrewItem => "Item has already been withdrawn.",
        }
    }

    /// The family an error belongs to.
    #[verifier::when_used_as_spec(spec_kind)]
    pub fn kind(self) -> (k: ErrorKind)
        ensures
            k == self.spec_kind(),
    {
        match self {
            AuctionError::TitleOverflow
            | AuctionError::InvalidIncrement
            | AuctionError::InvalidStartTime
            | AuctionError::InvalidEndTime
            | AuctionError::UnderBidFloor
            | AuctionError::InsufficientBid
            | AuctionError::InvalidTokenAmount
            | AuctionError::InvalidBidFloor
            | AuctionError::InvalidRevealPeriod
            | AuctionError::MustSendSol
            | AuctionError::HashMismatch
            | AuctionError::InsufficientSol
            | AuctionError::AmountOverflow => ErrorKind::Validation,
            AuctionError::BidBeforeStart
            | AuctionError::BidAfterClose
            | AuctionError::AuctionNotOver
            | AuctionError::CannotCancelAfterClose
            | AuctionError::CannotCancelRevealPeriod
            | AuctionError::RevealPeriodOver
            | AuctionError::RevealPeriodNotOver => ErrorKind::Timing,
            AuctionError::BidderCapReached
            | AuctionError::OwnerCannotBid
            | AuctionError::DuplicateSealedBid
            | AuctionError::Unauthorized => ErrorKind::CapacityIdentity,
            AuctionError::AuctionCancelled
            | AuctionError::NotBidder
            | AuctionError::AlreadyReclaimedBid
            | AuctionError::NoWinningBid
            | AuctionError::WinnerCannotWithdrawBid
            | AuctionError::AlreadyWithdrewBid
            | AuctionError::AlreadyWithdrewItem => ErrorKind::StateConflict,
        }
    }
}

} // verus!
