//! What the engines ask a custodian to do, and how a balance is moved.
use crate::party::PartyId;
use vstd::prelude::*;

verus! {

/// A movement of currency or of the item on sale that an accepted operation
/// asks the custodian to carry out. The auction engines decide; they move nothing.
#[derive(Clone, Copy, Debug, PartialEq, Eq)]
pub enum Transfer {
    /// Take `amount` units of the item from `from` into escrow.
    HoldItem { from: PartyId, amount: u64 },
    /// Hand `amount` units of the item from escrow to `to`.
    ReleaseItem { to: PartyId, amount: u64 },
    /// Take `amount` of currency from `from` into escrow.
    HoldCurrency { from: PartyId, amount: u64 },
    /// Pay `amount` of currency from escrow to `to`.
    ReleaseCurrency { to: PartyId, amount: u64 },
}

impl Transfer {
    /// By how much the transfer changes the currency in escrow.
    pub open spec fn currency_flow(self) -> int {
        match self {
            Transfer::HoldCurrency { amount, .. } => amount as int,
            Transfer::ReleaseCurrency { amount, .. } => -(amount as int),
            _ => 0,
        }
    }

    /// By how much the transfer changes the quantity of the item in escrow.
    pub open spec fn item_flow(self) -> int {
        match self {
            Transfer::HoldItem { amount, .. } => amount as int,
            Transfer::ReleaseItem { amount, .. } => -(amount as int),
            _ => 0,
        }
    }
}

/// What the custodian holds for one auction. A custodian carries out the
/// transfers of a call all together or not at all, and hands out nothing that
/// it does not hold.
pub struct Custody {
    pub currency: int,
    pub item: int,
}

impl Custody {
    /// Whether the custodian can carry out transfers that change its holdings
    /// by the given amounts.
    pub open spec fn covers(self, currency_flow: int, item_flow: int) -> bool {
        self.currency + currency_flow >= 0 && self.item + item_flow >= 0
    }

    /// The holdings after such transfers.
    pub open spec fn moved(self, currency_flow: int, item_flow: int) -> Custody {
        Custody { currency: self.currency + currency_flow, item: self.item + item_flow }
    }
}

/// Why a balance could not be moved.
#[derive(Clone, Copy, Debug, PartialEq, Eq, Structural)]
pub enum TransferError {
    /// The paying balance holds less than the amount.
    InsufficientFunds,
    /// The receiving balance cannot hold the amount on top of what it has.
    BalanceOverflow,
}

/// Moves `amount` from the balance `src` to the balance `dst`, or changes
/// neither: a balance that is too small is not debited, and one that would
/// exceed `u64::MAX` is not credited.
pub fn transfer_from_owned_account(src: &mut u64, dst: &mut u64, amount: u64) -> (r: Result<
    (),
    TransferError,
>)
    ensures
        r is Ok <==> amount <= *old(src) && *old(dst) + amount <= u64::MAX,
        r is Ok ==> *final(src) == *old(src) - amount && *final(dst) == *old(dst) + amount,
        r is Err ==> *final(src) == *old(src) && *final(dst) == *old(dst),
        r == Err::<(), TransferError>(TransferError::InsufficientFunds) <==> amount > *old(src),
{
    let debited = match (*src).checked_sub(amount) {
        Some(left) => left,
        None => {
            return Err(TransferError::InsufficientFunds);
        },
    };
    let credited = match (*dst).checked_add(amount) {
        Some(sum) => sum,
        None => {
            return Err(TransferError::BalanceOverflow);
        },
    };
    *src = debited;
    *dst = credited;
    Ok(())
}

} // verus!
