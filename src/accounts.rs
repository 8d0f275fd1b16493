use vstd::prelude::*;

verus! {

/// A 32-byte account identity.
pub type Key = [u8; 32];

/// The escrow record that collects every bid.
#[derive(Clone, Copy, Debug, PartialEq, Eq)]
pub struct Vault {
    /// The identity that initialized the vault.
    pub owner: Key,
    /// Funds currently held in escrow.
    pub lamports: u64,
}

/// An account that only takes part through its balance.
#[derive(Clone, Copy, Debug, PartialEq, Eq)]
pub struct Wallet {
    pub key: Key,
    pub lamports: u64,
}

/// The auction record of one canvas cell.
#[derive(Clone, Copy, Debug, PartialEq, Eq)]
pub struct Pixel {
    pub pos_x: u8,
    pub pos_y: u8,
    pub col_r: u8,
    pub col_g: u8,
    pub col_b: u8,
    /// Price paid per slot by the current renter.
    pub lamport_per_slot: u64,
    /// First slot at which the current renter's right has lapsed.
    pub last_slot: u64,
    /// The current renter.
    pub bidder: Key,
}

/// The notification emitted after every successful create or update:
/// the full state of the cell afterwards.
#[derive(Clone, Copy, Debug, PartialEq, Eq)]
pub struct PixelChanged {
    pub pos_x: u8,
    pub pos_y: u8,
    pub col_r: u8,
    pub col_g: u8,
    pub col_b: u8,
    pub lamport_per_slot: u64,
    pub last_slot: u64,
    pub bidder: Key,
}

/// Accounts of the vault initialization: the vault record and its creator.
#[derive(Clone, Copy, Debug, PartialEq, Eq)]
pub struct InitVault {
    pub vault: Vault,
    pub user: Key,
}

/// Accounts of a first bid on a cell: the record to fill, the bidder and the vault.
#[derive(Clone, Copy, Debug, PartialEq, Eq)]
pub struct CreatePixel {
    pub pixel: Pixel,
    pub user: Key,
    pub vault: Vault,
}

/// Accounts of a later bid on a cell: the existing record, the new bidder,
/// the vault, and the previous renter who may be owed a refund.
#[derive(Clone, Copy, Debug, PartialEq, Eq)]
pub struct UpdatePixel {
    pub pixel: Pixel,
    pub user: Key,
    pub vault: Vault,
    pub bidder: Wallet,
}

/// Whether two identities are the same.
pub fn same_key(a: &Key, b: &Key) -> (r: bool)
    ensures
        r == (*a == *b),
{
    let mut i: usize = 0;
    while i < 32
        invariant
            i <= 32,
            forall|j: int| 0 <= j < i ==> a[j] == b[j],
        decreases 32 - i,
    {
        if a[i] != b[i] {
            return false;
        }
        i = i + 1;
    }
    assert(*a =~= *b);
    true
}

impl Pixel {
    /// Every record that a bid wrote has a positive rate.
    pub open spec fn wf(self) -> bool {
        self.lamport_per_slot >= 1
    }

    /// The renter's right has not lapsed at slot `now`.
    pub open spec fn is_live(self, now: u64) -> bool {
        now < self.last_slot
    }

    /// The value still owed to the renter for the slots left at `now`.
    pub open spec fn owed(self, now: u64) -> int {
        if self.is_live(now) {
            (self.last_slot - now) * self.lamport_per_slot
        } else {
            0
        }
    }

    pub open spec fn changed_spec(self) -> PixelChanged {
        PixelChanged {
            pos_x: self.pos_x,
            pos_y: self.pos_y,
            col_r: self.col_r,
            col_g: self.col_g,
            col_b: self.col_b,
            lamport_per_slot: self.lamport_per_slot,
            last_slot: self.last_slot,
            bidder: self.bidder,
        }
    }

    /// The notification that describes this record.
    pub fn changed(&self) -> (c: PixelChanged)
        ensures
            c == self.changed_spec(),
    {
        PixelChanged {
            pos_x: self.pos_x,
            pos_y: self.pos_y,
            col_r: self.col_r,
            col_g: self.col_g,
            col_b: self.col_b,
            lamport_per_slot: self.lamport_per_slot,
            last_slot: self.last_slot,
            bidder: self.bidder,
        }
    }
}

} // verus!
