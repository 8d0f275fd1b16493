use vstd::prelude::*;
use crate::accounts::{same_key, CreatePixel, InitVault, Key, Pixel, PixelChanged, UpdatePixel, Vault, Wallet};
use crate::error::ErrorCode;

verus! {

/// What a valid bid moves: `payment` from the bidder into the vault, and
/// `refund` from the vault back to the previous renter.
#[derive(Clone, Copy, Debug, PartialEq, Eq, Structural)]
pub struct Settlement {
    pub payment: u64,
    pub refund: u64,
}

/// The first rule that a first bid breaks, if any. Coordinates and colors
/// are bytes, so every value of them lies in the grid and the color range.
pub open spec fn create_rejection(vault: Vault, lamports_per_slot: u64, nb_slots: u64) -> Option<ErrorCode> {
    if lamports_per_slot < 1 {
        Some(ErrorCode::InvalidLamportsPerSlot)
    } else if nb_slots < 1 {
        Some(ErrorCode::InvalidNumberSlots)
    } else if vault.lamports + nb_slots * lamports_per_slot > u64::MAX {
        Some(ErrorCode::PaymentInvalid)
    } else {
        None
    }
}

/// The first rule that a later bid breaks against `pixel` at slot `now`, if any.
pub open spec fn update_rejection(
    pixel: Pixel,
    vault: Vault,
    bidder: Wallet,
    now: u64,
    lamports_per_slot: u64,
    nb_slots: u64,
) -> Option<ErrorCode> {
    if pixel.is_live(now) && lamports_per_slot <= pixel.lamport_per_slot {
        Some(ErrorCode::InvalidLamportsPerSlot)
    } else if lamports_per_slot < 1 {
        Some(ErrorCode::InvalidLamportsPerSlot)
    } else if nb_slots < 1 {
        Some(ErrorCode::InvalidNumberSlots)
    } else if nb_slots * lamports_per_slot <= pixel.owed(now) {
        Some(ErrorCode::InvalidNumberSlotsXLamportsPerSlot)
    } else if pixel.is_live(now) && (bidder.key != pixel.bidder || vault.lamports < pixel.owed(now)
        || bidder.lamports + pixel.owed(now) > u64::MAX) {
        Some(ErrorCode::RefundInvalid)
    } else if vault.lamports - pixel.owed(now) + nb_slots * lamports_per_slot > u64::MAX {
        Some(ErrorCode::PaymentInvalid)
    } else {
        None
    }
}

/// The record that a winning bid leaves behind.
pub open spec fn placed(
    pos_x: u8,
    pos_y: u8,
    col_r: u8,
    col_g: u8,
    col_b: u8,
    lamports_per_slot: u64,
    last_slot: int,
    bidder: Key,
) -> Pixel {
    Pixel {
        pos_x,
        pos_y,
        col_r,
        col_g,
        col_b,
        lamport_per_slot: lamports_per_slot,
        last_slot: last_slot as u64,
        bidder,
    }
}

/// A first bid on a cell at slot `now`: the accounts afterwards and the result.
/// `payment_ok` tells whether the transfer of the quoted payment from the
/// bidder into the vault went through; it only matters for a valid bid.
pub open spec fn create_step(
    ctx: CreatePixel,
    now: u64,
    pos_x: u8,
    pos_y: u8,
    col_r: u8,
    col_g: u8,
    col_b: u8,
    lamports_per_slot: u64,
    nb_slots: u64,
    payment_ok: bool,
) -> (CreatePixel, Result<PixelChanged, ErrorCode>) {
    match create_rejection(ctx.vault, lamports_per_slot, nb_slots) {
        Some(e) => (ctx, Err(e)),
        None => if !payment_ok {
            (ctx, Err(ErrorCode::PaymentInvalid))
        } else {
            let pixel = placed(pos_x, pos_y, col_r, col_g, col_b, lamports_per_slot, now + nb_slots, ctx.user);
            let vault = Vault {
                owner: ctx.vault.owner,
                lamports: (ctx.vault.lamports + nb_slots * lamports_per_slot) as u64,
            };
            (CreatePixel { pixel, user: ctx.user, vault }, Ok(pixel.changed_spec()))
        },
    }
}

/// A later bid on the cell of `ctx.pixel` at slot `now`: the accounts
/// afterwards and the result. `payment_ok` is as for `create_step`.
pub open spec fn update_step(
    ctx: UpdatePixel,
    now: u64,
    col_r: u8,
    col_g: u8,
    col_b: u8,
    lamports_per_slot: u64,
    nb_slots: u64,
    payment_ok: bool,
) -> (UpdatePixel, Result<PixelChanged, ErrorCode>) {
    match update_rejection(ctx.pixel, ctx.vault, ctx.bidder, now, lamports_per_slot, nb_slots) {
        Some(e) => (ctx, Err(e)),
        None => if !payment_ok {
            (ctx, Err(ErrorCode::PaymentInvalid))
        } else {
            let owed = ctx.pixel.owed(now);
            let pixel = placed(
                ctx.pixel.pos_x,
                ctx.pixel.pos_y,
                col_r,
                col_g,
                col_b,
                lamports_per_slot,
                now + nb_slots,
                ctx.user,
            );
            let vault = Vault {
                owner: ctx.vault.owner,
                lamports: (ctx.vault.lamports - owed + nb_slots * lamports_per_slot) as u64,
            };
            let bidder = Wallet { key: ctx.bidder.key, lamports: (ctx.bidder.lamports + owed) as u64 };
            (UpdatePixel { pixel, user: ctx.user, vault, bidder }, Ok(pixel.changed_spec()))
        },
    }
}

/// The exact product of two 64-bit values.
fn wide_mul(a: u64, b: u64) -> (r: u128)
    ensures
        r == a * b,
{
    proof {
        assert(a * b <= u64::MAX * u64::MAX) by (nonlinear_arith)
            requires
                a <= u64::MAX,
                b <= u64::MAX,
                0 <= a,
                0 <= b,
        ;
    }
    (a as u128) * (b as u128)
}

/// The value still owed to the renter of `pixel` at slot `now`.
pub fn owed_at(pixel: &Pixel, now: u64) -> (r: u128)
    ensures
        r == pixel.owed(now),
{
    if now < pixel.last_slot {
        wide_mul(pixel.last_slot - now, pixel.lamport_per_slot)
    } else {
        0
    }
}

/// Writes the vault's creator into the vault record.
pub fn init_vault(ctx: &mut InitVault) -> (r: Result<(), ErrorCode>)
    ensures
        r == Ok::<(), ErrorCode>(()),
        final(ctx).vault.owner == old(ctx).user,
        final(ctx).vault.lamports == old(ctx).vault.lamports,
        final(ctx).user == old(ctx).user,
{
    ctx.vault.owner = ctx.user;
    Ok(())
}

/// Checks a first bid and says how much it must pay into the vault.
pub fn quote_create(vault: &Vault, lamports_per_slot: u64, nb_slots: u64) -> (r: Result<u64, ErrorCode>)
    ensures
        match create_rejection(*vault, lamports_per_slot, nb_slots) {
            Some(e) => r == Err::<u64, ErrorCode>(e),
            None => r == Ok::<u64, ErrorCode>((nb_slots * lamports_per_slot) as u64),
        },
{
    if lamports_per_slot < 1 {
        return Err(ErrorCode::InvalidLamportsPerSlot);
    }
    if nb_slots < 1 {
        return Err(ErrorCode::InvalidNumberSlots);
    }
    let payment = wide_mul(nb_slots, lamports_per_slot);
    if payment > (u64::MAX - vault.lamports) as u128 {
        return Err(ErrorCode::PaymentInvalid);
    }
    Ok(payment as u64)
}

/// Checks a later bid against the existing record at slot `now` and says how
/// much it must pay into the vault and how much goes back to the previous renter.
pub fn quote_update(
    pixel: &Pixel,
    vault: &Vault,
    bidder: &Wallet,
    now: u64,
    lamports_per_slot: u64,
    nb_slots: u64,
) -> (r: Result<Settlement, ErrorCode>)
    ensures
        match update_rejection(*pixel, *vault, *bidder, now, lamports_per_slot, nb_slots) {
            Some(e) => r == Err::<Settlement, ErrorCode>(e),
            None => r == Ok::<Settlement, ErrorCode>(
                (Settlement {
                    payment: (nb_slots * lamports_per_slot) as u64,
                    refund: pixel.owed(now) as u64,
                }),
            ),
        },
{
    let live = now < pixel.last_slot;
    if live && lamports_per_slot <= pixel.lamport_per_slot {
        return Err(ErrorCode::InvalidLamportsPerSlot);
    }
    if lamports_per_slot < 1 {
        return Err(ErrorCode::InvalidLamportsPerSlot);
    }
    if nb_slots < 1 {
        return Err(ErrorCode::InvalidNumberSlots);
    }
    let owed = owed_at(pixel, now);
    let payment = wide_mul(nb_slots, lamports_per_slot);
    if payment <= owed {
        return Err(ErrorCode::InvalidNumberSlotsXLamportsPerSlot);
    }
    if live && (!same_key(&bidder.key, &pixel.bidder) || (vault.lamports as u128) < owed
        || owed > (u64::MAX - bidder.lamports) as u128) {
        return Err(ErrorCode::RefundInvalid);
    }
    if !live {
        assert(owed == 0);
    }
    if payment > (u64::MAX - vault.lamports) as u128 + owed {
        return Err(ErrorCode::PaymentInvalid);
    }
    Ok(Settlement { payment: payment as u64, refund: owed as u64 })
}

/// Places a first bid on a cell at slot `now`. The record is written and
/// the vault credited only when the bid is valid and `payment_ok` says that
/// its payment reached the vault; otherwise nothing changes.
pub fn create_pixel(
    ctx: &mut CreatePixel,
    now: u64,
    pos_x: u8,
    pos_y: u8,
    init_col_r: u8,
    init_col_g: u8,
    init_col_b: u8,
    lamports_per_slot: u64,
    nb_slots: u64,
    payment_ok: bool,
) -> (r: Result<PixelChanged, ErrorCode>)
    requires
        now + nb_slots <= u64::MAX,
    ensures
        (*final(ctx), r) == create_step(
            *old(ctx),
            now,
            pos_x,
            pos_y,
            init_col_r,
            init_col_g,
            init_col_b,
            lamports_per_slot,
            nb_slots,
            payment_ok,
        ),
{
    let payment = match quote_create(&ctx.vault, lamports_per_slot, nb_slots) {
        Ok(p) => p,
        Err(e) => return Err(e),
    };
    if !payment_ok {
        return Err(ErrorCode::PaymentInvalid);
    }
    ctx.vault.lamports = ctx.vault.lamports + payment;
    ctx.pixel = Pixel {
        pos_x,
        pos_y,
        col_r: init_col_r,
        col_g: init_col_g,
        col_b: init_col_b,
        lamport_per_slot: lamports_per_slot,
        last_slot: now + nb_slots,
        bidder: ctx.user,
    };
    Ok(ctx.pixel.changed())
}

/// Places a later bid on the cell of `ctx.pixel` at slot `now`. On success
/// the previous renter is refunded what is still owed, the vault keeps the
/// new payment less that refund, and the record names the new renter.
/// On any failure nothing changes.
pub fn update_pixel(
    ctx: &mut UpdatePixel,
    now: u64,
    new_col_r: u8,
    new_col_g: u8,
    new_col_b: u8,
    lamports_per_slot: u64,
    nb_slots: u64,
    payment_ok: bool,
) -> (r: Result<PixelChanged, ErrorCode>)
    requires
        now + nb_slots <= u64::MAX,
    ensures
        (*final(ctx), r) == update_step(
            *old(ctx),
            now,
            new_col_r,
            new_col_g,
            new_col_b,
            lamports_per_slot,
            nb_slots,
            payment_ok,
        ),
{
    let settlement = match quote_update(&ctx.pixel, &ctx.vault, &ctx.bidder, now, lamports_per_slot, nb_slots) {
        Ok(s) => s,
        Err(e) => return Err(e),
    };
    if !payment_ok {
        return Err(ErrorCode::PaymentInvalid);
    }
    ctx.bidder.lamports = ctx.bidder.lamports + settlement.refund;
    ctx.vault.lamports = ctx.vault.lamports - settlement.refund + settlement.payment;
    ctx.pixel = Pixel {
        pos_x: ctx.pixel.pos_x,
        pos_y: ctx.pixel.pos_y,
        col_r: new_col_r,
        col_g: new_col_g,
        col_b: new_col_b,
        lamport_per_slot: lamports_per_slot,
        last_slot: now + nb_slots,
        bidder: ctx.user,
    };
    Ok(ctx.pixel.changed())
}

} // verus!
