use vstd::prelude::*;
use crate::accounts::{CreatePixel, PixelChanged, UpdatePixel};
use crate::auction::{create_step, update_step};
use crate::error::ErrorCode;

verus! {

/// A first bid whose payment fits in the vault and reaches it succeeds
/// exactly when its rate and its number of slots are both positive; when it
/// fails, neither the record nor the vault changes.
pub proof fn create_succeeds_iff_positive_terms(
    ctx: CreatePixel,
    now: u64,
    pos_x: u8,
    pos_y: u8,
    col_r: u8,
    col_g: u8,
    col_b: u8,
    lamports_per_slot: u64,
    nb_slots: u64,
)
    requires
        ctx.vault.lamports + nb_slots * lamports_per_slot <= u64::MAX,
    ensures
        create_step(ctx, now, pos_x, pos_y, col_r, col_g, col_b, lamports_per_slot, nb_slots, true).1
            is Ok <==> (lamports_per_slot >= 1 && nb_slots >= 1),
        create_step(ctx, now, pos_x, pos_y, col_r, col_g, col_b, lamports_per_slot, nb_slots, true).1
            == Err::<PixelChanged, ErrorCode>(ErrorCode::InvalidLamportsPerSlot)
            <==> lamports_per_slot < 1,
        create_step(ctx, now, pos_x, pos_y, col_r, col_g, col_b, lamports_per_slot, nb_slots, true).1
            == Err::<PixelChanged, ErrorCode>(ErrorCode::InvalidNumberSlots)
            <==> (lamports_per_slot >= 1 && nb_slots < 1),
        create_step(ctx, now, pos_x, pos_y, col_r, col_g, col_b, lamports_per_slot, nb_slots, true).1
            is Err ==> create_step(
            ctx,
            now,
            pos_x,
            pos_y,
            col_r,
            col_g,
            col_b,
            lamports_per_slot,
            nb_slots,
            true,
        ).0 == ctx,
{
}

/// Every byte is a valid coordinate and channel value: a first bid is never
/// refused for its coordinates or its color.
pub proof fn create_accepts_every_position_and_color(
    ctx: CreatePixel,
    now: u64,
    pos_x: u8,
    pos_y: u8,
    col_r: u8,
    col_g: u8,
    col_b: u8,
    lamports_per_slot: u64,
    nb_slots: u64,
    payment_ok: bool,
)
    ensures
        ({
            let r = create_step(ctx, now, pos_x, pos_y, col_r, col_g, col_b, lamports_per_slot, nb_slots, payment_ok).1;
            r != Err::<PixelChanged, ErrorCode>(ErrorCode::InvalidXCoordinate)
                && r != Err::<PixelChanged, ErrorCode>(ErrorCode::InvalidYCoordinate)
                && r != Err::<PixelChanged, ErrorCode>(ErrorCode::InvalidRColor)
                && r != Err::<PixelChanged, ErrorCode>(ErrorCode::InvalidGColor)
                && r != Err::<PixelChanged, ErrorCode>(ErrorCode::InvalidBColor)
        }),
{
}

/// Every record that a successful bid writes has a positive rate.
pub proof fn written_records_have_positive_rate(
    create: CreatePixel,
    update: UpdatePixel,
    now: u64,
    pos_x: u8,
    pos_y: u8,
    col_r: u8,
    col_g: u8,
    col_b: u8,
    lamports_per_slot: u64,
    nb_slots: u64,
    payment_ok: bool,
)
    ensures
        create_step(create, now, pos_x, pos_y, col_r, col_g, col_b, lamports_per_slot, nb_slots, payment_ok).1
            is Ok ==> create_step(
            create,
            now,
            pos_x,
            pos_y,
            col_r,
            col_g,
            col_b,
            lamports_per_slot,
            nb_slots,
            payment_ok,
        ).0.pixel.wf(),
        update_step(update, now, col_r, col_g, col_b, lamports_per_slot, nb_slots, payment_ok).1 is Ok
            ==> update_step(update, now, col_r, col_g, col_b, lamports_per_slot, nb_slots, payment_ok).0.pixel.wf(),
{
}

/// A refused later bid leaves every account as it was, so repeating it
/// against the same state is refused again with the same error.
pub proof fn update_rejection_repeats(
    ctx: UpdatePixel,
    now: u64,
    col_r: u8,
    col_g: u8,
    col_b: u8,
    lamports_per_slot: u64,
    nb_slots: u64,
    payment_ok: bool,
)
    requires
        update_step(ctx, now, col_r, col_g, col_b, lamports_per_slot, nb_slots, payment_ok).1 is Err,
    ensures
        ({
            let first = update_step(ctx, now, col_r, col_g, col_b, lamports_per_slot, nb_slots, payment_ok);
            let second = update_step(first.0, now, col_r, col_g, col_b, lamports_per_slot, nb_slots, payment_ok);
            first.0 == ctx && second == first
        }),
{
}

/// Taking over a live cell refunds the previous renter exactly the value of
/// the slots left at the old rate, changes the vault by the new payment less
/// that refund, and makes the cell expire the given number of slots after now.
/// The new commitment always exceeds the refund.
pub proof fn live_takeover_refunds_exactly(
    ctx: UpdatePixel,
    now: u64,
    col_r: u8,
    col_g: u8,
    col_b: u8,
    lamports_per_slot: u64,
    nb_slots: u64,
    payment_ok: bool,
)
    requires
        now < ctx.pixel.last_slot,
        now + nb_slots <= u64::MAX,
        update_step(ctx, now, col_r, col_g, col_b, lamports_per_slot, nb_slots, payment_ok).1 is Ok,
    ensures
        ({
            let after = update_step(ctx, now, col_r, col_g, col_b, lamports_per_slot, nb_slots, payment_ok).0;
            let refund = (ctx.pixel.last_slot - now) * ctx.pixel.lamport_per_slot;
            &&& after.bidder.key == ctx.pixel.bidder
            &&& after.bidder.lamports == ctx.bidder.lamports + refund
            &&& after.vault.lamports == ctx.vault.lamports + nb_slots * lamports_per_slot - refund
            &&& nb_slots * lamports_per_slot > refund
            &&& after.pixel.last_slot == now + nb_slots
            &&& after.pixel.lamport_per_slot == lamports_per_slot
            &&& after.pixel.bidder == ctx.user
            &&& after.pixel.pos_x == ctx.pixel.pos_x
            &&& after.pixel.pos_y == ctx.pixel.pos_y
        }),
{
}

/// A cell whose renter's right has lapsed goes to any bid with a positive
/// rate and number of slots whose payment fits in the vault and reaches it,
/// and the previous renter gets nothing back.
pub proof fn expired_cell_is_seized_without_refund(
    ctx: UpdatePixel,
    now: u64,
    col_r: u8,
    col_g: u8,
    col_b: u8,
    lamports_per_slot: u64,
    nb_slots: u64,
)
    requires
        now >= ctx.pixel.last_slot,
        now + nb_slots <= u64::MAX,
        lamports_per_slot >= 1,
        nb_slots >= 1,
        ctx.vault.lamports + nb_slots * lamports_per_slot <= u64::MAX,
    ensures
        ({
            let step = update_step(ctx, now, col_r, col_g, col_b, lamports_per_slot, nb_slots, true);
            &&& step.1 is Ok
            &&& step.0.bidder == ctx.bidder
            &&& step.0.vault.lamports == ctx.vault.lamports + nb_slots * lamports_per_slot
            &&& step.0.pixel.last_slot == now + nb_slots
            &&& step.0.pixel.bidder == ctx.user
        }),
{
    assert(nb_slots * lamports_per_slot >= 1) by (nonlinear_arith)
        requires
            nb_slots >= 1,
            lamports_per_slot >= 1,
    ;
}

/// A bid on a live cell that does not raise the rate is refused for its
/// rate, whatever its number of slots.
pub proof fn live_cell_requires_higher_rate(
    ctx: UpdatePixel,
    now: u64,
    col_r: u8,
    col_g: u8,
    col_b: u8,
    lamports_per_slot: u64,
    nb_slots: u64,
    payment_ok: bool,
)
    requires
        now < ctx.pixel.last_slot,
        lamports_per_slot <= ctx.pixel.lamport_per_slot,
    ensures
        update_step(ctx, now, col_r, col_g, col_b, lamports_per_slot, nb_slots, payment_ok)
            == (ctx, Err::<PixelChanged, ErrorCode>(ErrorCode::InvalidLamportsPerSlot)),
{
}

/// A bid on a live cell that raises the rate but commits no more than the
/// value still owed to the renter is refused for its total value.
pub proof fn live_cell_requires_more_value(
    ctx: UpdatePixel,
    now: u64,
    col_r: u8,
    col_g: u8,
    col_b: u8,
    lamports_per_slot: u64,
    nb_slots: u64,
    payment_ok: bool,
)
    requires
        now < ctx.pixel.last_slot,
        lamports_per_slot > ctx.pixel.lamport_per_slot,
        nb_slots >= 1,
        nb_slots * lamports_per_slot <= (ctx.pixel.last_slot - now) * ctx.pixel.lamport_per_slot,
    ensures
        update_step(ctx, now, col_r, col_g, col_b, lamports_per_slot, nb_slots, payment_ok) == (
        ctx,
        Err::<PixelChanged, ErrorCode>(ErrorCode::InvalidNumberSlotsXLamportsPerSlot),
        ),
{
}

} // verus!
