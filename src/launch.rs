use vstd::prelude::*;

use crate::address::Address;
use crate::constants::{DAY_SECONDS, MAX_DECIMALS};
use crate::curve::{
    compute_cost, cost_result, payout_result, supply_cap, supply_cap_u128, BondingCurveState,
};
use crate::errors::LaunchError;
use crate::events::{PurchaseEvent, SellEvent, TransferEvent};
use crate::ledger::{check_and_record, ledger_result, ActionKind, UserRecord};
use crate::state::LaunchMetadata;
use crate::window::{generate, window1_of, window2_of, window_open, window_open_at};

verus! {

/// The epoch day that holds `now`.
pub open spec fn day_of(now: u64) -> u64 {
    (now / DAY_SECONDS) as u64
}

/// The seed the windows of a launch are drawn from at `slot`.
pub open spec fn seed_of(slot: u64, launch_id: u64) -> u64 {
    slot.wrapping_add(launch_id)
}

/// The launch's cycle day and window starts once the clock reads `now`: when
/// a new day has begun, the day moves to it and the windows are drawn anew
/// from the slot and the launch id; otherwise all three stay.
pub open spec fn rolled_schedule(l: LaunchMetadata, now: u64, slot: u64) -> (u64, u64, u64) {
    if day_of(now) > l.current_day {
        let seed = seed_of(slot, l.launch_id);
        (day_of(now), window1_of(seed), window2_of(seed))
    } else {
        (l.current_day, l.window1_start, l.window2_start)
    }
}

/// The launch with the given cycle day and window starts.
pub open spec fn with_schedule(l: LaunchMetadata, s: (u64, u64, u64)) -> LaunchMetadata {
    LaunchMetadata { current_day: s.0, window1_start: s.1, window2_start: s.2, ..l }
}

/// The curve with `delta` more units sold.
pub open spec fn supply_added(c: BondingCurveState, delta: u64) -> BondingCurveState {
    BondingCurveState { current_supply: (c.current_supply + delta) as u64, ..c }
}

/// The curve with `delta` units bought back.
pub open spec fn supply_removed(c: BondingCurveState, delta: u64) -> BondingCurveState {
    BondingCurveState { current_supply: (c.current_supply - delta) as u64, ..c }
}

/// Windows are drawn once per day: after the launch has been rolled to the
/// day that holds `now`, rolling it again at any time up to the end of that
/// day, whatever the slot, changes nothing.
pub proof fn lemma_roll_is_idempotent_within_a_day(
    l: LaunchMetadata,
    now: u64,
    slot: u64,
    later: u64,
    later_slot: u64,
)
    requires
        day_of(later) <= day_of(now),
    ensures
        ({
            let rolled = with_schedule(l, rolled_schedule(l, now, slot));
            with_schedule(rolled, rolled_schedule(rolled, later, later_slot)) == rolled
        }),
{
}

/// The cycle day and window starts the launch should have at `now`.
pub fn next_schedule(launch: &LaunchMetadata, now: u64, slot: u64) -> (r: Result<
    (u64, u64, u64),
    LaunchError,
>)
    ensures
        r == Ok::<(u64, u64, u64), LaunchError>(rolled_schedule(*launch, now, slot)),
{
    let today = now / DAY_SECONDS;
    if today > launch.current_day {
        let seed = slot.wrapping_add(launch.launch_id);
        match generate(seed) {
            Ok((w1, w2)) => Ok((today, w1, w2)),
            Err(e) => Err(e),
        }
    } else {
        Ok((launch.current_day, launch.window1_start, launch.window2_start))
    }
}

/// Stores a cycle day and window starts in the launch.
fn set_schedule(launch: &mut LaunchMetadata, s: (u64, u64, u64))
    ensures
        *final(launch) == with_schedule(*old(launch), s),
{
    launch.current_day = s.0;
    launch.window1_start = s.1;
    launch.window2_start = s.2;
}

/// Moves the launch to the day that holds `now`, drawing fresh windows, if
/// that day is later than its current one.
pub fn maybe_advance_day(launch: &mut LaunchMetadata, now: u64, slot: u64) -> (r: Result<
    (),
    LaunchError,
>)
    ensures
        r is Ok,
        *final(launch) == with_schedule(*old(launch), rolled_schedule(*old(launch), now, slot)),
        old(launch).wf() ==> final(launch).wf(),
{
    match next_schedule(launch, now, slot) {
        Ok(s) => {
            set_schedule(launch, s);
            Ok(())
        },
        Err(e) => Err(e),
    }
}

/// The verdict on a purchase of `amount` units: its cost, or why it is refused.
/// The headroom is measured against the cap for the curve's decimals.
pub open spec fn buy_outcome(
    c: BondingCurveState,
    buyer_lamports: u64,
    amount: u64,
    max_cost: u64,
) -> Result<u64, LaunchError> {
    if c.decimals > MAX_DECIMALS {
        Err(LaunchError::InvalidDecimals)
    } else if c.current_supply > supply_cap(c.decimals) || amount > supply_cap(c.decimals)
        - c.current_supply {
        Err(LaunchError::InsufficientSupply)
    } else {
        match cost_result(c, amount) {
            Err(e) => Err(e),
            Ok(cost) => if cost > max_cost {
                Err(LaunchError::SlippageExceeded)
            } else if cost > buyer_lamports {
                Err(LaunchError::InsufficientFunds)
            } else if c.current_supply + amount > u64::MAX {
                Err(LaunchError::MathOverflow)
            } else {
                Ok(cost)
            },
        }
    }
}

/// Buys `amount` units for `buyer`, who holds `buyer_lamports`, paying at
/// most `max_cost`. Rolls the launch's day first. The supply after the
/// purchase may not pass `INITIAL_SUPPLY_TOKENS * 10^decimals`. On success
/// the supply grows by `amount` and the returned event carries the cost, which the
/// caller moves from the buyer to the launch while moving `amount` units from
/// the vault to the buyer. On failure nothing changes.
pub fn buy(
    launch: &mut LaunchMetadata,
    curve: &mut BondingCurveState,
    buyer: Address,
    buyer_lamports: u64,
    now: u64,
    slot: u64,
    amount: u64,
    max_cost: u64,
) -> (r: Result<PurchaseEvent, LaunchError>)
    ensures
        r is Ok <==> buy_outcome(*old(curve), buyer_lamports, amount, max_cost) is Ok,
        r is Err ==> {
            &&& r->Err_0 == buy_outcome(*old(curve), buyer_lamports, amount, max_cost)->Err_0
            &&& *final(launch) == *old(launch)
            &&& *final(curve) == *old(curve)
        },
        r is Ok ==> {
            &&& r->Ok_0 == (PurchaseEvent {
                buyer,
                qty: amount,
                cost: buy_outcome(*old(curve), buyer_lamports, amount, max_cost)->Ok_0,
            })
            &&& *final(launch) == with_schedule(*old(launch), rolled_schedule(*old(launch), now, slot))
            &&& *final(curve) == supply_added(*old(curve), amount)
            &&& final(curve).wf()
        },
        old(launch).wf() ==> final(launch).wf(),
{
    let schedule = match next_schedule(launch, now, slot) {
        Ok(s) => s,
        Err(e) => return Err(e),
    };
    if curve.decimals > MAX_DECIMALS {
        return Err(LaunchError::InvalidDecimals);
    }
    let cap = supply_cap_u128(curve.decimals);
    let supply = curve.current_supply as u128;
    if supply > cap || amount as u128 > cap - supply {
        return Err(LaunchError::InsufficientSupply);
    }
    let cost = match compute_cost(curve, amount) {
        Ok(v) => v,
        Err(e) => return Err(e),
    };
    if cost > max_cost {
        return Err(LaunchError::SlippageExceeded);
    }
    if cost > buyer_lamports {
        return Err(LaunchError::InsufficientFunds);
    }
    let new_supply = match curve.current_supply.checked_add(amount) {
        Some(v) => v,
        None => return Err(LaunchError::MathOverflow),
    };
    set_schedule(launch, schedule);
    curve.current_supply = new_supply;
    Ok(PurchaseEvent { buyer, qty: amount, cost })
}

/// The record after an action on `today` by `actor`: the day is stored, and
/// the actor is written into a record that names nobody yet.
pub open spec fn record_acted(rec: UserRecord, today: u64, actor: Address) -> UserRecord {
    UserRecord {
        user: if rec.user.is_zero_spec() {
            actor
        } else {
            rec.user
        },
        last_action_day: today,
    }
}

/// The verdict on a sale of `amount` units: its payout, or why it is refused.
/// The window is checked first, then the payout and the launch's liquidity,
/// and last the seller's daily limit.
pub open spec fn sell_outcome(
    l: LaunchMetadata,
    c: BondingCurveState,
    rec: UserRecord,
    seller_balance: u64,
    launch_lamports: u64,
    now: u64,
    slot: u64,
    amount: u64,
    min_payout: u64,
) -> Result<u64, LaunchError> {
    let s = rolled_schedule(l, now, slot);
    if !window_open_at(s.1, s.2, now) {
        Err(LaunchError::NotInTradingWindow)
    } else {
        match payout_result(c, amount) {
            Err(e) => Err(e),
            Ok(payout) => if payout < min_payout {
                Err(LaunchError::PayoutTooLow)
            } else if payout > launch_lamports {
                Err(LaunchError::InsufficientLiquidity)
            } else {
                match ledger_result(
                    rec.last_action_day,
                    day_of(now),
                    ActionKind::Sell,
                    seller_balance,
                    amount,
                ) {
                    Err(e) => Err(e),
                    Ok(_) => Ok(payout),
                }
            },
        }
    }
}

/// Sells `amount` units of `seller`, who holds `seller_balance` of them, for
/// at least `min_payout`, out of the launch's `launch_lamports`. Rolls the
/// launch's day first. On success the supply shrinks by `amount`, the
/// seller's record holds today, and the returned event carries the payout,
/// which the caller moves from the launch to the seller while moving `amount`
/// units from the seller to the vault. On failure nothing changes.
pub fn sell(
    launch: &mut LaunchMetadata,
    curve: &mut BondingCurveState,
    record: &mut UserRecord,
    seller: Address,
    seller_balance: u64,
    launch_lamports: u64,
    now: u64,
    slot: u64,
    amount: u64,
    min_payout: u64,
) -> (r: Result<SellEvent, LaunchError>)
    ensures
        r is Ok <==> sell_outcome(
            *old(launch),
            *old(curve),
            *old(record),
            seller_balance,
            launch_lamports,
            now,
            slot,
            amount,
            min_payout,
        ) is Ok,
        r is Err ==> {
            &&& r->Err_0 == sell_outcome(
                *old(launch),
                *old(curve),
                *old(record),
                seller_balance,
                launch_lamports,
                now,
                slot,
                amount,
                min_payout,
            )->Err_0
            &&& *final(launch) == *old(launch)
            &&& *final(curve) == *old(curve)
            &&& *final(record) == *old(record)
        },
        r is Ok ==> {
            &&& r->Ok_0 == (SellEvent {
                seller,
                qty: amount,
                payout: sell_outcome(
                    *old(launch),
                    *old(curve),
                    *old(record),
                    seller_balance,
                    launch_lamports,
                    now,
                    slot,
                    amount,
                    min_payout,
                )->Ok_0,
            })
            &&& *final(launch) == with_schedule(*old(launch), rolled_schedule(*old(launch), now, slot))
            &&& *final(curve) == supply_removed(*old(curve), amount)
            &&& *final(record) == record_acted(*old(record), day_of(now), seller)
        },
        old(launch).wf() ==> final(launch).wf(),
        old(curve).wf() ==> final(curve).wf(),
{
    let schedule = match next_schedule(launch, now, slot) {
        Ok(s) => s,
        Err(e) => return Err(e),
    };
    if !window_open(schedule.1, schedule.2, now) {
        return Err(LaunchError::NotInTradingWindow);
    }
    let payout = match curve.compute_payout(amount) {
        Ok(v) => v,
        Err(e) => return Err(e),
    };
    if payout < min_payout {
        return Err(LaunchError::PayoutTooLow);
    }
    if payout > launch_lamports {
        return Err(LaunchError::InsufficientLiquidity);
    }
    let today = now / DAY_SECONDS;
    match check_and_record(record, today, ActionKind::Sell, seller_balance, amount) {
        Ok(()) => {},
        Err(e) => return Err(e),
    }
    if record.user.is_zero() {
        record.user = seller;
    }
    set_schedule(launch, schedule);
    curve.current_supply = curve.current_supply - amount;
    Ok(SellEvent { seller, qty: amount, payout })
}

/// One sale per day, within a tenth of the holding: on a day the launch is
/// already rolled to, with the window open and the payout acceptable, a
/// seller who already acted today is turned away whatever the quantity; one
/// who has not is admitted exactly when the quantity is at most
/// `floor(balance * 10 / 100)`, and refused with `ExceedsSellLimit` above it.
pub proof fn lemma_sell_rate_limit(
    l: LaunchMetadata,
    c: BondingCurveState,
    rec: UserRecord,
    seller_balance: u64,
    launch_lamports: u64,
    now: u64,
    slot: u64,
    amount: u64,
    min_payout: u64,
)
    requires
        day_of(now) <= l.current_day,
        window_open_at(l.window1_start, l.window2_start, now),
        payout_result(c, amount) is Ok,
        min_payout <= payout_result(c, amount)->Ok_0 <= launch_lamports,
    ensures
        ({
            let r = sell_outcome(
                l,
                c,
                rec,
                seller_balance,
                launch_lamports,
                now,
                slot,
                amount,
                min_payout,
            );
            &&& rec.last_action_day == day_of(now) ==> r == Err::<u64, LaunchError>(
                LaunchError::ActionAlreadyPerformed,
            )
            &&& rec.last_action_day != day_of(now) && amount > seller_balance * 10 / 100 ==> r
                == Err::<u64, LaunchError>(LaunchError::ExceedsSellLimit)
            &&& rec.last_action_day != day_of(now) && amount <= seller_balance * 10 / 100 ==> r
                == Ok::<u64, LaunchError>(payout_result(c, amount)->Ok_0)
        }),
{
}

/// One transfer per day, within a fifth of the holding: on a day the launch
/// is already rolled to, with the window open, a sender who already acted
/// today is turned away whatever the quantity; one who has not is admitted
/// exactly when the quantity is at most `floor(balance * 20 / 100)`, and
/// refused with `ExceedsTransferLimit` above it.
pub proof fn lemma_transfer_rate_limit(
    l: LaunchMetadata,
    rec: UserRecord,
    from_balance: u64,
    now: u64,
    slot: u64,
    amount: u64,
)
    requires
        day_of(now) <= l.current_day,
        window_open_at(l.window1_start, l.window2_start, now),
    ensures
        ({
            let r = transfer_outcome(l, rec, from_balance, now, slot, amount);
            &&& rec.last_action_day == day_of(now) ==> r == Err::<(), LaunchError>(
                LaunchError::ActionAlreadyPerformed,
            )
            &&& rec.last_action_day != day_of(now) && amount > from_balance * 20 / 100 ==> r
                == Err::<(), LaunchError>(LaunchError::ExceedsTransferLimit)
            &&& rec.last_action_day != day_of(now) && amount <= from_balance * 20 / 100 ==> r
                == Ok::<(), LaunchError>(())
        }),
{
}

/// The verdict on a transfer of `amount` units: admitted, or why it is refused.
pub open spec fn transfer_outcome(
    l: LaunchMetadata,
    rec: UserRecord,
    from_balance: u64,
    now: u64,
    slot: u64,
    amount: u64,
) -> Result<(), LaunchError> {
    let s = rolled_schedule(l, now, slot);
    if !window_open_at(s.1, s.2, now) {
        Err(LaunchError::NotInTradingWindow)
    } else {
        ledger_result(rec.last_action_day, day_of(now), ActionKind::Transfer, from_balance, amount)
    }
}

/// Admits a transfer of `amount` units from `from`, who holds `from_balance`
/// of them, to `to`. Rolls the launch's day first. On success the sender's
/// record holds today and the caller moves the units; on failure nothing
/// changes. The curve is not involved.
pub fn transfer(
    launch: &mut LaunchMetadata,
    record: &mut UserRecord,
    from: Address,
    to: Address,
    from_balance: u64,
    now: u64,
    slot: u64,
    amount: u64,
) -> (r: Result<TransferEvent, LaunchError>)
    ensures
        r is Ok <==> transfer_outcome(*old(launch), *old(record), from_balance, now, slot, amount) is Ok,
        r is Err ==> {
            &&& r->Err_0 == transfer_outcome(
                *old(launch),
                *old(record),
                from_balance,
                now,
                slot,
                amount,
            )->Err_0
            &&& *final(launch) == *old(launch)
            &&& *final(record) == *old(record)
        },
        r is Ok ==> {
            &&& r->Ok_0 == (TransferEvent { from, to, qty: amount })
            &&& *final(launch) == with_schedule(*old(launch), rolled_schedule(*old(launch), now, slot))
            &&& *final(record) == record_acted(*old(record), day_of(now), from)
        },
        old(launch).wf() ==> final(launch).wf(),
{
    let schedule = match next_schedule(launch, now, slot) {
        Ok(s) => s,
        Err(e) => return Err(e),
    };
    if !window_open(schedule.1, schedule.2, now) {
        return Err(LaunchError::NotInTradingWindow);
    }
    let today = now / DAY_SECONDS;
    match check_and_record(record, today, ActionKind::Transfer, from_balance, amount) {
        Ok(()) => {},
        Err(e) => return Err(e),
    }
    if record.user.is_zero() {
        record.user = from;
    }
    set_schedule(launch, schedule);
    Ok(TransferEvent { from, to, qty: amount })
}

} // verus!
