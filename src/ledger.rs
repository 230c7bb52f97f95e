use vstd::prelude::*;

use crate::address::Address;
use crate::constants::{SELL_LIMIT_PERCENT, TRANSFER_LIMIT_PERCENT};
use crate::errors::LaunchError;

verus! {

/// `last_action_day` of an account that has never acted.
pub const NEVER_ACTED: u64 = 0xffff_ffff_ffff_ffff;

/// The per-launch record of one account: the last day on which it sold or
/// transferred.
#[derive(Debug, Clone, Copy)]
pub struct UserRecord {
    pub user: Address,
    pub last_action_day: u64,
}

impl UserRecord {
    /// A record for `user`, who has not acted yet.
    pub fn new(user: Address) -> (r: UserRecord)
        ensures
            r.user == user,
            r.last_action_day == NEVER_ACTED,
    {
        UserRecord { user, last_action_day: NEVER_ACTED }
    }
}

/// The rate-limited actions.
#[derive(Debug, Clone, Copy, PartialEq, Eq, Structural)]
pub enum ActionKind {
    Sell,
    Transfer,
}

/// Share of holdings, in percent, that one action of `kind` may move.
pub open spec fn cap_percent_of(kind: ActionKind) -> u64 {
    match kind {
        ActionKind::Sell => SELL_LIMIT_PERCENT,
        ActionKind::Transfer => TRANSFER_LIMIT_PERCENT,
    }
}

/// The error for an action of `kind` above its cap.
pub open spec fn limit_error_of(kind: ActionKind) -> LaunchError {
    match kind {
        ActionKind::Sell => LaunchError::ExceedsSellLimit,
        ActionKind::Transfer => LaunchError::ExceedsTransferLimit,
    }
}

/// Most units one action of `kind` may move out of a holding of `balance`:
/// `floor(balance * percent / 100)`.
pub open spec fn action_cap(balance: u64, kind: ActionKind) -> int {
    balance * cap_percent_of(kind) / 100
}

/// The ledger's verdict on an action of `kind` moving `qty` units out of a
/// holding of `balance`, by an account that last acted on `last_action_day`.
pub open spec fn ledger_result(
    last_action_day: u64,
    today: u64,
    kind: ActionKind,
    balance: u64,
    qty: u64,
) -> Result<(), LaunchError> {
    if last_action_day == today {
        Err(LaunchError::ActionAlreadyPerformed)
    } else if qty > action_cap(balance, kind) {
        Err(limit_error_of(kind))
    } else {
        Ok(())
    }
}

impl ActionKind {
    /// Share of holdings, in percent, that one action of this kind may move.
    pub fn cap_percent(&self) -> (r: u64)
        ensures
            r == cap_percent_of(*self),
    {
        match self {
            ActionKind::Sell => SELL_LIMIT_PERCENT,
            ActionKind::Transfer => TRANSFER_LIMIT_PERCENT,
        }
    }

    /// The error for an action of this kind above its cap.
    pub fn limit_error(&self) -> (r: LaunchError)
        ensures
            r == limit_error_of(*self),
    {
        match self {
            ActionKind::Sell => LaunchError::ExceedsSellLimit,
            ActionKind::Transfer => LaunchError::ExceedsTransferLimit,
        }
    }
}

/// Most units one action of `kind` may move out of a holding of `balance`.
pub fn holding_cap(balance: u64, kind: ActionKind) -> (r: u64)
    ensures
        r == action_cap(balance, kind),
        r <= balance,
{
    let percent = kind.cap_percent();
    proof {
        assert(0 <= balance * percent <= balance * 100) by (nonlinear_arith)
            requires
                0 <= percent <= 100,
                0 <= balance,
        ;
    }
    let wide = balance as u128 * percent as u128 / 100;
    wide as u64
}

/// Admits at most one sell or transfer per account and day, each within its
/// share of the account's holding, and records the day on success. On
/// failure the record is left as it was.
pub fn check_and_record(
    record: &mut UserRecord,
    today: u64,
    kind: ActionKind,
    holding_balance: u64,
    requested_qty: u64,
) -> (r: Result<(), LaunchError>)
    ensures
        r == ledger_result(old(record).last_action_day, today, kind, holding_balance, requested_qty),
        r is Ok ==> *final(record) == (UserRecord { last_action_day: today, ..*old(record) }),
        r is Err ==> *final(record) == *old(record),
{
    if record.last_action_day == today {
        return Err(LaunchError::ActionAlreadyPerformed);
    }
    let cap = holding_cap(holding_balance, kind);
    if requested_qty > cap {
        return Err(kind.limit_error());
    }
    record.last_action_day = today;
    Ok(())
}

/// One rate-limited action per day: an account that already acted today is
/// turned away whatever the quantity, and is admitted again on any later day
/// for a quantity within its cap.
pub proof fn lemma_one_action_per_day(
    today: u64,
    later_day: u64,
    kind: ActionKind,
    balance: u64,
    qty: u64,
)
    requires
        today < later_day,
    ensures
        ledger_result(today, today, kind, balance, qty) == Err::<(), LaunchError>(
            LaunchError::ActionAlreadyPerformed,
        ),
        qty <= action_cap(balance, kind) ==> ledger_result(today, later_day, kind, balance, qty)
            == Ok::<(), LaunchError>(()),
{
}

/// The sell cap is exactly `floor(balance / 10)`: one unit more is refused
/// with `ExceedsSellLimit`, the cap itself is admitted (for an account that
/// has not acted today).
pub proof fn lemma_sell_cap_is_exact(last_action_day: u64, today: u64, balance: u64, qty: u64)
    requires
        last_action_day != today,
    ensures
        action_cap(balance, ActionKind::Sell) == balance / 10,
        qty > balance / 10 ==> ledger_result(last_action_day, today, ActionKind::Sell, balance, qty)
            == Err::<(), LaunchError>(LaunchError::ExceedsSellLimit),
        qty == balance / 10 ==> ledger_result(
            last_action_day,
            today,
            ActionKind::Sell,
            balance,
            qty,
        ) == Ok::<(), LaunchError>(()),
{
    assert(balance * 10 / 100 == balance / 10) by (nonlinear_arith)
        requires
            0 <= balance,
    ;
}

} // verus!
