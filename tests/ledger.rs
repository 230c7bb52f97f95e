use sendor::address::Address;
use sendor::errors::LaunchError;
use sendor::ledger::{check_and_record, holding_cap, ActionKind, UserRecord, NEVER_ACTED};

fn record(last_action_day: u64) -> UserRecord {
    UserRecord { user: Address { bytes: [9u8; 32] }, last_action_day }
}

#[test]
fn new_record_has_not_acted() {
    let r = UserRecord::new(Address { bytes: [4u8; 32] });
    assert_eq!(r.last_action_day, NEVER_ACTED);
    assert_eq!(r.user, Address { bytes: [4u8; 32] });
}

#[test]
fn second_action_on_the_same_day_is_rejected() {
    for &qty in &[0u64, 1, 50, u64::MAX] {
        let mut r = record(20_000);
        assert_eq!(
            check_and_record(&mut r, 20_000, ActionKind::Sell, 1_000, qty),
            Err(LaunchError::ActionAlreadyPerformed)
        );
        assert_eq!(r.last_action_day, 20_000);
        let mut t = record(20_000);
        assert_eq!(
            check_and_record(&mut t, 20_000, ActionKind::Transfer, 1_000, qty),
            Err(LaunchError::ActionAlreadyPerformed)
        );
    }
}

#[test]
fn action_is_admitted_again_the_next_day() {
    let mut r = record(NEVER_ACTED);
    assert_eq!(check_and_record(&mut r, 20_000, ActionKind::Sell, 1_000, 10), Ok(()));
    assert_eq!(r.last_action_day, 20_000);
    assert_eq!(
        check_and_record(&mut r, 20_000, ActionKind::Sell, 1_000, 10),
        Err(LaunchError::ActionAlreadyPerformed)
    );
    assert_eq!(check_and_record(&mut r, 20_001, ActionKind::Sell, 1_000, 10), Ok(()));
    assert_eq!(r.last_action_day, 20_001);
}

#[test]
fn sell_cap_is_ten_percent_rounded_down() {
    let mut over = record(1);
    assert_eq!(
        check_and_record(&mut over, 2, ActionKind::Sell, 1_000, 101),
        Err(LaunchError::ExceedsSellLimit)
    );
    assert_eq!(over.last_action_day, 1);
    let mut exact = record(1);
    assert_eq!(check_and_record(&mut exact, 2, ActionKind::Sell, 1_000, 100), Ok(()));
    let mut odd = record(1);
    assert_eq!(
        check_and_record(&mut odd, 2, ActionKind::Sell, 999, 100),
        Err(LaunchError::ExceedsSellLimit)
    );
    let mut odd_exact = record(1);
    assert_eq!(check_and_record(&mut odd_exact, 2, ActionKind::Sell, 999, 99), Ok(()));
}

#[test]
fn transfer_cap_is_twenty_percent_rounded_down() {
    let mut over = record(1);
    assert_eq!(
        check_and_record(&mut over, 2, ActionKind::Transfer, 1_000, 201),
        Err(LaunchError::ExceedsTransferLimit)
    );
    let mut exact = record(1);
    assert_eq!(check_and_record(&mut exact, 2, ActionKind::Transfer, 1_000, 200), Ok(()));
}

#[test]
fn caps_of_huge_balances_do_not_overflow() {
    assert_eq!(holding_cap(u64::MAX, ActionKind::Sell), u64::MAX / 10);
    assert_eq!(holding_cap(u64::MAX, ActionKind::Transfer), u64::MAX / 5);
    assert_eq!(holding_cap(9, ActionKind::Sell), 0);
    assert_eq!(holding_cap(0, ActionKind::Transfer), 0);
}

#[test]
fn action_kind_limits() {
    assert_eq!(ActionKind::Sell.cap_percent(), 10);
    assert_eq!(ActionKind::Transfer.cap_percent(), 20);
    assert_eq!(ActionKind::Sell.limit_error(), LaunchError::ExceedsSellLimit);
    assert_eq!(ActionKind::Transfer.limit_error(), LaunchError::ExceedsTransferLimit);
}
