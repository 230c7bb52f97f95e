use sendor::address::Address;
use sendor::errors::LaunchError;

#[test]
fn zero_address_is_zero() {
    assert!(Address::zero().is_zero());
    assert!(Address { bytes: [0u8; 32] }.is_zero());
    let mut last = [0u8; 32];
    last[31] = 1;
    assert!(!Address { bytes: last }.is_zero());
}

#[test]
fn addresses_compare_by_every_byte() {
    let mut a = [3u8; 32];
    let b = [3u8; 32];
    assert_eq!(Address { bytes: a }, Address { bytes: b });
    a[17] = 4;
    assert_ne!(Address { bytes: a }, Address { bytes: b });
}

#[test]
fn error_messages() {
    assert_eq!(LaunchError::NotInTradingWindow.message(), "Trading window closed");
    assert_eq!(LaunchError::ExceedsSellLimit.message(), "Sell exceeds 10 % limit");
    assert_eq!(LaunchError::MathOverflow.message(), "Math overflow");
    assert_eq!(LaunchError::InvalidFeeRecipient.message(), "Invalid fee recipient");
}
