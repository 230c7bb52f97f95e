use sendor::address::Address;
use sendor::constants::{DAY_SECONDS, WINDOW_DURATION};
use sendor::errors::LaunchError;
use sendor::state::LaunchMetadata;
use sendor::window::{generate, window_open};

fn launch_with_windows(window1_start: u64, window2_start: u64) -> LaunchMetadata {
    LaunchMetadata {
        token_mint: Address { bytes: [1u8; 32] },
        vault: Address { bytes: [2u8; 32] },
        launch_id: 0,
        current_day: 0,
        window1_start,
        window2_start,
        bump: 255,
        token_name: String::from("Token"),
        token_symbol: String::from("TKN"),
        token_uri: String::from("https://example.com/t.json"),
    }
}

#[test]
fn generate_known_seeds() {
    assert_eq!(generate(0), Ok((0, 43200)));
    assert_eq!(generate(255), Ok((255, 43455)));
    assert_eq!(generate(256), Ok((256, 43457)));
    assert_eq!(generate(20700), Ok((0, 43280)));
    assert_eq!(generate(123456789), Ok((1989, 52242)));
    assert_eq!(generate(u64::MAX), Ok((10815, 57150)));
}

#[test]
fn generated_windows_end_within_the_day() {
    let mut seed: u64 = 0;
    for i in 0..100_000u64 {
        let (w1, w2) = generate(seed).unwrap();
        assert!(w2 + WINDOW_DURATION <= DAY_SECONDS);
        assert!(w1 + WINDOW_DURATION <= w2);
        seed = seed.wrapping_mul(6364136223846793005).wrapping_add(1442695040888963407 ^ i);
    }
    for seed in (u64::MAX - 1000)..=u64::MAX {
        let (_, w2) = generate(seed).unwrap();
        assert!(w2 + WINDOW_DURATION <= DAY_SECONDS);
    }
}

#[test]
fn window_is_half_open() {
    let launch = launch_with_windows(1000, 50000);
    assert!(launch.is_window_open(1000));
    assert!(launch.is_window_open(1899));
    assert!(!launch.is_window_open(1900));
    assert!(!launch.is_window_open(999));
    assert!(launch.is_window_open(50000));
    assert!(!launch.is_window_open(50900));
}

#[test]
fn window_repeats_every_day() {
    let launch = launch_with_windows(1000, 50000);
    assert!(launch.is_window_open(3 * DAY_SECONDS + 1000));
    assert!(launch.is_window_open(3 * DAY_SECONDS + 50899));
    assert!(!launch.is_window_open(3 * DAY_SECONDS + 1900));
}

#[test]
fn adjacent_windows_cover_each_other() {
    assert!(window_open(0, 900, 900));
    assert!(!window_open(0, 901, 900));
}

#[test]
fn window_at_day_end() {
    assert!(window_open(0, DAY_SECONDS - WINDOW_DURATION, DAY_SECONDS - 1));
    assert!(window_open(0, DAY_SECONDS - WINDOW_DURATION, DAY_SECONDS));
}

#[test]
fn window_error_message() {
    assert_eq!(LaunchError::InvalidWindowTimes.message(), "Invalid window parameters");
}
