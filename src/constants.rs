use vstd::prelude::*;

verus! {

/// Decimal places of every launched token.
pub const TOKEN_DECIMALS: u8 = 9;

/// Whole tokens minted for each launch.
pub const INITIAL_SUPPLY_TOKENS: u64 = 1_000_000_000;

/// Base units minted for each launch: `INITIAL_SUPPLY_TOKENS` whole tokens at
/// `TOKEN_DECIMALS` decimals. A curve's own supply cap is
/// `INITIAL_SUPPLY_TOKENS * 10^decimals`, which is this value for launches
/// created at `TOKEN_DECIMALS`.
pub const INITIAL_SUPPLY_BASE_UNITS: u64 = 1_000_000_000_000_000_000;

/// Largest decimal exponent the curve arithmetic accepts.
pub const MAX_DECIMALS: u8 = 18;

/// Share of holdings, in percent, that an account may sell per day.
pub const SELL_LIMIT_PERCENT: u64 = 10;

/// Share of holdings, in percent, that an account may transfer per day.
pub const TRANSFER_LIMIT_PERCENT: u64 = 20;

/// Length of one trading cycle, in seconds.
pub const DAY_SECONDS: u64 = 86_400;

/// Length of one trading window, in seconds.
pub const WINDOW_DURATION: u64 = 900;

/// Least distance between the starts of the two windows of a day (12 h).
pub const MIN_GAP: u64 = 43_200;

/// Distance between the two window starts stays below this (18 h); the first
/// window starts before `DAY_SECONDS - MAX_GAP - WINDOW_DURATION`.
pub const MAX_GAP: u64 = 64_800;

/// Least base price a launch may be created with.
pub const MIN_BASE_PRICE_LAMPORTS: u64 = 1;

/// Highest price the curve may reach at full supply.
pub const MAX_FINAL_PRICE_LAMPORTS: u64 = 100_000_000_000;

/// Longest token name, in bytes.
pub const MAX_NAME_LEN: usize = 32;

/// Longest token symbol, in bytes.
pub const MAX_SYMBOL_LEN: usize = 10;

/// Longest token metadata URI, in bytes.
pub const MAX_URI_LEN: usize = 200;

} // verus!
