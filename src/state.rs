use vstd::prelude::*;

use crate::address::Address;
use crate::curve::{supply_cap, BondingCurveState};
use crate::window::{window_open, window_open_at, windows_valid};

verus! {

/// Platform-wide settings, owned by the administrator.
#[derive(Debug, Clone, Copy)]
pub struct GlobalState {
    /// Administrator of the launchpad.
    pub admin: Address,
    /// Wallet that receives the fee for creating a launch.
    pub platform_fee_recipient: Address,
    /// Fee for creating a launch, in lamports.
    pub launch_fee_lamports: u64,
    /// Number of launches created so far; the next launch takes it as its id.
    pub launch_count: u64,
    /// Bump of the account that holds this state.
    pub bump: u8,
}

/// One launch: its accounts, its trading cycle and its token metadata.
#[derive(Debug, Clone)]
pub struct LaunchMetadata {
    pub token_mint: Address,
    pub vault: Address,
    pub launch_id: u64,
    /// Trading-cycle counter: the epoch day the windows were drawn for.
    pub current_day: u64,
    /// Start of the first trading window, in seconds into the day.
    pub window1_start: u64,
    /// Start of the second trading window, in seconds into the day.
    pub window2_start: u64,
    pub bump: u8,
    pub token_name: String,
    pub token_symbol: String,
    pub token_uri: String,
}

impl LaunchMetadata {
    /// The two windows never overlap and end within the day.
    pub open spec fn wf(&self) -> bool {
        windows_valid(self.window1_start, self.window2_start)
    }

    /// Whether one of the launch's trading windows is open at `now`.
    pub fn is_window_open(&self, now: u64) -> (r: bool)
        ensures
            r == window_open_at(self.window1_start, self.window2_start, now),
    {
        window_open(self.window1_start, self.window2_start, now)
    }
}

impl BondingCurveState {
    /// The supply stays within the cap for the curve's decimals.
    pub open spec fn wf(&self) -> bool {
        self.current_supply <= supply_cap(self.decimals)
    }
}

} // verus!
