use vstd::prelude::*;

use crate::address::Address;
use crate::constants::{
    DAY_SECONDS, INITIAL_SUPPLY_TOKENS, MAX_DECIMALS, MAX_FINAL_PRICE_LAMPORTS, MAX_NAME_LEN,
    MAX_SYMBOL_LEN, MAX_URI_LEN, MIN_BASE_PRICE_LAMPORTS, TOKEN_DECIMALS, WINDOW_DURATION,
};
use crate::curve::BondingCurveState;
use crate::errors::LaunchError;
use crate::events::{GlobalUpdated, Initialization, LaunchCreated};
use crate::launch::seed_of;
use crate::state::{GlobalState, LaunchMetadata};
use crate::window::{generate, window1_of, window2_of, windows_valid};

verus! {

/// Whether two addresses are the same.
pub open spec fn same_address(a: Address, b: Address) -> bool {
    a.bytes@ == b.bytes@
}

/// Length of a string in bytes, as UTF-8 (what `str::len` reports).
pub open spec fn byte_len(s: String) -> usize {
    vstd::utf8::encode_utf8(s@).len() as usize
}

/// Sets up the platform: `admin` administers it, and each launch costs
/// `launch_fee_lamports`, paid to `platform_fee_recipient`. No launch exists
/// yet.
pub fn initialize(
    global: &mut GlobalState,
    admin: Address,
    platform_fee_recipient: Address,
    launch_fee_lamports: u64,
    bump: u8,
) -> (r: Initialization)
    ensures
        *final(global) == (GlobalState {
            admin,
            platform_fee_recipient,
            launch_fee_lamports,
            launch_count: 0,
            bump,
        }),
        r == (Initialization { admin, platform_fee_recipient, launch_fee_lamports }),
{
    global.admin = admin;
    global.platform_fee_recipient = platform_fee_recipient;
    global.launch_fee_lamports = launch_fee_lamports;
    global.launch_count = 0;
    global.bump = bump;
    Initialization { admin, platform_fee_recipient, launch_fee_lamports }
}

/// The verdict of the administrator's request to start a new trading cycle.
pub open spec fn update_global_outcome(g: GlobalState, l: LaunchMetadata, signer: Address) -> Result<
    (),
    LaunchError,
> {
    if !same_address(signer, g.admin) {
        Err(LaunchError::Unauthorized)
    } else if l.current_day == u64::MAX {
        Err(LaunchError::MathOverflow)
    } else {
        Ok(())
    }
}

/// Starts a new trading cycle on the administrator's request, whatever the
/// clock says: the cycle counter moves up by one and the windows are drawn
/// anew from the slot and the launch id. On failure nothing changes.
pub fn update_global(
    global: &GlobalState,
    launch: &mut LaunchMetadata,
    signer: Address,
    slot: u64,
) -> (r: Result<GlobalUpdated, LaunchError>)
    ensures
        r is Ok <==> update_global_outcome(*global, *old(launch), signer) is Ok,
        r is Err ==> r->Err_0 == update_global_outcome(*global, *old(launch), signer)->Err_0
            && *final(launch) == *old(launch),
        r is Ok ==> {
            let seed = seed_of(slot, old(launch).launch_id);
            &&& *final(launch) == (LaunchMetadata {
                current_day: (old(launch).current_day + 1) as u64,
                window1_start: window1_of(seed),
                window2_start: window2_of(seed),
                ..*old(launch)
            })
            &&& r->Ok_0 == (GlobalUpdated {
                launch_id: old(launch).launch_id,
                day: final(launch).current_day,
                w1: window1_of(seed),
                w2: window2_of(seed),
            })
            &&& final(launch).wf()
        },
{
    if signer != global.admin {
        return Err(LaunchError::Unauthorized);
    }
    let day = match launch.current_day.checked_add(1) {
        Some(d) => d,
        None => return Err(LaunchError::MathOverflow),
    };
    let seed = slot.wrapping_add(launch.launch_id);
    let (w1, w2) = match generate(seed) {
        Ok(w) => w,
        Err(e) => return Err(e),
    };
    launch.current_day = day;
    launch.window1_start = w1;
    launch.window2_start = w2;
    Ok(GlobalUpdated { launch_id: launch.launch_id, day, w1, w2 })
}

/// The verdict of the administrator's request to set the windows by hand.
pub open spec fn set_sell_window_outcome(
    g: GlobalState,
    l: LaunchMetadata,
    signer: Address,
    window1_start: u64,
    window2_start: u64,
) -> Result<(), LaunchError> {
    if !same_address(signer, g.admin) {
        Err(LaunchError::Unauthorized)
    } else if !windows_valid(window1_start, window2_start) {
        Err(LaunchError::InvalidWindowTimes)
    } else if l.current_day == u64::MAX {
        Err(LaunchError::MathOverflow)
    } else {
        Ok(())
    }
}

/// Starts a new trading cycle with windows chosen by the administrator. The
/// windows must follow one another without overlap and end within the day.
/// On failure nothing changes.
pub fn set_sell_window(
    global: &GlobalState,
    launch: &mut LaunchMetadata,
    signer: Address,
    window1_start: u64,
    window2_start: u64,
) -> (r: Result<(), LaunchError>)
    ensures
        r == set_sell_window_outcome(*global, *old(launch), signer, window1_start, window2_start),
        r is Err ==> *final(launch) == *old(launch),
        r is Ok ==> *final(launch) == (LaunchMetadata {
            current_day: (old(launch).current_day + 1) as u64,
            window1_start,
            window2_start,
            ..*old(launch)
        }),
        r is Ok ==> final(launch).wf(),
{
    if signer != global.admin {
        return Err(LaunchError::Unauthorized);
    }
    if window1_start > u64::MAX - WINDOW_DURATION || window2_start
        < window1_start + WINDOW_DURATION || window2_start
        > DAY_SECONDS - WINDOW_DURATION {
        return Err(LaunchError::InvalidWindowTimes);
    }
    let day = match launch.current_day.checked_add(1) {
        Some(d) => d,
        None => return Err(LaunchError::MathOverflow),
    };
    launch.current_day = day;
    launch.window1_start = window1_start;
    launch.window2_start = window2_start;
    Ok(())
}

/// Whether a token text is non-empty and at most `max` bytes long.
pub open spec fn text_fits(s: String, max: usize) -> bool {
    0 < byte_len(s) <= max
}

/// Whether a token text is non-empty and at most `max` bytes long.
fn text_fits_exec(s: &String, max: usize) -> (r: bool)
    ensures
        r == text_fits(*s, max),
{
    let n = s.as_str().len();
    0 < n && n <= max
}

/// Price of one whole token once the full supply is sold:
/// `base_price + slope * INITIAL_SUPPLY_TOKENS`.
pub open spec fn final_price(base_price: u64, slope: u64) -> int {
    base_price + slope * INITIAL_SUPPLY_TOKENS
}

/// The verdict on a request to create a launch.
pub open spec fn create_launch_outcome(
    g: GlobalState,
    fee_recipient: Address,
    base_price: u64,
    slope: u64,
    token_name: String,
    token_symbol: String,
    token_uri: String,
) -> Result<(), LaunchError> {
    if TOKEN_DECIMALS > MAX_DECIMALS {
        Err(LaunchError::InvalidDecimals)
    } else if base_price < MIN_BASE_PRICE_LAMPORTS || slope == 0 {
        Err(LaunchError::InvalidParams)
    } else if !text_fits(token_name, MAX_NAME_LEN) || !text_fits(token_symbol, MAX_SYMBOL_LEN)
        || !text_fits(token_uri, MAX_URI_LEN) {
        Err(LaunchError::InvalidParams)
    } else if final_price(base_price, slope) > u64::MAX {
        Err(LaunchError::MathOverflow)
    } else if final_price(base_price, slope) > MAX_FINAL_PRICE_LAMPORTS {
        Err(LaunchError::InvalidParams)
    } else if g.launch_fee_lamports > 0 && !same_address(fee_recipient, g.platform_fee_recipient) {
        Err(LaunchError::InvalidFeeRecipient)
    } else if g.launch_count == u64::MAX {
        Err(LaunchError::MathOverflow)
    } else {
        Ok(())
    }
}

/// A freshly created launch: its metadata, its curve, and the event.
#[derive(Debug, Clone)]
pub struct NewLaunch {
    pub metadata: LaunchMetadata,
    pub curve: BondingCurveState,
    pub event: LaunchCreated,
}

/// Creates a launch with the price curve `base_price + slope * supply` and
/// the given token texts. The launch takes the platform's launch count as its
/// id, which then moves up by one; its supply starts at zero and its first
/// windows are drawn from the slot and the id. Where the platform charges a
/// fee, `fee_recipient` must be the platform's recipient, and the caller pays
/// the fee to it. On failure nothing changes.
pub fn create_launch(
    global: &mut GlobalState,
    creator: Address,
    fee_recipient: Address,
    launch_key: Address,
    token_mint: Address,
    vault: Address,
    launch_bump: u8,
    slot: u64,
    base_price: u64,
    slope: u64,
    token_name: String,
    token_symbol: String,
    token_uri: String,
) -> (r: Result<NewLaunch, LaunchError>)
    ensures
        r is Ok <==> create_launch_outcome(
            *old(global),
            fee_recipient,
            base_price,
            slope,
            token_name,
            token_symbol,
            token_uri,
        ) is Ok,
        r is Err ==> r->Err_0 == create_launch_outcome(
            *old(global),
            fee_recipient,
            base_price,
            slope,
            token_name,
            token_symbol,
            token_uri,
        )->Err_0 && *final(global) == *old(global),
        r is Ok ==> {
            let id = old(global).launch_count;
            let seed = seed_of(slot, id);
            &&& *final(global) == (GlobalState { launch_count: (id + 1) as u64, ..*old(global) })
            &&& r->Ok_0.metadata == (LaunchMetadata {
                token_mint,
                vault,
                launch_id: id,
                current_day: 0,
                window1_start: window1_of(seed),
                window2_start: window2_of(seed),
                bump: launch_bump,
                token_name,
                token_symbol,
                token_uri,
            })
            &&& r->Ok_0.curve == (BondingCurveState {
                launch_metadata: launch_key,
                base_price,
                slope,
                current_supply: 0,
                decimals: TOKEN_DECIMALS,
            })
            &&& r->Ok_0.event == (LaunchCreated {
                id,
                creator,
                mint: token_mint,
                vault,
                token_name,
                token_symbol,
                token_uri,
            })
            &&& r->Ok_0.metadata.wf()
            &&& r->Ok_0.curve.wf()
        },
{
    if TOKEN_DECIMALS > MAX_DECIMALS {
        return Err(LaunchError::InvalidDecimals);
    }
    if base_price < MIN_BASE_PRICE_LAMPORTS || slope == 0 {
        return Err(LaunchError::InvalidParams);
    }
    if !text_fits_exec(&token_name, MAX_NAME_LEN) || !text_fits_exec(&token_symbol, MAX_SYMBOL_LEN)
        || !text_fits_exec(&token_uri, MAX_URI_LEN) {
        return Err(LaunchError::InvalidParams);
    }
    let slope_part = match slope.checked_mul(INITIAL_SUPPLY_TOKENS) {
        Some(v) => v,
        None => return Err(LaunchError::MathOverflow),
    };
    let max_price = match base_price.checked_add(slope_part) {
        Some(v) => v,
        None => return Err(LaunchError::MathOverflow),
    };
    if max_price > MAX_FINAL_PRICE_LAMPORTS {
        return Err(LaunchError::InvalidParams);
    }
    if global.launch_fee_lamports > 0 && fee_recipient != global.platform_fee_recipient {
        return Err(LaunchError::InvalidFeeRecipient);
    }
    let id = global.launch_count;
    let next_count = match id.checked_add(1) {
        Some(v) => v,
        None => return Err(LaunchError::MathOverflow),
    };
    let (w1, w2) = match generate(slot.wrapping_add(id)) {
        Ok(w) => w,
        Err(e) => return Err(e),
    };
    global.launch_count = next_count;
    let event = LaunchCreated {
        id,
        creator,
        mint: token_mint,
        vault,
        token_name: token_name.clone(),
        token_symbol: token_symbol.clone(),
        token_uri: token_uri.clone(),
    };
    let metadata = LaunchMetadata {
        token_mint,
        vault,
        launch_id: id,
        current_day: 0,
        window1_start: w1,
        window2_start: w2,
        bump: launch_bump,
        token_name,
        token_symbol,
        token_uri,
    };
    let curve = BondingCurveState {
        launch_metadata: launch_key,
        base_price,
        slope,
        current_supply: 0,
        decimals: TOKEN_DECIMALS,
    };
    Ok(NewLaunch { metadata, curve, event })
}

} // verus!
