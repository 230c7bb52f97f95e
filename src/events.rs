use vstd::prelude::*;

use crate::address::Address;

verus! {

/// Reported after the platform has been set up.
#[derive(Debug, Clone, Copy)]
pub struct Initialization {
    pub admin: Address,
    pub platform_fee_recipient: Address,
    pub launch_fee_lamports: u64,
}

/// Reported after a launch has been created.
#[derive(Debug, Clone)]
pub struct LaunchCreated {
    pub id: u64,
    pub creator: Address,
    pub mint: Address,
    pub vault: Address,
    pub token_name: String,
    pub token_symbol: String,
    pub token_uri: String,
}

/// Reported after a purchase.
#[derive(Debug, Clone, Copy)]
pub struct PurchaseEvent {
    pub buyer: Address,
    pub qty: u64,
    pub cost: u64,
}

/// Reported after a sale.
#[derive(Debug, Clone, Copy)]
pub struct SellEvent {
    pub seller: Address,
    pub qty: u64,
    pub payout: u64,
}

/// Reported after a transfer between holders.
#[derive(Debug, Clone, Copy)]
pub struct TransferEvent {
    pub from: Address,
    pub to: Address,
    pub qty: u64,
}

/// Reported after the administrator started a new trading cycle.
#[derive(Debug, Clone, Copy)]
pub struct GlobalUpdated {
    pub launch_id: u64,
    pub day: u64,
    pub w1: u64,
    pub w2: u64,
}

} // verus!
