//! Pricing and access-control core of a token launch venue: a linear
//! bonding curve, a daily trading-window scheduler and a per-account
//! rate-limit ledger, tied together by the launch state machine.
pub mod address;
pub mod admin;
pub mod constants;
pub mod curve;
pub mod errors;
pub mod events;
pub mod launch;
pub mod ledger;
pub mod math;
pub mod state;
pub mod window;
