//! Verified core of a cross-chain token and message relay: the wire codec,
//! the trusted-counterpart registries, the singleton configurations, the
//! outbound flows and the redemption state machine.
//!
//! Two programs share the core: [`bridge`] moves tokens with a payload and
//! pays an optional relayer; [`messenger`] carries opaque messages between
//! registered emitters.
pub mod address;
pub mod amounts;
pub mod bridge;
pub mod claims;
pub mod codec;
pub mod error;
pub mod messenger;
pub mod state;
pub mod token_account;
