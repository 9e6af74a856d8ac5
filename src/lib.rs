//! A client library for the Hyperliquid exchange: authenticated actions
//! (canonical encoding, hashing, structured-data signing) and the
//! bookkeeping of a multiplexed, self-healing market-data stream.
pub mod actions;
pub mod address;
pub mod crypto;
pub mod eip712;
pub mod error;
pub mod exchange_client;
pub mod info;
pub mod message;
pub mod msgpack;
pub mod nonce;
pub mod registry;
pub mod signature;
pub mod topic;
pub mod user_actions;
pub mod ws_manager;
