//! Pricing, fee policy and broadcast planning for trades against
//! constant-product pools.

pub mod amm;
pub mod batch;
pub mod builder;
pub mod client;
pub mod dex;
pub mod endpoint;
pub mod errors;
pub mod fanout;
pub mod fee;
pub mod lamports;
pub mod quote;
pub mod random;
pub mod sdk;
pub mod sharding;
pub mod swqos;
pub mod token;
pub mod transaction;
pub mod types;
