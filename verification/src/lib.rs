pub mod chain;
pub mod channel;
pub mod config;
pub mod decode;
pub mod event;
pub mod hashing;
pub mod packing;
pub mod state;
pub mod properties;
pub mod state_change;
pub mod storage;
pub mod views;
pub mod types;
