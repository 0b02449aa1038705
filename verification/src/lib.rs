//! A minimal account manager for an Ethereum-compatible chain: keypair
//! lifecycle, deterministic address derivation, a contract registry, and
//! transaction construction with a bounded confirmation state machine.

pub mod addr;
pub mod confirm;
pub mod errors;
pub mod hexstr;
pub mod keys;
pub mod registry;
pub mod tx;

pub use errors::WalletError;
pub use keys::{KeyStorage, Wallet};
pub use registry::{AbiEntry, ContractsManager, SmartContract};
