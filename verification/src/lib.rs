//! A verified core for a command-line client that assembles, signs, and
//! submits a single smart-contract execute transaction on a Cosmos-style
//! chain. This library owns the transaction assembly and fee-resolution
//! pipeline: coin parsing, gas/fee resolution, signer-request preparation,
//! execute-message construction, and result reporting. Cryptographic key
//! derivation, transaction encoding, and network transport are collaborators
//! that the surrounding binary drives; this library makes every decision and
//! states each one in a contract.

pub mod coin;
pub mod errors;
pub mod explorer;
pub mod gas;
pub mod identity;
pub mod message;
pub mod pipeline;
pub mod text;

pub use coin::Coin;
pub use errors::ExecError;
pub use gas::GasOptions;
pub use message::ExecuteRequest;
pub use pipeline::{CliConfig, Command, ExecCmd};
