//! Escrow marketplace core for a non-fungible token: deterministic address
//! derivation, off-chain signature verification, byte-exact instruction
//! building for the mint / list / buy flows, the listing account layout, and
//! the escrow state machine that the on-ledger program enforces.

pub mod addr;
pub mod api_types;
pub mod builders;
pub mod codec;
pub mod errors;
pub mod escrow;
pub mod flows;
pub mod instruction;
pub mod listing;
pub mod pda;
pub mod programs;
pub mod provider;
pub mod requests;
pub mod sigverify;

pub use addr::Address;
pub use errors::MarketError;
