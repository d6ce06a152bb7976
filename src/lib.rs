//! Settlement core of a peer-to-peer marketplace: derived addresses of every
//! record, trade state records for open asks and bids, buyer escrows, fee
//! payer resolution, and sale execution, each stated and proved against the
//! ledger state a call reads and writes.

pub mod address;
pub mod bid;
pub mod cancel;
pub mod derivation;
pub mod errors;
pub mod escrow;
pub mod fees;
pub mod house;
pub mod sale;
pub mod sell;
pub mod state;
pub mod trade_state;
